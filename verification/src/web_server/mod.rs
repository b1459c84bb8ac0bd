//! The web server: request parsing, the header map, response statuses, file jobs
//! and their scheduling, and the serving decisions made for each job.
pub mod cache;
pub mod clock;
pub mod error;
pub mod headers;
pub mod job;
pub mod pool;
pub mod request;
