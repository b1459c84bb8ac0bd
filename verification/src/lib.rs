//! A prioritized, caching web server and a set of small experiments, verified with
//! Verus: request parsing, the header map, the job queue that serves the smallest
//! file first, the serving and logging decisions, and the experiments' logic.
pub mod anagram;
pub mod big_int;
pub mod binary_heap;
pub mod cache_objects;
pub mod collatz;
pub mod decimal;
pub mod fizzbuzz;
pub mod guessing;
pub mod hw01;
pub mod lifetime;
pub mod pizza;
pub mod priority_queue;
pub mod random;
pub mod rgrep;
pub mod taylor;
pub mod text;
pub mod text_editor;
pub mod threadpool;
pub mod web_server;
pub mod web_server_draft;
