//! File jobs: a connection, the request read from it and the size of the requested
//! file. Smaller files have higher priority. For each job this module decides where
//! the response body comes from and composes the status line and the log entry.
use vstd::prelude::*;

use std::cmp::Ordering;

use concurrent_hashmap::ConcHashMap;

use crate::decimal::{decimal, push_decimal};
use crate::priority_queue::{is_top, Prioritized};
use super::cache::{cache_find, Cache};
use super::clock::{timestamp_shape, utc_timestamp};
use super::error::{FileJobError, FileJobErrorKind};
use super::request::{request_text, Request};

verus! {

/// The size recorded for a file that could not be found.
pub const ERROR_FILESIZE: u64 = 0;

/// The size of the buffer in which large files are streamed.
pub const BUFFER_SIZE: usize = 4096;

/// Files smaller than this are read whole and cached.
pub const CACHE_THRESHOLD: u64 = 50000;

/// A response status: its name, such as `OK`, and its code, such as 200.
pub struct StatusCode {
    pub name: String,
    pub response_code: u16,
}

/// The response statuses the server sends.
#[derive(Debug, Clone, Copy, PartialEq, Eq, Structural)]
pub enum Status {
    Okay,
    BadRequest,
    NotFound,
}

/// The name of a status.
pub open spec fn status_name(status: Status) -> Seq<char> {
    match status {
        Status::Okay => "OK"@,
        Status::BadRequest => "BAD REQUEST"@,
        Status::NotFound => "NOT FOUND"@,
    }
}

/// The code of a status.
pub open spec fn status_code(status: Status) -> u16 {
    match status {
        Status::Okay => 200,
        Status::BadRequest => 400,
        Status::NotFound => 404,
    }
}

/// The response header of a status: its code, a space, its name.
pub open spec fn response_header(status: Status) -> Seq<char> {
    decimal(status_code(status) as nat) + seq![' '] + status_name(status)
}

/// The first line of a response, followed by the blank line that ends the header.
pub open spec fn status_line(protocol: Seq<char>, status: Status) -> Seq<char> {
    protocol + seq![' '] + response_header(status) + seq!['\n', '\n']
}

/// A log entry: timestamp, request and response header, separated by tabs.
pub open spec fn log_entry(timestamp: Seq<char>, request: Seq<char>, header: Seq<char>) -> Seq<
    char,
> {
    timestamp + seq!['\t'] + request + seq!['\t'] + header + seq!['\n']
}

/// The log entry for a request that could not be read.
pub open spec fn bad_request_entry(timestamp: Seq<char>) -> Seq<char> {
    log_entry(timestamp, "EMPTY REQUEST"@, response_header(Status::BadRequest))
}

impl Status {
    /// The name and code of a status.
    pub fn get_info(status: Status) -> (r: StatusCode)
        ensures
            r.name@ == status_name(status),
            r.response_code == status_code(status),
    {
        match status {
            Status::Okay => StatusCode { name: "OK".to_owned(), response_code: 200 },
            Status::BadRequest => StatusCode { name: "BAD REQUEST".to_owned(), response_code: 400 },
            Status::NotFound => StatusCode { name: "NOT FOUND".to_owned(), response_code: 404 },
        }
    }

    /// The response header of a status, such as `200 OK`.
    pub fn header(status: Status) -> (r: String)
        ensures
            r@ == response_header(status),
    {
        let info = Status::get_info(status);
        let mut r = String::new();
        push_decimal(&mut r, info.response_code as u64);
        r.push(' ');
        r.append(info.name.as_str());
        r
    }
}

/// The first line of a response in the given protocol with the given status,
/// followed by the blank line that ends the header.
pub fn status_line_for(protocol: &str, status: Status) -> (r: String)
    ensures
        r@ == status_line(protocol@, status),
{
    let mut r = protocol.to_owned();
    r.push(' ');
    let header = Status::header(status);
    r.append(header.as_str());
    r.push('\n');
    r.push('\n');
    r
}

/// A log entry from its timestamp, request and response header.
pub fn log_entry_for(timestamp: &str, request: &str, header: &str) -> (r: String)
    ensures
        r@ == log_entry(timestamp@, request@, header@),
{
    let mut r = timestamp.to_owned();
    r.push('\t');
    r.append(request);
    r.push('\t');
    r.append(header);
    r.push('\n');
    r
}

/// The response sent for a request that could not be read.
pub fn bad_request_response() -> (r: String)
    ensures
        r@ == status_line("HTTP/1.1"@, Status::BadRequest),
{
    status_line_for("HTTP/1.1", Status::BadRequest)
}

/// The log entry for a request that could not be read, stamped at `timestamp`.
pub fn bad_request_log_at(timestamp: &str) -> (r: String)
    ensures
        r@ == bad_request_entry(timestamp@),
{
    let header = Status::header(Status::BadRequest);
    log_entry_for(timestamp, "EMPTY REQUEST", header.as_str())
}

/// The log entry for a request that could not be read, stamped with the current
/// time.
pub fn bad_request_log() -> (r: String)
    ensures
        exists|timestamp: Seq<char>| timestamp_shape(timestamp) && r@ == bad_request_entry(timestamp),
{
    let timestamp = utc_timestamp();
    bad_request_log_at(timestamp.as_str())
}

/// The error reported when no request could be read from a connection.
pub fn empty_job_error() -> (e: FileJobError)
    ensures
        e.kind_of() == FileJobErrorKind::EmptyFileJob,
        e.message_of() == "Empty FileJob"@,
{
    FileJobError::new("Empty FileJob".to_owned(), FileJobErrorKind::EmptyFileJob)
}

/// Where the body of a response comes from.
#[derive(Debug, Clone, Copy, PartialEq, Eq, Structural)]
pub enum Source {
    /// The contents found in the cache.
    Cache,
    /// The whole file, read at once and then cached.
    WholeFile,
    /// The file, read and sent in chunks of `BUFFER_SIZE` bytes.
    Chunks,
    /// The error page.
    ErrorPage,
}

/// The source and status of the response to a job for a file of the given size,
/// given whether the cache held the file and whether the file could be opened.
pub open spec fn plan(filesize: u64, cached: bool, opened: bool) -> (Source, Status) {
    if cached {
        (Source::Cache, Status::Okay)
    } else if !opened {
        (Source::ErrorPage, Status::NotFound)
    } else if filesize < CACHE_THRESHOLD {
        (Source::WholeFile, Status::Okay)
    } else {
        (Source::Chunks, Status::Okay)
    }
}

/// A job for a worker thread: the connection to answer, the size of the requested
/// file in bytes, which sets the job's priority, and the request read from the
/// connection.
#[derive(Debug)]
pub struct FileJob<S> {
    pub stream: S,
    pub filesize: u64,
    pub request_obj: Request,
}

impl<S> FileJob<S> {
    /// A job for the request read from `stream`; `file_len` is the size of the
    /// requested file, or `None` when it could not be found, which is recorded as
    /// `ERROR_FILESIZE`.
    pub fn assemble(stream: S, request: Request, file_len: Option<u64>) -> (r: FileJob<S>)
        ensures
            r.stream == stream,
            r.request_obj@ == request@,
            r.filesize == match file_len {
                Some(n) => n,
                None => ERROR_FILESIZE,
            },
    {
        let filesize = match file_len {
            Some(n) => n,
            None => ERROR_FILESIZE,
        };
        FileJob { stream: stream, filesize: filesize, request_obj: request }
    }

    /// The cached contents of the requested file, if the cache holds them.
    pub fn cached_contents(&self, cache: &ConcHashMap<String, Cache>) -> (r: Option<Vec<u8>>) {
        cache_find(cache, self.request_obj.get_filename())
    }

    /// Where the response body comes from and with which status, given whether the
    /// cache held the file and whether the file could be opened.
    pub fn plan_response(&self, cached: bool, opened: bool) -> (r: (Source, Status))
        ensures
            r == plan(self.filesize, cached, opened),
            cached ==> r == (Source::Cache, Status::Okay),
            !cached && !opened ==> r == (Source::ErrorPage, Status::NotFound),
            !cached && opened && self.filesize < CACHE_THRESHOLD ==> r == (Source::WholeFile, Status::Okay),
            !cached && opened && self.filesize >= CACHE_THRESHOLD ==> r == (Source::Chunks, Status::Okay),
            (r.0 == Source::ErrorPage) <==> (!cached && !opened),
    {
        if cached {
            (Source::Cache, Status::Okay)
        } else if !opened {
            (Source::ErrorPage, Status::NotFound)
        } else if self.filesize < CACHE_THRESHOLD {
            (Source::WholeFile, Status::Okay)
        } else {
            (Source::Chunks, Status::Okay)
        }
    }

    /// The first line of the response to this job, in the request's protocol.
    pub fn response_start(&self, status: Status) -> (r: String)
        ensures
            r@ == status_line(self.request_obj@.protocol, status),
    {
        status_line_for(self.request_obj.get_protocol().as_str(), status)
    }

    /// The log entry for this job answered with `status`, stamped at `timestamp`.
    pub fn log_entry_at(&self, timestamp: &str, status: Status) -> (r: String)
        ensures
            r@ == log_entry(timestamp@, request_text(self.request_obj@), response_header(status)),
    {
        let request_str = self.request_obj.to_string();
        let header = Status::header(status);
        log_entry_for(timestamp, request_str.as_str(), header.as_str())
    }

    /// The start of this job's log entry, stamped with the current time: the
    /// timestamp and the request, each followed by a tab. Taken when serving
    /// begins; `complete_log` adds the response header once it is known.
    pub fn log_prefix(&self) -> (r: String)
        ensures
            exists|timestamp: Seq<char>|
                timestamp_shape(timestamp) && r@ == timestamp + seq!['\t'] + request_text(
                    self.request_obj@,
                ) + seq!['\t'],
    {
        let mut r = utc_timestamp();
        let ghost timestamp = r@;
        r.push('\t');
        let request_str = self.request_obj.to_string();
        r.append(request_str.as_str());
        r.push('\t');
        assert(r@ == timestamp + seq!['\t'] + request_text(self.request_obj@) + seq!['\t']);
        r
    }

    /// The caching request for the requested file with the given contents.
    pub fn cache_request(&self, contents: Vec<u8>) -> (r: (String, Cache))
        ensures
            r.0@ == self.request_obj@.filename,
            r.1.data@ == contents@,
    {
        (self.request_obj.get_filename().clone(), Cache { data: contents })
    }

    /// The requested path and the file size, separated by a tab.
    pub fn describe(&self) -> (r: String)
        ensures
            r@ == self.request_obj@.filename + seq!['\t'] + decimal(self.filesize as nat),
    {
        let mut r = self.request_obj.get_filename().clone();
        r.push('\t');
        push_decimal(&mut r, self.filesize);
        r
    }
}

/// A log entry from its start, as `FileJob::log_prefix` makes it, and the status
/// the job was answered with.
pub fn complete_log(prefix: String, status: Status) -> (r: String)
    ensures
        r@ == prefix@ + response_header(status) + seq!['\n'],
{
    let mut r = prefix;
    let header = Status::header(status);
    r.append(header.as_str());
    r.push('\n');
    r
}

/// Law: a log entry started with `log_prefix` and completed with `complete_log` is
/// the entry for its timestamp, request and status.
pub proof fn law_log_in_two_steps(timestamp: Seq<char>, request: Seq<char>, status: Status)
    ensures
        (timestamp + seq!['\t'] + request + seq!['\t']) + response_header(status) + seq!['\n']
            == log_entry(timestamp, request, response_header(status)),
{
}

/// The bytes to send after one read of a streamed file that reported `bytes_read`
/// bytes into `read_buf` (`None` for a failed read): exactly the bytes read.
pub fn chunk_to_send(read_buf: &[u8], bytes_read: Option<usize>) -> (r: Vec<u8>)
    requires
        bytes_read matches Some(n) ==> n <= read_buf@.len(),
    ensures
        r@ == match bytes_read {
            Some(n) => read_buf@.subrange(0, n as int),
            None => Seq::<u8>::empty(),
        },
{
    let mut r: Vec<u8> = Vec::new();
    if let Some(n) = bytes_read {
        let mut i: usize = 0;
        while i < n
            invariant
                n <= read_buf@.len(),
                i <= n,
                r@ == read_buf@.subrange(0, i as int),
            decreases n - i,
        {
            r.push(read_buf[i]);
            i += 1;
        }
    }
    r
}

/// Whether to read another chunk of a streamed file after a read that reported
/// `bytes_read` bytes (`None` for a failed read): only after a read that filled
/// the whole buffer.
pub fn keep_streaming(bytes_read: Option<usize>) -> (b: bool)
    ensures
        b == (bytes_read matches Some(n) && n >= BUFFER_SIZE),
{
    match bytes_read {
        Some(n) => n >= BUFFER_SIZE,
        None => false,
    }
}

impl<S> Prioritized for FileJob<S> {
    /// Smaller files have higher priority.
    open spec fn priority(&self) -> u64 {
        (u64::MAX - self.filesize) as u64
    }

    fn priority_key(&self) -> (k: u64) {
        u64::MAX - self.filesize
    }
}

/// How two jobs compare for scheduling: the job for the smaller file is the
/// greater.
pub open spec fn job_order(a: u64, b: u64) -> Ordering {
    if a < b {
        Ordering::Greater
    } else if a > b {
        Ordering::Less
    } else {
        Ordering::Equal
    }
}

impl<S> FileJob<S> {
    /// Compares two jobs by file size: the smaller file is the greater job.
    pub fn cmp(&self, other: &Self) -> (o: Ordering)
        ensures
            o == job_order(self.filesize, other.filesize),
    {
        if self.filesize < other.filesize {
            Ordering::Greater
        } else if self.filesize > other.filesize {
            Ordering::Less
        } else {
            Ordering::Equal
        }
    }

    /// `cmp`, which orders every pair of jobs.
    pub fn partial_cmp(&self, other: &Self) -> (o: Option<Ordering>)
        ensures
            o == Some(job_order(self.filesize, other.filesize)),
    {
        Some(self.cmp(other))
    }

    /// Two jobs are equal for scheduling when their files have the same size.
    pub fn eq(&self, other: &Self) -> (b: bool)
        ensures
            b == (self.filesize == other.filesize),
    {
        self.filesize == other.filesize
    }
}

/// Law: the job that the scheduling queue hands out next is one for the smallest
/// file queued.
pub proof fn law_smallest_file_first<S>(queued: Seq<FileJob<S>>, next: FileJob<S>)
    requires
        is_top(queued, next),
    ensures
        forall|i: int| 0 <= i < queued.len() ==> next.filesize <= (#[trigger] queued[i]).filesize,
{
    assert forall|i: int| 0 <= i < queued.len() implies next.filesize <= (
    #[trigger] queued[i]).filesize by {
        assert(queued[i].priority() <= next.priority());
    }
}

/// Law: a job for a file that is cached is served from the cache with status 200;
/// otherwise a file that cannot be opened is answered with 404 and the error page,
/// and one that can is served whole, and cached, when smaller than the cache
/// threshold, in chunks otherwise.
pub proof fn law_serving_plan(filesize: u64, cached: bool, opened: bool)
    ensures
        cached ==> plan(filesize, cached, opened) == (Source::Cache, Status::Okay),
        !cached && !opened ==> plan(filesize, cached, opened) == (Source::ErrorPage, Status::NotFound),
        !cached && opened ==> plan(filesize, cached, opened).1 == Status::Okay,
        !cached && opened ==> (plan(filesize, cached, opened).0 == Source::WholeFile <==> filesize
            < CACHE_THRESHOLD),
        !cached && opened && filesize >= CACHE_THRESHOLD ==> plan(filesize, cached, opened).0
            == Source::Chunks,
        (plan(filesize, cached, opened).0 == Source::ErrorPage) <==> (!cached && !opened),
{
}

} // verus!
