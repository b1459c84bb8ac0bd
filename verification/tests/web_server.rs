use rust_engine::priority_queue::PriorityQueue;
use rust_engine::web_server::cache::{store, Cache};
use rust_engine::web_server::error::{FileJobError, FileJobErrorKind, RequestError, RequestErrorKind};
use rust_engine::web_server::headers::Headers;
use rust_engine::web_server::job::{
    bad_request_log_at, bad_request_response, chunk_to_send, empty_job_error, keep_streaming, log_entry_for,
    status_line_for, FileJob, Source, Status, BUFFER_SIZE, CACHE_THRESHOLD, ERROR_FILESIZE,
};
use rust_engine::web_server::pool::thread_name;
use rust_engine::web_server::request::{absorb_read, ReadStep, Request};
use concurrent_hashmap::ConcHashMap;
use std::cmp::Ordering;

fn parse(text: &str) -> Request {
    Request::parse_request(text, "/srv").unwrap()
}

#[test]
fn parse_request_line_and_headers() {
    let req = parse("GET /index.html HTTP/1.1\r\nHost: localhost:8080\r\nAccept: */*\r\n\r\n");
    assert_eq!(req.get_method(), "GET");
    assert_eq!(req.get_filename(), "/srv/index.html");
    assert_eq!(req.get_protocol(), "HTTP/1.1");
    let headers = req.get_headers();
    assert_eq!(headers.len(), 2);
    assert_eq!(headers.get(&"Host".to_string()).unwrap(), "localhost:8080");
    assert_eq!(headers.get(&"Accept".to_string()).unwrap(), "*/*");
    assert!(headers.get(&"Missing".to_string()).is_none());
}

#[test]
fn parse_request_later_header_wins() {
    let req = parse("GET / HTTP/1.0\nX-Tag: one\nX-Tag:  two \n");
    assert_eq!(req.get_headers().get(&"X-Tag".to_string()).unwrap(), "two");
    assert_eq!(req.get_headers().len(), 1);
}

#[test]
fn parse_request_header_value_pieces_trimmed() {
    let req = parse("GET / HTTP/1.0\nWhen: 12 : 30 :45\nBare\n");
    assert_eq!(req.get_headers().get(&"When".to_string()).unwrap(), "12:30:45");
    // a line without a colon is a header with an empty value
    assert_eq!(req.get_headers().get(&"Bare".to_string()).unwrap(), "");
}

#[test]
fn parse_request_key_not_trimmed() {
    let req = parse("GET / HTTP/1.0\n  Host : a\n");
    assert_eq!(req.get_headers().get(&"  Host ".to_string()).unwrap(), "a");
}

#[test]
fn parse_request_missing_path_is_empty_request() {
    let err = Request::parse_request("GET\nHost: x\n", "/srv").unwrap_err();
    assert_eq!(err.message, "Request is empty");
    assert!(format!("{:?}", err).contains("EmptyRequest"));
}

#[test]
fn parse_request_missing_protocol_is_empty_request() {
    let err = Request::parse_request("GET /a", "/srv").unwrap_err();
    assert_eq!(err.message, "Request is empty");
}

#[test]
fn parse_request_extra_words_ignored() {
    let req = parse("POST  /up\tHTTP/2 trailing words\n");
    assert_eq!(req.get_method(), "POST");
    assert_eq!(req.get_filename(), "/srv/up");
    assert_eq!(req.get_protocol(), "HTTP/2");
    assert_eq!(req.get_headers().len(), 0);
}

#[test]
fn parse_request_without_words_is_empty_request() {
    let err = Request::parse_request("", "/srv").unwrap_err();
    assert_eq!(err.message, "Request is empty");
    let err = Request::parse_request("   \nGET / HTTP/1.1", "/srv").unwrap_err();
    assert_eq!(err.message, "Request is empty");
}

#[test]
fn parse_bytes_decodes_then_parses() {
    let q = Request::parse_bytes("GET /é HTTP/1.1\nK: v\n".as_bytes(), "/srv").unwrap();
    assert_eq!(q.get_filename(), "/srv/é");
    let err = Request::parse_bytes(&[b'G', 0xff, b' '], "/srv").unwrap_err();
    assert_eq!(err.message, "Request is empty");
}

#[test]
fn request_to_string_joins_with_spaces() {
    let req = parse("GET /a.txt HTTP/1.1\n");
    assert_eq!(req.to_string(), "GET /srv/a.txt HTTP/1.1");
}

#[test]
fn absorb_read_steps() {
    let mut request: Vec<u8> = Vec::new();
    let full = [b'a'; 20];
    assert_eq!(absorb_read(&mut request, &full, Some(20)), ReadStep::Continue);
    assert_eq!(request.len(), 20);
    let mut part = [b'x'; 20];
    part[0] = b'b';
    assert_eq!(absorb_read(&mut request, &part, Some(1)), ReadStep::Finished);
    // only the bytes the read reported are taken in
    assert_eq!(request.len(), 21);
    assert_eq!(&request[19..], b"ab");
    // end of stream ends the request, whatever the buffer holds
    let bad = [0xffu8; 20];
    assert_eq!(absorb_read(&mut request, &bad, Some(0)), ReadStep::Finished);
    assert_eq!(request.len(), 21);
    assert_eq!(absorb_read(&mut request, &full, None), ReadStep::Finished);
    assert_eq!(request.len(), 21);
}

#[test]
fn chunked_streaming_sends_bytes_read() {
    let buf = [7u8; BUFFER_SIZE];
    assert_eq!(chunk_to_send(&buf, Some(3)), vec![7, 7, 7]);
    assert_eq!(chunk_to_send(&buf, Some(BUFFER_SIZE)).len(), BUFFER_SIZE);
    assert!(chunk_to_send(&buf, None).is_empty());
}

#[test]
fn headers_insert_replaces() {
    let mut h = Headers::new();
    h.insert("a".to_string(), "1".to_string());
    h.insert("b".to_string(), "2".to_string());
    h.insert("a".to_string(), "3".to_string());
    assert_eq!(h.len(), 2);
    assert_eq!(h.get(&"a".to_string()).unwrap(), "3");
    assert_eq!(h.get(&"b".to_string()).unwrap(), "2");
}

#[test]
fn status_info_and_lines() {
    let ok = Status::get_info(Status::Okay);
    assert_eq!((ok.name.as_str(), ok.response_code), ("OK", 200));
    let bad = Status::get_info(Status::BadRequest);
    assert_eq!((bad.name.as_str(), bad.response_code), ("BAD REQUEST", 400));
    let nf = Status::get_info(Status::NotFound);
    assert_eq!((nf.name.as_str(), nf.response_code), ("NOT FOUND", 404));
    assert_eq!(Status::header(Status::NotFound), "404 NOT FOUND");
    assert_eq!(status_line_for("HTTP/1.1", Status::Okay), "HTTP/1.1 200 OK\n\n");
    assert_eq!(bad_request_response(), "HTTP/1.1 400 BAD REQUEST\n\n");
}

#[test]
fn log_entries() {
    assert_eq!(log_entry_for("t", "GET / HTTP/1.1", "200 OK"), "t\tGET / HTTP/1.1\t200 OK\n");
    assert_eq!(
        bad_request_log_at("2016-05-01 10:00:00"),
        "2016-05-01 10:00:00\tEMPTY REQUEST\t400 BAD REQUEST\n"
    );
    let live = rust_engine::web_server::job::bad_request_log();
    assert!(live.ends_with("\tEMPTY REQUEST\t400 BAD REQUEST\n"));
    let stamp = &live[..19];
    assert!(stamp.chars().enumerate().all(|(i, c)| match i {
        4 | 7 => c == '-',
        10 => c == ' ',
        13 | 16 => c == ':',
        _ => c.is_ascii_digit(),
    }));
    assert_eq!(live.len(), "2016-05-01 10:00:00".len() + "\tEMPTY REQUEST\t400 BAD REQUEST\n".len());
}

#[test]
fn errors_carry_message() {
    let e = RequestError::new("m".to_string(), RequestErrorKind::EmptyRequest);
    assert_eq!(e.message, "m");
    let f = FileJobError::new("n".to_string(), FileJobErrorKind::EmptyFileJob);
    assert_eq!(f.message, "n");
    let g = empty_job_error();
    assert_eq!(g.message, "Empty FileJob");
    assert!(format!("{:?}", g).contains("EmptyFileJob"));
    let d = rust_engine::web_server_draft::RequestError::new(
        "x".to_string(),
        rust_engine::web_server_draft::RequestErrorKind::EmptyRequest,
    );
    assert_eq!(d.message, "x");
    let d2 = rust_engine::web_server_draft::FileJobError::new(
        "y".to_string(),
        rust_engine::web_server_draft::FileJobErrorKind::EmptyFileJob,
    );
    assert_eq!(d2.message, "y");
}

fn job(size: Option<u64>, path: &str) -> FileJob<u32> {
    let req = parse(&format!("GET {} HTTP/1.1\n", path));
    FileJob::assemble(7u32, req, size)
}

#[test]
fn file_job_assemble() {
    let j = job(Some(1234), "/x.html");
    assert_eq!(j.filesize, 1234);
    assert_eq!(j.stream, 7);
    assert_eq!(j.request_obj.get_filename(), "/srv/x.html");
    let missing = job(None, "/gone");
    assert_eq!(missing.filesize, ERROR_FILESIZE);
    assert_eq!(j.describe(), "/srv/x.html\t1234");
}

#[test]
fn file_job_ordering_smaller_is_greater() {
    let small = job(Some(10), "/s");
    let large = job(Some(20), "/l");
    assert_eq!(small.cmp(&large), Ordering::Greater);
    assert_eq!(large.cmp(&small), Ordering::Less);
    assert_eq!(small.partial_cmp(&job(Some(10), "/t")), Some(Ordering::Equal));
    assert!(small.eq(&job(Some(10), "/other")));
    assert!(!small.eq(&large));
}

#[test]
fn job_queue_serves_smallest_first() {
    let mut q: PriorityQueue<FileJob<u32>> = PriorityQueue::new();
    for (size, path) in [(500, "/b"), (20, "/a"), (90000, "/c"), (20, "/d"), (0, "/e")] {
        q.push(job(Some(size), path));
    }
    assert_eq!(q.len(), 5);
    let order: Vec<(u64, String)> = std::iter::from_fn(|| q.pop())
        .map(|j| (j.filesize, j.request_obj.get_filename().clone()))
        .collect();
    assert_eq!(
        order,
        vec![
            (0, "/srv/e".to_string()),
            (20, "/srv/a".to_string()),
            (20, "/srv/d".to_string()),
            (500, "/srv/b".to_string()),
            (90000, "/srv/c".to_string()),
        ]
    );
    assert!(q.pop().is_none());
}

#[test]
fn serving_plan() {
    let small = job(Some(CACHE_THRESHOLD - 1), "/s");
    let large = job(Some(CACHE_THRESHOLD), "/l");
    assert_eq!(small.plan_response(true, false), (Source::Cache, Status::Okay));
    assert_eq!(small.plan_response(false, true), (Source::WholeFile, Status::Okay));
    assert_eq!(large.plan_response(false, true), (Source::Chunks, Status::Okay));
    assert_eq!(large.plan_response(false, false), (Source::ErrorPage, Status::NotFound));
    assert_eq!(small.response_start(Status::NotFound), "HTTP/1.1 404 NOT FOUND\n\n");
    assert_eq!(small.log_entry_at("T", Status::Okay), "T\tGET /srv/s HTTP/1.1\t200 OK\n");
    let start = small.log_prefix();
    assert!(start.ends_with("\tGET /srv/s HTTP/1.1\t"));
    let entry = rust_engine::web_server::job::complete_log(start.clone(), Status::NotFound);
    assert_eq!(entry, format!("{}404 NOT FOUND\n", start));
}

#[test]
fn streaming_continues_only_on_full_buffer() {
    assert!(keep_streaming(Some(BUFFER_SIZE)));
    assert!(!keep_streaming(Some(BUFFER_SIZE - 1)));
    assert!(!keep_streaming(Some(0)));
    assert!(!keep_streaming(None));
}

#[test]
fn cache_round_trip() {
    let cache: ConcHashMap<String, Cache> = Default::default();
    let j = job(Some(3), "/c.txt");
    assert!(j.cached_contents(&cache).is_none());
    let request = j.cache_request(vec![1, 2, 3]);
    assert_eq!(request.0, "/srv/c.txt");
    store(&cache, request);
    assert_eq!(j.cached_contents(&cache), Some(vec![1, 2, 3]));
}

#[test]
fn thread_names() {
    assert_eq!(thread_name("worker", 3), "worker_3");
    assert_eq!(thread_name("logger", 10), "logger_10");
}

#[test]
fn draft_parse_request() {
    let q = rust_engine::web_server_draft::parse_request("GET /a HTTP/1.0\nK: v\n", "/d").unwrap();
    assert_eq!(q.get_filename(), "/d/a");
    assert_eq!(q.get_headers().get(&"K".to_string()).unwrap(), "v");
    let e = rust_engine::web_server_draft::parse_request("GET", "/d").unwrap_err();
    assert_eq!(e.message, "Request is empty");
    let e = rust_engine::web_server_draft::parse_request("", "/d").unwrap_err();
    assert_eq!(e.message, "Request is empty");
}
