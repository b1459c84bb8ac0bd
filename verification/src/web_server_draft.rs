//! Request and file-job errors with a free-form message, and a request parser that
//! reports every refused request as empty.
use vstd::prelude::*;

use crate::web_server::request::{first_line_words, parsed_request, Request};

verus! {

/// Why a request was refused.
#[derive(Debug)]
pub struct RequestError {
    kind: RequestErrorKind,
    pub message: String,
}

/// The kinds of request errors.
#[derive(Debug, PartialEq, Eq, Structural)]
pub enum RequestErrorKind {
    EmptyRequest,
}

impl RequestError {
    /// The kind this error was made with.
    pub closed spec fn kind_of(&self) -> RequestErrorKind {
        self.kind
    }

    /// The message this error carries.
    pub closed spec fn message_of(&self) -> Seq<char> {
        self.message@
    }

    /// An error of the given kind carrying the given message.
    pub fn new(msg: String, kind: RequestErrorKind) -> (r: RequestError)
        ensures
            r.kind_of() == kind,
            r.message_of() == msg@,
    {
        RequestError { kind: kind, message: msg }
    }
}

/// Why no file job could be made from a connection.
#[derive(Debug)]
pub struct FileJobError {
    kind: FileJobErrorKind,
    pub message: String,
}

/// The kinds of file job errors.
#[derive(Debug, PartialEq, Eq, Structural)]
pub enum FileJobErrorKind {
    EmptyFileJob,
}

impl FileJobError {
    /// The kind this error was made with.
    pub closed spec fn kind_of(&self) -> FileJobErrorKind {
        self.kind
    }

    /// The message this error carries.
    pub closed spec fn message_of(&self) -> Seq<char> {
        self.message@
    }

    /// An error of the given kind carrying the given message.
    pub fn new(msg: String, kind: FileJobErrorKind) -> (r: FileJobError)
        ensures
            r.kind_of() == kind,
            r.message_of() == msg@,
    {
        FileJobError { kind: kind, message: msg }
    }
}

/// Parses the text of a request: the method, path and protocol are the first three
/// words of the first line, the path placed after `current_dir`; each further line
/// with a non-blank name is a header. A first line with fewer than two words makes
/// an `EmptyRequest` error. A first line with a method and a path but no protocol
/// is outside the `requires`: this parser has no answer for it.
pub fn parse_request(request: &str, current_dir: &str) -> (r: Result<Request, RequestError>)
    requires
        first_line_words(request@).len() != 2,
    ensures
        r matches Ok(q) ==> parsed_request(request@, current_dir@) == Some(q@),
        r matches Err(e) ==> first_line_words(request@).len() <= 1 && e.kind_of()
            == RequestErrorKind::EmptyRequest && e.message_of() == "Request is empty"@,
        r is Ok <==> first_line_words(request@).len() >= 3,
{
    match Request::parse_request(request, current_dir) {
        Ok(q) => Ok(q),
        Err(_) => Err(RequestError::new("Request is empty".to_owned(), RequestErrorKind::EmptyRequest)),
    }
}

} // verus!
