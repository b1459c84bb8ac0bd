//! Errors raised while reading a request or building a file job.
use vstd::prelude::*;

use super::job::FileJob;
use super::request::Request;

verus! {

/// Either a parsed request or the reason it was refused.
pub type RequestResult = Result<Request, RequestError>;

/// Why a request was refused.
#[derive(Debug)]
pub struct RequestError {
    kind: RequestErrorKind,
    pub message: String,
}

/// The kinds of request errors.
#[derive(Debug, PartialEq, Eq, Structural)]
pub enum RequestErrorKind {
    EmptyRequest,
}

impl RequestError {
    /// The kind this error was made with.
    pub closed spec fn kind_of(&self) -> RequestErrorKind {
        self.kind
    }

    /// The message this error carries.
    pub closed spec fn message_of(&self) -> Seq<char> {
        self.message@
    }

    /// An error of the given kind carrying the given message.
    pub fn new(msg: String, kind: RequestErrorKind) -> (r: RequestError)
        ensures
            r.kind_of() == kind,
            r.message_of() == msg@,
    {
        RequestError { kind: kind, message: msg }
    }
}

/// Either a file job or the reason none could be made.
pub type FileJobResult<S> = Result<FileJob<S>, FileJobError>;

/// Why no file job could be made from a connection.
#[derive(Debug)]
pub struct FileJobError {
    kind: FileJobErrorKind,
    pub message: String,
}

/// The kinds of file job errors.
#[derive(Debug, PartialEq, Eq, Structural)]
pub enum FileJobErrorKind {
    EmptyFileJob,
}

impl FileJobError {
    /// The kind this error was made with.
    pub closed spec fn kind_of(&self) -> FileJobErrorKind {
        self.kind
    }

    /// The message this error carries.
    pub closed spec fn message_of(&self) -> Seq<char> {
        self.message@
    }

    /// An error of the given kind carrying the given message.
    pub fn new(msg: String, kind: FileJobErrorKind) -> (r: FileJobError)
        ensures
            r.kind_of() == kind,
            r.message_of() == msg@,
    {
        FileJobError { kind: kind, message: msg }
    }
}

} // verus!
