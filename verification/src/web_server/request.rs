//! HTTP requests: the method, the path of the requested file, the protocol and
//! the headers, parsed from the text of the request.
use vstd::prelude::*;
use vstd::utf8::{decode_utf8, valid_utf8};

use crate::text::{
    chars_of, join, join_trimmed, lemma_split_nonempty, push_all, seqs_of, split_chars, split_on,
    string_of, trim, trim_all, trim_chars, words, words_of,
};
use super::error::{RequestError, RequestErrorKind, RequestResult};
use super::headers::Headers;

verus! {

/// How many bytes are read from a connection at a time.
pub const BUFFER_SIZE: usize = 20;

/// What to do after one read from a connection.
#[derive(Debug, Clone, Copy, PartialEq, Eq, Structural)]
pub enum ReadStep {
    /// Read again: the buffer was filled.
    Continue,
    /// The request is complete.
    Finished,
}

/// `std::str::from_utf8`: the text that `bytes` encode, or `None` when they are not
/// valid UTF-8.
#[verifier::external_body]
fn utf8_text(bytes: &[u8]) -> (r: Option<&str>)
    ensures
        r is Some <==> valid_utf8(bytes@),
        r matches Some(t) ==> t@ == decode_utf8(bytes@),
{
    std::str::from_utf8(bytes).ok()
}

/// Takes in one read from a connection. `bytes_read` is what the read reported,
/// `None` when it failed; the first `bytes_read` bytes of `read_buf` are what was
/// read, and they are added to the bytes of the request. A failed read ends the
/// request; so does a read that did not fill the buffer, end of stream included.
pub fn absorb_read(request: &mut Vec<u8>, read_buf: &[u8], bytes_read: Option<usize>) -> (step:
    ReadStep)
    requires
        bytes_read matches Some(n) ==> n <= read_buf@.len(),
    ensures
        bytes_read is None ==> step == ReadStep::Finished && final(request)@ == old(request)@,
        bytes_read matches Some(n) ==> {
            &&& final(request)@ == old(request)@ + read_buf@.subrange(0, n as int)
            &&& step == if n < BUFFER_SIZE {
                ReadStep::Finished
            } else {
                ReadStep::Continue
            }
        },
{
    match bytes_read {
        None => ReadStep::Finished,
        Some(n) => {
            let ghost start = request@;
            let mut i: usize = 0;
            while i < n
                invariant
                    n <= read_buf@.len(),
                    i <= n,
                    request@ == start + read_buf@.subrange(0, i as int),
                decreases n - i,
            {
                request.push(read_buf[i]);
                i += 1;
            }
            if n < BUFFER_SIZE {
                ReadStep::Finished
            } else {
                ReadStep::Continue
            }
        },
    }
}

/// The abstract content of a request.
pub struct RequestModel {
    pub method: Seq<char>,
    pub filename: Seq<char>,
    pub protocol: Seq<char>,
    pub headers: Map<Seq<char>, Seq<char>>,
}

/// The lines of a request.
pub open spec fn request_lines(req: Seq<char>) -> Seq<Seq<char>> {
    split_on(req, '\n')
}

/// The whitespace-separated words of the first line of a request.
pub open spec fn first_line_words(req: Seq<char>) -> Seq<Seq<char>> {
    words(request_lines(req)[0])
}

/// The header name of a header line: what precedes its first colon.
pub open spec fn header_name(line: Seq<char>) -> Seq<char> {
    split_on(line, ':')[0]
}

/// The header value of a header line: the colon-separated pieces after the name,
/// each trimmed, joined again by colons.
pub open spec fn header_value(line: Seq<char>) -> Seq<char> {
    join(trim_all(split_on(line, ':').drop_first()), ':')
}

/// A line whose header name is blank carries no header.
pub open spec fn is_blank_header(line: Seq<char>) -> bool {
    trim(header_name(line)).len() == 0
}

/// The headers that a sequence of header lines defines, a later line taking
/// precedence over an earlier one with the same name.
pub open spec fn headers_of(lines: Seq<Seq<char>>) -> Map<Seq<char>, Seq<char>>
    decreases lines.len(),
{
    if lines.len() == 0 {
        Map::empty()
    } else {
        let m = headers_of(lines.drop_last());
        if is_blank_header(lines.last()) {
            m
        } else {
            m.insert(header_name(lines.last()), header_value(lines.last()))
        }
    }
}

/// The request that the text `req` describes, with the requested path placed
/// after `cwd`; none when the first line has fewer than three words.
pub open spec fn parsed_request(req: Seq<char>, cwd: Seq<char>) -> Option<RequestModel> {
    let w = first_line_words(req);
    if w.len() < 3 {
        None
    } else {
        Some(
            RequestModel {
                method: w[0],
                filename: cwd + w[1],
                protocol: w[2],
                headers: headers_of(request_lines(req).drop_first()),
            },
        )
    }
}

/// The method, path and protocol of a request, separated by single spaces.
pub open spec fn request_text(m: RequestModel) -> Seq<char> {
    m.method + seq![' '] + m.filename + seq![' '] + m.protocol
}

/// An HTTP request.
#[derive(Debug)]
pub struct Request {
    method: String,
    filename: String,
    protocol: String,
    headers: Headers,
}

impl View for Request {
    type V = RequestModel;

    closed spec fn view(&self) -> RequestModel {
        RequestModel {
            method: self.method@,
            filename: self.filename@,
            protocol: self.protocol@,
            headers: self.headers@,
        }
    }
}

impl Request {
    /// The HTTP method, such as `GET`.
    pub fn get_method(&self) -> (r: &String)
        ensures
            r@ == self@.method,
    {
        &self.method
    }

    /// The path of the requested file.
    pub fn get_filename(&self) -> (r: &String)
        ensures
            r@ == self@.filename,
    {
        &self.filename
    }

    /// The protocol, such as `HTTP/1.1`.
    pub fn get_protocol(&self) -> (r: &String)
        ensures
            r@ == self@.protocol,
    {
        &self.protocol
    }

    /// The headers.
    pub fn get_headers(&self) -> (r: &Headers)
        ensures
            r@ == self@.headers,
    {
        &self.headers
    }

    /// Parses the text of a request. The method, path and protocol are the first
    /// three words of the first line, the path placed after `current_dir`; each
    /// further line with a non-blank name is a header. Fewer than three words on
    /// the first line make an `EmptyRequest` error.
    pub fn parse_request(request: &str, current_dir: &str) -> (r: RequestResult)
        ensures
            r matches Ok(q) ==> parsed_request(request@, current_dir@) == Some(q@),
            r matches Err(e) ==> parsed_request(request@, current_dir@) is None
                && e.kind_of() == RequestErrorKind::EmptyRequest && e.message_of() == "Request is empty"@,
            r is Ok <==> parsed_request(request@, current_dir@) is Some,
            r is Ok <==> first_line_words(request@).len() >= 3,
            r matches Ok(q) ==> q@.method == first_line_words(request@)[0],
            r matches Ok(q) ==> q@.filename == current_dir@ + first_line_words(request@)[1],
            r matches Ok(q) ==> q@.protocol == first_line_words(request@)[2],
    {
        let chars = chars_of(request);
        let lines = split_chars(chars.as_slice(), '\n');
        proof {
            lemma_split_nonempty(request@, '\n');
            assert(seqs_of(lines@)[0] == lines@[0]@);
        }
        let first = words_of(lines[0].as_slice());
        assert(seqs_of(first@) == first_line_words(request@));
        if first.len() < 3 {
            return Err(RequestError::new("Request is empty".to_owned(), RequestErrorKind::EmptyRequest));
        }
        let method = string_of(first[0].as_slice());
        let mut filename = current_dir.to_owned();
        push_all(&mut filename, first[1].as_slice());
        let protocol = string_of(first[2].as_slice());
        let ghost all = seqs_of(lines@);
        let mut headers = Headers::new();
        let mut li: usize = 1;
        while li < lines.len()
            invariant
                1 <= li <= lines@.len(),
                all == seqs_of(lines@),
                headers@ == headers_of(all.subrange(1, li as int)),
            decreases lines@.len() - li,
        {
            let line = &lines[li];
            let pieces = split_chars(line.as_slice(), ':');
            proof {
                lemma_split_nonempty(line@, ':');
                assert(all[li as int] == line@);
                assert(all.subrange(1, li + 1).drop_last() == all.subrange(1, li as int));
                assert(all.subrange(1, li + 1).last() == line@);
                assert(seqs_of(pieces@)[0] == pieces@[0]@);
            }
            let name_trimmed = trim_chars(pieces[0].as_slice());
            if name_trimmed.len() != 0 {
                let name = string_of(pieces[0].as_slice());
                let value_chars = join_trimmed(&pieces, 1, ':');
                let value = string_of(value_chars.as_slice());
                assert(seqs_of(pieces@).subrange(1, pieces@.len() as int) == split_on(
                    line@,
                    ':',
                ).drop_first());
                headers.insert(name, value);
            }
            li += 1;
        }
        assert(all.subrange(1, lines@.len() as int) == request_lines(request@).drop_first());
        Ok(Request { method, filename, protocol, headers })
    }

    /// Parses the bytes read from a connection: when they are valid UTF-8, as
    /// `parse_request` parses their text; otherwise the request is refused with an
    /// `EmptyRequest` error.
    pub fn parse_bytes(bytes: &[u8], current_dir: &str) -> (r: RequestResult)
        ensures
            valid_utf8(bytes@) ==> (r is Ok <==> parsed_request(decode_utf8(bytes@), current_dir@) is Some),
            valid_utf8(bytes@) ==> (r matches Ok(q) ==> parsed_request(decode_utf8(bytes@), current_dir@)
                == Some(q@)),
            r matches Err(e) ==> e.kind_of() == RequestErrorKind::EmptyRequest && e.message_of()
                == "Request is empty"@,
            !valid_utf8(bytes@) ==> r is Err,
    {
        match utf8_text(bytes) {
            Some(text) => Request::parse_request(text, current_dir),
            None => Err(RequestError::new("Request is empty".to_owned(), RequestErrorKind::EmptyRequest)),
        }
    }

    /// The method, path and protocol separated by single spaces.
    pub fn to_string(&self) -> (r: String)
        ensures
            r@ == request_text(self@),
    {
        let mut r = self.method.clone();
        r.push(' ');
        r.append(self.filename.as_str());
        r.push(' ');
        r.append(self.protocol.as_str());
        r
    }
}

/// Law: a header line with a non-blank name leaves that name in the headers,
/// mapped to its value, unless a later line carries the same name.
pub proof fn law_last_header_line_wins(lines: Seq<Seq<char>>, i: int)
    requires
        0 <= i < lines.len(),
        !is_blank_header(lines[i]),
        forall|j: int|
            i < j < lines.len() ==> is_blank_header(#[trigger] lines[j]) || header_name(lines[j])
                != header_name(lines[i]),
    ensures
        headers_of(lines).dom().contains(header_name(lines[i])),
        headers_of(lines)[header_name(lines[i])] == header_value(lines[i]),
    decreases lines.len(),
{
    if i < lines.len() - 1 {
        let p = lines.drop_last();
        assert(p[i] == lines[i]);
        assert forall|j: int| i < j < p.len() implies is_blank_header(#[trigger] p[j])
            || header_name(p[j]) != header_name(p[i]) by {
            assert(p[j] == lines[j]);
        }
        law_last_header_line_wins(p, i);
        let l = lines[lines.len() - 1];
        assert(is_blank_header(l) || header_name(l) != header_name(lines[i]));
    }
}

/// Law: every name in the headers is the name of a header line that is not blank.
pub proof fn law_headers_come_from_lines(lines: Seq<Seq<char>>, name: Seq<char>)
    requires
        headers_of(lines).dom().contains(name),
    ensures
        exists|i: int|
            0 <= i < lines.len() && !is_blank_header(#[trigger] lines[i]) && header_name(lines[i])
                == name,
    decreases lines.len(),
{
    let p = lines.drop_last();
    let l = lines.last();
    if headers_of(p).dom().contains(name) {
        law_headers_come_from_lines(p, name);
        let i = choose|i: int|
            0 <= i < p.len() && !is_blank_header(#[trigger] p[i]) && header_name(p[i]) == name;
        assert(lines[i] == p[i]);
    } else {
        assert(!is_blank_header(lines[lines.len() - 1]) && header_name(lines[lines.len() - 1])
            == name);
    }
}

/// Law: a request whose first line has at least three words parses; its file name
/// is the current directory followed, character for character, by the whole second
/// word of the first line, and its method and protocol are the first and third words.
pub proof fn law_filename_is_cwd_then_path(req: Seq<char>, cwd: Seq<char>)
    requires
        first_line_words(req).len() >= 3,
    ensures
        parsed_request(req, cwd) is Some,
        parsed_request(req, cwd)->0.filename.len() == cwd.len() + first_line_words(req)[1].len(),
        parsed_request(req, cwd)->0.filename.subrange(0, cwd.len() as int) == cwd,
        parsed_request(req, cwd)->0.filename.subrange(
            cwd.len() as int,
            parsed_request(req, cwd)->0.filename.len() as int,
        ) == first_line_words(req)[1],
        parsed_request(req, cwd)->0.method == first_line_words(req)[0],
        parsed_request(req, cwd)->0.protocol == first_line_words(req)[2],
{
    let f = parsed_request(req, cwd)->0.filename;
    assert(f.subrange(0, cwd.len() as int) =~= cwd);
    assert(f.subrange(cwd.len() as int, f.len() as int) =~= first_line_words(req)[1]);
}

} // verus!
