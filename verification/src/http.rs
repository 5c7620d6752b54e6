//! Classifying an HTTP request line and rendering a complete response.
//!
//! The surrounding program accepts connections and reads the request; the
//! decision which response a request line deserves, and the exact bytes of
//! the response, are made here.

use vstd::prelude::*;

verus! {

use vstd::string::{StringExecFns, StringSliceAdditionalSpecFns};
use crate::duration::spec_digits;
use crate::duration::decimal_string;
use crate::text::{spec_ends_with, str_eq, str_ends_with};

/// What a request line asks for.
#[derive(Clone, Copy, Debug, PartialEq, Eq, Structural)]
pub enum RequestKind {
    /// A well-formed request for the root document.
    Home,
    /// A well-formed request for anything else.
    NotFound,
    /// Not a recognizable request line.
    BadRequest,
}

/// The classification of a request line: the root document for a plain
/// `GET /`, any other line that still names a known protocol version is a
/// miss, and everything else is malformed.
pub open spec fn spec_classify(line: Seq<char>) -> RequestKind {
    if line == "GET / HTTP/1.1"@ || line == "GET / HTTP/1.0"@ {
        RequestKind::Home
    } else if spec_ends_with(line, "HTTP/1.1"@) || spec_ends_with(line, "HTTP/1.0"@) {
        RequestKind::NotFound
    } else {
        RequestKind::BadRequest
    }
}

/// Classify one request line.
pub fn classify_request(line: &str) -> (r: RequestKind)
    ensures
        r == spec_classify(line@),
{
    if str_eq(line, "GET / HTTP/1.1") || str_eq(line, "GET / HTTP/1.0") {
        RequestKind::Home
    } else if str_ends_with(line, "HTTP/1.1") || str_ends_with(line, "HTTP/1.0") {
        RequestKind::NotFound
    } else {
        RequestKind::BadRequest
    }
}

/// The status line and content-type header each kind of request is
/// answered with: the root document and a miss are served as HTML, a
/// malformed request as plain text.
pub fn response_meta(kind: RequestKind) -> (r: (&'static str, &'static str))
    ensures
        kind == RequestKind::Home ==> r.0@ == "HTTP/1.1 200 OK"@ && r.1@
            == "Content-Type: text/html"@,
        kind == RequestKind::NotFound ==> r.0@ == "HTTP/1.1 404 Not found"@ && r.1@
            == "Content-Type: text/html"@,
        kind == RequestKind::BadRequest ==> r.0@ == "HTTP/1.1 400 Bad request"@ && r.1@
            == "Content-Type: text/plain"@,
{
    match kind {
        RequestKind::Home => ("HTTP/1.1 200 OK", "Content-Type: text/html"),
        RequestKind::NotFound => ("HTTP/1.1 404 Not found", "Content-Type: text/html"),
        RequestKind::BadRequest => ("HTTP/1.1 400 Bad request", "Content-Type: text/plain"),
    }
}

/// The full response for a status line, a content-type header line and a
/// body: the two header lines, a content-length header derived from the
/// body's byte length, a blank line, and the body.
pub open spec fn spec_response(
    status_line: Seq<char>,
    content_type: Seq<char>,
    body: &str,
) -> Seq<char> {
    status_line + "\r\n"@ + content_type + "\r\nContent-Length: "@ + spec_digits(
        body.spec_bytes().len(),
    ) + "\r\n\r\n"@ + body@
}

/// Render the complete response message.
pub fn render_response(status_line: &str, content_type: &str, body: &str) -> (r: String)
    ensures
        r@ == spec_response(status_line@, content_type@, body),
{
    let length = body.as_bytes().len();
    let mut s = String::new();
    s.append(status_line);
    s.append("\r\n");
    s.append(content_type);
    s.append("\r\nContent-Length: ");
    let digits = decimal_string(length as u128);
    s.append(digits.as_str());
    s.append("\r\n\r\n");
    s.append(body);
    proof {
        assert(s@ =~= spec_response(status_line@, content_type@, body));
    }
    s
}

} // verus!
