//! Classifying the outcome of one authenticated GET.
//!
//! The surrounding program issues the request and hands the raw outcome to
//! [`response_body`] as an [`HttpEvent`]; the body of a successful response
//! comes back to be decoded, and every failure is classified without the
//! body ever being looked at.

use vstd::prelude::*;

use crate::digits::dec_digits;
use crate::digits::u64_to_string;

verus! {

/// How one fetch failed.
#[derive(Debug)]
pub enum FetchError {
    /// The transport failed before any response arrived (DNS, connection,
    /// TLS); carries the transport's own description.
    Transport(String),
    /// A response arrived with a status outside the success range; carries
    /// the requested URL and the status code. Its body was discarded unread.
    HttpStatus { url: String, status: u16 },
    /// The body of a successful response did not decode as the expected
    /// shape; carries the decoder's own description.
    Decode(String),
    /// A by-path folder lookup returned no folder; carries the path asked
    /// for.
    NotFound(String),
}

/// What the transport handed back for one GET: either a failure detail, or
/// a response with its status code and its raw body.
#[derive(Debug)]
pub enum HttpEvent {
    Failed(String),
    Response { status: u16, body: Vec<u8> },
}

/// Whether a status code lies in the HTTP success range.
pub open spec fn is_success_status(status: u16) -> bool {
    200 <= status < 300
}

/// What [`response_body`] returns for a given URL and transport outcome:
/// a transport failure is reported as [`FetchError::Transport`]; a response
/// outside the success range as [`FetchError::HttpStatus`] carrying the URL
/// and the code, its body discarded; a successful response yields its body.
pub open spec fn response_contract(
    url: Seq<char>,
    event: HttpEvent,
    r: Result<Vec<u8>, FetchError>,
) -> bool {
    &&& (event matches HttpEvent::Failed(detail) ==> (r matches Err(
        FetchError::Transport(m),
    ) && m == detail))
    &&& (event matches HttpEvent::Response { status, body } ==> if is_success_status(status) {
        r matches Ok(b) && b == body
    } else {
        r matches Err(FetchError::HttpStatus { url: u, status: st }) && u@ == url && st == status
    })
}

/// Classifies the outcome of one authenticated GET to `url`.
///
/// Only the body of a response in the success range is handed on for
/// decoding; a response outside it is turned into an error from its status
/// line alone.
pub fn response_body(url: &str, event: HttpEvent) -> (r: Result<Vec<u8>, FetchError>)
    ensures
        response_contract(url@, event, r),
{
    match event {
        HttpEvent::Failed(detail) => Err(FetchError::Transport(detail)),
        HttpEvent::Response { status, body } => {
            if 200 <= status && status < 300 {
                Ok(body)
            } else {
                Err(FetchError::HttpStatus { url: String::from_str(url), status })
            }
        },
    }
}

/// Law: a response whose status lies outside the success range is rejected
/// from its status line alone. Two such responses to the same URL with the
/// same status are classified alike whatever their bodies hold — in
/// particular, neither body is decoded, even one that would decode cleanly.
pub proof fn lemma_fetch_failure_ignores_body(
    url: Seq<char>,
    status: u16,
    body1: Vec<u8>,
    body2: Vec<u8>,
    r1: Result<Vec<u8>, FetchError>,
    r2: Result<Vec<u8>, FetchError>,
)
    requires
        !is_success_status(status),
        response_contract(url, HttpEvent::Response { status, body: body1 }, r1),
        response_contract(url, HttpEvent::Response { status, body: body2 }, r2),
    ensures
        r1 matches Err(FetchError::HttpStatus { url: u1, status: s1 }) && u1@ == url && s1
            == status,
        r2 matches Err(FetchError::HttpStatus { url: u2, status: s2 }) && u2@ == url && s2
            == status,
{
}

impl FetchError {
    /// The single-line description of this error, as the command prints it.
    pub fn message(&self) -> (r: String)
        ensures
            self matches FetchError::Transport(d) ==> r@ == "Failed to request ("@ + d@ + ")"@,
            self matches FetchError::HttpStatus { url, status } ==> r@ == "Failed to fetch "@
                + url@ + ": HTTP status "@ + dec_digits(status as nat),
            self matches FetchError::Decode(d) ==> r@ == "Failed to load ("@ + d@ + ")"@,
            self matches FetchError::NotFound(path) ==> r@ == "No files at path "@ + path@,
    {
        match self {
            FetchError::Transport(d) => {
                let mut s = String::from_str("Failed to request (");
                s.append(d.as_str());
                s.append(")");
                s
            },
            FetchError::HttpStatus { url, status } => {
                let mut s = String::from_str("Failed to fetch ");
                s.append(url.as_str());
                s.append(": HTTP status ");
                let code = u64_to_string(*status as u64);
                s.append(code.as_str());
                s
            },
            FetchError::Decode(d) => {
                let mut s = String::from_str("Failed to load (");
                s.append(d.as_str());
                s.append(")");
                s
            },
            FetchError::NotFound(path) => {
                let mut s = String::from_str("No files at path ");
                s.append(path.as_str());
                s
            },
        }
    }
}

} // verus!
