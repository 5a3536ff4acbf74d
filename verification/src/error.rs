use vstd::prelude::*;
use vstd::string::StringExecFns;

use crate::decimal::dec_chars;

verus! {

/// Errors surfaced by the range readers: an HTTP status outside 2xx, or a
/// transport-level failure carrying an opaque message.
#[derive(Debug, Clone, PartialEq, Eq)]
pub enum HttpError {
    HttpStatus(u16),
    HttpError(String),
}

/// The display form of an error: `http status <code>` for a status error,
/// `` http error `<msg>` `` for a transport error.
pub open spec fn message_chars(e: HttpError) -> Seq<char> {
    match e {
        HttpError::HttpStatus(code) => "http status "@ + dec_chars(code as nat),
        HttpError::HttpError(m) => "http error `"@ + m@ + "`"@,
    }
}

impl HttpError {
    /// Human-readable message for this error.
    pub fn message(&self) -> (r: String)
        ensures
            r@ == message_chars(*self),
    {
        match self {
            HttpError::HttpStatus(code) => {
                let mut s = String::from_str("http status ");
                s.append(crate::decimal::u64_to_string(*code as u64).as_str());
                s
            },
            HttpError::HttpError(m) => {
                let mut s = String::from_str("http error `");
                s.append(m.as_str());
                s.append("`");
                s
            },
        }
    }
}

/// Errors surfaced by the stream-reader surface (`read`, `fill_buf`,
/// `seek`): logical end-of-stream, or a generic failure carrying a message.
#[derive(Debug, Clone, PartialEq, Eq)]
pub enum IoError {
    UnexpectedEof,
    Other(String),
}

/// How a fetch failure surfaces from the stream-reader surface: an HTTP 416
/// (range not satisfiable) means the read went past end-of-stream and maps
/// to `UnexpectedEof`, so "read until EOF" loops terminate cleanly; any
/// other failure maps to a generic error carrying the fetch error's message.
pub open spec fn is_io_error_for(r: IoError, e: HttpError) -> bool {
    match r {
        IoError::UnexpectedEof => e == HttpError::HttpStatus(416),
        IoError::Other(m) => e != HttpError::HttpStatus(416) && m@ == message_chars(e),
    }
}

/// Translate a fetch error for the stream-reader surface.
pub fn io_error_for(e: &HttpError) -> (r: IoError)
    ensures
        is_io_error_for(r, *e),
{
    match e {
        HttpError::HttpStatus(code) => {
            if *code == 416 {
                IoError::UnexpectedEof
            } else {
                IoError::Other(e.message())
            }
        },
        HttpError::HttpError(_) => IoError::Other(e.message()),
    }
}

} // verus!
