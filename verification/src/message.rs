//! What the crate reads of a request and of a response.
//!
//! The host fills these in from the messages that it handles; the crate never
//! sees a body.

use vstd::prelude::*;

verus! {

/// The method of a request: one of the nine standard methods, or another.
#[derive(Clone, Copy, Debug, PartialEq, Eq, Structural)]
pub enum Method {
    Options,
    Get,
    Post,
    Put,
    Delete,
    Head,
    Trace,
    Connect,
    Patch,
    /// A method that is none of the nine above.
    Extension,
}

/// The head of a request, and when it was received.
#[derive(Clone, Debug, PartialEq, Eq)]
pub struct RequestHead {
    /// The request's method.
    pub method: Method,
    /// The path of the request's URI, exactly as it was requested.
    pub path: String,
    /// The route template that the host's router matched, where it says so.
    pub matched_path: Option<String>,
    /// The reading of the host's monotonic clock, in nanoseconds, when the
    /// request was received.
    pub received_at: u128,
}

/// The head of a response, and when it was produced.
#[derive(Clone, Debug, PartialEq, Eq)]
pub struct ResponseHead {
    /// The response's status code.
    pub status: u16,
    /// The bytes of the response's `content-length` header, where it has one.
    pub content_length: Option<Vec<u8>>,
    /// The reading of the host's monotonic clock, in nanoseconds, when the
    /// response was produced.
    pub produced_at: u128,
}

/// The headers that end a stream, each a name and the bytes of its value.
pub type Trailers = Vec<(String, Vec<u8>)>;

} // verus!
