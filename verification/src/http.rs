//! The request and response carriers at the transport boundary. The mapping
//! from a request line to a response payload is an external collaborator (a
//! pure function: text in, response text out) and is not part of this crate.

use vstd::prelude::*;

verus! {

/// One request line as received from the transport.
pub struct Request {
    pub status: String,
}

impl Request {
    /// Wrap one received request line.
    pub fn new(request_line: &str) -> (r: Self)
        ensures
            r.status@ == request_line@,
    {
        Request { status: request_line.to_owned() }
    }
}

/// One response payload as handed back to the transport.
pub struct Response {
    pub status: String,
}

} // verus!
