//! The echo service's response rule.

use vstd::prelude::*;
use vstd::string::StringExecFns;

verus! {

/// A request to the echo service: one free-text message.
pub struct EchoRequest {
    pub message: String,
}

/// The echo service's reply: one free-text message.
pub struct EchoResponse {
    pub message: String,
}

/// The whole contract of the echo service: the response carries the
/// request's message unchanged — no mutation, no truncation. The service
/// has no failure mode.
pub fn echo_response(req: &EchoRequest) -> (r: EchoResponse)
    ensures
        r.message@ == req.message@,
{
    EchoResponse { message: String::from_str(req.message.as_str()) }
}

} // verus!
