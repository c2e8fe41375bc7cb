//! The outbound response.

use vstd::prelude::*;

verus! {

/// Status of a response that carries the extracted message.
pub const OK: u16 = 200;

/// Status of a response that reports a fault of the handler itself.
pub const INTERNAL_FAULT: u16 = 500;

/// The statuses that a response can carry.
pub open spec fn accepted(status: u16) -> bool {
    100 <= status <= 999
}

/// An `OutboundResponse` as a mathematical value.
pub struct ResponseModel {
    pub status: u16,
    pub body: Seq<char>,
}

/// A status and a plain-text body. The status is always one that a
/// response can carry.
#[derive(Debug, PartialEq, Eq)]
pub struct OutboundResponse {
    status: u16,
    body: String,
}

impl View for OutboundResponse {
    type V = ResponseModel;

    closed spec fn view(&self) -> ResponseModel {
        ResponseModel { status: self.status, body: self.body@ }
    }
}

/// `http::StatusCode::from_u16`, reached through `wasmcloud_component::http`.
/// It takes a number from 100 up to and including 999 and refuses every
/// other; only whether it took the number is handed on.
#[verifier::external_body]
fn status_accepted(status: u16) -> (taken: bool)
    ensures
        taken == accepted(status),
{
    wasmcloud_component::http::StatusCode::from_u16(status).is_ok()
}

impl OutboundResponse {
    #[verifier::type_invariant]
    spec fn carries_accepted_status(self) -> bool {
        accepted(self.status)
    }

    /// The response with the given status and body, or nothing where no
    /// response can carry that status.
    pub fn build(status: u16, body: String) -> (built: Option<OutboundResponse>)
        ensures
            built is Some <==> accepted(status),
            built matches Some(response) ==> response@ == (ResponseModel { status, body: body@ }),
    {
        if status_accepted(status) {
            Some(OutboundResponse { status, body })
        } else {
            None
        }
    }

    /// The response that hands on the extracted message.
    pub fn ok(body: String) -> (response: OutboundResponse)
        ensures
            response@ == (ResponseModel { status: OK, body: body@ }),
    {
        OutboundResponse { status: OK, body }
    }

    /// The response that reports a fault of the handler itself.
    pub fn internal_fault(body: String) -> (response: OutboundResponse)
        ensures
            response@ == (ResponseModel { status: INTERNAL_FAULT, body: body@ }),
    {
        OutboundResponse { status: INTERNAL_FAULT, body }
    }

    pub fn status(&self) -> (status: u16)
        ensures
            status == self@.status,
            accepted(status),
    {
        proof {
            use_type_invariant(self);
        }
        self.status
    }

    pub fn body(&self) -> (body: &str)
        ensures
            body@ == self@.body,
    {
        self.body.as_str()
    }

    pub fn into_body(self) -> (body: String)
        ensures
            body@ == self@.body,
    {
        self.body
    }
}

} // verus!
