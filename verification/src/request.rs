//! The two requests of an invocation: the inbound one that starts it and
//! the outbound one that it sends.

use vstd::prelude::*;
use vstd::string::StringExecFns;

verus! {

/// How the outbound request travels.
#[derive(Clone, Copy, Debug, PartialEq, Eq)]
pub enum Scheme {
    /// Plain transport.
    Http,
    /// Transport secured by TLS.
    Https,
}

/// The parts of the outbound request, in the order in which they are set.
#[derive(Clone, Copy, Debug, PartialEq, Eq)]
pub enum RequestPart {
    Scheme,
    Authority,
    Path,
}

/// What the outbound request is addressed to.
#[derive(Debug, PartialEq, Eq)]
pub struct OutboundTarget {
    pub scheme: Scheme,
    pub authority: String,
    pub path_with_query: String,
}

/// An `OutboundTarget` as a mathematical value.
pub struct TargetModel {
    pub scheme: Scheme,
    pub authority: Seq<char>,
    pub path_with_query: Seq<char>,
}

impl View for OutboundTarget {
    type V = TargetModel;

    open spec fn view(&self) -> TargetModel {
        TargetModel {
            scheme: self.scheme,
            authority: self.authority@,
            path_with_query: self.path_with_query@,
        }
    }
}

/// The one remote operation there is: a random image, asked of `dog.ceo`
/// over a secure transport.
pub open spec fn fixed_target() -> TargetModel {
    TargetModel {
        scheme: Scheme::Https,
        authority: "dog.ceo"@,
        path_with_query: "/api/breeds/image/random"@,
    }
}

impl OutboundTarget {
    /// The target of every outbound request.
    pub fn fixed() -> (target: OutboundTarget)
        ensures
            target@ == fixed_target(),
    {
        OutboundTarget {
            scheme: Scheme::Https,
            authority: String::from_str("dog.ceo"),
            path_with_query: String::from_str("/api/breeds/image/random"),
        }
    }
}

/// An inbound request as the handler is given it. Nothing in it is ever
/// looked at.
#[derive(Debug, PartialEq, Eq)]
pub struct InboundRequest {
    pub method: String,
    pub headers: Vec<(String, String)>,
    pub body: Vec<u8>,
}

/// The outbound request that an inbound request leads to.
pub open spec fn request_for(inbound: InboundRequest) -> TargetModel {
    fixed_target()
}

/// The outbound request to build for `inbound`: the fixed one, whatever
/// `inbound` holds.
pub fn outbound_request(inbound: &InboundRequest) -> (target: OutboundTarget)
    ensures
        target@ == request_for(*inbound),
        target@ == fixed_target(),
{
    OutboundTarget::fixed()
}

} // verus!
