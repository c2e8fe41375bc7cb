//! The ways in which an invocation fails.

use vstd::prelude::*;
use vstd::string::StringExecFns;

use crate::response::INTERNAL_FAULT;

verus! {

/// The step at which an invocation failed.
#[derive(Clone, Copy, Debug, PartialEq, Eq)]
pub enum FaultKind {
    /// A part of the outbound request was refused.
    Construction,
    /// The outbound request could not be sent.
    Dispatch,
    /// No response could be had for the request that was sent.
    Resolution,
    /// The upstream answered with this status, which is not 200.
    UpstreamStatus(u16),
    /// The body of the upstream response could not be read.
    BodyRead,
    /// The body was not the JSON that was expected.
    Decode,
    /// The outbound response could not be built.
    Build,
}

/// A failed step and the words that describe the failure.
#[derive(Debug, PartialEq, Eq)]
pub struct Fault {
    pub kind: FaultKind,
    pub message: String,
}

/// A `Fault` as a mathematical value.
pub struct FaultModel {
    pub kind: FaultKind,
    pub message: Seq<char>,
}

impl View for Fault {
    type V = FaultModel;

    open spec fn view(&self) -> FaultModel {
        FaultModel { kind: self.kind, message: self.message@ }
    }
}

/// The fault of a body that does not decode.
pub open spec fn decode_fault() -> FaultModel {
    FaultModel { kind: FaultKind::Decode, message: "Failed to parse JSON"@ }
}

/// The fault of a response whose status no response can carry.
pub open spec fn build_fault() -> FaultModel {
    FaultModel { kind: FaultKind::Build, message: "Failed to build error response"@ }
}

impl FaultModel {
    /// The status under which the fault is reported: the upstream's own for
    /// an upstream fault, that of an internal fault for every other.
    pub open spec fn status(self) -> u16 {
        match self.kind {
            FaultKind::UpstreamStatus(code) => code,
            _ => INTERNAL_FAULT,
        }
    }
}

impl Fault {
    /// The fault of a body that does not decode.
    pub fn undecodable() -> (fault: Fault)
        ensures
            fault@ == decode_fault(),
    {
        Fault { kind: FaultKind::Decode, message: String::from_str("Failed to parse JSON") }
    }

    /// The fault of a response whose status no response can carry.
    pub fn unbuildable() -> (fault: Fault)
        ensures
            fault@ == build_fault(),
    {
        Fault {
            kind: FaultKind::Build,
            message: String::from_str("Failed to build error response"),
        }
    }

    /// The status under which the fault is reported.
    pub fn status(&self) -> (status: u16)
        ensures
            status == self@.status(),
    {
        match self.kind {
            FaultKind::UpstreamStatus(code) => code,
            _ => INTERNAL_FAULT,
        }
    }
}

impl Clone for Fault {
    fn clone(&self) -> (copy: Fault)
        ensures
            copy@ == self@,
    {
        Fault { kind: self.kind, message: self.message.clone() }
    }
}

} // verus!
