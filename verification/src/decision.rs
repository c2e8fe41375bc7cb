//! The decisions of an invocation: from each report of the host to
//! what is to be done next, and from the verdict to the outbound response.

use vstd::prelude::*;

use crate::exchange::{
    body_bytes, construction_fault, option_view, payload_or_fault, resolution_fault, result_view,
    submission_fault, BodyRead, BodyReadModel, Construction, DecodedPayload, PayloadModel,
    Resolution, ResolutionModel, Submission, SubmissionModel,
};
use crate::fault::{build_fault, Fault, FaultModel};
use crate::request::{fixed_target, OutboundTarget, TargetModel};
use crate::response::{accepted, OutboundResponse, ResponseModel, INTERNAL_FAULT, OK};

verus! {

/// A report of the host: the inbound request that starts an
/// invocation, or how the action asked for last went.
#[derive(Debug, PartialEq, Eq)]
pub enum Event {
    /// An inbound request has arrived.
    Received,
    /// The outbound request was built, or was not.
    Built(Construction),
    /// The outbound request was handed over for sending.
    Sent(Submission),
    /// The wait for the response has ended.
    Resolved(Resolution),
    /// The body of the response was read, or was not.
    Read(BodyRead),
    /// The body was decoded; nothing where it did not decode.
    Decoded(Option<DecodedPayload>),
}

/// An `Event` as a mathematical value.
pub enum EventModel {
    Received,
    Built(Construction),
    Sent(SubmissionModel),
    Resolved(ResolutionModel),
    Read(BodyReadModel),
    Decoded(Option<PayloadModel>),
}

impl View for Event {
    type V = EventModel;

    open spec fn view(&self) -> EventModel {
        match self {
            Event::Received => EventModel::Received,
            Event::Built(construction) => EventModel::Built(*construction),
            Event::Sent(submission) => EventModel::Sent(submission@),
            Event::Resolved(resolution) => EventModel::Resolved(resolution@),
            Event::Read(read) => EventModel::Read(read@),
            Event::Decoded(decoded) => EventModel::Decoded(option_view(*decoded)),
        }
    }
}

/// What the host is asked to do next.
#[derive(Debug, PartialEq, Eq)]
pub enum Action {
    /// Build an outbound request for this target, part by part, and stop at
    /// the first part that is refused.
    BuildRequest(OutboundTarget),
    /// Hand the request that was built to the dispatch capability.
    Dispatch,
    /// Wait until the response to the request has resolved.
    AwaitResponse,
    /// Read the body of the response to its end.
    ReadBody,
    /// Decode these bytes, the body that was read.
    Decode(Vec<u8>),
}

/// An `Action` as a mathematical value.
pub enum ActionModel {
    BuildRequest(TargetModel),
    Dispatch,
    AwaitResponse,
    ReadBody,
    Decode(Seq<u8>),
}

impl View for Action {
    type V = ActionModel;

    open spec fn view(&self) -> ActionModel {
        match self {
            Action::BuildRequest(target) => ActionModel::BuildRequest(target@),
            Action::Dispatch => ActionModel::Dispatch,
            Action::AwaitResponse => ActionModel::AwaitResponse,
            Action::ReadBody => ActionModel::ReadBody,
            Action::Decode(bytes) => ActionModel::Decode(bytes@),
        }
    }
}

/// What follows from a report: one more action, or the end of the
/// invocation.
#[derive(Debug, PartialEq, Eq)]
pub enum Decision {
    /// The invocation goes on with this action.
    Perform(Action),
    /// The invocation is over: it brought this payload, or failed with this
    /// fault.
    Conclude(Result<DecodedPayload, Fault>),
}

/// A `Decision` as a mathematical value.
pub enum DecisionModel {
    Perform(ActionModel),
    Conclude(Result<PayloadModel, FaultModel>),
}

impl View for Decision {
    type V = DecisionModel;

    open spec fn view(&self) -> DecisionModel {
        match self {
            Decision::Perform(action) => DecisionModel::Perform(action@),
            Decision::Conclude(verdict) => DecisionModel::Conclude(result_view(*verdict)),
        }
    }
}

/// What follows from each report. The steps come in one fixed order, and a
/// step that fails ends the invocation with its fault: a request of which a
/// part was refused is never dispatched, and the body is read only of an
/// answer with status 200.
pub open spec fn plan(event: EventModel) -> DecisionModel {
    match event {
        EventModel::Received => DecisionModel::Perform(ActionModel::BuildRequest(fixed_target())),
        EventModel::Built(construction) => match construction_fault(construction) {
            Some(fault) => DecisionModel::Conclude(Err(fault)),
            None => DecisionModel::Perform(ActionModel::Dispatch),
        },
        EventModel::Sent(submission) => match submission_fault(submission) {
            Some(fault) => DecisionModel::Conclude(Err(fault)),
            None => DecisionModel::Perform(ActionModel::AwaitResponse),
        },
        EventModel::Resolved(resolution) => match resolution_fault(resolution) {
            Some(fault) => DecisionModel::Conclude(Err(fault)),
            None => DecisionModel::Perform(ActionModel::ReadBody),
        },
        EventModel::Read(read) => match body_bytes(read) {
            Err(fault) => DecisionModel::Conclude(Err(fault)),
            Ok(bytes) => DecisionModel::Perform(ActionModel::Decode(bytes)),
        },
        EventModel::Decoded(decoded) => DecisionModel::Conclude(payload_or_fault(decoded)),
    }
}

/// Decides what follows from `event`.
pub fn decide(event: Event) -> (decision: Decision)
    ensures
        decision@ == plan(event@),
{
    match event {
        Event::Received => Decision::Perform(Action::BuildRequest(OutboundTarget::fixed())),
        Event::Built(construction) => match construction.fault() {
            Some(fault) => Decision::Conclude(Err(fault)),
            None => Decision::Perform(Action::Dispatch),
        },
        Event::Sent(submission) => match submission.fault() {
            Some(fault) => Decision::Conclude(Err(fault)),
            None => Decision::Perform(Action::AwaitResponse),
        },
        Event::Resolved(resolution) => match resolution.fault() {
            Some(fault) => Decision::Conclude(Err(fault)),
            None => Decision::Perform(Action::ReadBody),
        },
        Event::Read(read) => match read.into_bytes() {
            Err(fault) => Decision::Conclude(Err(fault)),
            Ok(bytes) => Decision::Perform(Action::Decode(bytes)),
        },
        Event::Decoded(decoded) => Decision::Conclude(DecodedPayload::or_fault(decoded)),
    }
}

/// The response that a verdict calls for. A payload goes out as it is,
/// under status 200. A fault goes out in its own words under its own
/// status; where no response can carry that status, what goes out is the
/// fault of not having been able to build one.
pub open spec fn reply(verdict: Result<PayloadModel, FaultModel>) -> ResponseModel {
    match verdict {
        Ok(payload) => ResponseModel { status: OK, body: payload.message },
        Err(fault) => if accepted(fault.status()) {
            ResponseModel { status: fault.status(), body: fault.message }
        } else {
            ResponseModel { status: INTERNAL_FAULT, body: build_fault().message }
        },
    }
}

/// Builds the response that `verdict` calls for.
pub fn respond(verdict: Result<DecodedPayload, Fault>) -> (response: OutboundResponse)
    ensures
        response@ == reply(result_view(verdict)),
{
    match verdict {
        Ok(payload) => OutboundResponse::ok(payload.message),
        Err(fault) => {
            let status = fault.status();
            match OutboundResponse::build(status, fault.message) {
                Some(response) => response,
                None => OutboundResponse::internal_fault(Fault::unbuildable().message),
            }
        },
    }
}

} // verus!
