//! A whole invocation, against a host and an upstream whose behaviour is
//! known beforehand.

use vstd::prelude::*;

use crate::decision::{
    decide, plan, reply, respond, Action, ActionModel, Decision, DecisionModel, Event,
    EventModel,
};
use crate::exchange::{
    body_bytes, construction_fault, option_view, payload_or_fault, resolution_fault,
    submission_fault, BodyRead, BodyReadModel, Construction, DecodedPayload, PayloadModel,
    Resolution, ResolutionModel, Submission, SubmissionModel,
};
use crate::fault::FaultModel;
use crate::request::InboundRequest;
use crate::response::{OutboundResponse, ResponseModel};

verus! {

/// How the host and the upstream behind it behave in one invocation: for
/// each thing that may be asked of them, how that goes. What comes after
/// the first step that fails is never asked for.
#[derive(Debug, PartialEq, Eq)]
pub struct UpstreamBehavior {
    pub construction: Construction,
    pub submission: Submission,
    pub resolution: Resolution,
    pub body: BodyRead,
    /// What decoding the body brings; nothing where it does not decode.
    pub decoded: Option<DecodedPayload>,
}

/// An `UpstreamBehavior` as a mathematical value.
pub struct UpstreamModel {
    pub construction: Construction,
    pub submission: SubmissionModel,
    pub resolution: ResolutionModel,
    pub body: BodyReadModel,
    pub decoded: Option<PayloadModel>,
}

impl View for UpstreamBehavior {
    type V = UpstreamModel;

    open spec fn view(&self) -> UpstreamModel {
        UpstreamModel {
            construction: self.construction,
            submission: self.submission@,
            resolution: self.resolution@,
            body: self.body@,
            decoded: option_view(self.decoded),
        }
    }
}

/// What came of the one outbound call of an invocation.
#[derive(Debug, PartialEq, Eq)]
pub enum OutboundCallResult {
    /// The upstream answered with this status, and this is its body.
    Success { status: u16, body: Vec<u8> },
    /// The request could not be sent.
    TransportFailure { message: String },
}

/// An `OutboundCallResult` as a mathematical value.
pub enum CallModel {
    Success { status: u16, body: Seq<u8> },
    TransportFailure { message: Seq<char> },
}

impl View for OutboundCallResult {
    type V = CallModel;

    open spec fn view(&self) -> CallModel {
        match self {
            OutboundCallResult::Success { status, body } => CallModel::Success {
                status: *status,
                body: body@,
            },
            OutboundCallResult::TransportFailure { message } => CallModel::TransportFailure {
                message: message@,
            },
        }
    }
}

/// The behaviour in which the request is built without fault and the call
/// comes to `call`, the body decoding to `decoded`.
pub open spec fn behavior_of(call: CallModel, decoded: Option<PayloadModel>) -> UpstreamModel {
    match call {
        CallModel::Success { status, body } => UpstreamModel {
            construction: Construction::Complete,
            submission: SubmissionModel::Accepted,
            resolution: ResolutionModel::Ready(status),
            body: BodyReadModel::Complete(body),
            decoded,
        },
        CallModel::TransportFailure { message } => UpstreamModel {
            construction: Construction::Complete,
            submission: SubmissionModel::Failed(message),
            resolution: ResolutionModel::Missing,
            body: BodyReadModel::Unavailable,
            decoded,
        },
    }
}

/// The report that comes back on an action.
pub open spec fn answer(action: ActionModel, upstream: UpstreamModel) -> EventModel {
    match action {
        ActionModel::BuildRequest(_) => EventModel::Built(upstream.construction),
        ActionModel::Dispatch => EventModel::Sent(upstream.submission),
        ActionModel::AwaitResponse => EventModel::Resolved(upstream.resolution),
        ActionModel::ReadBody => EventModel::Read(upstream.body),
        ActionModel::Decode(_) => EventModel::Decoded(upstream.decoded),
    }
}

/// The place of a report in the order of the steps.
pub open spec fn stage(event: EventModel) -> nat {
    match event {
        EventModel::Received => 0,
        EventModel::Built(_) => 1,
        EventModel::Sent(_) => 2,
        EventModel::Resolved(_) => 3,
        EventModel::Read(_) => 4,
        EventModel::Decoded(_) => 5,
    }
}

/// The verdict that an invocation comes to from `event` on, when each
/// decision is carried out and answered as `upstream` has it.
pub open spec fn conclusion(event: EventModel, upstream: UpstreamModel) -> Result<
    PayloadModel,
    FaultModel,
>
    decreases 5 - stage(event),
{
    match plan(event) {
        DecisionModel::Conclude(verdict) => verdict,
        DecisionModel::Perform(action) => conclusion(answer(action, upstream), upstream),
    }
}

/// The verdict of an invocation, step by step: the fault of the first step
/// that fails, and the payload where none does.
pub open spec fn verdict(upstream: UpstreamModel) -> Result<PayloadModel, FaultModel> {
    match construction_fault(upstream.construction) {
        Some(fault) => Err(fault),
        None => match submission_fault(upstream.submission) {
            Some(fault) => Err(fault),
            None => match resolution_fault(upstream.resolution) {
                Some(fault) => Err(fault),
                None => match body_bytes(upstream.body) {
                    Err(fault) => Err(fault),
                    Ok(_) => payload_or_fault(upstream.decoded),
                },
            },
        },
    }
}

/// The outbound response to `inbound` under the behaviour `upstream`.
/// Nothing of `inbound` enters into it.
pub open spec fn response_for(inbound: InboundRequest, upstream: UpstreamModel) -> ResponseModel {
    reply(verdict(upstream))
}

/// An invocation that is carried out decision by decision comes to the
/// verdict of the first step that fails.
pub proof fn decisions_reach_the_verdict(upstream: UpstreamModel)
    ensures
        conclusion(EventModel::Received, upstream) == verdict(upstream),
{
    reveal_with_fuel(conclusion, 6);
}

impl UpstreamBehavior {
    /// The behaviour in which the request is built without fault and the
    /// call comes to `call`, the body decoding to `decoded`.
    pub fn of_call(call: OutboundCallResult, decoded: Option<DecodedPayload>) -> (upstream:
        UpstreamBehavior)
        ensures
            upstream@ == behavior_of(call@, option_view(decoded)),
    {
        match call {
            OutboundCallResult::Success { status, body } => UpstreamBehavior {
                construction: Construction::Complete,
                submission: Submission::Accepted,
                resolution: Resolution::Ready(status),
                body: BodyRead::Complete(body),
                decoded,
            },
            OutboundCallResult::TransportFailure { message } => UpstreamBehavior {
                construction: Construction::Complete,
                submission: Submission::Failed(message),
                resolution: Resolution::Missing,
                body: BodyRead::Unavailable,
                decoded,
            },
        }
    }

    /// The report that comes back on `action`.
    pub fn answer(&self, action: &Action) -> (event: Event)
        ensures
            event@ == answer(action@, self@),
    {
        match action {
            Action::BuildRequest(_) => Event::Built(self.construction),
            Action::Dispatch => Event::Sent(self.submission.clone()),
            Action::AwaitResponse => Event::Resolved(self.resolution.clone()),
            Action::ReadBody => Event::Read(self.body.clone()),
            Action::Decode(_) => Event::Decoded(
                match &self.decoded {
                    Some(payload) => Some(payload.clone()),
                    None => None,
                },
            ),
        }
    }
}

/// Handles one inbound request under the behaviour `upstream`: decides,
/// takes the report on each action, and builds the response that the
/// verdict calls for.
pub fn handle(inbound: &InboundRequest, upstream: &UpstreamBehavior) -> (response:
    OutboundResponse)
    ensures
        response@ == response_for(*inbound, upstream@),
{
    let mut event = Event::Received;
    proof {
        decisions_reach_the_verdict(upstream@);
    }
    loop
        invariant
            conclusion(event@, upstream@) == verdict(upstream@),
        decreases 5 - stage(event@),
    {
        match decide(event) {
            Decision::Conclude(verdict) => {
                return respond(verdict);
            },
            Decision::Perform(action) => {
                event = upstream.answer(&action);
            },
        }
    }
}

} // verus!
