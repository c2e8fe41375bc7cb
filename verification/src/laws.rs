//! What holds of every invocation.

use vstd::prelude::*;

use crate::decision::{plan, ActionModel, DecisionModel, Event, EventModel};
use crate::exchange::{Construction, ResolutionModel, SubmissionModel};
use crate::invocation::{answer, response_for, stage, verdict, UpstreamBehavior, UpstreamModel};
use crate::request::{request_for, InboundRequest};
use crate::response::{accepted, ResponseModel, OK};
use crate::text::decimal;

verus! {

/// Whatever two inbound requests hold, they lead to the same outbound
/// request, and under the same behaviour to the same response.
pub proof fn inbound_request_is_ignored(
    first: InboundRequest,
    second: InboundRequest,
    upstream: UpstreamModel,
)
    ensures
        request_for(first) == request_for(second),
        response_for(first, upstream) == response_for(second, upstream),
{
}

/// An invocation that meets the same behaviour again gives the same
/// response again: nothing is kept from one invocation to the next.
pub proof fn same_behavior_same_response(
    inbound: InboundRequest,
    first: UpstreamBehavior,
    second: UpstreamBehavior,
)
    requires
        first@ == second@,
    ensures
        response_for(inbound, first@) == response_for(inbound, second@),
{
}

/// The same report is always decided in the same way.
pub proof fn same_report_same_decision(first: Event, second: Event)
    requires
        first@ == second@,
    ensures
        plan(first@) == plan(second@),
{
}

/// Each action that is asked for is answered by the report of the next
/// step, and the report of the last step ends the invocation: no invocation
/// takes more than five actions, and each ends in one verdict.
pub proof fn every_action_moves_on(event: EventModel, upstream: UpstreamModel)
    ensures
        plan(event) matches DecisionModel::Perform(action) ==> stage(answer(action, upstream))
            == stage(event) + 1,
        stage(event) <= 5,
        stage(event) == 5 ==> plan(event) is Conclude,
{
}

/// A request is dispatched only once every part of it has been set.
pub proof fn only_a_complete_request_is_dispatched(event: EventModel)
    ensures
        plan(event) == DecisionModel::Perform(ActionModel::Dispatch) <==> event
            == EventModel::Built(Construction::Complete),
{
}

/// A body is read only of an answer with status 200.
pub proof fn only_a_200_answer_is_read(event: EventModel)
    ensures
        plan(event) == DecisionModel::Perform(ActionModel::ReadBody) <==> event
            == EventModel::Resolved(ResolutionModel::Ready(OK)),
{
}

/// Every response carries a status that a response can carry.
pub proof fn response_is_well_formed(inbound: InboundRequest, upstream: UpstreamModel)
    ensures
        accepted(response_for(inbound, upstream).status),
{
}

/// A response has status 200 exactly where no step failed, and its body is
/// then the decoded message and nothing else.
pub proof fn ok_means_no_step_failed(inbound: InboundRequest, upstream: UpstreamModel)
    ensures
        response_for(inbound, upstream).status == OK <==> verdict(upstream) is Ok,
        verdict(upstream) matches Ok(payload) ==> response_for(inbound, upstream).body
            == payload.message,
{
}

/// An answer with a status other than 200 is handed on under that status,
/// where a response can carry it, with the status spelled out in the body.
/// The body of such an answer is not read, so what it holds does not
/// matter.
pub proof fn upstream_status_is_handed_on(
    inbound: InboundRequest,
    upstream: UpstreamModel,
    status: u16,
)
    requires
        upstream.construction == Construction::Complete,
        upstream.submission == SubmissionModel::Accepted,
        upstream.resolution == ResolutionModel::Ready(status),
        status != OK,
        accepted(status),
    ensures
        response_for(inbound, upstream) == (ResponseModel {
            status,
            body: "HTTP request failed with status code "@ + decimal(status as nat),
        }),
{
}

} // verus!
