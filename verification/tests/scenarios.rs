use std::fmt;

use dog_fetcher::exchange::{BodyRead, Construction, DecodedPayload, Resolution, Submission};
use dog_fetcher::request::{outbound_request, InboundRequest, OutboundTarget, Scheme};
use dog_fetcher::response::OutboundResponse;
use dog_fetcher::decision::{decide, respond, Action, Decision, Event};
use dog_fetcher::invocation::{handle, OutboundCallResult, UpstreamBehavior};
use serde::de::{self, Deserialize, Deserializer, IgnoredAny, MapAccess, SeqAccess, Visitor};

/// The upstream's body as the adapter reads it: one required string field,
/// every other field passed over.
struct DogResponse {
    message: String,
}

struct DogResponseVisitor;

impl<'de> Visitor<'de> for DogResponseVisitor {
    type Value = DogResponse;

    fn expecting(&self, formatter: &mut fmt::Formatter) -> fmt::Result {
        formatter.write_str("struct DogResponse")
    }

    fn visit_seq<A: SeqAccess<'de>>(self, mut seq: A) -> Result<DogResponse, A::Error> {
        let message = seq
            .next_element()?
            .ok_or_else(|| de::Error::invalid_length(0, &self))?;
        Ok(DogResponse { message })
    }

    fn visit_map<A: MapAccess<'de>>(self, mut map: A) -> Result<DogResponse, A::Error> {
        let mut message: Option<String> = None;
        while let Some(key) = map.next_key::<String>()? {
            if key == "message" {
                if message.is_some() {
                    return Err(de::Error::duplicate_field("message"));
                }
                message = Some(map.next_value()?);
            } else {
                map.next_value::<IgnoredAny>()?;
            }
        }
        let message = message.ok_or_else(|| de::Error::missing_field("message"))?;
        Ok(DogResponse { message })
    }
}

impl<'de> Deserialize<'de> for DogResponse {
    fn deserialize<D: Deserializer<'de>>(deserializer: D) -> Result<Self, D::Error> {
        deserializer.deserialize_struct("DogResponse", &["message"], DogResponseVisitor)
    }
}

fn decode(body: &[u8]) -> Option<DecodedPayload> {
    serde_json::from_slice::<DogResponse>(body)
        .ok()
        .map(|dog| DecodedPayload { message: dog.message })
}

/// An upstream that answers with `status` and `body`, seen through the real
/// JSON decoder.
fn answering(status: u16, body: &[u8]) -> UpstreamBehavior {
    UpstreamBehavior::of_call(
        OutboundCallResult::Success { status, body: body.to_vec() },
        decode(body),
    )
}

fn get() -> InboundRequest {
    InboundRequest { method: String::from("GET"), headers: Vec::new(), body: Vec::new() }
}

fn post_with_body() -> InboundRequest {
    InboundRequest {
        method: String::from("POST"),
        headers: vec![
            (String::from("content-type"), String::from("application/json")),
            (String::from("x-trace"), String::from("abc")),
        ],
        body: b"{\"message\":\"ignored\"}".to_vec(),
    }
}

fn parts(response: OutboundResponse) -> (u16, String) {
    (response.status(), response.into_body())
}

/// Runs an invocation the way an adapter does: decision by decision, each
/// action answered from `upstream`, the body decoded when it is asked for.
fn drive(upstream: &UpstreamBehavior) -> (Vec<Action>, OutboundResponse) {
    let mut actions = Vec::new();
    let mut event = Event::Received;
    loop {
        match decide(event) {
            Decision::Conclude(verdict) => return (actions, respond(verdict)),
            Decision::Perform(action) => {
                event = match &action {
                    Action::Decode(bytes) => Event::Decoded(decode(bytes)),
                    other => upstream.answer(other),
                };
                actions.push(action);
            }
        }
    }
}

#[test]
fn message_of_a_200_answer_becomes_the_whole_body() {
    let upstream = answering(200, b"{\"message\":\"https://images.dog.ceo/x.jpg\"}");
    let response = handle(&get(), &upstream);
    assert_eq!(response.status(), 200);
    assert_eq!(response.body(), "https://images.dog.ceo/x.jpg");
}

#[test]
fn message_goes_out_without_quotes_or_envelope() {
    let upstream = answering(200, b"{\"status\":\"success\",\"message\":\"a \\\"b\\\" c\"}");
    let (status, body) = parts(handle(&get(), &upstream));
    assert_eq!(status, 200);
    assert_eq!(body, "a \"b\" c");
}

#[test]
fn empty_message_gives_an_empty_200() {
    let upstream = answering(200, b"{\"message\":\"\"}");
    assert_eq!(parts(handle(&get(), &upstream)), (200, String::new()));
}

#[test]
fn status_404_is_handed_on_with_any_body() {
    let bodies: [&[u8]; 4] = [
        b"",
        b"not found",
        b"{\"message\":\"https://images.dog.ceo/x.jpg\"}",
        b"\xff\xfe",
    ];
    for body in bodies {
        let response = handle(&get(), &answering(404, body));
        assert_eq!(response.status(), 404);
        assert_eq!(response.body(), "HTTP request failed with status code 404");
    }
}

#[test]
fn other_statuses_are_handed_on_with_their_number() {
    for (status, text) in [
        (100u16, "HTTP request failed with status code 100"),
        (199, "HTTP request failed with status code 199"),
        (201, "HTTP request failed with status code 201"),
        (301, "HTTP request failed with status code 301"),
        (500, "HTTP request failed with status code 500"),
        (503, "HTTP request failed with status code 503"),
        (999, "HTTP request failed with status code 999"),
    ] {
        let response = handle(&get(), &answering(status, b"{\"message\":\"x\"}"));
        assert_eq!(parts(response), (status, String::from(text)));
    }
}

#[test]
fn status_that_no_response_can_carry_is_a_build_fault() {
    for status in [0u16, 1, 99, 1000, 1001, 65535] {
        let response = handle(&get(), &answering(status, b"{\"message\":\"x\"}"));
        assert_eq!(parts(response), (500, String::from("Failed to build error response")));
    }
}

#[test]
fn send_failure_is_reported_with_its_details() {
    let upstream = UpstreamBehavior::of_call(
        OutboundCallResult::TransportFailure { message: String::from("connection refused") },
        None,
    );
    let response = handle(&get(), &upstream);
    assert_eq!(response.status(), 500);
    assert_eq!(response.body(), "Error fetching dog: connection refused");
}

#[test]
fn send_failure_without_details_keeps_the_prefix() {
    let upstream = UpstreamBehavior::of_call(
        OutboundCallResult::TransportFailure { message: String::new() },
        None,
    );
    assert_eq!(parts(handle(&get(), &upstream)), (500, String::from("Error fetching dog: ")));
}

#[test]
fn body_that_is_not_json_is_a_decode_fault() {
    let response = handle(&get(), &answering(200, b"not valid json"));
    assert_eq!(response.status(), 500);
    assert_eq!(response.body(), "Failed to parse JSON");
}

#[test]
fn json_without_message_is_a_decode_fault() {
    let response = handle(&get(), &answering(200, b"{}"));
    assert_eq!(response.status(), 500);
    assert_eq!(response.body(), "Failed to parse JSON");
}

#[test]
fn json_of_another_shape_is_a_decode_fault() {
    let bodies: [&[u8]; 6] = [
        b"",
        b"null",
        b"\"https://images.dog.ceo/x.jpg\"",
        b"{\"message\":7}",
        b"{\"message\":null}",
        b"{\"message\":\"x\"} trailing",
    ];
    for body in bodies {
        let response = handle(&get(), &answering(200, body));
        assert_eq!(parts(response), (500, String::from("Failed to parse JSON")));
    }
}

#[test]
fn inbound_request_changes_nothing() {
    let upstreams = [
        answering(200, b"{\"message\":\"https://images.dog.ceo/x.jpg\"}"),
        answering(404, b""),
        answering(200, b"not valid json"),
        UpstreamBehavior::of_call(
            OutboundCallResult::TransportFailure { message: String::from("connection refused") },
            None,
        ),
    ];
    for upstream in &upstreams {
        assert_eq!(handle(&get(), upstream), handle(&post_with_body(), upstream));
    }
    assert_eq!(outbound_request(&get()), outbound_request(&post_with_body()));
    assert_eq!(outbound_request(&post_with_body()), OutboundTarget::fixed());
}

#[test]
fn outbound_request_is_the_fixed_secure_lookup() {
    let target = OutboundTarget::fixed();
    assert_eq!(target.scheme, Scheme::Https);
    assert_eq!(target.authority, "dog.ceo");
    assert_eq!(target.path_with_query, "/api/breeds/image/random");
    assert!(!target.path_with_query.contains('?'));
    assert_eq!(
        decide(Event::Received),
        Decision::Perform(Action::BuildRequest(OutboundTarget::fixed()))
    );
}

#[test]
fn repeated_invocations_give_the_same_response() {
    let upstreams = [
        answering(200, b"{\"message\":\"https://images.dog.ceo/x.jpg\"}"),
        answering(404, b"gone"),
        answering(200, b"{}"),
        answering(1000, b""),
    ];
    for upstream in &upstreams {
        let first = handle(&get(), upstream);
        let second = handle(&get(), upstream);
        let third = handle(&get(), upstream);
        assert_eq!(first, second);
        assert_eq!(second, third);
    }
}

#[test]
fn every_response_has_a_status_from_100_to_999() {
    for status in [0u16, 99, 100, 200, 404, 999, 1000, 40000, 65535] {
        for body in [&b"{\"message\":\"m\"}"[..], &b"{}"[..]] {
            let response = handle(&get(), &answering(status, body));
            assert!((100..=999).contains(&response.status()));
        }
    }
}

#[test]
fn refused_part_ends_the_invocation_before_dispatch() {
    for (part, text) in [
        (dog_fetcher::request::RequestPart::Scheme, "Failed to set scheme"),
        (dog_fetcher::request::RequestPart::Authority, "Failed to set authority"),
        (dog_fetcher::request::RequestPart::Path, "Failed to set path"),
    ] {
        let upstream = UpstreamBehavior {
            construction: Construction::Refused(part),
            submission: Submission::Accepted,
            resolution: Resolution::Ready(200),
            body: BodyRead::Complete(b"{\"message\":\"x\"}".to_vec()),
            decoded: decode(b"{\"message\":\"x\"}"),
        };
        let (actions, response) = drive(&upstream);
        assert_eq!(actions, vec![Action::BuildRequest(OutboundTarget::fixed())]);
        assert_eq!(parts(response), (500, String::from(text)));
        assert_eq!(parts(handle(&get(), &upstream)), (500, String::from(text)));
    }
}

#[test]
fn unresolved_response_is_an_internal_fault() {
    for (resolution, text) in [
        (Resolution::Missing, "Response missing"),
        (Resolution::Consumed, "Response already consumed"),
        (Resolution::Failed(String::from("connection reset")), "Request failed: connection reset"),
    ] {
        let upstream = UpstreamBehavior {
            construction: Construction::Complete,
            submission: Submission::Accepted,
            resolution,
            body: BodyRead::Complete(Vec::new()),
            decoded: None,
        };
        let (actions, response) = drive(&upstream);
        assert_eq!(
            actions,
            vec![
                Action::BuildRequest(OutboundTarget::fixed()),
                Action::Dispatch,
                Action::AwaitResponse
            ]
        );
        assert_eq!(parts(response), (500, String::from(text)));
        assert_eq!(parts(handle(&get(), &upstream)), (500, String::from(text)));
    }
}

#[test]
fn unreadable_body_is_an_internal_fault() {
    for (body, text) in [
        (BodyRead::Unavailable, "Failed to get response body"),
        (BodyRead::StreamUnavailable, "Failed to get response stream"),
        (BodyRead::Failed, "Failed to read response"),
    ] {
        let upstream = UpstreamBehavior {
            construction: Construction::Complete,
            submission: Submission::Accepted,
            resolution: Resolution::Ready(200),
            body,
            decoded: decode(b"{\"message\":\"x\"}"),
        };
        let (actions, response) = drive(&upstream);
        assert_eq!(actions.len(), 4);
        assert_eq!(actions[3], Action::ReadBody);
        assert_eq!(parts(response), (500, String::from(text)));
        assert_eq!(parts(handle(&get(), &upstream)), (500, String::from(text)));
    }
}

#[test]
fn body_is_read_only_of_a_200_answer() {
    let (actions, response) = drive(&answering(404, b"{\"message\":\"x\"}"));
    assert_eq!(
        actions,
        vec![Action::BuildRequest(OutboundTarget::fixed()), Action::Dispatch, Action::AwaitResponse]
    );
    assert_eq!(response.status(), 404);

    let body = b"{\"message\":\"https://images.dog.ceo/x.jpg\"}";
    let (actions, response) = drive(&answering(200, body));
    assert_eq!(
        actions,
        vec![
            Action::BuildRequest(OutboundTarget::fixed()),
            Action::Dispatch,
            Action::AwaitResponse,
            Action::ReadBody,
            Action::Decode(body.to_vec()),
        ]
    );
    assert_eq!(parts(response), (200, String::from("https://images.dog.ceo/x.jpg")));
}

#[test]
fn failed_send_is_never_waited_for() {
    let upstream = UpstreamBehavior {
        construction: Construction::Complete,
        submission: Submission::Failed(String::from("name resolution failed")),
        resolution: Resolution::Ready(200),
        body: BodyRead::Complete(b"{\"message\":\"x\"}".to_vec()),
        decoded: decode(b"{\"message\":\"x\"}"),
    };
    let (actions, response) = drive(&upstream);
    assert_eq!(actions, vec![Action::BuildRequest(OutboundTarget::fixed()), Action::Dispatch]);
    assert_eq!(
        parts(response),
        (500, String::from("Error fetching dog: name resolution failed"))
    );
}

#[test]
fn step_by_step_and_all_at_once_agree() {
    let upstreams = [
        answering(200, b"{\"message\":\"https://images.dog.ceo/x.jpg\"}"),
        answering(200, b"[1, 2"),
        answering(204, b""),
        answering(99, b""),
        UpstreamBehavior::of_call(
            OutboundCallResult::TransportFailure { message: String::from("timed out") },
            None,
        ),
    ];
    for upstream in &upstreams {
        let (_, stepped) = drive(upstream);
        assert_eq!(stepped, handle(&get(), upstream));
    }
}
