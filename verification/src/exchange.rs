//! What the host reports back to the handler, step by step, and
//! which fault each report stands for.

use vstd::prelude::*;
use vstd::slice::slice_to_vec;
use vstd::string::StringExecFns;

use crate::fault::{decode_fault, Fault, FaultKind, FaultModel};
use crate::request::RequestPart;
use crate::response::OK;
use crate::text::{decimal, decimal_text};

verus! {

/// An optional value as a mathematical value.
pub open spec fn option_view<T: View>(value: Option<T>) -> Option<T::V> {
    match value {
        Some(inner) => Some(inner@),
        None => None,
    }
}

/// A result as a mathematical value.
pub open spec fn result_view<T: View, E: View>(value: Result<T, E>) -> Result<T::V, E::V> {
    match value {
        Ok(inner) => Ok(inner@),
        Err(error) => Err(error@),
    }
}

/// How building the outbound request went.
#[derive(Clone, Copy, Debug, PartialEq, Eq)]
pub enum Construction {
    /// Every part was set.
    Complete,
    /// This part was refused; the parts after it were not tried.
    Refused(RequestPart),
}

/// How handing the request to the dispatch capability went.
#[derive(Debug, PartialEq, Eq)]
pub enum Submission {
    /// The request is on its way.
    Accepted,
    /// The request could not be sent, for the reason given.
    Failed(String),
}

/// A `Submission` as a mathematical value.
pub enum SubmissionModel {
    Accepted,
    Failed(Seq<char>),
}

impl View for Submission {
    type V = SubmissionModel;

    open spec fn view(&self) -> SubmissionModel {
        match self {
            Submission::Accepted => SubmissionModel::Accepted,
            Submission::Failed(details) => SubmissionModel::Failed(details@),
        }
    }
}

/// What waiting for the response came to.
#[derive(Debug, PartialEq, Eq)]
pub enum Resolution {
    /// The wait ended and there was still no response.
    Missing,
    /// The response had been taken before.
    Consumed,
    /// The request failed in flight, for the reason given.
    Failed(String),
    /// The upstream answered, with this status.
    Ready(u16),
}

/// A `Resolution` as a mathematical value.
pub enum ResolutionModel {
    Missing,
    Consumed,
    Failed(Seq<char>),
    Ready(u16),
}

impl View for Resolution {
    type V = ResolutionModel;

    open spec fn view(&self) -> ResolutionModel {
        match self {
            Resolution::Missing => ResolutionModel::Missing,
            Resolution::Consumed => ResolutionModel::Consumed,
            Resolution::Failed(details) => ResolutionModel::Failed(details@),
            Resolution::Ready(status) => ResolutionModel::Ready(*status),
        }
    }
}

/// How reading the body of the upstream response went.
#[derive(Debug, PartialEq, Eq)]
pub enum BodyRead {
    /// The response would not give up its body.
    Unavailable,
    /// The body would not give up its stream.
    StreamUnavailable,
    /// The stream broke before its end.
    Failed,
    /// The stream was read to its end and held these bytes.
    Complete(Vec<u8>),
}

/// A `BodyRead` as a mathematical value.
pub enum BodyReadModel {
    Unavailable,
    StreamUnavailable,
    Failed,
    Complete(Seq<u8>),
}

impl View for BodyRead {
    type V = BodyReadModel;

    open spec fn view(&self) -> BodyReadModel {
        match self {
            BodyRead::Unavailable => BodyReadModel::Unavailable,
            BodyRead::StreamUnavailable => BodyReadModel::StreamUnavailable,
            BodyRead::Failed => BodyReadModel::Failed,
            BodyRead::Complete(bytes) => BodyReadModel::Complete(bytes@),
        }
    }
}

/// What the upstream's JSON body holds for the handler: the string under
/// `message`, its one required field.
#[derive(Debug, PartialEq, Eq)]
pub struct DecodedPayload {
    pub message: String,
}

/// A `DecodedPayload` as a mathematical value.
pub struct PayloadModel {
    pub message: Seq<char>,
}

impl View for DecodedPayload {
    type V = PayloadModel;

    open spec fn view(&self) -> PayloadModel {
        PayloadModel { message: self.message@ }
    }
}

/// The words for a part of the request that was refused.
pub open spec fn refusal(part: RequestPart) -> Seq<char> {
    match part {
        RequestPart::Scheme => "Failed to set scheme"@,
        RequestPart::Authority => "Failed to set authority"@,
        RequestPart::Path => "Failed to set path"@,
    }
}

/// The fault that a construction stands for, if it stands for one.
pub open spec fn construction_fault(construction: Construction) -> Option<FaultModel> {
    match construction {
        Construction::Complete => None,
        Construction::Refused(part) => Some(
            FaultModel { kind: FaultKind::Construction, message: refusal(part) },
        ),
    }
}

/// The fault that a submission stands for, if it stands for one.
pub open spec fn submission_fault(submission: SubmissionModel) -> Option<FaultModel> {
    match submission {
        SubmissionModel::Accepted => None,
        SubmissionModel::Failed(details) => Some(
            FaultModel { kind: FaultKind::Dispatch, message: "Error fetching dog: "@ + details },
        ),
    }
}

/// The fault that a resolution stands for, if it stands for one. Only an
/// answer with status 200 stands for none.
pub open spec fn resolution_fault(resolution: ResolutionModel) -> Option<FaultModel> {
    match resolution {
        ResolutionModel::Missing => Some(
            FaultModel { kind: FaultKind::Resolution, message: "Response missing"@ },
        ),
        ResolutionModel::Consumed => Some(
            FaultModel { kind: FaultKind::Resolution, message: "Response already consumed"@ },
        ),
        ResolutionModel::Failed(details) => Some(
            FaultModel { kind: FaultKind::Resolution, message: "Request failed: "@ + details },
        ),
        ResolutionModel::Ready(status) => if status == OK {
            None
        } else {
            Some(
                FaultModel {
                    kind: FaultKind::UpstreamStatus(status),
                    message: "HTTP request failed with status code "@ + decimal(status as nat),
                },
            )
        },
    }
}

/// The bytes that a read of the body brought, or the fault that it stands
/// for.
pub open spec fn body_bytes(read: BodyReadModel) -> Result<Seq<u8>, FaultModel> {
    match read {
        BodyReadModel::Unavailable => Err(
            FaultModel { kind: FaultKind::BodyRead, message: "Failed to get response body"@ },
        ),
        BodyReadModel::StreamUnavailable => Err(
            FaultModel { kind: FaultKind::BodyRead, message: "Failed to get response stream"@ },
        ),
        BodyReadModel::Failed => Err(
            FaultModel { kind: FaultKind::BodyRead, message: "Failed to read response"@ },
        ),
        BodyReadModel::Complete(bytes) => Ok(bytes),
    }
}

/// The payload that decoding the body brought, or the fault of a body that
/// does not decode.
pub open spec fn payload_or_fault(decoded: Option<PayloadModel>) -> Result<
    PayloadModel,
    FaultModel,
> {
    match decoded {
        Some(payload) => Ok(payload),
        None => Err(decode_fault()),
    }
}

impl Construction {
    /// The fault that this construction stands for, if it stands for one.
    pub fn fault(&self) -> (fault: Option<Fault>)
        ensures
            option_view(fault) == construction_fault(*self),
    {
        match self {
            Construction::Complete => None,
            Construction::Refused(part) => {
                let message = match part {
                    RequestPart::Scheme => String::from_str("Failed to set scheme"),
                    RequestPart::Authority => String::from_str("Failed to set authority"),
                    RequestPart::Path => String::from_str("Failed to set path"),
                };
                Some(Fault { kind: FaultKind::Construction, message })
            },
        }
    }
}

impl Submission {
    /// The fault that this submission stands for, if it stands for one.
    pub fn fault(&self) -> (fault: Option<Fault>)
        ensures
            option_view(fault) == submission_fault(self@),
    {
        match self {
            Submission::Accepted => None,
            Submission::Failed(details) => {
                let message = String::from_str("Error fetching dog: ").concat(details.as_str());
                Some(Fault { kind: FaultKind::Dispatch, message })
            },
        }
    }
}

impl Clone for Submission {
    fn clone(&self) -> (copy: Submission)
        ensures
            copy@ == self@,
    {
        match self {
            Submission::Accepted => Submission::Accepted,
            Submission::Failed(details) => Submission::Failed(details.clone()),
        }
    }
}

impl Resolution {
    /// The fault that this resolution stands for, if it stands for one.
    pub fn fault(&self) -> (fault: Option<Fault>)
        ensures
            option_view(fault) == resolution_fault(self@),
    {
        match self {
            Resolution::Missing => Some(
                Fault { kind: FaultKind::Resolution, message: String::from_str("Response missing") },
            ),
            Resolution::Consumed => Some(
                Fault {
                    kind: FaultKind::Resolution,
                    message: String::from_str("Response already consumed"),
                },
            ),
            Resolution::Failed(details) => {
                let message = String::from_str("Request failed: ").concat(details.as_str());
                Some(Fault { kind: FaultKind::Resolution, message })
            },
            Resolution::Ready(status) => {
                if *status == OK {
                    None
                } else {
                    let number = decimal_text(*status);
                    let message = String::from_str("HTTP request failed with status code ").concat(
                        number.as_str(),
                    );
                    Some(Fault { kind: FaultKind::UpstreamStatus(*status), message })
                }
            },
        }
    }
}

impl Clone for Resolution {
    fn clone(&self) -> (copy: Resolution)
        ensures
            copy@ == self@,
    {
        match self {
            Resolution::Missing => Resolution::Missing,
            Resolution::Consumed => Resolution::Consumed,
            Resolution::Failed(details) => Resolution::Failed(details.clone()),
            Resolution::Ready(status) => Resolution::Ready(*status),
        }
    }
}

impl BodyRead {
    /// The bytes that this read brought, or the fault that it stands for.
    pub fn into_bytes(self) -> (bytes: Result<Vec<u8>, Fault>)
        ensures
            result_view(bytes) == body_bytes(self@),
    {
        match self {
            BodyRead::Unavailable => Err(
                Fault {
                    kind: FaultKind::BodyRead,
                    message: String::from_str("Failed to get response body"),
                },
            ),
            BodyRead::StreamUnavailable => Err(
                Fault {
                    kind: FaultKind::BodyRead,
                    message: String::from_str("Failed to get response stream"),
                },
            ),
            BodyRead::Failed => Err(
                Fault {
                    kind: FaultKind::BodyRead,
                    message: String::from_str("Failed to read response"),
                },
            ),
            BodyRead::Complete(bytes) => Ok(bytes),
        }
    }
}

impl Clone for BodyRead {
    fn clone(&self) -> (copy: BodyRead)
        ensures
            copy@ == self@,
    {
        match self {
            BodyRead::Unavailable => BodyRead::Unavailable,
            BodyRead::StreamUnavailable => BodyRead::StreamUnavailable,
            BodyRead::Failed => BodyRead::Failed,
            BodyRead::Complete(bytes) => BodyRead::Complete(slice_to_vec(bytes.as_slice())),
        }
    }
}

impl DecodedPayload {
    /// The payload that decoding the body brought, or the fault of a body
    /// that does not decode.
    pub fn or_fault(decoded: Option<DecodedPayload>) -> (payload: Result<DecodedPayload, Fault>)
        ensures
            result_view(payload) == payload_or_fault(option_view(decoded)),
    {
        match decoded {
            Some(payload) => Ok(payload),
            None => Err(Fault::undecodable()),
        }
    }
}

impl Clone for DecodedPayload {
    fn clone(&self) -> (copy: DecodedPayload)
        ensures
            copy@ == self@,
    {
        DecodedPayload { message: self.message.clone() }
    }
}

} // verus!
