//! What is asked of the event service and how its answers are judged.

use crate::id::{is_id_text, uuid_of_text};
use crate::postprocessing::Outcome;
use crate::segments::Segments;
use crate::text::{append_number, number_text};
use crate::class::Time;
use crate::time::Timestamp;
use rand::distributions::{Alphanumeric, DistString};
use vstd::prelude::*;

verus! {

/// Why a call to another service failed.
#[derive(Clone, Debug, PartialEq, Eq)]
pub enum ClientError {
    /// The agent could not send the request.
    AgentError(String),
    /// The answer is not what the request asks for.
    PayloadError(String),
    /// No answer came in time.
    TimeoutError,
    /// The transport failed.
    HttpError(String),
}

/// The number of characters of the data that tells the answers to requests apart.
pub const CORRELATION_DATA_LENGTH: usize = 16;

/// Whether `c` is an ASCII letter or digit.
pub open spec fn is_alphanumeric(c: char) -> bool {
    ('0' <= c && c <= '9') || ('a' <= c && c <= 'z') || ('A' <= c && c <= 'Z')
}

/// A text of `len` characters as `rand::distributions::DistString::sample_string`
/// draws it for `Alphanumeric` from `rand::thread_rng()`: each character is an
/// ASCII letter or digit.  Which ones is left to chance.
#[verifier::external_body]
fn random_alphanumeric(len: usize) -> (res: String)
    ensures
        res@.len() == len,
        forall|i: int| 0 <= i < res@.len() ==> is_alphanumeric(#[trigger] res@[i]),
{
    Alphanumeric.sample_string(&mut rand::thread_rng(), len)
}

/// Fresh data to tell the answer to a request apart from other answers:
/// sixteen random letters and digits.
pub fn generate_correlation_data() -> (res: String)
    ensures
        res@.len() == CORRELATION_DATA_LENGTH,
        forall|i: int| 0 <= i < res@.len() ==> is_alphanumeric(#[trigger] res@[i]),
{
    random_alphanumeric(CORRELATION_DATA_LENGTH)
}

/// What is asked of the event service.
#[derive(Clone, Debug, PartialEq, Eq)]
pub enum EventRequest {
    ReadRoom { id: u128 },
    CreateRoom { time: Time, audience: String, preserve_history: Option<bool>, tags: Option<String> },
    UpdateRoom { id: u128, time: Option<Time>, classroom_id: Option<u128> },
    AdjustRoom { id: u128, started_at: Timestamp, segments: Segments, offset: i64 },
    ListEvents { room_id: u128, kind: String },
    LockChat { room_id: u128 },
}

/// The properties that a request is sent with.
#[derive(Clone, Debug, PartialEq, Eq)]
pub struct RequestProperties {
    pub method: String,
    pub response_topic: String,
    pub correlation_data: String,
}

/// The method that a request is sent under.  An update of a room goes under
/// the method of its creation.
pub open spec fn method_of(request: EventRequest) -> Seq<char> {
    match request {
        EventRequest::ReadRoom { .. } => "room.read"@,
        EventRequest::CreateRoom { .. } => "room.create"@,
        EventRequest::UpdateRoom { .. } => "room.create"@,
        EventRequest::AdjustRoom { .. } => "room.adjust"@,
        EventRequest::ListEvents { .. } => "event.list"@,
        EventRequest::LockChat { .. } => "event.create"@,
    }
}

/// The status that answers a request for which only the status counts.
pub open spec fn expected_status(request: EventRequest) -> Option<u16> {
    match request {
        EventRequest::ReadRoom { .. } => None,
        EventRequest::CreateRoom { .. } => None,
        EventRequest::UpdateRoom { .. } => Some(200u16),
        EventRequest::AdjustRoom { .. } => Some(202u16),
        EventRequest::ListEvents { .. } => None,
        EventRequest::LockChat { .. } => Some(201u16),
    }
}

/// What is said of an answer with the status `got` to a request that
/// expects another one.
pub open spec fn wrong_status_text(request: EventRequest, got: u16) -> Seq<char> {
    match request {
        EventRequest::UpdateRoom { .. } => "Event room update returned non 200 status"@,
        EventRequest::AdjustRoom { .. } => "Wrong status, expected 202, got "@ + number_text(
            got as nat,
        ),
        EventRequest::LockChat { .. } => "Wrong status, expected 201, got "@ + number_text(
            got as nat,
        ),
        _ => Seq::empty(),
    }
}

impl EventRequest {
    /// The method that the request is sent under.
    pub fn method(&self) -> (res: &'static str)
        ensures
            res@ == method_of(*self),
    {
        match self {
            EventRequest::ReadRoom { .. } => "room.read",
            EventRequest::CreateRoom { .. } => "room.create",
            EventRequest::UpdateRoom { .. } => "room.create",
            EventRequest::AdjustRoom { .. } => "room.adjust",
            EventRequest::ListEvents { .. } => "event.list",
            EventRequest::LockChat { .. } => "event.create",
        }
    }

    /// The properties to send the request with: its method, the topic for
    /// the answer and fresh correlation data.
    pub fn build_reqp(&self, response_topic: &str) -> (res: RequestProperties)
        ensures
            res.method@ == method_of(*self),
            res.response_topic@ == response_topic@,
            res.correlation_data@.len() == CORRELATION_DATA_LENGTH,
            forall|i: int|
                0 <= i < res.correlation_data@.len() ==> is_alphanumeric(
                    #[trigger] res.correlation_data@[i],
                ),
    {
        RequestProperties {
            method: self.method().to_owned(),
            response_topic: response_topic.to_owned(),
            correlation_data: generate_correlation_data(),
        }
    }

    /// Judges the status of the answer.  A request that expects a status
    /// fails on any other one; the others take every status.
    pub fn check_status(&self, status: u16) -> (res: Result<(), ClientError>)
        ensures
            res is Ok <==> (expected_status(*self) matches Some(expected) ==> status == expected),
            res matches Err(e) ==> (e matches ClientError::PayloadError(text) && text@
                == wrong_status_text(*self, status)),
    {
        match self {
            EventRequest::UpdateRoom { .. } => {
                if status == 200 {
                    Ok(())
                } else {
                    Err(
                        ClientError::PayloadError(
                            "Event room update returned non 200 status".to_owned(),
                        ),
                    )
                }
            },
            EventRequest::AdjustRoom { .. } => {
                if status == 202 {
                    Ok(())
                } else {
                    let mut text = String::from_str("Wrong status, expected 202, got ");
                    append_number(&mut text, status as u64);
                    Err(ClientError::PayloadError(text))
                }
            },
            EventRequest::LockChat { .. } => {
                if status == 201 {
                    Ok(())
                } else {
                    let mut text = String::from_str("Wrong status, expected 201, got ");
                    append_number(&mut text, status as u64);
                    Err(ClientError::PayloadError(text))
                }
            },
            _ => Ok(()),
        }
    }
}

/// The identifier of the room that an answer to the creation of a room
/// names in its member `id`.  Fails if the member is missing or cannot be read
/// as an identifier.
pub fn created_room_id(id: Option<&str>) -> (res: Result<u128, ClientError>)
    ensures
        res is Ok <==> (id matches Some(text) && is_id_text(text@)),
        res matches Ok(room_id) ==> (id matches Some(text) && uuid_of_text(text@) == Some(
            room_id,
        )),
        res matches Err(e) ==> e is PayloadError,
        id is None ==> (res matches Err(ClientError::PayloadError(text)) && text@
            == "Missing id field in room.create response"@),
{
    match id {
        Some(text) => match crate::id::read_id(text) {
            Ok(room_id) => Ok(room_id),
            Err(reason) => Err(ClientError::PayloadError(reason)),
        },
        None => Err(
            ClientError::PayloadError("Missing id field in room.create response".to_owned()),
        ),
    }
}

/// What the pipeline is told of a call that failed with `error`: that it
/// timed out if it did, that it failed otherwise.
pub fn outcome_of(error: &ClientError) -> (res: Outcome)
    ensures
        res == if error is TimeoutError {
            Outcome::TimedOut
        } else {
            Outcome::Failed
        },
{
    match error {
        ClientError::TimeoutError => Outcome::TimedOut,
        _ => Outcome::Failed,
    }
}

} // verus!
