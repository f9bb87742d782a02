//! The decisions behind the HTTP interface: which rooms a class is created
//! with, which objects a request is authorized against, where a recording
//! can be downloaded.

use crate::agent::AccountId;
use crate::class::{Object as Class, Time};
use crate::id::{hyphenated, to_text};
use crate::queries::{MinigroupInsertQuery, RecreateQuery};
use crate::recording::Recording;
use crate::time::{Bound, Timestamp};
use percent_encoding::{percent_encode, NON_ALPHANUMERIC};
use vstd::prelude::*;
use vstd::string::StringSliceAdditionalSpecFns;

verus! {

/// Where the storage of transcoded recordings is reached.
#[derive(Clone, Debug, PartialEq, Eq)]
pub struct StorageConfig {
    /// The host of the storage service.
    pub base_url: String,
}

/// The address of the transcoded recording of a webinar.
pub open spec fn download_url(base_url: Seq<char>, audience: Seq<char>, rtc_id: u128) -> Seq<char> {
    "https://"@ + base_url + "/api/v2/backends/yandex/sets/ms.webinar."@ + audience + "::"@
        + hyphenated(rtc_id) + "/objects/mp4"@
}

/// The address at which the transcoded `recording` of `webinar` can be
/// downloaded from the storage.
pub fn format_url(config: &StorageConfig, webinar: &Class, recording: &Recording) -> (url: String)
    ensures
        url@ == download_url(config.base_url@, webinar.audience@, recording.rtc_id),
{
    let mut url = String::from_str("https://");
    url.append(config.base_url.as_str());
    url.append("/api/v2/backends/yandex/sets/ms.webinar.");
    url.append(webinar.audience());
    url.append("::");
    let id = to_text(recording.rtc_id());
    url.append(id.as_str());
    url.append("/objects/mp4");
    url
}

/// The object that a request on a class is authorized against: its
/// namespace, then the text of the identifier of the class.
pub open spec fn object_of(namespace: Seq<char>, id: u128) -> Seq<Seq<char>> {
    seq![namespace, hyphenated(id)]
}

/// The texts in `items`, as sequences of characters.
pub open spec fn texts(items: Seq<String>) -> Seq<Seq<char>> {
    Seq::new(items.len(), |i: int| items[i]@)
}

/// The object that a request on the classroom `id` is authorized against.
pub fn classroom_object(id: u128) -> (object: Vec<String>)
    ensures
        texts(object@) == object_of("classrooms"@, id),
{
    let mut object: Vec<String> = Vec::new();
    object.push("classrooms".to_owned());
    object.push(to_text(id));
    object
}

/// The object that a download of the webinar `id` is authorized against.
pub fn webinar_object(id: u128) -> (object: Vec<String>)
    ensures
        texts(object@) == object_of("webinars"@, id),
{
    let mut object: Vec<String> = Vec::new();
    object.push("webinars".to_owned());
    object.push(to_text(id));
    object
}

/// What a request to create a minigroup asks for.
#[derive(Clone, Debug, PartialEq, Eq)]
pub struct MinigroupCreatePayload {
    pub scope: String,
    pub audience: String,
    pub host: AccountId,
    pub time: Option<Time>,
    pub tags: Option<String>,
    pub reserve: Option<i32>,
    pub locked_chat: bool,
}

/// The room to ask the conference service for.
#[derive(Clone, Debug, PartialEq, Eq)]
pub struct ConferenceRoomRequest {
    pub time: Time,
    pub audience: String,
    pub policy: Option<String>,
    pub reserve: Option<i32>,
    pub tags: Option<String>,
}

/// The room to ask the event service for.
#[derive(Clone, Debug, PartialEq, Eq)]
pub struct EventRoomRequest {
    pub time: Time,
    pub audience: String,
    pub preserve_history: Option<bool>,
    pub tags: Option<String>,
}

/// The time of the conference room of a class: it opens when the class
/// starts, or `now` where the class has no start, and has no end.
pub open spec fn conference_time_of(start: Bound, now: Timestamp) -> Time {
    match start {
        Bound::Included(t) => Time { start: Bound::Included(t), end: Bound::Unbounded },
        Bound::Excluded(t) => Time { start: Bound::Included(t), end: Bound::Unbounded },
        Bound::Unbounded => Time { start: Bound::Included(now), end: Bound::Unbounded },
    }
}

/// The time of the conference room of a class that starts at `start`.
pub fn conference_time(start: Bound, now: Timestamp) -> (time: Time)
    ensures
        time == conference_time_of(start, now),
{
    match start {
        Bound::Included(t) => Time { start: Bound::Included(t), end: Bound::Unbounded },
        Bound::Excluded(t) => Time { start: Bound::Included(t), end: Bound::Unbounded },
        Bound::Unbounded => Time { start: Bound::Included(now), end: Bound::Unbounded },
    }
}

/// The time of the event room of a class: it opens `now` and has no end.
pub fn event_time(now: Timestamp) -> (time: Time)
    ensures
        time == (Time { start: Bound::Included(now), end: Bound::Unbounded }),
{
    Time { start: Bound::Included(now), end: Bound::Unbounded }
}

/// The start of a time that may be missing.
pub open spec fn start_of(time: Option<Time>) -> Bound {
    match time {
        Some(time) => time.start,
        None => Bound::Unbounded,
    }
}

/// A copy of a text that may be missing.
fn copy_of(text: &Option<String>) -> (res: Option<String>)
    ensures
        res == *text,
{
    match text {
        Some(text) => Some(text.clone()),
        None => None,
    }
}

/// The rooms that a new minigroup needs: an event room that keeps its
/// history, and a conference room owned by its creator.
pub fn minigroup_rooms(body: &MinigroupCreatePayload, now: Timestamp) -> (rooms: (
    EventRoomRequest,
    ConferenceRoomRequest,
))
    ensures
        rooms.0 == (EventRoomRequest {
            time: Time { start: Bound::Included(now), end: Bound::Unbounded },
            audience: body.audience,
            preserve_history: Some(true),
            tags: body.tags,
        }),
        rooms.1.time == conference_time_of(start_of(body.time), now),
        rooms.1.audience == body.audience,
        rooms.1.policy matches Some(policy) && policy@ == "owned"@,
        rooms.1.reserve == body.reserve,
        rooms.1.tags == body.tags,
{
    let start = match body.time {
        Some(time) => time.start,
        None => Bound::Unbounded,
    };
    let conference = ConferenceRoomRequest {
        time: conference_time(start, now),
        audience: body.audience.clone(),
        policy: Some("owned".to_owned()),
        reserve: body.reserve,
        tags: copy_of(&body.tags),
    };
    let event = EventRoomRequest {
        time: event_time(now),
        audience: body.audience.clone(),
        preserve_history: Some(true),
        tags: copy_of(&body.tags),
    };
    (event, conference)
}

/// The row of a new minigroup whose rooms were created: its time is the one
/// asked for, or unbounded on both ends where none was.
pub fn minigroup_insert(body: MinigroupCreatePayload, conference_room_id: u128, event_room_id: u128) -> (query:
    MinigroupInsertQuery)
    ensures
        query == (MinigroupInsertQuery {
            scope: body.scope,
            audience: body.audience,
            time: match body.time {
                Some(time) => time,
                None => Time { start: Bound::Unbounded, end: Bound::Unbounded },
            },
            host: body.host,
            tags: body.tags,
            preserve_history: true,
            reserve: body.reserve,
            conference_room_id,
            event_room_id,
        }),
{
    let time = match body.time {
        Some(time) => time,
        None => Time { start: Bound::Unbounded, end: Bound::Unbounded },
    };
    let query = MinigroupInsertQuery::new(
        body.scope,
        body.audience,
        time,
        body.host,
        conference_room_id,
        event_room_id,
    );
    let query = match body.tags {
        Some(tags) => query.tags(tags),
        None => query,
    };
    match body.reserve {
        Some(reserve) => query.reserve(reserve),
        None => query,
    }
}

/// What a room is told of its class after the room was created.
#[derive(Clone, Copy, Debug, PartialEq, Eq)]
pub struct RoomUpdate {
    /// The room that is told.
    pub id: u128,
    /// The new time of the room, where it changes.
    pub time: Option<Time>,
    /// The class that the room belongs to, where it is told so.
    pub classroom_id: Option<u128>,
}

/// What the rooms of a class are told once the class is stored: the event
/// room and, where there is one, the conference room learn the identity of
/// the class; their times stay as they are.
pub fn update_classroom_id(classroom_id: u128, event_room_id: u128, conference_room_id: Option<u128>) -> (updates:
    (RoomUpdate, Option<RoomUpdate>))
    ensures
        updates.0 == (RoomUpdate {
            id: event_room_id,
            time: None,
            classroom_id: Some(classroom_id),
        }),
        updates.1 == match conference_room_id {
            Some(id) => Some(RoomUpdate { id, time: None, classroom_id: Some(classroom_id) }),
            None => None,
        },
{
    let event = RoomUpdate { id: event_room_id, time: None, classroom_id: Some(classroom_id) };
    let conference = match conference_room_id {
        Some(id) => Some(RoomUpdate { id, time: None, classroom_id: Some(classroom_id) }),
        None => None,
    };
    (event, conference)
}

/// The rooms that a class needs when it is created anew for `time`: an event
/// room that keeps its history, and a shared conference room.
pub fn create_event_and_conference(class: &Class, time: &Time, now: Timestamp) -> (rooms: (
    EventRoomRequest,
    ConferenceRoomRequest,
))
    ensures
        rooms.0 == (EventRoomRequest {
            time: Time { start: Bound::Included(now), end: Bound::Unbounded },
            audience: class.audience,
            preserve_history: Some(true),
            tags: class.tags,
        }),
        rooms.1.time == conference_time_of(time.start, now),
        rooms.1.audience == class.audience,
        rooms.1.policy matches Some(policy) && policy@ == "shared"@,
        rooms.1.reserve == class.reserve,
        rooms.1.tags == class.tags,
{
    let conference = ConferenceRoomRequest {
        time: conference_time(time.start, now),
        audience: class.audience.clone(),
        policy: Some("shared".to_owned()),
        reserve: class.reserve(),
        tags: copy_of(&class.tags),
    };
    let event = EventRoomRequest {
        time: event_time(now),
        audience: class.audience.clone(),
        preserve_history: Some(true),
        tags: copy_of(&class.tags),
    };
    (event, conference)
}

/// The update that gives `class` its new time and its new rooms.  The
/// recordings of the class are to be deleted in the same transaction.
pub fn recreate(class: &Class, time: Option<Time>, event_room_id: u128, conference_room_id: u128) -> (query:
    RecreateQuery)
    ensures
        query == (RecreateQuery {
            id: class.id,
            time: match time {
                Some(time) => time,
                None => Time { start: Bound::Unbounded, end: Bound::Unbounded },
            },
            event_room_id,
            conference_room_id,
        }),
{
    let time = match time {
        Some(time) => time,
        None => Time { start: Bound::Unbounded, end: Bound::Unbounded },
    };
    RecreateQuery::new(class.id(), time, event_room_id, conference_room_id)
}

/// The upper-case hexadecimal digit for `n`, which is below sixteen.
pub open spec fn upper_hex(n: u8) -> char {
    if n < 10 {
        (48 + n) as u8 as char
    } else {
        (55 + n) as u8 as char
    }
}

/// Whether `b` is an ASCII letter or digit.
pub open spec fn is_ascii_alphanumeric(b: u8) -> bool {
    (48 <= b <= 57) || (65 <= b <= 90) || (97 <= b <= 122)
}

/// A byte as it stands in a percent-encoded text: a letter or a digit as it
/// is, any other byte as a percent sign and its two hexadecimal digits.
pub open spec fn percent_encoded_byte(b: u8) -> Seq<char> {
    if is_ascii_alphanumeric(b) {
        seq![b as char]
    } else {
        seq!['%', upper_hex(b / 16), upper_hex(b % 16)]
    }
}

/// The bytes one after the other, each percent-encoded.
pub open spec fn percent_encoded(bytes: Seq<u8>) -> Seq<char>
    decreases bytes.len(),
{
    if bytes.len() == 0 {
        Seq::empty()
    } else {
        percent_encoded(bytes.drop_last()) + percent_encoded_byte(bytes.last())
    }
}

/// The bytes of `text` as `percent_encoding::percent_encode` writes them
/// with the set `NON_ALPHANUMERIC`: every byte that is no ASCII letter or
/// digit becomes a percent sign and two upper-case hexadecimal digits.
#[verifier::external_body]
fn percent_encode_text(text: &str) -> (res: String)
    ensures
        res@ == percent_encoded(text.spec_bytes()),
{
    percent_encode(text.as_bytes(), NON_ALPHANUMERIC).to_string()
}

/// The address to come back to, as it is handed to a frontend in the
/// parameter `backurl`: percent-encoded but for its letters and digits.
pub fn encode_back_url(back_url: &str) -> (res: String)
    ensures
        res@ == percent_encoded(back_url.spec_bytes()),
{
    percent_encode_text(back_url)
}

} // verus!
