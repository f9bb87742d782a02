//! Classes: the schedulable sessions whose recordings are post-processed.

use crate::agent::AccountId;
use crate::time::{Bound, BoundedDateTimeTuple, Timestamp};
use vstd::prelude::*;

verus! {

/// The kind of a class.
#[derive(Clone, Copy, Debug, PartialEq, Eq, Structural)]
pub enum ClassType {
    Webinar,
    P2P,
    Minigroup,
}

/// Marker of the webinar kind.
pub struct WebinarType;

/// Marker of the p2p kind.
pub struct P2PType;

/// Marker of the minigroup kind.
pub struct MinigroupType;

/// A marker type that stands for one kind of class.
pub trait AsClassType {
    /// The kind that the marker stands for.
    spec fn class_type() -> ClassType;

    /// The name of the kind.
    spec fn name() -> Seq<char>;

    /// The kind that the marker stands for.
    fn as_class_type() -> (res: ClassType)
        ensures
            res == Self::class_type(),
    ;

    /// The name of the kind, in lower case.
    fn to_str() -> (res: &'static str)
        ensures
            res@ == Self::name(),
    ;
}

impl AsClassType for WebinarType {
    open spec fn class_type() -> ClassType {
        ClassType::Webinar
    }

    open spec fn name() -> Seq<char> {
        "webinar"@
    }

    fn as_class_type() -> (res: ClassType) {
        ClassType::Webinar
    }

    fn to_str() -> (res: &'static str) {
        "webinar"
    }
}

impl AsClassType for P2PType {
    open spec fn class_type() -> ClassType {
        ClassType::P2P
    }

    open spec fn name() -> Seq<char> {
        "p2p"@
    }

    fn as_class_type() -> (res: ClassType) {
        ClassType::P2P
    }

    fn to_str() -> (res: &'static str) {
        "p2p"
    }
}

impl AsClassType for MinigroupType {
    open spec fn class_type() -> ClassType {
        ClassType::Minigroup
    }

    open spec fn name() -> Seq<char> {
        "minigroup"@
    }

    fn as_class_type() -> (res: ClassType) {
        ClassType::Minigroup
    }

    fn to_str() -> (res: &'static str) {
        "minigroup"
    }
}

/// The name of a kind of class, in lower case.
pub open spec fn class_type_name(kind: ClassType) -> Seq<char> {
    match kind {
        ClassType::Webinar => "webinar"@,
        ClassType::P2P => "p2p"@,
        ClassType::Minigroup => "minigroup"@,
    }
}

impl ClassType {
    /// The name of the kind, in lower case.
    pub fn as_str(self) -> (res: &'static str)
        ensures
            res@ == class_type_name(self),
    {
        match self {
            ClassType::Webinar => WebinarType::to_str(),
            ClassType::P2P => P2PType::to_str(),
            ClassType::Minigroup => MinigroupType::to_str(),
        }
    }
}

/// The time range of a class; either end may be open.
#[derive(Clone, Copy, Debug, PartialEq, Eq)]
pub struct Time {
    pub start: Bound,
    pub end: Bound,
}

impl Time {
    /// The range between the two ends of `time`.
    pub fn from_bounds(time: BoundedDateTimeTuple) -> (res: Time)
        ensures
            res.start == time.0,
            res.end == time.1,
    {
        Time { start: time.0, end: time.1 }
    }

    /// The two ends of the range.
    pub fn to_bounds(self) -> (res: BoundedDateTimeTuple)
        ensures
            res.0 == self.start,
            res.1 == self.end,
    {
        (self.start, self.end)
    }

    /// The instant at which the range ends, whether it belongs to the range or
    /// not; `None` for a range without end.
    pub fn end(&self) -> (res: Option<&Timestamp>)
        ensures
            res == match self.end {
                Bound::Included(t) => Some(&t),
                Bound::Excluded(t) => Some(&t),
                Bound::Unbounded => None,
            },
    {
        match &self.end {
            Bound::Included(t) => Some(t),
            Bound::Excluded(t) => Some(t),
            Bound::Unbounded => None,
        }
    }
}

/// A class as the database holds it.
#[derive(Clone, Debug, PartialEq, Eq)]
pub struct Object {
    pub id: u128,
    pub kind: ClassType,
    /// The key of the class, unique within its audience.
    pub scope: String,
    pub time: Time,
    /// The tenant that the class belongs to.
    pub audience: String,
    pub created_at: Timestamp,
    /// Tags of the tenant's choosing, as JSON text; they are passed on as they are.
    pub tags: Option<String>,
    pub conference_room_id: u128,
    pub event_room_id: u128,
    /// The event room as it was before the adjustment, once that is done.
    pub original_event_room_id: Option<u128>,
    /// The event room that the adjustment produced, once that is done.
    pub modified_event_room_id: Option<u128>,
    pub preserve_history: bool,
    /// How many participants to expect.
    pub reserve: Option<i32>,
    pub room_events_uri: Option<String>,
    /// The account that hosts the class, where it has one.
    pub host: Option<AccountId>,
}

impl Object {
    pub fn id(&self) -> (res: u128)
        ensures
            res == self.id,
    {
        self.id
    }

    pub fn kind(&self) -> (res: ClassType)
        ensures
            res == self.kind,
    {
        self.kind
    }

    pub fn scope(&self) -> (res: &str)
        ensures
            res@ == self.scope@,
    {
        self.scope.as_str()
    }

    pub fn event_room_id(&self) -> (res: u128)
        ensures
            res == self.event_room_id,
    {
        self.event_room_id
    }

    pub fn conference_room_id(&self) -> (res: u128)
        ensures
            res == self.conference_room_id,
    {
        self.conference_room_id
    }

    pub fn audience(&self) -> (res: &str)
        ensures
            res@ == self.audience@,
    {
        self.audience.as_str()
    }

    pub fn tags(&self) -> (res: Option<&String>)
        ensures
            res == match self.tags {
                Some(t) => Some(&t),
                None => None,
            },
    {
        self.tags.as_ref()
    }

    pub fn original_event_room_id(&self) -> (res: Option<u128>)
        ensures
            res == self.original_event_room_id,
    {
        self.original_event_room_id
    }

    pub fn modified_event_room_id(&self) -> (res: Option<u128>)
        ensures
            res == self.modified_event_room_id,
    {
        self.modified_event_room_id
    }

    pub fn reserve(&self) -> (res: Option<i32>)
        ensures
            res == self.reserve,
    {
        self.reserve
    }

    pub fn time(&self) -> (res: &Time)
        ensures
            res == &self.time,
    {
        &self.time
    }

    pub fn room_events_uri(&self) -> (res: Option<&String>)
        ensures
            res == match self.room_events_uri {
                Some(u) => Some(&u),
                None => None,
            },
    {
        self.room_events_uri.as_ref()
    }

    pub fn host(&self) -> (res: Option<&AccountId>)
        ensures
            res == match self.host {
                Some(h) => Some(&h),
                None => None,
            },
    {
        self.host.as_ref()
    }
}

} // verus!
