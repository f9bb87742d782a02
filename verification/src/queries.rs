//! The queries on classes, as data: what to look for, what to store.
//!
//! A query names the columns it filters and sets and the values to bind, in
//! order; running it against the database is left to the host.

use crate::agent::AccountId;
use crate::class::{AsClassType, ClassType, Time};
use crate::time::Bound;
use std::marker::PhantomData;
use vstd::prelude::*;

verus! {

/// What a read query looks a class up by.
#[derive(Clone, Debug, PartialEq, Eq)]
pub enum ReadQueryPredicate {
    Id(u128),
    Scope { audience: String, scope: String },
    ConferenceRoom(u128),
    EventRoom(u128),
}

/// The columns that a predicate filters by, in the order of their values.
pub open spec fn predicate_columns(predicate: ReadQueryPredicate) -> Seq<Seq<char>> {
    match predicate {
        ReadQueryPredicate::Id(_) => seq!["id"@],
        ReadQueryPredicate::Scope { .. } => seq!["audience"@, "scope"@],
        ReadQueryPredicate::ConferenceRoom(_) => seq!["conference_room_id"@],
        ReadQueryPredicate::EventRoom(_) => seq!["event_room_id"@],
    }
}

/// The names in `columns`, as sequences of characters.
pub open spec fn names(columns: Seq<&'static str>) -> Seq<Seq<char>> {
    Seq::new(columns.len(), |i: int| columns[i]@)
}

impl ReadQueryPredicate {
    /// The columns that the predicate filters by, in the order of their values.
    pub fn columns(&self) -> (res: Vec<&'static str>)
        ensures
            names(res@) == predicate_columns(*self),
    {
        let mut columns: Vec<&'static str> = Vec::new();
        match self {
            ReadQueryPredicate::Id(_) => {
                columns.push("id");
            },
            ReadQueryPredicate::Scope { .. } => {
                columns.push("audience");
                columns.push("scope");
            },
            ReadQueryPredicate::ConferenceRoom(_) => {
                columns.push("conference_room_id");
            },
            ReadQueryPredicate::EventRoom(_) => {
                columns.push("event_room_id");
            },
        }
        columns
    }
}

/// Looks up a class of any kind.
#[derive(Clone, Debug, PartialEq, Eq)]
pub struct ReadQuery {
    pub condition: ReadQueryPredicate,
}

impl ReadQuery {
    pub fn by_scope(audience: &str, scope: &str) -> (res: ReadQuery)
        ensures
            res.condition matches ReadQueryPredicate::Scope { audience: a, scope: s } && a@
                == audience@ && s@ == scope@,
    {
        ReadQuery {
            condition: ReadQueryPredicate::Scope {
                audience: audience.to_owned(),
                scope: scope.to_owned(),
            },
        }
    }

    pub fn by_conference_room(id: u128) -> (res: ReadQuery)
        ensures
            res.condition == ReadQueryPredicate::ConferenceRoom(id),
    {
        ReadQuery { condition: ReadQueryPredicate::ConferenceRoom(id) }
    }

    pub fn by_event_room(id: u128) -> (res: ReadQuery)
        ensures
            res.condition == ReadQueryPredicate::EventRoom(id),
    {
        ReadQuery { condition: ReadQueryPredicate::EventRoom(id) }
    }

    pub fn by_id(id: u128) -> (res: ReadQuery)
        ensures
            res.condition == ReadQueryPredicate::Id(id),
    {
        ReadQuery { condition: ReadQueryPredicate::Id(id) }
    }

    /// The columns of the table `class` that the query filters by.
    pub fn columns(&self) -> (res: Vec<&'static str>)
        ensures
            names(res@) == predicate_columns(self.condition),
    {
        self.condition.columns()
    }
}

/// Looks up a class of the kind that `T` stands for.
pub struct GenericReadQuery<T: AsClassType> {
    pub condition: ReadQueryPredicate,
    pub class_type: ClassType,
    pub phantom: PhantomData<T>,
}

impl<T: AsClassType> GenericReadQuery<T> {
    pub fn by_id(id: u128) -> (res: Self)
        ensures
            res.condition == ReadQueryPredicate::Id(id),
            res.class_type == T::class_type(),
    {
        GenericReadQuery {
            condition: ReadQueryPredicate::Id(id),
            class_type: T::as_class_type(),
            phantom: PhantomData,
        }
    }

    pub fn by_scope(audience: &str, scope: &str) -> (res: Self)
        ensures
            res.condition matches ReadQueryPredicate::Scope { audience: a, scope: s } && a@
                == audience@ && s@ == scope@,
            res.class_type == T::class_type(),
    {
        GenericReadQuery {
            condition: ReadQueryPredicate::Scope {
                audience: audience.to_owned(),
                scope: scope.to_owned(),
            },
            class_type: T::as_class_type(),
            phantom: PhantomData,
        }
    }

    /// The columns of the table `class` that the query filters by: those of
    /// its predicate, then the kind.
    pub fn columns(&self) -> (res: Vec<&'static str>)
        ensures
            names(res@) == predicate_columns(self.condition).push("kind"@),
    {
        let mut columns = self.condition.columns();
        columns.push("kind");
        columns
    }
}

/// Looks up a minigroup.
#[derive(Clone, Debug, PartialEq, Eq)]
pub struct MinigroupReadQuery {
    pub condition: ReadQueryPredicate,
}

impl MinigroupReadQuery {
    pub fn by_id(id: u128) -> (res: MinigroupReadQuery)
        ensures
            res.condition == ReadQueryPredicate::Id(id),
    {
        MinigroupReadQuery { condition: ReadQueryPredicate::Id(id) }
    }

    pub fn by_scope(audience: String, scope: String) -> (res: MinigroupReadQuery)
        ensures
            res.condition == (ReadQueryPredicate::Scope { audience, scope }),
    {
        MinigroupReadQuery { condition: ReadQueryPredicate::Scope { audience, scope } }
    }

    /// The kind that the query is restricted to.
    pub fn class_type(&self) -> (res: ClassType)
        ensures
            res == ClassType::Minigroup,
    {
        ClassType::Minigroup
    }

    /// The columns of the table `class` that the query filters by: those of
    /// its predicate, then the kind.
    pub fn columns(&self) -> (res: Vec<&'static str>)
        ensures
            names(res@) == predicate_columns(self.condition).push("kind"@),
    {
        let mut columns = self.condition.columns();
        columns.push("kind");
        columns
    }
}

/// Stores where the dump of the events of a modified event room lies.
#[derive(Clone, Debug, PartialEq, Eq)]
pub struct UpdateDumpEventsQuery {
    pub modified_event_room_id: u128,
    pub room_events_uri: String,
}

impl UpdateDumpEventsQuery {
    pub fn new(modified_event_room_id: u128, room_events_uri: String) -> (res:
        UpdateDumpEventsQuery)
        ensures
            res.modified_event_room_id == modified_event_room_id,
            res.room_events_uri == room_events_uri,
    {
        UpdateDumpEventsQuery { modified_event_room_id, room_events_uri }
    }
}

/// Stores the original and the modified event room of a class.
#[derive(Clone, Copy, Debug, PartialEq, Eq)]
pub struct UpdateQuery {
    pub id: u128,
    pub original_event_room_id: u128,
    pub modified_event_room_id: u128,
}

impl UpdateQuery {
    pub fn new(id: u128, original_event_room_id: u128, modified_event_room_id: u128) -> (res:
        UpdateQuery)
        ensures
            res == (UpdateQuery { id, original_event_room_id, modified_event_room_id }),
    {
        UpdateQuery { id, original_event_room_id, modified_event_room_id }
    }
}

/// Gives a class a new time and new rooms, and forgets its adjustment.
#[derive(Clone, Copy, Debug, PartialEq, Eq)]
pub struct RecreateQuery {
    pub id: u128,
    pub time: Time,
    pub event_room_id: u128,
    pub conference_room_id: u128,
}

impl RecreateQuery {
    pub fn new(id: u128, time: Time, event_room_id: u128, conference_room_id: u128) -> (res:
        RecreateQuery)
        ensures
            res == (RecreateQuery { id, time, event_room_id, conference_room_id }),
    {
        RecreateQuery { id, time, event_room_id, conference_room_id }
    }
}

/// Changes the time of a class, its reserve, or both.
#[derive(Clone, Copy, Debug, PartialEq, Eq)]
pub struct TimeUpdateQuery {
    pub id: u128,
    pub time: Option<Time>,
    pub reserve: Option<i32>,
}

/// The columns that a time update sets, in the order of their values.
pub open spec fn time_update_columns(time: Option<Time>, reserve: Option<i32>) -> Seq<Seq<char>> {
    match (time, reserve) {
        (Some(_), Some(_)) => seq!["time"@, "reserve"@],
        (Some(_), None) => seq!["time"@],
        (None, Some(_)) => seq!["reserve"@],
        (None, None) => Seq::empty(),
    }
}

impl TimeUpdateQuery {
    pub fn new(id: u128) -> (res: TimeUpdateQuery)
        ensures
            res == (TimeUpdateQuery { id, time: None, reserve: None }),
    {
        TimeUpdateQuery { id, time: None, reserve: None }
    }

    pub fn time(self, time: Time) -> (res: TimeUpdateQuery)
        ensures
            res == (TimeUpdateQuery { id: self.id, time: Some(time), reserve: self.reserve }),
    {
        TimeUpdateQuery { id: self.id, time: Some(time), reserve: self.reserve }
    }

    pub fn reserve(self, reserve: i32) -> (res: TimeUpdateQuery)
        ensures
            res == (TimeUpdateQuery { id: self.id, time: self.time, reserve: Some(reserve) }),
    {
        TimeUpdateQuery { id: self.id, time: self.time, reserve: Some(reserve) }
    }

    /// The columns of the table `class` that the query sets, in the order of
    /// their values; the class is then picked by its `id`.
    pub fn columns(&self) -> (res: Vec<&'static str>)
        ensures
            names(res@) == time_update_columns(self.time, self.reserve),
    {
        let mut columns: Vec<&'static str> = Vec::new();
        if self.time.is_some() {
            columns.push("time");
        }
        if self.reserve.is_some() {
            columns.push("reserve");
        }
        columns
    }
}

/// Ends the time of a class now, unless it has ended before.
#[derive(Clone, Copy, Debug, PartialEq, Eq)]
pub struct RoomCloseQuery {
    pub id: u128,
}

impl RoomCloseQuery {
    pub fn new(id: u128) -> (res: RoomCloseQuery)
        ensures
            res.id == id,
    {
        RoomCloseQuery { id }
    }
}

/// Inserts a minigroup.
#[derive(Clone, Debug, PartialEq, Eq)]
pub struct MinigroupInsertQuery {
    pub scope: String,
    pub audience: String,
    pub time: Time,
    pub host: AccountId,
    pub tags: Option<String>,
    pub preserve_history: bool,
    pub reserve: Option<i32>,
    pub conference_room_id: u128,
    pub event_room_id: u128,
}

impl MinigroupInsertQuery {
    /// The minigroup without tags and without reserve; the history of its
    /// event room is kept.
    pub fn new(
        scope: String,
        audience: String,
        time: Time,
        host: AccountId,
        conference_room_id: u128,
        event_room_id: u128,
    ) -> (res: MinigroupInsertQuery)
        ensures
            res == (MinigroupInsertQuery {
                scope,
                audience,
                time,
                host,
                tags: None,
                preserve_history: true,
                reserve: None,
                conference_room_id,
                event_room_id,
            }),
    {
        MinigroupInsertQuery {
            scope,
            audience,
            time,
            host,
            tags: None,
            preserve_history: true,
            reserve: None,
            conference_room_id,
            event_room_id,
        }
    }

    pub fn reserve(self, reserve: i32) -> (res: MinigroupInsertQuery)
        ensures
            res == (MinigroupInsertQuery { reserve: Some(reserve), ..self }),
    {
        MinigroupInsertQuery {
            scope: self.scope,
            audience: self.audience,
            time: self.time,
            host: self.host,
            tags: self.tags,
            preserve_history: self.preserve_history,
            reserve: Some(reserve),
            conference_room_id: self.conference_room_id,
            event_room_id: self.event_room_id,
        }
    }

    pub fn tags(self, tags: String) -> (res: MinigroupInsertQuery)
        ensures
            res == (MinigroupInsertQuery { tags: Some(tags), ..self }),
    {
        MinigroupInsertQuery {
            scope: self.scope,
            audience: self.audience,
            time: self.time,
            host: self.host,
            tags: Some(tags),
            preserve_history: self.preserve_history,
            reserve: self.reserve,
            conference_room_id: self.conference_room_id,
            event_room_id: self.event_room_id,
        }
    }

    /// The kind that the class is inserted as.
    pub fn class_type(&self) -> (res: ClassType)
        ensures
            res == ClassType::Minigroup,
    {
        ClassType::Minigroup
    }
}

/// Changes the time of a minigroup.
#[derive(Clone, Copy, Debug, PartialEq, Eq)]
pub struct MinigroupTimeUpdateQuery {
    pub id: u128,
    pub time: Time,
}

impl MinigroupTimeUpdateQuery {
    pub fn new(id: u128, time: Time) -> (res: MinigroupTimeUpdateQuery)
        ensures
            res == (MinigroupTimeUpdateQuery { id, time }),
    {
        MinigroupTimeUpdateQuery { id, time }
    }
}

/// Inserts a p2p class.
#[derive(Clone, Debug, PartialEq, Eq)]
pub struct P2PInsertQuery {
    pub scope: String,
    pub audience: String,
    pub tags: Option<String>,
    pub conference_room_id: u128,
    pub event_room_id: u128,
}

impl P2PInsertQuery {
    pub fn new(scope: String, audience: String, conference_room_id: u128, event_room_id: u128) -> (res:
        P2PInsertQuery)
        ensures
            res == (P2PInsertQuery {
                scope,
                audience,
                tags: None,
                conference_room_id,
                event_room_id,
            }),
    {
        P2PInsertQuery { scope, audience, tags: None, conference_room_id, event_room_id }
    }

    pub fn tags(self, tags: String) -> (res: P2PInsertQuery)
        ensures
            res == (P2PInsertQuery { tags: Some(tags), ..self }),
    {
        P2PInsertQuery {
            scope: self.scope,
            audience: self.audience,
            tags: Some(tags),
            conference_room_id: self.conference_room_id,
            event_room_id: self.event_room_id,
        }
    }

    /// The time that the class is inserted with: a p2p class has no bounds.
    pub fn time(&self) -> (res: Time)
        ensures
            res == (Time { start: Bound::Unbounded, end: Bound::Unbounded }),
    {
        Time { start: Bound::Unbounded, end: Bound::Unbounded }
    }

    /// Whether the history of the event room is kept: for a p2p class it is not.
    pub fn preserve_history(&self) -> (res: bool)
        ensures
            !res,
    {
        false
    }

    /// The kind that the class is inserted as.
    pub fn class_type(&self) -> (res: ClassType)
        ensures
            res == ClassType::P2P,
    {
        ClassType::P2P
    }
}

} // verus!
