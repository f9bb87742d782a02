//! Events of an event room timeline.

use crate::agent::AgentId;
use crate::time::BoundedDateTimeTuple;
use vstd::prelude::*;

verus! {

/// The payload of a pin event: the agent whose stream was brought into focus.
#[derive(Clone, Debug, PartialEq, Eq)]
pub struct PinEventData {
    pub agent_id: AgentId,
}

/// The payload of an event, by the kind of the event.
#[derive(Clone, Debug, PartialEq, Eq)]
pub enum EventData {
    Pin(PinEventData),
}

/// An event of a room timeline.
#[derive(Clone, Debug, PartialEq, Eq)]
pub struct Event {
    /// The room that the event belongs to.
    pub room_id: u128,
    /// Nanoseconds from the opening of the room to the event.
    pub occurred_at: u64,
    /// What happened.
    pub data: EventData,
}

/// An event room as the event service describes it.
#[derive(Debug, PartialEq, Eq)]
pub struct EventRoomResponse {
    pub id: u128,
    /// From the opening of the room to its closing.
    pub time: BoundedDateTimeTuple,
    /// The tags of the room, as JSON text.
    pub tags: Option<String>,
}

impl PinEventData {
    /// Payload of the event that pins `agent_id`.
    pub fn new(agent_id: AgentId) -> (res: PinEventData)
        ensures
            res.agent_id == agent_id,
    {
        PinEventData { agent_id }
    }

    /// The agent whose stream was pinned.
    pub fn agent_id(&self) -> (res: &AgentId)
        ensures
            res == &self.agent_id,
    {
        &self.agent_id
    }
}

impl Event {
    /// The event of `room_id` that pins `agent_id` at `occurred_at`
    /// nanoseconds after the opening of the room.
    pub fn pin(room_id: u128, occurred_at: u64, agent_id: AgentId) -> (res: Event)
        ensures
            res.room_id == room_id,
            res.occurred_at == occurred_at,
            res.data == EventData::Pin(PinEventData { agent_id }),
    {
        Event { room_id, occurred_at, data: EventData::Pin(PinEventData { agent_id }) }
    }

    /// The room that the event belongs to.
    pub fn room_id(&self) -> (res: u128)
        ensures
            res == self.room_id,
    {
        self.room_id
    }

    /// Nanoseconds from the opening of the room to the event.
    pub fn occurred_at(&self) -> (res: u64)
        ensures
            res == self.occurred_at,
    {
        self.occurred_at
    }

    /// What happened.
    pub fn data(&self) -> (res: &EventData)
        ensures
            res == &self.data,
    {
        &self.data
    }

    /// The agent that the event names.
    pub open spec fn agent(&self) -> AgentId {
        match self.data {
            EventData::Pin(data) => data.agent_id,
        }
    }
}

} // verus!
