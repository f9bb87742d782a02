//! Recordings: the uploaded media tracks of a class session.

use crate::agent::AgentId;
use crate::segments::Segments;
use crate::time::Timestamp;
use vstd::prelude::*;

verus! {

/// A track that the conference service has uploaded.
#[derive(Clone, Debug, PartialEq, Eq)]
pub struct RtcUploadReadyData {
    /// The track's identity at the conference service.
    pub id: u128,
    /// Where the media was stored.
    pub uri: String,
    /// When the recording of the track started.
    pub started_at: Timestamp,
    /// The recorded spans, as offsets from `started_at`.
    pub segments: Segments,
    /// The participant who produced the track.
    pub created_by: AgentId,
}

/// What the conference service reports of one track of a closed room.
#[derive(Clone, Debug, PartialEq, Eq)]
pub enum RtcUploadResult {
    /// The track was recorded and uploaded.
    Ready(RtcUploadReadyData),
    /// Nothing was recorded for the track.
    Missing { id: u128 },
}

/// The row to insert for an uploaded track.
#[derive(Clone, Debug, PartialEq, Eq)]
pub struct RecordingInsertQuery {
    pub class_id: u128,
    pub rtc_id: u128,
    pub segments: Segments,
    pub started_at: Timestamp,
    pub stream_uri: String,
    pub created_by: AgentId,
}

/// One uploaded media track of a class session.
#[derive(Clone, Debug, PartialEq, Eq)]
pub struct Recording {
    pub id: u128,
    pub class_id: u128,
    pub rtc_id: u128,
    pub stream_uri: String,
    pub segments: Segments,
    pub started_at: Timestamp,
    pub created_by: AgentId,
    pub adjusted_at: Option<Timestamp>,
    pub modified_segments: Option<Segments>,
    pub transcoded_at: Option<Timestamp>,
}

impl RecordingInsertQuery {
    /// The row for a track of the class `class_id`.
    pub fn new(
        class_id: u128,
        rtc_id: u128,
        segments: Segments,
        started_at: Timestamp,
        stream_uri: String,
        created_by: AgentId,
    ) -> (res: RecordingInsertQuery)
        ensures
            res.class_id == class_id,
            res.rtc_id == rtc_id,
            res.segments == segments,
            res.started_at == started_at,
            res.stream_uri == stream_uri,
            res.created_by == created_by,
    {
        RecordingInsertQuery { class_id, rtc_id, segments, started_at, stream_uri, created_by }
    }

    /// Whether this is the row that the track `rtc` of the class `class_id`
    /// is stored as.
    pub open spec fn stores(&self, class_id: u128, rtc: RtcUploadReadyData) -> bool {
        &&& self.class_id == class_id
        &&& self.rtc_id == rtc.id
        &&& self.segments@ == rtc.segments@
        &&& self.started_at@ == rtc.started_at@
        &&& self.stream_uri@ == rtc.uri@
        &&& self.created_by@ == rtc.created_by@
    }
}

impl Recording {
    /// The identity of the recording.
    pub fn id(&self) -> (res: u128)
        ensures
            res == self.id,
    {
        self.id
    }

    /// The class that the recording belongs to.
    pub fn class_id(&self) -> (res: u128)
        ensures
            res == self.class_id,
    {
        self.class_id
    }

    /// The identity of the recorded track at the conference service.
    pub fn rtc_id(&self) -> (res: u128)
        ensures
            res == self.rtc_id,
    {
        self.rtc_id
    }

    /// Where the media is stored.
    pub fn stream_uri(&self) -> (res: &str)
        ensures
            res@ == self.stream_uri@,
    {
        self.stream_uri.as_str()
    }

    /// The recorded spans, as offsets from the start of the recording.
    pub fn segments(&self) -> (res: &Segments)
        ensures
            res == &self.segments,
    {
        &self.segments
    }

    /// When the recording started.
    pub fn started_at(&self) -> (res: Timestamp)
        ensures
            res == self.started_at,
    {
        self.started_at
    }

    /// The participant who produced the track.
    pub fn created_by(&self) -> (res: &AgentId)
        ensures
            res == &self.created_by,
    {
        &self.created_by
    }

    /// When the adjustment of the event room was recorded, if it was.
    pub fn adjusted_at(&self) -> (res: Option<Timestamp>)
        ensures
            res == self.adjusted_at,
    {
        self.adjusted_at
    }

    /// The spans that the adjustment left, if it was recorded.
    pub fn modified_segments(&self) -> (res: Option<&Segments>)
        ensures
            res == match self.modified_segments {
                Some(s) => Some(&s),
                None => None,
            },
    {
        self.modified_segments.as_ref()
    }

    /// When the transcoding was recorded as complete, if it was.
    pub fn transcoded_at(&self) -> (res: Option<Timestamp>)
        ensures
            res == self.transcoded_at,
    {
        self.transcoded_at
    }
}

} // verus!
