//! Tasks of the transcoding service and their results.

use crate::segments::Segments;
use vstd::prelude::*;

verus! {

/// One stream of a minigroup transcoding task: a recorded track, where it
/// lies in the session and when it was in focus.
#[derive(Clone, Debug, PartialEq, Eq)]
pub struct TranscodeMinigroupToHlsStream {
    /// The track's identity at the conference service.
    pub id: u128,
    /// Where the media is stored.
    pub uri: String,
    /// Milliseconds from the start of the session to the start of the track.
    pub offset: Option<u64>,
    /// The recorded spans, as offsets from the start of the track.
    pub segments: Option<Segments>,
    /// The spans during which the track was pinned, in the same coordinates.
    pub pin_segments: Option<Segments>,
}

impl TranscodeMinigroupToHlsStream {
    /// A stream for the track `id` stored at `uri`, with nothing else set.
    pub fn new(id: u128, uri: String) -> (res: TranscodeMinigroupToHlsStream)
        ensures
            res.id == id,
            res.uri == uri,
            res.offset is None,
            res.segments is None,
            res.pin_segments is None,
    {
        TranscodeMinigroupToHlsStream { id, uri, offset: None, segments: None, pin_segments: None }
    }

    /// The same stream, starting `offset` milliseconds into the session.
    pub fn offset(self, offset: u64) -> (res: TranscodeMinigroupToHlsStream)
        ensures
            res.id == self.id,
            res.uri == self.uri,
            res.offset == Some(offset),
            res.segments == self.segments,
            res.pin_segments == self.pin_segments,
    {
        TranscodeMinigroupToHlsStream {
            id: self.id,
            uri: self.uri,
            offset: Some(offset),
            segments: self.segments,
            pin_segments: self.pin_segments,
        }
    }

    /// The same stream with `segments` as its recorded spans.
    pub fn segments(self, segments: Segments) -> (res: TranscodeMinigroupToHlsStream)
        ensures
            res.id == self.id,
            res.uri == self.uri,
            res.offset == self.offset,
            res.segments == Some(segments),
            res.pin_segments == self.pin_segments,
    {
        TranscodeMinigroupToHlsStream {
            id: self.id,
            uri: self.uri,
            offset: self.offset,
            segments: Some(segments),
            pin_segments: self.pin_segments,
        }
    }

    /// The same stream with `pin_segments` as its pinned spans.
    pub fn pin_segments(self, pin_segments: Segments) -> (res: TranscodeMinigroupToHlsStream)
        ensures
            res.id == self.id,
            res.uri == self.uri,
            res.offset == self.offset,
            res.segments == self.segments,
            res.pin_segments == Some(pin_segments),
    {
        TranscodeMinigroupToHlsStream {
            id: self.id,
            uri: self.uri,
            offset: self.offset,
            segments: self.segments,
            pin_segments: Some(pin_segments),
        }
    }
}

/// A task for the transcoding service.
#[derive(Clone, Debug, PartialEq, Eq)]
pub enum Task {
    /// Transcode the single stream of a webinar.
    TranscodeStreamToHls {
        stream_id: u128,
        stream_uri: String,
        event_room_id: Option<u128>,
        segments: Option<Segments>,
    },
    /// Transcode the streams of a minigroup into one recording.
    TranscodeMinigroupToHls {
        streams: Vec<TranscodeMinigroupToHlsStream>,
        host_stream_id: Option<u128>,
    },
}

/// What the transcoding of a webinar stream produced.
#[derive(Clone, Debug, PartialEq, Eq)]
pub struct TranscodeStreamToHlsSuccess {
    pub stream_id: u128,
    pub stream_uri: String,
    /// Seconds of the transcoded stream.
    pub stream_duration: u64,
}

/// What the transcoding of a minigroup produced.
#[derive(Clone, Debug, PartialEq, Eq)]
pub struct TranscodeMinigroupToHlsSuccess {
    /// Seconds of the transcoded recording, rounded to the nearest whole
    /// second; `None` where the service reported something that is no number.
    pub recording_duration: Option<u64>,
}

/// The result of a successful task, by its template.
#[derive(Clone, Debug, PartialEq, Eq)]
pub enum TaskCompleteSuccess {
    TranscodeStreamToHls(TranscodeStreamToHlsSuccess),
    TranscodeMinigroupToHls(TranscodeMinigroupToHlsSuccess),
}

/// The completion notice of a task.
#[derive(Clone, Debug, PartialEq, Eq)]
pub enum TaskCompleteResult {
    Success(TaskCompleteSuccess),
    Failure { error: String },
}

} // verus!
