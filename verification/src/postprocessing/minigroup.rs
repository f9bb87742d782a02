//! Post-processing of minigroups: several tracks per session, one stream each.

use crate::agent::{AccountId, AccountIdView, AgentIdView};
use crate::class::Object as Class;
use crate::error::{Call, Error};
use crate::event::{Event, EventData};
use crate::postprocessing::{
    all_ready, extract_ready_rtcs, is_first_missing, Action, MinigroupReady, Outcome, ReadyEvent,
    RoomAdjustResult, State, Step,
};
use crate::recording::{Recording, RecordingInsertQuery, RtcUploadReadyData, RtcUploadResult};
use crate::segments::{well_formed, Segment, Segments};
use crate::time::{
    whole_millis, Bound, BoundedDateTimeTuple, Duration, Timestamp, MAX_SPAN_MILLIS,
};
use crate::tq::{
    Task, TaskCompleteResult, TaskCompleteSuccess, TranscodeMinigroupToHlsStream,
    TranscodeMinigroupToHlsSuccess,
};
use vstd::prelude::*;

verus! {

/// Nanoseconds in one millisecond.
pub const NS_IN_MS: u64 = 1_000_000;

/// The kind of the events that tell who was pinned.
pub const PIN_EVENT_TYPE: &'static str = "pin";

/// Milliseconds that the adjusted room timeline starts ahead of the recording.
pub const PREROLL_OFFSET: i64 = 4018;

/// Whether some track holds a segment.
pub open spec fn any_segment(rtcs: Seq<RtcUploadReadyData>) -> bool {
    exists|i: int| 0 <= i < rtcs.len() && (#[trigger] rtcs[i]).segments@.len() > 0
}

/// Whether `start` is the smallest start among the first segments of the tracks.
pub open spec fn is_min_start(rtcs: Seq<RtcUploadReadyData>, start: i64) -> bool {
    &&& exists|i: int|
        0 <= i < rtcs.len() && (#[trigger] rtcs[i]).segments@.len() > 0
            && rtcs[i].segments@.first().start == start
    &&& forall|i: int|
        0 <= i < rtcs.len() && (#[trigger] rtcs[i]).segments@.len() > 0 ==> start
            <= rtcs[i].segments@.first().start
}

/// Whether `stop` is the largest stop among the last segments of the tracks.
pub open spec fn is_max_stop(rtcs: Seq<RtcUploadReadyData>, stop: i64) -> bool {
    &&& exists|i: int|
        0 <= i < rtcs.len() && (#[trigger] rtcs[i]).segments@.len() > 0
            && rtcs[i].segments@.last().stop == stop
    &&& forall|i: int|
        0 <= i < rtcs.len() && (#[trigger] rtcs[i]).segments@.len() > 0 ==> stop
            >= rtcs[i].segments@.last().stop
}

/// Whether `envelope` reaches from the smallest first start to the largest
/// last stop of the tracks.
pub open spec fn is_envelope(rtcs: Seq<RtcUploadReadyData>, envelope: Segment) -> bool {
    is_min_start(rtcs, envelope.start) && is_max_stop(rtcs, envelope.stop)
}

/// Whether `t` is the earliest start of the recording of a track.
pub open spec fn is_min_started_at(rtcs: Seq<RtcUploadReadyData>, t: int) -> bool {
    &&& exists|i: int| 0 <= i < rtcs.len() && (#[trigger] rtcs[i]).started_at@ == t
    &&& forall|i: int| 0 <= i < rtcs.len() ==> t <= (#[trigger] rtcs[i]).started_at@
}

/// The tracks have at most one envelope.
pub proof fn lemma_envelope_unique(rtcs: Seq<RtcUploadReadyData>, a: Segment, b: Segment)
    requires
        is_envelope(rtcs, a),
        is_envelope(rtcs, b),
    ensures
        a == b,
{
}

/// Tracks that have an envelope hold a segment.
pub proof fn lemma_envelope_needs_segment(rtcs: Seq<RtcUploadReadyData>, envelope: Segment)
    requires
        is_envelope(rtcs, envelope),
    ensures
        any_segment(rtcs),
        rtcs.len() > 0,
{
}

/// The envelope of the uploaded tracks: the single segment from the smallest
/// start among the tracks' first segments to the largest stop among their last
/// ones.  Fails with [`Error::NoSegments`] exactly if no track holds a segment,
/// as is the case for an empty list.
pub fn build_adjust_segments(rtcs: &[RtcUploadReadyData]) -> (res: Result<Segments, Error>)
    ensures
        res is Ok <==> any_segment(rtcs@),
        res matches Ok(segments) ==> segments@.len() == 1 && is_envelope(rtcs@, segments@[0]),
        res matches Err(e) ==> e == Error::NoSegments,
{
    let mut maybe_min_start: Option<i64> = None;
    let mut maybe_max_stop: Option<i64> = None;
    let mut i: usize = 0;
    while i < rtcs.len()
        invariant
            i <= rtcs.len(),
            maybe_min_start is Some <==> any_segment(rtcs@.take(i as int)),
            maybe_max_stop is Some <==> any_segment(rtcs@.take(i as int)),
            maybe_min_start matches Some(m) ==> is_min_start(rtcs@.take(i as int), m),
            maybe_max_stop matches Some(m) ==> is_max_stop(rtcs@.take(i as int), m),
        decreases rtcs.len() - i,
    {
        let ghost after = rtcs@.take(i + 1);
        let segments = &rtcs[i].segments;
        if let Some(first) = segments.first() {
            maybe_min_start =
            match maybe_min_start {
                Some(min_start) => if first.start < min_start {
                    Some(first.start)
                } else {
                    Some(min_start)
                },
                None => Some(first.start),
            };
        }
        if let Some(last) = segments.last() {
            maybe_max_stop =
            match maybe_max_stop {
                Some(max_stop) => if last.stop > max_stop {
                    Some(last.stop)
                } else {
                    Some(max_stop)
                },
                None => Some(last.stop),
            };
        }
        proof {
            if segments@.len() > 0 {
                assert(after[i as int].segments@.len() > 0);
            }
        }
        i += 1;
    }
    assert(rtcs@.take(i as int) =~= rtcs@);
    match (maybe_min_start, maybe_max_stop) {
        (Some(start), Some(stop)) => {
            let mut items: Vec<Segment> = Vec::new();
            items.push(Segment { start, stop });
            Ok(Segments::from_segments(items))
        },
        _ => Err(Error::NoSegments),
    }
}

/// The earliest start of the recording of a track, or `None` for an empty list.
pub fn min_started_at(rtcs: &[RtcUploadReadyData]) -> (res: Option<Timestamp>)
    ensures
        res is Some <==> rtcs@.len() > 0,
        res matches Some(t) ==> is_min_started_at(rtcs@, t@),
{
    if rtcs.len() == 0 {
        return None;
    }
    let mut min: Timestamp = rtcs[0].started_at;
    let mut i: usize = 1;
    while i < rtcs.len()
        invariant
            1 <= i <= rtcs.len(),
            exists|j: int| 0 <= j < i && (#[trigger] rtcs@[j]).started_at@ == min@,
            forall|j: int| 0 <= j < i ==> min@ <= (#[trigger] rtcs@[j]).started_at@,
        decreases rtcs.len() - i,
    {
        if rtcs[i].started_at.lt(&min) {
            min = rtcs[i].started_at;
        }
        i += 1;
    }
    Some(min)
}

/// Milliseconds from the start of a recording to an event that occurred
/// `occurred_at` nanoseconds after the opening of the event room, where the
/// recording started `event_room_offset` milliseconds after that opening.
pub open spec fn occurred_at_ms(occurred_at: u64, event_room_offset: int) -> int {
    occurred_at as int / 1_000_000 - event_room_offset
}

/// The state of a pass over pin events: the pin segments closed so far and,
/// while the stream is pinned, the moment it got pinned.
pub struct PinScan {
    pub segments: Seq<Segment>,
    pub pin_start: Option<i64>,
}

/// The state after an event at `at`, which pins the stream of the recording's
/// creator if `pins_creator` and another one if not.  The event pins the stream
/// if it names its creator and the stream is not pinned; any event unpins a
/// pinned stream and closes a segment; other events change nothing.
pub open spec fn pin_step(scan: PinScan, pins_creator: bool, at: i64) -> PinScan {
    if pins_creator && scan.pin_start is None {
        PinScan { segments: scan.segments, pin_start: Some(at) }
    } else {
        match scan.pin_start {
            Some(pinned_at) => PinScan {
                segments: scan.segments.push(Segment { start: pinned_at, stop: at }),
                pin_start: None,
            },
            None => scan,
        }
    }
}

/// The state after a pass over `events` in their order.
pub open spec fn pin_scan(events: Seq<Event>, creator: AgentIdView, event_room_offset: int) -> PinScan
    decreases events.len(),
{
    if events.len() == 0 {
        PinScan { segments: Seq::empty(), pin_start: None }
    } else {
        let event = events.last();
        pin_step(
            pin_scan(events.drop_last(), creator, event_room_offset),
            event.agent()@ == creator,
            occurred_at_ms(event.occurred_at, event_room_offset) as i64,
        )
    }
}

/// The spans during which the stream of `creator` was pinned: the segments
/// that the pass over `events` closes and, where the stream is still pinned at
/// the end and something was recorded, one more segment up to the stop of the
/// last recorded segment.
pub open spec fn pin_segments(
    events: Seq<Event>,
    creator: AgentIdView,
    recorded: Seq<Segment>,
    event_room_offset: int,
) -> Seq<Segment> {
    let scan = pin_scan(events, creator, event_room_offset);
    match scan.pin_start {
        Some(start) if recorded.len() > 0 => scan.segments.push(
            Segment { start, stop: recorded.last().stop },
        ),
        _ => scan.segments,
    }
}

/// Without pin events no stream is ever pinned, whatever was recorded.
pub proof fn lemma_no_events_no_pin_segments(
    creator: AgentIdView,
    recorded: Seq<Segment>,
    event_room_offset: int,
)
    ensures
        pin_segments(Seq::empty(), creator, recorded, event_room_offset) == Seq::<Segment>::empty(),
{
}

/// Whether the events are in the order in which they occurred.
pub open spec fn chronological(events: Seq<Event>) -> bool {
    forall|i: int, j: int|
        0 <= i <= j < events.len() ==> (#[trigger] events[i]).occurred_at <= (
        #[trigger] events[j]).occurred_at
}

/// Whether the events are in the order in which they occurred.
pub fn is_chronological(events: &[Event]) -> (res: bool)
    ensures
        res == chronological(events@),
{
    if events.len() == 0 {
        return true;
    }
    let mut i: usize = 1;
    while i < events.len()
        invariant
            1 <= i <= events.len(),
            chronological(events@.take(i as int)),
        decreases events.len() - i,
    {
        if events[i - 1].occurred_at > events[i].occurred_at {
            return false;
        }
        proof {
            let before = events@.take(i as int);
            let after = events@.take(i + 1);
            assert forall|a: int, b: int| 0 <= a <= b < after.len() implies (
            #[trigger] after[a]).occurred_at <= (#[trigger] after[b]).occurred_at by {
                if b >= i && a < i {
                    assert(after[a] == before[a] && after[i - 1] == before[i - 1]);
                }
            }
        }
        i += 1;
    }
    assert(events@.take(i as int) =~= events@);
    true
}

/// Whether `event_room_offset` is a span between two instants.
pub open spec fn is_span(event_room_offset: int) -> bool {
    -MAX_SPAN_MILLIS <= event_room_offset <= MAX_SPAN_MILLIS
}

/// What a pass over chronological events leaves behind is in order: the
/// closed segments are well formed, none of them stops after the last event,
/// and where the stream is still pinned, it got pinned no earlier than the
/// last segment stops and no later than the last event.
proof fn lemma_pin_scan_in_order(events: Seq<Event>, creator: AgentIdView, event_room_offset: int)
    requires
        chronological(events),
        is_span(event_room_offset),
        events.len() > 0,
    ensures
        ({
            let scan = pin_scan(events, creator, event_room_offset);
            let at = occurred_at_ms(events.last().occurred_at, event_room_offset);
            &&& well_formed(scan.segments)
            &&& forall|k: int| 0 <= k < scan.segments.len() ==> (#[trigger] scan.segments[k]).stop <= at
            &&& scan.pin_start matches Some(pinned_at) ==> pinned_at <= at && forall|k: int|
                0 <= k < scan.segments.len() ==> (#[trigger] scan.segments[k]).stop <= pinned_at
        }),
    decreases events.len(),
{
    let before = events.drop_last();
    let at = occurred_at_ms(events.last().occurred_at, event_room_offset);
    let prev = pin_scan(before, creator, event_room_offset);
    let scan = pin_scan(events, creator, event_room_offset);
    if before.len() > 0 {
        assert(chronological(before));
        lemma_pin_scan_in_order(before, creator, event_room_offset);
    }
    if let Some(pinned_at) = prev.pin_start {
        assert(scan.segments == prev.segments.push(Segment { start: pinned_at, stop: at as i64 }));
        assert forall|k: int| 0 <= k < scan.segments.len() implies (
        #[trigger] scan.segments[k]).start <= scan.segments[k].stop && scan.segments[k].stop
            <= at by {}
        assert forall|k: int| 0 < k < scan.segments.len() implies scan.segments[k - 1].stop <= (
        #[trigger] scan.segments[k]).start by {}
    }
}

/// The pin segments of a stream are a segment set in good order where the
/// pin events are chronological, but for the last one, which stops where
/// the recording stops: that one is in order if the stream got pinned before
/// the recording stopped.
pub proof fn lemma_pin_segments_well_formed(
    events: Seq<Event>,
    creator: AgentIdView,
    recorded: Seq<Segment>,
    event_room_offset: int,
)
    requires
        chronological(events),
        is_span(event_room_offset),
        pin_scan(events, creator, event_room_offset).pin_start matches Some(pinned_at)
            ==> recorded.len() == 0 || pinned_at <= recorded.last().stop,
    ensures
        well_formed(pin_scan(events, creator, event_room_offset).segments),
        well_formed(pin_segments(events, creator, recorded, event_room_offset)),
{
    if events.len() > 0 {
        lemma_pin_scan_in_order(events, creator, event_room_offset);
    }
}

/// How long after the opening of its event room a recording started.  The
/// opening must be an included lower bound of the room's time; the result is
/// [`Error::WrongRoomOpeningTime`] exactly if it is not.
pub fn event_room_offset(started_at: Timestamp, room_time: &BoundedDateTimeTuple) -> (res: Result<
    Duration,
    Error,
>)
    ensures
        res is Ok <==> room_time.0 is Included,
        res matches Ok(offset) ==> offset@ == whole_millis(
            started_at@ - room_time.0->Included_0@,
        ),
        res matches Err(e) ==> e == Error::WrongRoomOpeningTime,
{
    match room_time.0 {
        Bound::Included(opened_at) => Ok(started_at.since(&opened_at)),
        _ => Err(Error::WrongRoomOpeningTime),
    }
}

/// Moves an event from the time line of the event room onto that of a
/// recording: milliseconds from the start of the recording to the event.
pub fn occurred_at_in_recording(occurred_at: u64, event_room_offset: Duration) -> (ms: i64)
    ensures
        ms == occurred_at_ms(occurred_at, event_room_offset@),
{
    let room_ms: u64 = occurred_at / NS_IN_MS;
    let offset_ms: i64 = event_room_offset.num_milliseconds();
    room_ms as i64 - offset_ms
}

/// The spans during which the stream of `recording` was pinned, for a
/// recording that started `event_room_offset` after the opening of the event
/// room.  Without pin events there are none.
pub fn build_pin_segments(recording: &Recording, pin_events: &[Event], event_room_offset: Duration) -> (pinned:
    Segments)
    ensures
        pinned@ == pin_segments(
            pin_events@,
            recording.created_by@,
            recording.segments@,
            event_room_offset@,
        ),
        pin_events@.len() == 0 ==> pinned@ == Seq::<Segment>::empty(),
{
    let mut pin_segments: Vec<Segment> = Vec::new();
    let mut pin_start: Option<i64> = None;
    let mut i: usize = 0;
    while i < pin_events.len()
        invariant
            i <= pin_events.len(),
            pin_scan(pin_events@.take(i as int), recording.created_by@, event_room_offset@)
                == (PinScan { segments: pin_segments@, pin_start }),
        decreases pin_events.len() - i,
    {
        let event = &pin_events[i];
        assert(pin_events@.take(i + 1).drop_last() =~= pin_events@.take(i as int));
        match event.data() {
            EventData::Pin(data) => {
                let occurred_at: i64 = occurred_at_in_recording(
                    event.occurred_at(),
                    event_room_offset,
                );
                if data.agent_id().same(recording.created_by()) && pin_start.is_none() {
                    pin_start = Some(occurred_at);
                } else if let Some(pinned_at) = pin_start {
                    pin_segments.push(Segment { start: pinned_at, stop: occurred_at });
                    pin_start = None;
                }
            },
        }
        i += 1;
    }
    assert(pin_events@.take(i as int) =~= pin_events@);
    if let Some(start) = pin_start {
        if let Some(last) = recording.segments().last() {
            pin_segments.push(Segment { start, stop: last.stop });
        }
    }
    Segments::from_segments(pin_segments)
}

/// The stream of one recording for the transcoding task.
///
/// `event_room_offset` is the time from the opening of the event room to the
/// start of the recording, `recording_offset` the time from the start of the
/// session, that is of its earliest recording, to the start of this one.
pub fn build_stream(
    recording: &Recording,
    pin_events: &[Event],
    event_room_offset: Duration,
    recording_offset: Duration,
) -> (stream: TranscodeMinigroupToHlsStream)
    requires
        recording_offset@ >= 0,
    ensures
        is_stream_of(stream, *recording, pin_events@, event_room_offset@, recording_offset@),
        pin_events@.len() == 0 ==> (stream.pin_segments matches Some(pinned) && pinned@
            == Seq::<Segment>::empty()),
{
    let pinned = build_pin_segments(recording, pin_events, event_room_offset);
    let offset: i64 = recording_offset.num_milliseconds();
    TranscodeMinigroupToHlsStream::new(recording.rtc_id(), recording.stream_uri.clone())
        .offset(offset as u64)
        .segments(recording.segments().duplicate())
        .pin_segments(pinned)
}

/// Whether `stream` is what the transcoding is told of `recording`: its track
/// and storage, its offset in the session, its recorded spans and the spans
/// during which it was pinned.
pub open spec fn is_stream_of(
    stream: TranscodeMinigroupToHlsStream,
    recording: Recording,
    pin_events: Seq<Event>,
    event_room_offset: int,
    recording_offset: int,
) -> bool {
    &&& stream.id == recording.rtc_id
    &&& stream.uri@ == recording.stream_uri@
    &&& stream.offset matches Some(offset) && offset == recording_offset
    &&& stream.segments matches Some(segments) && segments@ == recording.segments@
    &&& stream.pin_segments matches Some(pinned) && pinned@ == pin_segments(
        pin_events,
        recording.created_by@,
        recording.segments@,
        event_room_offset,
    )
}

/// The earliest start among `recordings`; 0 where there is none.
pub open spec fn earliest_start(recordings: Seq<Recording>) -> int
    decreases recordings.len(),
{
    if recordings.len() == 0 {
        0
    } else if recordings.len() == 1 {
        recordings[0].started_at@
    } else {
        let before = earliest_start(recordings.drop_last());
        let last = recordings.last().started_at@;
        if last < before {
            last
        } else {
            before
        }
    }
}

/// Milliseconds from the start of the session, that is of its earliest
/// recording, to the start of the recording at position `i`.
pub open spec fn session_offset(recordings: Seq<Recording>, i: int) -> int {
    whole_millis(recordings[i].started_at@ - earliest_start(recordings))
}

/// The earliest start is the start of one of the recordings, and none starts
/// before it.
pub proof fn lemma_earliest_start(recordings: Seq<Recording>)
    requires
        recordings.len() > 0,
    ensures
        exists|i: int|
            0 <= i < recordings.len() && (#[trigger] recordings[i]).started_at@ == earliest_start(
                recordings,
            ),
        forall|i: int|
            0 <= i < recordings.len() ==> earliest_start(recordings) <= (
            #[trigger] recordings[i]).started_at@,
    decreases recordings.len(),
{
    if recordings.len() == 1 {
        assert(recordings[0].started_at@ == earliest_start(recordings));
    } else {
        let before = recordings.drop_last();
        lemma_earliest_start(before);
        let n = recordings.len() - 1;
        let w = choose|i: int|
            0 <= i < before.len() && (#[trigger] before[i]).started_at@ == earliest_start(before);
        assert(recordings[w] == before[w]);
        assert(recordings[n] == recordings.last());
        assert forall|i: int| 0 <= i < recordings.len() implies earliest_start(recordings) <= (
        #[trigger] recordings[i]).started_at@ by {
            if i < n {
                assert(before[i] == recordings[i]);
            }
        }
    }
}

/// The offset of a recording in its session is never negative, and it is 0
/// for the recording that started first.
pub proof fn lemma_session_offsets(recordings: Seq<Recording>, i: int)
    requires
        0 <= i < recordings.len(),
    ensures
        session_offset(recordings, i) >= 0,
        recordings[i].started_at@ == earliest_start(recordings) ==> session_offset(recordings, i)
            == 0,
        exists|j: int|
            0 <= j < recordings.len() && session_offset(recordings, j) == 0
                && (#[trigger] recordings[j]).started_at@ == earliest_start(recordings),
{
    lemma_earliest_start(recordings);
}

/// The earliest start among `recordings`, or `None` where there is none.
pub fn earliest_started_at(recordings: &[Recording]) -> (res: Option<Timestamp>)
    ensures
        res is Some <==> recordings@.len() > 0,
        res matches Some(t) ==> t@ == earliest_start(recordings@),
{
    if recordings.len() == 0 {
        return None;
    }
    let mut min: Timestamp = recordings[0].started_at;
    let mut i: usize = 1;
    while i < recordings.len()
        invariant
            1 <= i <= recordings.len(),
            min@ == earliest_start(recordings@.take(i as int)),
        decreases recordings.len() - i,
    {
        assert(recordings@.take(i + 1).drop_last() =~= recordings@.take(i as int));
        if recordings[i].started_at.lt(&min) {
            min = recordings[i].started_at;
        }
        i += 1;
    }
    assert(recordings@.take(i as int) =~= recordings@);
    Some(min)
}

/// Whether `streams` holds, in the order of `recordings`, the stream of each
/// of them, for a session whose event room opened at `opened_at` and whose
/// pin events are `pin_events`.
pub open spec fn are_streams_of(
    streams: Seq<TranscodeMinigroupToHlsStream>,
    recordings: Seq<Recording>,
    pin_events: Seq<Event>,
    opened_at: int,
) -> bool {
    &&& streams.len() == recordings.len()
    &&& forall|i: int|
        0 <= i < recordings.len() ==> is_stream_of(
            #[trigger] streams[i],
            recordings[i],
            pin_events,
            whole_millis(recordings[i].started_at@ - opened_at),
            session_offset(recordings, i),
        )
}

/// The streams of all recordings of a session, in their order.
pub fn build_streams(recordings: &[Recording], pin_events: &[Event], opened_at: Timestamp) -> (streams:
    Vec<TranscodeMinigroupToHlsStream>)
    ensures
        are_streams_of(streams@, recordings@, pin_events@, opened_at@),
{
    let mut streams: Vec<TranscodeMinigroupToHlsStream> = Vec::new();
    let earliest: Timestamp = match earliest_started_at(recordings) {
        Some(t) => t,
        None => {
            return streams;
        },
    };
    let mut i: usize = 0;
    while i < recordings.len()
        invariant
            i <= recordings.len(),
            earliest@ == earliest_start(recordings@),
            streams@.len() == i,
            forall|j: int|
                0 <= j < i ==> is_stream_of(
                    #[trigger] streams@[j],
                    recordings@[j],
                    pin_events@,
                    whole_millis(recordings@[j].started_at@ - opened_at@),
                    session_offset(recordings@, j),
                ),
        decreases recordings.len() - i,
    {
        let recording = &recordings[i];
        let event_room_offset: Duration = recording.started_at().since(&opened_at);
        let recording_offset: Duration = recording.started_at().since(&earliest);
        proof {
            lemma_session_offsets(recordings@, i as int);
        }
        let stream = build_stream(recording, pin_events, event_room_offset, recording_offset);
        streams.push(stream);
        i += 1;
    }
    streams
}

/// Whether the recording at position `i` is the first one that an agent of
/// `account` produced.
pub open spec fn is_first_by(recordings: Seq<Recording>, account: AccountIdView, i: int) -> bool {
    &&& 0 <= i < recordings.len()
    &&& recordings[i].created_by@.account_id == account
    &&& forall|j: int|
        0 <= j < i ==> (#[trigger] recordings[j]).created_by@.account_id != account
}

/// Whether `id` is the track of the first recording that an agent of
/// `account` produced.
pub open spec fn is_track_of_first_by(recordings: Seq<Recording>, account: AccountIdView, id: u128) -> bool {
    exists|i: int| (#[trigger] is_first_by(recordings, account, i)) && recordings[i].rtc_id == id
}

/// Whether no agent of `account` produced a recording.
pub open spec fn none_by(recordings: Seq<Recording>, account: AccountIdView) -> bool {
    forall|i: int|
        0 <= i < recordings.len() ==> (#[trigger] recordings[i]).created_by@.account_id != account
}

/// Whether `id` is the track of the first of `recordings` that `host`
/// produced, or `None` where there is no host or no such recording.
pub open spec fn is_host_stream(
    host: Option<AccountIdView>,
    recordings: Seq<Recording>,
    id: Option<u128>,
) -> bool {
    match host {
        None => id is None,
        Some(host) => match id {
            Some(id) => is_track_of_first_by(recordings, host, id),
            None => none_by(recordings, host),
        },
    }
}

/// What an account that may be missing holds.
pub open spec fn account_view(account: Option<AccountId>) -> Option<AccountIdView> {
    match account {
        Some(account) => Some(account@),
        None => None,
    }
}

/// What a borrowed account that may be missing holds.
pub open spec fn account_ref_view(account: Option<&AccountId>) -> Option<AccountIdView> {
    match account {
        Some(account) => Some(account@),
        None => None,
    }
}

/// The track of the stream that the host of the class produced, if any.
pub fn host_stream_id(host: Option<&AccountId>, recordings: &[Recording]) -> (id: Option<u128>)
    ensures
        is_host_stream(account_ref_view(host), recordings@, id),
{
    match host {
        None => None,
        Some(account) => {
            let mut i: usize = 0;
            while i < recordings.len()
                invariant
                    i <= recordings.len(),
                    account_ref_view(host) == Some(account@),
                    forall|j: int|
                        0 <= j < i ==> (#[trigger] recordings@[j]).created_by@.account_id
                            != account@,
                decreases recordings.len() - i,
            {
                if recordings[i].created_by().as_account_id().same(account) {
                    let id: u128 = recordings[i].rtc_id();
                    assert(is_first_by(recordings@, account@, i as int));
                    return Some(id);
                }
                i += 1;
            }
            None
        },
    }
}

/// What a text that may be missing holds.
pub open spec fn text_view(text: Option<String>) -> Option<Seq<char>> {
    match text {
        Some(text) => Some(text@),
        None => None,
    }
}

/// The topic, below that of this service, on which the events of an audience
/// are broadcast.
pub open spec fn events_path(audience: Seq<char>) -> Seq<char> {
    "audiences/"@ + audience + "/events"@
}

/// Whether `rows` holds, in the order of `rtcs`, the row of each track.
pub open spec fn are_rows_of(
    rows: Seq<RecordingInsertQuery>,
    class_id: u128,
    rtcs: Seq<RtcUploadReadyData>,
) -> bool {
    &&& rows.len() == rtcs.len()
    &&& forall|i: int| 0 <= i < rtcs.len() ==> (#[trigger] rows[i]).stores(class_id, rtcs[i])
}

/// Whether `ready` holds, in the order of `rtcs`, what each track uploaded.
pub open spec fn are_ready_of(ready: Seq<RtcUploadReadyData>, rtcs: Seq<RtcUploadResult>) -> bool {
    &&& ready.len() == rtcs.len()
    &&& forall|i: int|
        0 <= i < rtcs.len() ==> (#[trigger] rtcs[i]) == RtcUploadResult::Ready(ready[i])
}

/// Whether `step` is the failure on the first missing track of `rtcs`.
pub open spec fn fails_on_first_missing(rtcs: Seq<RtcUploadResult>, step: Step) -> bool {
    exists|i: int|
        is_first_missing(rtcs, i) && step == Step::Failed(
            Error::MissingRecording { rtc_id: (#[trigger] rtcs[i])->Missing_id },
        )
}

/// Whether `step` asks to insert the rows of the tracks `rtcs`, all of them
/// ready, for the class `class_id`, and to resume with those tracks.
pub open spec fn inserts_rows_of(class_id: u128, rtcs: Seq<RtcUploadResult>, step: Step) -> bool {
    &&& step matches Step::Perform {
        action: Action::InsertRecordings { rows },
        state: State::InsertingRecordings { rtcs: ready },
    }
    &&& are_ready_of(ready@, rtcs)
    &&& are_rows_of(rows@, class_id, ready@)
}

/// Whether `step` asks to adjust the room `room_id` to the envelope of the
/// tracks `rtcs`, counted from the earliest start of a track.
pub open spec fn adjusts_room_to(room_id: u128, rtcs: Seq<RtcUploadReadyData>, step: Step) -> bool {
    &&& step matches Step::Perform {
        action: Action::AdjustRoom { room_id: room, started_at, segments, offset },
        state: State::AdjustingRoom,
    }
    &&& room == room_id
    &&& is_min_started_at(rtcs, started_at@)
    &&& segments@.len() == 1
    &&& is_envelope(rtcs, segments@[0])
    &&& offset == PREROLL_OFFSET
}

/// Whether `step` asks to submit the transcoding task of the class
/// `class_id`: the streams of `recordings`, with the stream of `host` as that
/// of the host.
pub open spec fn creates_task_of(
    class_id: u128,
    host: Option<AccountIdView>,
    recordings: Seq<Recording>,
    pin_events: Seq<Event>,
    opened_at: int,
    step: Step,
) -> bool {
    &&& step matches Step::Perform {
        action: Action::CreateTask {
            class_id: id,
            task: Task::TranscodeMinigroupToHls { streams, host_stream_id },
        },
        state: State::CreatingTask,
    }
    &&& id == class_id
    &&& are_streams_of(streams@, recordings, pin_events, opened_at)
    &&& is_host_stream(host, recordings, host_stream_id)
}

/// Whether `step` asks to announce that `class` is transcoded into a
/// recording of `recording_duration` seconds.
pub open spec fn publishes_ready(class: Class, recording_duration: u64, step: Step) -> bool {
    &&& step matches Step::Perform {
        action: Action::Publish { path, label, payload: ReadyEvent::Minigroup(payload) },
        state: State::Publishing,
    }
    &&& path@ == events_path(class.audience@)
    &&& label@ == "minigroup.ready"@
    &&& payload.id == class.id
    &&& payload.scope@ == class.scope@
    &&& text_view(payload.tags) == text_view(class.tags)
    &&& payload.status@ == "success"@
    &&& payload.recording_duration == recording_duration
}

/// The failure that the host's `outcome` amounts to where it does not answer
/// the action: `failed` if the host could not perform the action, `timed_out`
/// if it got no answer in time, a protocol violation otherwise.
pub open spec fn failure_of(outcome: Outcome, failed: Error, timed_out: Error) -> Step {
    if outcome is Failed {
        Step::Failed(failed)
    } else if outcome is TimedOut {
        Step::Failed(timed_out)
    } else {
        Step::Failed(Error::UnexpectedOutcome)
    }
}

/// The failure of an action on the database.
pub open spec fn persistence_failure(outcome: Outcome) -> Step {
    failure_of(outcome, Error::PersistenceFailed, Error::PersistenceFailed)
}

/// The failure of a call to another service.
pub open spec fn call_failure(outcome: Outcome, call: Call) -> Step {
    failure_of(
        outcome,
        Error::ExternalCallFailed { call },
        Error::ExternalCallTimedOut { call },
    )
}

/// The post-processing of one minigroup.
#[derive(Clone, Debug, PartialEq, Eq)]
pub struct MinigroupPostprocessingStrategy {
    pub minigroup: Class,
}

impl MinigroupPostprocessingStrategy {
    /// The post-processing of `minigroup`.
    pub fn new(minigroup: Class) -> (res: MinigroupPostprocessingStrategy)
        ensures
            res.minigroup == minigroup,
    {
        MinigroupPostprocessingStrategy { minigroup }
    }

    /// What the handling of an upload notice with the tracks `rtcs` starts with.
    pub open spec fn upload_step(&self, rtcs: Seq<RtcUploadResult>, step: Step) -> bool {
        if rtcs.len() == 0 {
            step == Step::Failed(Error::EmptyTrackList)
        } else if !all_ready(rtcs) {
            fails_on_first_missing(rtcs, step)
        } else {
            inserts_rows_of(self.minigroup.id, rtcs, step)
        }
    }

    /// What the handling of an adjustment notice starts with.
    pub open spec fn adjust_step(&self, result: RoomAdjustResult, step: Step) -> bool {
        match result {
            RoomAdjustResult::Success { original_room_id, modified_room_id, .. } => step == (
            Step::Perform {
                action: Action::SaveAdjustment {
                    class_id: self.minigroup.id,
                    original_room_id,
                    modified_room_id,
                },
                state: State::SavingAdjustment { modified_room_id },
            }),
            RoomAdjustResult::Error { .. } => step == Step::Failed(Error::AdjustFailed),
        }
    }

    /// What the handling of a completion notice of the transcoding starts with.
    pub open spec fn transcoding_step(&self, result: TaskCompleteResult, step: Step) -> bool {
        match result {
            TaskCompleteResult::Success(
                TaskCompleteSuccess::TranscodeMinigroupToHls(
                    TranscodeMinigroupToHlsSuccess { recording_duration: Some(recording_duration) },
                ),
            ) => step == (Step::Perform {
                action: Action::MarkTranscoded { class_id: self.minigroup.id },
                state: State::MarkingTranscoded { recording_duration },
            }),
            TaskCompleteResult::Success(
                TaskCompleteSuccess::TranscodeMinigroupToHls(
                    TranscodeMinigroupToHlsSuccess { recording_duration: None },
                ),
            ) => step == Step::Failed(Error::InvalidDuration),
            TaskCompleteResult::Success(_) => step == Step::Failed(Error::UnexpectedTemplate),
            TaskCompleteResult::Failure { .. } => step == Step::Failed(Error::TranscodingFailed),
        }
    }

    /// How the handling goes on from `state` once the host reports `outcome`.
    pub open spec fn resume_step(&self, state: State, outcome: Outcome, step: Step) -> bool {
        match state {
            State::InsertingRecordings { rtcs } => if outcome is Done {
                if rtcs@.len() == 0 {
                    step == Step::Failed(Error::EmptyTrackList)
                } else if !any_segment(rtcs@) {
                    step == Step::Failed(Error::NoSegments)
                } else {
                    adjusts_room_to(self.minigroup.event_room_id, rtcs@, step)
                }
            } else {
                step == persistence_failure(outcome)
            },
            State::AdjustingRoom => if outcome is Done {
                step == Step::Finished
            } else {
                step == call_failure(outcome, Call::AdjustRoom)
            },
            State::SavingAdjustment { modified_room_id } => match outcome {
                Outcome::Saved { class, recordings } => if recordings@.len() == 0 {
                    step == Step::Failed(Error::NoRecordings)
                } else {
                    step == (Step::Perform {
                        action: Action::ReadRoom { room_id: modified_room_id },
                        state: State::ReadingRoom { class, recordings, modified_room_id },
                    })
                },
                _ => step == persistence_failure(outcome),
            },
            State::ReadingRoom { class, recordings, modified_room_id } => match outcome {
                Outcome::Room { room } => match room.time.0 {
                    Bound::Included(opened_at) => step matches Step::Perform {
                        action: Action::ListEvents { room_id, kind },
                        state,
                    } && room_id == modified_room_id && kind@ == PIN_EVENT_TYPE@ && state == (
                    State::ListingEvents { class, recordings, opened_at }),
                    _ => step == Step::Failed(Error::WrongRoomOpeningTime),
                },
                _ => step == call_failure(outcome, Call::ReadRoom),
            },
            State::ListingEvents { class, recordings, opened_at } => match outcome {
                Outcome::Events { events } => creates_task_of(
                    self.minigroup.id,
                    account_view(class.host),
                    recordings@,
                    events@,
                    opened_at@,
                    step,
                ),
                _ => step == call_failure(outcome, Call::ListEvents),
            },
            State::CreatingTask => if outcome is Done {
                step == Step::Finished
            } else {
                step == call_failure(outcome, Call::CreateTask)
            },
            State::MarkingTranscoded { recording_duration } => if outcome is Done {
                publishes_ready(self.minigroup, recording_duration, step)
            } else {
                step == persistence_failure(outcome)
            },
            State::Publishing => if outcome is Done {
                step == Step::Finished
            } else {
                step == call_failure(outcome, Call::Publish)
            },
            _ => step == Step::Failed(Error::UnexpectedOutcome),
        }
    }

    /// Handles the notice that the tracks `rtcs` of the session were uploaded.
    ///
    /// Fails on an empty list and on a track without recording.  Otherwise it
    /// asks to insert one recording per track; once that is done the host is
    /// asked to have the event room adjusted to the envelope of the tracks.
    pub fn handle_upload(&self, rtcs: Vec<RtcUploadResult>) -> (step: Step)
        ensures
            self.upload_step(rtcs@, step),
    {
        if rtcs.len() == 0 {
            return Step::Failed(Error::EmptyTrackList);
        }
        let ready: Vec<RtcUploadReadyData> = match extract_ready_rtcs(rtcs) {
            Ok(ready) => ready,
            Err(e) => {
                return Step::Failed(e);
            },
        };
        let rows = insert_recordings(self.minigroup.id(), &ready);
        Step::Perform {
            action: Action::InsertRecordings { rows },
            state: State::InsertingRecordings { rtcs: ready },
        }
    }

    /// Handles the notice of the result of the adjustment of the event room.
    ///
    /// A reported error fails the handling at once: no action is asked for, so
    /// neither the class nor a recording is changed and no task is submitted.
    /// On success the host is asked to save the adjustment; the handling then
    /// reads the modified room, lists its pin events and submits the
    /// transcoding task with one stream per recording.
    pub fn handle_adjust(&self, room_adjust_result: RoomAdjustResult) -> (step: Step)
        ensures
            self.adjust_step(room_adjust_result, step),
            room_adjust_result is Error ==> step.action() is None,
    {
        match room_adjust_result {
            RoomAdjustResult::Success { original_room_id, modified_room_id, .. } => Step::Perform {
                action: Action::SaveAdjustment {
                    class_id: self.minigroup.id(),
                    original_room_id,
                    modified_room_id,
                },
                state: State::SavingAdjustment { modified_room_id },
            },
            RoomAdjustResult::Error { .. } => Step::Failed(Error::AdjustFailed),
        }
    }

    /// Handles the notice that the transcoding task is complete.
    ///
    /// Fails if the task failed, if it was no minigroup transcoding or if the
    /// reported duration is no number.  Otherwise it asks to mark the
    /// recordings of the class as transcoded; once that is done the host is
    /// asked to publish the ready event of the class.
    pub fn handle_transcoding_completion(&self, completion_result: TaskCompleteResult) -> (step:
        Step)
        ensures
            self.transcoding_step(completion_result, step),
    {
        match completion_result {
            TaskCompleteResult::Success(
                TaskCompleteSuccess::TranscodeMinigroupToHls(
                    TranscodeMinigroupToHlsSuccess { recording_duration },
                ),
            ) => match recording_duration {
                Some(recording_duration) => Step::Perform {
                    action: Action::MarkTranscoded { class_id: self.minigroup.id() },
                    state: State::MarkingTranscoded { recording_duration },
                },
                None => Step::Failed(Error::InvalidDuration),
            },
            TaskCompleteResult::Success(_) => Step::Failed(Error::UnexpectedTemplate),
            TaskCompleteResult::Failure { .. } => Step::Failed(Error::TranscodingFailed),
        }
    }

    /// Goes on from `state` with the `outcome` of the action that the host was
    /// asked to perform.
    pub fn resume(&self, state: State, outcome: Outcome) -> (step: Step)
        ensures
            self.resume_step(state, outcome, step),
    {
        match state {
            State::InsertingRecordings { rtcs } => match outcome {
                Outcome::Done => call_adjust(self.minigroup.event_room_id(), rtcs.as_slice()),
                other => failed_to_persist(&other),
            },
            State::AdjustingRoom => match outcome {
                Outcome::Done => Step::Finished,
                other => failed_to_call(&other, Call::AdjustRoom),
            },
            State::SavingAdjustment { modified_room_id } => match outcome {
                Outcome::Saved { class, recordings } => {
                    if recordings.len() == 0 {
                        Step::Failed(Error::NoRecordings)
                    } else {
                        Step::Perform {
                            action: Action::ReadRoom { room_id: modified_room_id },
                            state: State::ReadingRoom { class, recordings, modified_room_id },
                        }
                    }
                },
                other => failed_to_persist(&other),
            },
            State::ReadingRoom { class, recordings, modified_room_id } => match outcome {
                Outcome::Room { room } => match room.time.0 {
                    Bound::Included(opened_at) => Step::Perform {
                        action: Action::ListEvents {
                            room_id: modified_room_id,
                            kind: PIN_EVENT_TYPE.to_owned(),
                        },
                        state: State::ListingEvents { class, recordings, opened_at },
                    },
                    _ => Step::Failed(Error::WrongRoomOpeningTime),
                },
                other => failed_to_call(&other, Call::ReadRoom),
            },
            State::ListingEvents { class, recordings, opened_at } => match outcome {
                Outcome::Events { events } => {
                    let streams = build_streams(
                        recordings.as_slice(),
                        events.as_slice(),
                        opened_at,
                    );
                    let host_stream_id = host_stream_id(class.host(), recordings.as_slice());
                    Step::Perform {
                        action: Action::CreateTask {
                            class_id: self.minigroup.id(),
                            task: Task::TranscodeMinigroupToHls { streams, host_stream_id },
                        },
                        state: State::CreatingTask,
                    }
                },
                other => failed_to_call(&other, Call::ListEvents),
            },
            State::CreatingTask => match outcome {
                Outcome::Done => Step::Finished,
                other => failed_to_call(&other, Call::CreateTask),
            },
            State::MarkingTranscoded { recording_duration } => match outcome {
                Outcome::Done => self.publish_ready(recording_duration),
                other => failed_to_persist(&other),
            },
            State::Publishing => match outcome {
                Outcome::Done => Step::Finished,
                other => failed_to_call(&other, Call::Publish),
            },
            _ => Step::Failed(Error::UnexpectedOutcome),
        }
    }

    /// The step that announces the transcoded minigroup.
    fn publish_ready(&self, recording_duration: u64) -> (step: Step)
        ensures
            publishes_ready(self.minigroup, recording_duration, step),
    {
        let mut path = String::from_str("audiences/");
        path.append(self.minigroup.audience());
        path.append("/events");
        let tags: Option<String> = match self.minigroup.tags() {
            Some(tags) => Some(tags.clone()),
            None => None,
        };
        let payload = MinigroupReady {
            id: self.minigroup.id(),
            scope: self.minigroup.scope().to_owned(),
            tags,
            status: "success".to_owned(),
            recording_duration,
        };
        Step::Perform {
            action: Action::Publish {
                path,
                label: "minigroup.ready".to_owned(),
                payload: ReadyEvent::Minigroup(payload),
            },
            state: State::Publishing,
        }
    }
}

/// The failure of an action on the database for an `outcome` that does not
/// answer it.
pub(crate) fn failed_to_persist(outcome: &Outcome) -> (step: Step)
    ensures
        step == persistence_failure(*outcome),
{
    match outcome {
        Outcome::Failed => Step::Failed(Error::PersistenceFailed),
        Outcome::TimedOut => Step::Failed(Error::PersistenceFailed),
        _ => Step::Failed(Error::UnexpectedOutcome),
    }
}

/// The failure of a call to another service for an `outcome` that does not
/// answer it.
pub(crate) fn failed_to_call(outcome: &Outcome, call: Call) -> (step: Step)
    ensures
        step == call_failure(*outcome, call),
{
    match outcome {
        Outcome::Failed => Step::Failed(Error::ExternalCallFailed { call }),
        Outcome::TimedOut => Step::Failed(Error::ExternalCallTimedOut { call }),
        _ => Step::Failed(Error::UnexpectedOutcome),
    }
}

/// The rows to insert for the uploaded tracks `rtcs` of the class `class_id`,
/// one per track and in their order.
pub fn insert_recordings(class_id: u128, rtcs: &[RtcUploadReadyData]) -> (rows: Vec<
    RecordingInsertQuery,
>)
    ensures
        are_rows_of(rows@, class_id, rtcs@),
{
    let mut rows: Vec<RecordingInsertQuery> = Vec::new();
    let mut i: usize = 0;
    while i < rtcs.len()
        invariant
            i <= rtcs.len(),
            rows@.len() == i,
            forall|j: int| 0 <= j < i ==> (#[trigger] rows@[j]).stores(class_id, rtcs@[j]),
        decreases rtcs.len() - i,
    {
        let rtc = &rtcs[i];
        let q = RecordingInsertQuery::new(
            class_id,
            rtc.id,
            rtc.segments.duplicate(),
            rtc.started_at,
            rtc.uri.clone(),
            rtc.created_by.duplicate(),
        );
        rows.push(q);
        i += 1;
    }
    rows
}

/// The request to adjust the room `room_id` to the uploaded tracks `rtcs`:
/// their envelope, counted from the earliest start of a track.  Fails on an
/// empty list and on tracks without any segment.
pub fn call_adjust(room_id: u128, rtcs: &[RtcUploadReadyData]) -> (step: Step)
    ensures
        rtcs@.len() == 0 ==> step == Step::Failed(Error::EmptyTrackList),
        rtcs@.len() > 0 && !any_segment(rtcs@) ==> step == Step::Failed(Error::NoSegments),
        rtcs@.len() > 0 && any_segment(rtcs@) ==> adjusts_room_to(room_id, rtcs@, step),
{
    let started_at: Timestamp = match min_started_at(rtcs) {
        Some(t) => t,
        None => {
            return Step::Failed(Error::EmptyTrackList);
        },
    };
    let segments: Segments = match build_adjust_segments(rtcs) {
        Ok(segments) => segments,
        Err(e) => {
            return Step::Failed(e);
        },
    };
    Step::Perform {
        action: Action::AdjustRoom { room_id, started_at, segments, offset: PREROLL_OFFSET },
        state: State::AdjustingRoom,
    }
}

} // verus!
