//! What the persistence operations of the pipeline do to recordings and
//! classes.
//!
//! The pipeline asks its host to persist.  [`Action::effect`] and
//! [`Action::effect_on_class`] state what each action is to do to what the
//! database holds; [`perform`] and [`perform_on_class`] do just that to
//! recordings and a class held in memory.

use crate::class::Object as Class;
use crate::postprocessing::{reversed, Action};
use crate::queries::{RecreateQuery, UpdateQuery};
use crate::recording::{Recording, RecordingInsertQuery};
use crate::segments::{Segment, Segments};
use crate::time::Timestamp;
use vstd::prelude::*;

verus! {

/// Whether `recording` is `row` as stored under the identity `id`: not yet
/// adjusted and not yet transcoded.
pub open spec fn is_inserted(recording: Recording, row: RecordingInsertQuery, id: u128) -> bool {
    &&& recording.id == id
    &&& recording.class_id == row.class_id
    &&& recording.rtc_id == row.rtc_id
    &&& recording.stream_uri == row.stream_uri
    &&& recording.segments == row.segments
    &&& recording.started_at == row.started_at
    &&& recording.created_by == row.created_by
    &&& recording.adjusted_at is None
    &&& recording.modified_segments is None
    &&& recording.transcoded_at is None
}

/// Whether `after` is `before` once the adjustment of the class `class_id`
/// was saved at `now`: a recording of the class is adjusted at `now` and has
/// its recorded segments as its modified ones; any other is as before.
pub open spec fn is_adjusted(after: Recording, before: Recording, class_id: u128, now: Timestamp) -> bool {
    &&& after.id == before.id
    &&& after.class_id == before.class_id
    &&& after.rtc_id == before.rtc_id
    &&& after.stream_uri == before.stream_uri
    &&& after.segments == before.segments
    &&& after.started_at == before.started_at
    &&& after.created_by == before.created_by
    &&& after.transcoded_at == before.transcoded_at
    &&& if before.class_id == class_id {
        &&& after.adjusted_at == Some(now)
        &&& after.modified_segments matches Some(modified)
        &&& modified@ == before.segments@
    } else {
        &&& after.adjusted_at == before.adjusted_at
        &&& after.modified_segments == before.modified_segments
    }
}

/// Whether `after` is `before` once the recordings of the class `class_id`
/// were marked as transcoded at `now`.
pub open spec fn is_transcoded(after: Recording, before: Recording, class_id: u128, now: Timestamp) -> bool {
    &&& after.id == before.id
    &&& after.class_id == before.class_id
    &&& after.rtc_id == before.rtc_id
    &&& after.stream_uri == before.stream_uri
    &&& after.segments == before.segments
    &&& after.started_at == before.started_at
    &&& after.created_by == before.created_by
    &&& after.adjusted_at == before.adjusted_at
    &&& after.modified_segments == before.modified_segments
    &&& after.transcoded_at == if before.class_id == class_id {
        Some(now)
    } else {
        before.transcoded_at
    }
}

/// The recording that the insertion of `row` creates under the identity `id`.
pub fn inserted(row: RecordingInsertQuery, id: u128) -> (recording: Recording)
    ensures
        is_inserted(recording, row, id),
{
    Recording {
        id,
        class_id: row.class_id,
        rtc_id: row.rtc_id,
        stream_uri: row.stream_uri,
        segments: row.segments,
        started_at: row.started_at,
        created_by: row.created_by,
        adjusted_at: None,
        modified_segments: None,
        transcoded_at: None,
    }
}

/// Whether a recording of the track `rtc_id` of the class `class_id` is among
/// `recordings`.
pub open spec fn holds_track(recordings: Seq<Recording>, class_id: u128, rtc_id: u128) -> bool {
    exists|i: int|
        0 <= i < recordings.len() && (#[trigger] recordings[i]).class_id == class_id
            && recordings[i].rtc_id == rtc_id
}

/// The stored recordings after the insertion of the `fresh` ones in their
/// order, where a recording is left out if one of its track and class is
/// stored already.
pub open spec fn with_new(stored: Seq<Recording>, fresh: Seq<Recording>) -> Seq<Recording>
    decreases fresh.len(),
{
    if fresh.len() == 0 {
        stored
    } else {
        let before = with_new(stored, fresh.drop_last());
        let last = fresh.last();
        if holds_track(before, last.class_id, last.rtc_id) {
            before
        } else {
            before.push(last)
        }
    }
}

/// Whether a recording of the track `rtc_id` of the class `class_id` is among
/// `recordings`.
pub fn has_track(recordings: &[Recording], class_id: u128, rtc_id: u128) -> (res: bool)
    ensures
        res == holds_track(recordings@, class_id, rtc_id),
{
    let mut i: usize = 0;
    while i < recordings.len()
        invariant
            i <= recordings.len(),
            forall|j: int|
                0 <= j < i ==> !((#[trigger] recordings@[j]).class_id == class_id
                    && recordings@[j].rtc_id == rtc_id),
        decreases recordings.len() - i,
    {
        if recordings[i].class_id == class_id && recordings[i].rtc_id == rtc_id {
            return true;
        }
        i += 1;
    }
    false
}

/// Inserts the `fresh` recordings behind the stored ones, leaving out each
/// one whose track is stored for its class already.  A notice that is
/// delivered twice thus adds its recordings once.
pub fn insert_new(stored: Vec<Recording>, fresh: Vec<Recording>) -> (res: Vec<Recording>)
    ensures
        res@ == with_new(stored@, fresh@),
{
    let ghost all = fresh@;
    let mut res = stored;
    let mut rest = reversed(fresh);
    while rest.len() > 0
        invariant
            rest@.len() <= all.len(),
            forall|j: int| 0 <= j < rest@.len() ==> rest@[j] == all[all.len() - 1 - j],
            res@ == with_new(stored@, all.take(all.len() - rest@.len())),
        decreases rest.len(),
    {
        let ghost k = all.len() - rest@.len();
        assert(all.take(k + 1).drop_last() =~= all.take(k));
        match rest.pop() {
            Some(recording) => {
                assert(recording == all[k]);
                if !has_track(res.as_slice(), recording.class_id, recording.rtc_id) {
                    res.push(recording);
                }
            },
            None => {},
        }
    }
    assert(all.take(all.len() as int) =~= all);
    res
}

/// Insertion keeps what is stored, in its place.
pub proof fn lemma_insertion_keeps_stored(stored: Seq<Recording>, fresh: Seq<Recording>)
    ensures
        stored.len() <= with_new(stored, fresh).len(),
        with_new(stored, fresh).take(stored.len() as int) == stored,
    decreases fresh.len(),
{
    if fresh.len() == 0 {
        assert(stored.take(stored.len() as int) =~= stored);
    } else {
        lemma_insertion_keeps_stored(stored, fresh.drop_last());
        let before = with_new(stored, fresh.drop_last());
        assert(with_new(stored, fresh).take(stored.len() as int) =~= before.take(
            stored.len() as int,
        ));
    }
}

/// After an insertion, the track of every inserted recording is stored.
pub proof fn lemma_inserted_tracks_are_held(stored: Seq<Recording>, fresh: Seq<Recording>, i: int)
    requires
        0 <= i < fresh.len(),
    ensures
        holds_track(with_new(stored, fresh), fresh[i].class_id, fresh[i].rtc_id),
    decreases fresh.len(),
{
    let before = with_new(stored, fresh.drop_last());
    let after = with_new(stored, fresh);
    let last = fresh.last();
    if i == fresh.len() - 1 {
        if !holds_track(before, last.class_id, last.rtc_id) {
            assert(after[before.len() as int] == last);
        }
    } else {
        lemma_inserted_tracks_are_held(stored, fresh.drop_last(), i);
        assert(fresh.drop_last()[i] == fresh[i]);
        let w = choose|j: int|
            0 <= j < before.len() && (#[trigger] before[j]).class_id == fresh[i].class_id
                && before[j].rtc_id == fresh[i].rtc_id;
        if !holds_track(before, last.class_id, last.rtc_id) {
            assert(after[w] == before[w]);
        }
    }
}

/// Recordings whose tracks are all stored already are left out altogether.
pub proof fn lemma_held_tracks_are_left_out(stored: Seq<Recording>, fresh: Seq<Recording>)
    requires
        forall|i: int|
            0 <= i < fresh.len() ==> holds_track(
                stored,
                (#[trigger] fresh[i]).class_id,
                fresh[i].rtc_id,
            ),
    ensures
        with_new(stored, fresh) == stored,
    decreases fresh.len(),
{
    if fresh.len() > 0 {
        let front = fresh.drop_last();
        assert forall|i: int| 0 <= i < front.len() implies holds_track(
            stored,
            (#[trigger] front[i]).class_id,
            front[i].rtc_id,
        ) by {
            assert(front[i] == fresh[i]);
        }
        lemma_held_tracks_are_left_out(stored, front);
        assert(fresh[fresh.len() - 1] == fresh.last());
    }
}

/// Inserting the same recordings a second time changes nothing.
pub proof fn lemma_insertion_is_idempotent(stored: Seq<Recording>, fresh: Seq<Recording>)
    ensures
        with_new(with_new(stored, fresh), fresh) == with_new(stored, fresh),
{
    let once = with_new(stored, fresh);
    assert forall|i: int| 0 <= i < fresh.len() implies holds_track(
        once,
        (#[trigger] fresh[i]).class_id,
        fresh[i].rtc_id,
    ) by {
        lemma_inserted_tracks_are_held(stored, fresh, i);
    }
    lemma_held_tracks_are_left_out(once, fresh);
}

/// The recordings once the adjustment of the class `class_id` was saved at
/// `now`, in their order.
pub fn mark_adjusted(recordings: Vec<Recording>, class_id: u128, now: Timestamp) -> (res: Vec<
    Recording,
>)
    ensures
        adjusts(recordings@, res@, class_id, now),
{
    let ghost all = recordings@;
    let mut rest = recordings;
    let mut changed: Vec<Recording> = Vec::new();
    while rest.len() > 0
        invariant
            rest@.len() + changed@.len() == all.len(),
            rest@ == all.take(rest@.len() as int),
            forall|j: int|
                0 <= j < changed@.len() ==> is_adjusted(
                    #[trigger] changed@[j],
                    all[all.len() - 1 - j],
                    class_id,
                    now,
                ),
        decreases rest.len(),
    {
        match rest.pop() {
            Some(recording) => {
                if recording.class_id == class_id {
                    let modified = recording.segments.duplicate();
                    changed.push(
                        Recording {
                            id: recording.id,
                            class_id: recording.class_id,
                            rtc_id: recording.rtc_id,
                            stream_uri: recording.stream_uri,
                            segments: recording.segments,
                            started_at: recording.started_at,
                            created_by: recording.created_by,
                            adjusted_at: Some(now),
                            modified_segments: Some(modified),
                            transcoded_at: recording.transcoded_at,
                        },
                    );
                } else {
                    changed.push(recording);
                }
            },
            None => {},
        }
    }
    reversed(changed)
}

/// The recordings once those of the class `class_id` were marked as
/// transcoded at `now`, in their order.
pub fn mark_transcoded(recordings: Vec<Recording>, class_id: u128, now: Timestamp) -> (res: Vec<
    Recording,
>)
    ensures
        transcodes(recordings@, res@, class_id, now),
{
    let ghost all = recordings@;
    let mut rest = recordings;
    let mut changed: Vec<Recording> = Vec::new();
    while rest.len() > 0
        invariant
            rest@.len() + changed@.len() == all.len(),
            rest@ == all.take(rest@.len() as int),
            forall|j: int|
                0 <= j < changed@.len() ==> is_transcoded(
                    #[trigger] changed@[j],
                    all[all.len() - 1 - j],
                    class_id,
                    now,
                ),
        decreases rest.len(),
    {
        match rest.pop() {
            Some(recording) => {
                if recording.class_id == class_id {
                    changed.push(
                        Recording {
                            id: recording.id,
                            class_id: recording.class_id,
                            rtc_id: recording.rtc_id,
                            stream_uri: recording.stream_uri,
                            segments: recording.segments,
                            started_at: recording.started_at,
                            created_by: recording.created_by,
                            adjusted_at: recording.adjusted_at,
                            modified_segments: recording.modified_segments,
                            transcoded_at: Some(now),
                        },
                    );
                } else {
                    changed.push(recording);
                }
            },
            None => {},
        }
    }
    reversed(changed)
}

/// The recordings that are left once those of the class `class_id` are
/// deleted, in their order.
pub open spec fn without_class(recordings: Seq<Recording>, class_id: u128) -> Seq<Recording>
    decreases recordings.len(),
{
    if recordings.len() == 0 {
        recordings
    } else {
        let before = without_class(recordings.drop_last(), class_id);
        if recordings.last().class_id == class_id {
            before
        } else {
            before.push(recordings.last())
        }
    }
}

/// Deletes the recordings of the class `class_id`, as is done when the class
/// is created anew.
pub fn delete_recordings(recordings: Vec<Recording>, class_id: u128) -> (res: Vec<Recording>)
    ensures
        res@ == without_class(recordings@, class_id),
{
    let ghost all = recordings@;
    let mut res: Vec<Recording> = Vec::new();
    let mut rest = reversed(recordings);
    while rest.len() > 0
        invariant
            rest@.len() <= all.len(),
            forall|j: int| 0 <= j < rest@.len() ==> rest@[j] == all[all.len() - 1 - j],
            res@ == without_class(all.take(all.len() - rest@.len()), class_id),
        decreases rest.len(),
    {
        let ghost k = all.len() - rest@.len();
        assert(all.take(k + 1).drop_last() =~= all.take(k));
        match rest.pop() {
            Some(recording) => {
                assert(recording == all[k]);
                if recording.class_id != class_id {
                    res.push(recording);
                }
            },
            None => {},
        }
    }
    assert(all.take(all.len() as int) =~= all);
    res
}

/// After the recordings of a class are deleted none of them is left, and
/// every other recording is.
pub proof fn lemma_deleted_class_is_gone(recordings: Seq<Recording>, class_id: u128)
    ensures
        forall|i: int|
            0 <= i < without_class(recordings, class_id).len() ==> (#[trigger] without_class(
                recordings,
                class_id,
            )[i]).class_id != class_id,
        forall|i: int|
            0 <= i < recordings.len() && (#[trigger] recordings[i]).class_id != class_id
                ==> without_class(recordings, class_id).contains(recordings[i]),
    decreases recordings.len(),
{
    let left = without_class(recordings, class_id);
    if recordings.len() > 0 {
        let front = recordings.drop_last();
        let before = without_class(front, class_id);
        lemma_deleted_class_is_gone(front, class_id);
        assert forall|i: int|
            0 <= i < recordings.len() && (#[trigger] recordings[i]).class_id
                != class_id implies left.contains(recordings[i]) by {
            if i < front.len() {
                assert(front[i] == recordings[i]);
                let w = choose|j: int| 0 <= j < before.len() && before[j] == front[i];
                assert(left[w] == recordings[i]);
            } else {
                assert(left[before.len() as int] == recordings[i]);
            }
        }
    }
}

/// How far the post-processing of a session has come.  The stage is not
/// stored: it shows in the recordings of the class.
#[derive(Clone, Copy, Debug, PartialEq, Eq, Structural)]
pub enum Stage {
    /// Nothing was uploaded yet.
    AwaitingUpload,
    /// The tracks are stored; the event room is yet to be adjusted.
    AwaitingAdjust,
    /// The adjustment is stored; the transcoding is yet to complete.
    AwaitingTranscode,
    /// The recordings are transcoded.
    Ready,
}

/// Whether all of `recordings` are adjusted.
pub open spec fn all_adjusted(recordings: Seq<Recording>) -> bool {
    forall|i: int| 0 <= i < recordings.len() ==> (#[trigger] recordings[i]).adjusted_at is Some
}

/// Whether all of `recordings` are transcoded.
pub open spec fn all_transcoded(recordings: Seq<Recording>) -> bool {
    forall|i: int| 0 <= i < recordings.len() ==> (#[trigger] recordings[i]).transcoded_at is Some
}

/// The stage of a session that has the given recordings.
pub open spec fn stage_of(recordings: Seq<Recording>) -> Stage {
    if recordings.len() == 0 {
        Stage::AwaitingUpload
    } else if all_transcoded(recordings) {
        Stage::Ready
    } else if all_adjusted(recordings) {
        Stage::AwaitingTranscode
    } else {
        Stage::AwaitingAdjust
    }
}

/// The stage of a session that has the given recordings.
pub fn stage(recordings: &[Recording]) -> (res: Stage)
    ensures
        res == stage_of(recordings@),
{
    if recordings.len() == 0 {
        return Stage::AwaitingUpload;
    }
    let mut adjusted: bool = true;
    let mut transcoded: bool = true;
    let mut i: usize = 0;
    while i < recordings.len()
        invariant
            i <= recordings.len(),
            adjusted == all_adjusted(recordings@.take(i as int)),
            transcoded == all_transcoded(recordings@.take(i as int)),
        decreases recordings.len() - i,
    {
        let ghost before = recordings@.take(i as int);
        let ghost after = recordings@.take(i + 1);
        assert(forall|j: int| 0 <= j < i ==> after[j] == before[j]);
        assert(after[i as int] == recordings@[i as int]);
        if recordings[i].adjusted_at.is_none() {
            adjusted = false;
        }
        if recordings[i].transcoded_at.is_none() {
            transcoded = false;
        }
        i += 1;
    }
    assert(recordings@.take(i as int) =~= recordings@);
    if transcoded {
        Stage::Ready
    } else if adjusted {
        Stage::AwaitingTranscode
    } else {
        Stage::AwaitingAdjust
    }
}

/// Once the tracks of a session are stored, its event room is to be adjusted.
pub proof fn lemma_upload_awaits_adjustment(recordings: Seq<Recording>)
    requires
        recordings.len() > 0,
        forall|i: int|
            0 <= i < recordings.len() ==> (#[trigger] recordings[i]).adjusted_at is None
                && recordings[i].transcoded_at is None,
    ensures
        stage_of(recordings) == Stage::AwaitingAdjust,
{
    assert(recordings[0].adjusted_at is None);
}

/// Once the adjustment of a session is stored, its recordings are to be
/// transcoded.
pub proof fn lemma_adjustment_awaits_transcoding(
    after: Seq<Recording>,
    before: Seq<Recording>,
    class_id: u128,
    now: Timestamp,
)
    requires
        before.len() > 0,
        after.len() == before.len(),
        forall|i: int|
            0 <= i < before.len() ==> (#[trigger] before[i]).class_id == class_id
                && before[i].transcoded_at is None,
        forall|i: int|
            0 <= i < after.len() ==> is_adjusted(#[trigger] after[i], before[i], class_id, now),
    ensures
        stage_of(after) == Stage::AwaitingTranscode,
{
    assert(after[0].transcoded_at == before[0].transcoded_at);
}

/// Once the transcoding of a session is recorded, the session is ready.
pub proof fn lemma_transcoding_makes_ready(
    after: Seq<Recording>,
    before: Seq<Recording>,
    class_id: u128,
    now: Timestamp,
)
    requires
        before.len() > 0,
        after.len() == before.len(),
        forall|i: int| 0 <= i < before.len() ==> (#[trigger] before[i]).class_id == class_id,
        forall|i: int|
            0 <= i < after.len() ==> is_transcoded(#[trigger] after[i], before[i], class_id, now),
    ensures
        stage_of(after) == Stage::Ready,
{
}

/// Whether `after` is `before` once the adjustment of the single stream of
/// the class `class_id` was saved at `now`: a recording of the class is
/// adjusted at `now` and has `modified` as its modified segments; any other
/// is as before.
pub open spec fn is_stream_adjusted(
    after: Recording,
    before: Recording,
    class_id: u128,
    now: Timestamp,
    modified: Seq<Segment>,
) -> bool {
    &&& after.id == before.id
    &&& after.class_id == before.class_id
    &&& after.rtc_id == before.rtc_id
    &&& after.stream_uri == before.stream_uri
    &&& after.segments == before.segments
    &&& after.started_at == before.started_at
    &&& after.created_by == before.created_by
    &&& after.transcoded_at == before.transcoded_at
    &&& if before.class_id == class_id {
        &&& after.adjusted_at == Some(now)
        &&& after.modified_segments matches Some(stored)
        &&& stored@ == modified
    } else {
        &&& after.adjusted_at == before.adjusted_at
        &&& after.modified_segments == before.modified_segments
    }
}

/// The recordings once the adjustment of the single stream of the class
/// `class_id` was saved at `now`, in their order.
pub fn mark_stream_adjusted(
    recordings: Vec<Recording>,
    class_id: u128,
    now: Timestamp,
    modified: &Segments,
) -> (res: Vec<Recording>)
    ensures
        stream_adjusts(recordings@, res@, class_id, now, modified@),
{
    let ghost all = recordings@;
    let mut rest = recordings;
    let mut changed: Vec<Recording> = Vec::new();
    while rest.len() > 0
        invariant
            rest@.len() + changed@.len() == all.len(),
            rest@ == all.take(rest@.len() as int),
            forall|j: int|
                0 <= j < changed@.len() ==> is_stream_adjusted(
                    #[trigger] changed@[j],
                    all[all.len() - 1 - j],
                    class_id,
                    now,
                    modified@,
                ),
        decreases rest.len(),
    {
        match rest.pop() {
            Some(recording) => {
                if recording.class_id == class_id {
                    changed.push(
                        Recording {
                            id: recording.id,
                            class_id: recording.class_id,
                            rtc_id: recording.rtc_id,
                            stream_uri: recording.stream_uri,
                            segments: recording.segments,
                            started_at: recording.started_at,
                            created_by: recording.created_by,
                            adjusted_at: Some(now),
                            modified_segments: Some(modified.duplicate()),
                            transcoded_at: recording.transcoded_at,
                        },
                    );
                } else {
                    changed.push(recording);
                }
            },
            None => {},
        }
    }
    reversed(changed)
}

/// Whether `fresh` holds, in the order of `rows`, each row as it is stored,
/// under whatever identity the database gives it.
pub open spec fn are_inserted(fresh: Seq<Recording>, rows: Seq<RecordingInsertQuery>) -> bool {
    &&& fresh.len() == rows.len()
    &&& forall|i: int|
        0 <= i < rows.len() ==> is_inserted(#[trigger] fresh[i], rows[i], fresh[i].id)
}

/// Whether `after` is what the recordings `before` become by the insertion
/// of `rows`: each row is stored behind the others, unless its track is
/// stored for its class already.
pub open spec fn inserts(
    before: Seq<Recording>,
    after: Seq<Recording>,
    rows: Seq<RecordingInsertQuery>,
) -> bool {
    exists|fresh: Seq<Recording>| #[trigger]
        are_inserted(fresh, rows) && after == with_new(before, fresh)
}

/// Whether `after` is what the recordings `before` become once the
/// adjustment of the class `class_id` is saved at `now`.
pub open spec fn adjusts(
    before: Seq<Recording>,
    after: Seq<Recording>,
    class_id: u128,
    now: Timestamp,
) -> bool {
    &&& after.len() == before.len()
    &&& forall|i: int|
        0 <= i < after.len() ==> is_adjusted(#[trigger] after[i], before[i], class_id, now)
}

/// Whether `after` is what the recordings `before` become once the
/// adjustment of the single stream of the class `class_id` is saved at `now`.
pub open spec fn stream_adjusts(
    before: Seq<Recording>,
    after: Seq<Recording>,
    class_id: u128,
    now: Timestamp,
    modified: Seq<Segment>,
) -> bool {
    &&& after.len() == before.len()
    &&& forall|i: int|
        0 <= i < after.len() ==> is_stream_adjusted(
            #[trigger] after[i],
            before[i],
            class_id,
            now,
            modified,
        )
}

/// Whether `after` is what the recordings `before` become once those of the
/// class `class_id` are marked as transcoded at `now`.
pub open spec fn transcodes(
    before: Seq<Recording>,
    after: Seq<Recording>,
    class_id: u128,
    now: Timestamp,
) -> bool {
    &&& after.len() == before.len()
    &&& forall|i: int|
        0 <= i < after.len() ==> is_transcoded(#[trigger] after[i], before[i], class_id, now)
}

/// Whether `after` is `before` once the update `q` ran: the class that it
/// names has its original and its modified event room stored; any other
/// class is as before.
pub open spec fn is_class_adjusted(after: Class, before: Class, q: UpdateQuery) -> bool {
    if before.id == q.id {
        after == (Class {
            original_event_room_id: Some(q.original_event_room_id),
            modified_event_room_id: Some(q.modified_event_room_id),
            ..before
        })
    } else {
        after == before
    }
}

/// Whether `after` is `before` once the class was created anew by `q`: the
/// class that it names has its new time and rooms, and its adjustment is
/// forgotten; any other class is as before.
pub open spec fn is_recreated(after: Class, before: Class, q: RecreateQuery) -> bool {
    if before.id == q.id {
        after == (Class {
            time: q.time,
            event_room_id: q.event_room_id,
            conference_room_id: q.conference_room_id,
            original_event_room_id: None,
            modified_event_room_id: None,
            ..before
        })
    } else {
        after == before
    }
}

/// The class once the update `q` ran.
pub fn update_class(class: Class, q: UpdateQuery) -> (res: Class)
    ensures
        is_class_adjusted(res, class, q),
{
    if class.id == q.id {
        Class {
            id: class.id,
            kind: class.kind,
            scope: class.scope,
            time: class.time,
            audience: class.audience,
            created_at: class.created_at,
            tags: class.tags,
            conference_room_id: class.conference_room_id,
            event_room_id: class.event_room_id,
            original_event_room_id: Some(q.original_event_room_id),
            modified_event_room_id: Some(q.modified_event_room_id),
            preserve_history: class.preserve_history,
            reserve: class.reserve,
            room_events_uri: class.room_events_uri,
            host: class.host,
        }
    } else {
        class
    }
}

/// The class once it was created anew by `q`.  Its recordings are deleted
/// along with that, see [`delete_recordings`].
pub fn recreate_class(class: Class, q: RecreateQuery) -> (res: Class)
    ensures
        is_recreated(res, class, q),
{
    if class.id == q.id {
        Class {
            id: class.id,
            kind: class.kind,
            scope: class.scope,
            time: q.time,
            audience: class.audience,
            created_at: class.created_at,
            tags: class.tags,
            conference_room_id: q.conference_room_id,
            event_room_id: q.event_room_id,
            original_event_room_id: None,
            modified_event_room_id: None,
            preserve_history: class.preserve_history,
            reserve: class.reserve,
            room_events_uri: class.room_events_uri,
            host: class.host,
        }
    } else {
        class
    }
}

impl Action {
    /// Whether `after` is what the recordings `before` become once the host
    /// has performed the action at `now`.  An insertion stores its rows, the
    /// saving of an adjustment marks the recordings of the class as adjusted,
    /// the completion of the transcoding marks them as transcoded; every
    /// other action leaves the recordings as they are.
    pub open spec fn effect(self, before: Seq<Recording>, after: Seq<Recording>, now: Timestamp) -> bool {
        match self {
            Action::InsertRecordings { rows } => inserts(before, after, rows@),
            Action::SaveAdjustment { class_id, .. } => adjusts(before, after, class_id, now),
            Action::SaveStreamAdjustment { class_id, modified_segments, .. } => stream_adjusts(
                before,
                after,
                class_id,
                now,
                modified_segments@,
            ),
            Action::MarkTranscoded { class_id } => transcodes(before, after, class_id, now),
            _ => after == before,
        }
    }

    /// Whether `after` is what the class `before` becomes once the host has
    /// performed the action.  The saving of an adjustment stores the original
    /// and the modified event room on the class it names; every other action
    /// leaves the class as it is.
    pub open spec fn effect_on_class(self, before: Class, after: Class) -> bool {
        match self {
            Action::SaveAdjustment { class_id, original_room_id, modified_room_id } => {
                is_class_adjusted(
                    after,
                    before,
                    UpdateQuery {
                        id: class_id,
                        original_event_room_id: original_room_id,
                        modified_event_room_id: modified_room_id,
                    },
                )
            },
            Action::SaveStreamAdjustment { class_id, original_room_id, modified_room_id, .. } => {
                is_class_adjusted(
                    after,
                    before,
                    UpdateQuery {
                        id: class_id,
                        original_event_room_id: original_room_id,
                        modified_event_room_id: modified_room_id,
                    },
                )
            },
            _ => after == before,
        }
    }
}

/// The recordings that the insertion of `rows` creates, in their order, with
/// identities counted up from `first_id`.
fn fresh_recordings(rows: Vec<RecordingInsertQuery>, first_id: u128) -> (fresh: Vec<Recording>)
    ensures
        are_inserted(fresh@, rows@),
{
    let ghost all = rows@;
    let mut rest = reversed(rows);
    let mut fresh: Vec<Recording> = Vec::new();
    let mut id: u128 = first_id;
    while rest.len() > 0
        invariant
            rest@.len() + fresh@.len() == all.len(),
            forall|j: int| 0 <= j < rest@.len() ==> rest@[j] == all[all.len() - 1 - j],
            forall|j: int|
                0 <= j < fresh@.len() ==> is_inserted(#[trigger] fresh@[j], all[j], fresh@[j].id),
        decreases rest.len(),
    {
        match rest.pop() {
            Some(row) => {
                fresh.push(inserted(row, id));
                id = id.wrapping_add(1);
            },
            None => {},
        }
    }
    fresh
}

/// Performs `action` at `now` on recordings held in memory, as the host is to
/// perform it on the database.  Recordings that an insertion creates get
/// identities counted up from `first_id`.
pub fn perform(action: Action, recordings: Vec<Recording>, now: Timestamp, first_id: u128) -> (res:
    Vec<Recording>)
    ensures
        action.effect(recordings@, res@, now),
{
    match action {
        Action::InsertRecordings { rows } => {
            let fresh = fresh_recordings(rows, first_id);
            let ghost witness = fresh@;
            let res = insert_new(recordings, fresh);
            assert(are_inserted(witness, rows@) && res@ == with_new(recordings@, witness));
            res
        },
        Action::SaveAdjustment { class_id, .. } => mark_adjusted(recordings, class_id, now),
        Action::SaveStreamAdjustment { class_id, modified_segments, .. } => mark_stream_adjusted(
            recordings,
            class_id,
            now,
            &modified_segments,
        ),
        Action::MarkTranscoded { class_id } => mark_transcoded(recordings, class_id, now),
        _ => recordings,
    }
}

/// Performs `action` on a class held in memory, as the host is to perform
/// it on the database.
pub fn perform_on_class(action: &Action, class: Class) -> (res: Class)
    ensures
        action.effect_on_class(class, res),
{
    match action {
        Action::SaveAdjustment { class_id, original_room_id, modified_room_id } => update_class(
            class,
            UpdateQuery::new(*class_id, *original_room_id, *modified_room_id),
        ),
        Action::SaveStreamAdjustment { class_id, original_room_id, modified_room_id, .. } => {
            update_class(class, UpdateQuery::new(*class_id, *original_room_id, *modified_room_id))
        },
        _ => class,
    }
}

/// Whatever the recordings were, once the host has marked those of a class
/// as transcoded, every recording of the class is marked so.
pub proof fn lemma_mark_transcoded_marks_all(
    class_id: u128,
    before: Seq<Recording>,
    after: Seq<Recording>,
    now: Timestamp,
)
    requires
        (Action::MarkTranscoded { class_id }).effect(before, after, now),
    ensures
        forall|i: int|
            0 <= i < after.len() && (#[trigger] after[i]).class_id == class_id
                ==> after[i].transcoded_at == Some(now),
{
}

/// Once the host has saved the adjustment of a minigroup, every recording of
/// the class is adjusted and has its recorded segments as its modified ones.
pub proof fn lemma_save_adjustment_adjusts_all(
    class_id: u128,
    original_room_id: u128,
    modified_room_id: u128,
    before: Seq<Recording>,
    after: Seq<Recording>,
    now: Timestamp,
)
    requires
        (Action::SaveAdjustment { class_id, original_room_id, modified_room_id }).effect(
            before,
            after,
            now,
        ),
    ensures
        forall|i: int|
            0 <= i < after.len() && (#[trigger] after[i]).class_id == class_id ==> after[i].adjusted_at
                == Some(now) && after[i].modified_segments is Some
                && after[i].modified_segments->Some_0@ == after[i].segments@,
{
    assert forall|i: int|
        0 <= i < after.len() && (#[trigger] after[i]).class_id == class_id implies after[i].adjusted_at
        == Some(now) && after[i].modified_segments is Some && after[i].modified_segments->Some_0@
        == after[i].segments@ by {
        assert(is_adjusted(after[i], before[i], class_id, now));
    }
}

} // verus!
