//! The post-processing pipeline of a class session.
//!
//! Three notices drive a session through the pipeline: the tracks were
//! uploaded, the event room was adjusted, the transcoding is complete.  Each
//! notice is handled by a strategy chosen by the kind of the class.  A handler
//! performs no I/O itself: it returns a [`Step`], which either ends the
//! handling or names an [`Action`] for the host to perform and the [`State`]
//! to resume with the [`Outcome`] of that action.

pub mod minigroup;
pub mod webinar;

use crate::class::{ClassType, Object as Class};
use crate::postprocessing::minigroup::MinigroupPostprocessingStrategy;
use crate::postprocessing::webinar::WebinarPostprocessingStrategy;
use crate::tq::TaskCompleteResult;
use crate::error::Error;
use crate::event::{Event, EventRoomResponse};
use crate::recording::{Recording, RecordingInsertQuery, RtcUploadReadyData, RtcUploadResult};
use crate::segments::Segments;
use crate::time::Timestamp;
use crate::tq::{Task, TranscodeStreamToHlsSuccess};
use vstd::prelude::*;

verus! {

/// The result of the adjustment of an event room.
#[derive(Clone, Debug, PartialEq, Eq)]
pub enum RoomAdjustResult {
    Success { original_room_id: u128, modified_room_id: u128, modified_segments: Segments },
    Error { error: String },
}

/// The payload of the event that announces a transcoded minigroup.
#[derive(Clone, Debug, PartialEq, Eq)]
pub struct MinigroupReady {
    pub id: u128,
    pub scope: String,
    pub tags: Option<String>,
    pub status: String,
    /// Seconds of the transcoded recording.
    pub recording_duration: u64,
}

/// The payload of the event that announces a transcoded webinar.
#[derive(Clone, Debug, PartialEq, Eq)]
pub struct WebinarReady {
    pub tags: Option<String>,
    pub status: String,
    pub stream_duration: u64,
    pub stream_id: u128,
    pub stream_uri: String,
    pub scope: String,
    pub id: u128,
}

/// The payload of a broadcast event.
#[derive(Clone, Debug, PartialEq, Eq)]
pub enum ReadyEvent {
    Minigroup(MinigroupReady),
    Webinar(WebinarReady),
}

/// What a handler asks its host to do.  What an action does to the
/// recordings and to the class that the database holds is stated by
/// [`Action::effect`] and [`Action::effect_on_class`].
#[derive(Clone, Debug, PartialEq, Eq)]
pub enum Action {
    /// Insert one recording per row, all in one transaction.  A row whose
    /// track is stored for its class already is left out, so that a notice
    /// that is delivered twice adds its recordings once.
    InsertRecordings { rows: Vec<RecordingInsertQuery> },
    /// Ask the event service to adjust the room `room_id` to the recorded
    /// `segments`, which count from `started_at`, with `offset` milliseconds
    /// of preroll.
    AdjustRoom { room_id: u128, started_at: Timestamp, segments: Segments, offset: i64 },
    /// In one transaction: store the original and the modified event room on
    /// the class; mark every recording of the class as adjusted now, with its
    /// recorded segments as its modified ones; report the class and its
    /// recordings as they then are.
    SaveAdjustment { class_id: u128, original_room_id: u128, modified_room_id: u128 },
    /// In one transaction: store the original and the modified event room on
    /// the class; store `modified_segments` on its recording and mark it as
    /// adjusted now; report the class and that recording.
    SaveStreamAdjustment {
        class_id: u128,
        original_room_id: u128,
        modified_room_id: u128,
        modified_segments: Segments,
    },
    /// Read the event room `room_id` and report its time.
    ReadRoom { room_id: u128 },
    /// List the events of the given `kind` of the room `room_id`, oldest first.
    ListEvents { room_id: u128, kind: String },
    /// Submit `task` for the class `class_id` to the transcoding service.
    CreateTask { class_id: u128, task: Task },
    /// Mark every recording of the class as transcoded now.
    MarkTranscoded { class_id: u128 },
    /// Broadcast `payload` under `label` on the topic `path` of this service.
    Publish { path: String, label: String, payload: ReadyEvent },
}

/// What the host reports of the action it was asked to perform.
#[derive(Debug, PartialEq, Eq)]
pub enum Outcome {
    /// The action was performed and has nothing to report.
    Done,
    /// The adjustment was saved; the class and its recordings are these.
    Saved { class: Class, recordings: Vec<Recording> },
    /// The event room that was read.
    Room { room: EventRoomResponse },
    /// The events that were listed, oldest first.
    Events { events: Vec<Event> },
    /// The action could not be performed.
    Failed,
    /// The action was not answered within the time that the host allows.
    TimedOut,
}

/// Where the handling of a notice stands while the host performs an action.
#[derive(Clone, Debug, PartialEq, Eq)]
pub enum State {
    /// The recordings of the uploaded tracks are being inserted.
    InsertingRecordings { rtcs: Vec<RtcUploadReadyData> },
    /// The event service is being asked to adjust the room.
    AdjustingRoom,
    /// The result of the adjustment is being saved.
    SavingAdjustment { modified_room_id: u128 },
    /// The modified event room is being read.
    ReadingRoom { class: Class, recordings: Vec<Recording>, modified_room_id: u128 },
    /// The pin events of the modified event room are being listed.
    ListingEvents { class: Class, recordings: Vec<Recording>, opened_at: Timestamp },
    /// The result of the adjustment of a single stream is being saved.
    SavingStreamAdjustment { modified_room_id: u128, modified_segments: Segments },
    /// The transcoding task is being submitted.
    CreatingTask,
    /// The recordings are being marked as transcoded.
    MarkingTranscoded { recording_duration: u64 },
    /// The recording of a single stream is being marked as transcoded.
    MarkingStreamTranscoded { success: TranscodeStreamToHlsSuccess },
    /// The ready event is being published.
    Publishing,
}

/// What a handler decided.
#[derive(Clone, Debug, PartialEq, Eq)]
pub enum Step {
    /// The host is to perform `action` and to resume `state` with its outcome.
    Perform { action: Action, state: State },
    /// The notice is handled.
    Finished,
    /// The handling failed; nothing more is to be done.
    Failed(Error),
}

impl Step {
    /// The action that the step asks for, if it asks for one.
    pub open spec fn action(self) -> Option<Action> {
        match self {
            Step::Perform { action, .. } => Some(action),
            _ => None,
        }
    }
}

/// Whether every track of `rtcs` is ready.
pub open spec fn all_ready(rtcs: Seq<RtcUploadResult>) -> bool {
    forall|i: int| 0 <= i < rtcs.len() ==> (#[trigger] rtcs[i]) is Ready
}

/// Whether `i` is the position of the first track of `rtcs` that is missing.
pub open spec fn is_first_missing(rtcs: Seq<RtcUploadResult>, i: int) -> bool {
    &&& 0 <= i < rtcs.len()
    &&& rtcs[i] is Missing
    &&& all_ready(rtcs.take(i))
}

/// The items of `items` in the opposite order.
pub(crate) fn reversed<T>(items: Vec<T>) -> (res: Vec<T>)
    ensures
        res@.len() == items@.len(),
        forall|j: int| 0 <= j < res@.len() ==> res@[j] == items@[items@.len() - 1 - j],
{
    let ghost all = items@;
    let mut rest = items;
    let mut res: Vec<T> = Vec::new();
    while rest.len() > 0
        invariant
            rest@.len() + res@.len() == all.len(),
            rest@ == all.take(rest@.len() as int),
            forall|j: int| 0 <= j < res@.len() ==> res@[j] == all[all.len() - 1 - j],
        decreases rest.len(),
    {
        let next = rest.pop();
        match next {
            Some(item) => {
                res.push(item);
            },
            None => {},
        }
    }
    res
}

/// The uploaded tracks of a notice, in its order, provided that all of them are
/// ready.  Fails on the first track that is missing, naming it.
pub fn extract_ready_rtcs(rtcs: Vec<RtcUploadResult>) -> (res: Result<
    Vec<RtcUploadReadyData>,
    Error,
>)
    ensures
        res is Ok <==> all_ready(rtcs@),
        res matches Ok(ready) ==> ready@.len() == rtcs@.len() && forall|i: int|
            0 <= i < rtcs@.len() ==> (#[trigger] rtcs@[i]) == RtcUploadResult::Ready(ready@[i]),
        res matches Err(e) ==> exists|i: int|
            is_first_missing(rtcs@, i) && e == (Error::MissingRecording {
                rtc_id: (#[trigger] rtcs@[i])->Missing_id,
            }),
{
    let ghost all = rtcs@;
    let mut ready: Vec<RtcUploadReadyData> = Vec::new();
    let mut rest = reversed(rtcs);
    let ghost n = all.len() as int;
    while rest.len() > 0
        invariant
            all == rtcs@,
            n == all.len(),
            rest@.len() + ready@.len() == n,
            forall|j: int| 0 <= j < rest@.len() ==> rest@[j] == all[n - 1 - j],
            forall|j: int|
                0 <= j < ready@.len() ==> (#[trigger] all[j]) == RtcUploadResult::Ready(ready@[j]),
        decreases rest.len(),
    {
        match rest.pop() {
            Some(RtcUploadResult::Ready(rtc)) => {
                ready.push(rtc);
            },
            Some(RtcUploadResult::Missing { id }) => {
                return Err(Error::MissingRecording { rtc_id: id });
            },
            None => {},
        }
    }
    Ok(ready)
}

/// The post-processing of a class, by its kind.
#[derive(Clone, Debug, PartialEq, Eq)]
pub enum PostprocessingStrategy {
    Webinar(WebinarPostprocessingStrategy),
    Minigroup(MinigroupPostprocessingStrategy),
}

/// The post-processing of `class`.  There is none for a p2p class, whose
/// sessions are not recorded: the result is [`Error::UnsupportedClassType`]
/// exactly for that kind.
pub fn get(class: Class) -> (res: Result<PostprocessingStrategy, Error>)
    ensures
        match class.kind {
            ClassType::Webinar => res == Ok::<PostprocessingStrategy, Error>(
                PostprocessingStrategy::Webinar(WebinarPostprocessingStrategy { webinar: class }),
            ),
            ClassType::Minigroup => res == Ok::<PostprocessingStrategy, Error>(
                PostprocessingStrategy::Minigroup(
                    MinigroupPostprocessingStrategy { minigroup: class },
                ),
            ),
            ClassType::P2P => res == Err::<PostprocessingStrategy, Error>(
                Error::UnsupportedClassType,
            ),
        },
{
    match class.kind() {
        ClassType::Webinar => Ok(
            PostprocessingStrategy::Webinar(WebinarPostprocessingStrategy::new(class)),
        ),
        ClassType::Minigroup => Ok(
            PostprocessingStrategy::Minigroup(MinigroupPostprocessingStrategy::new(class)),
        ),
        ClassType::P2P => Err(Error::UnsupportedClassType),
    }
}

impl PostprocessingStrategy {
    /// What the handling of an upload notice starts with.
    pub open spec fn upload_step(&self, rtcs: Seq<RtcUploadResult>, step: Step) -> bool {
        match self {
            PostprocessingStrategy::Webinar(strategy) => strategy.upload_step(rtcs, step),
            PostprocessingStrategy::Minigroup(strategy) => strategy.upload_step(rtcs, step),
        }
    }

    /// What the handling of an adjustment notice starts with.
    pub open spec fn adjust_step(&self, result: RoomAdjustResult, step: Step) -> bool {
        match self {
            PostprocessingStrategy::Webinar(strategy) => strategy.adjust_step(result, step),
            PostprocessingStrategy::Minigroup(strategy) => strategy.adjust_step(result, step),
        }
    }

    /// What the handling of a completion notice of the transcoding starts with.
    pub open spec fn transcoding_step(&self, result: TaskCompleteResult, step: Step) -> bool {
        match self {
            PostprocessingStrategy::Webinar(strategy) => strategy.transcoding_step(result, step),
            PostprocessingStrategy::Minigroup(strategy) => strategy.transcoding_step(result, step),
        }
    }

    /// How the handling goes on from `state` once the host reports `outcome`.
    pub open spec fn resume_step(&self, state: State, outcome: Outcome, step: Step) -> bool {
        match self {
            PostprocessingStrategy::Webinar(strategy) => strategy.resume_step(
                state,
                outcome,
                step,
            ),
            PostprocessingStrategy::Minigroup(strategy) => strategy.resume_step(
                state,
                outcome,
                step,
            ),
        }
    }

    /// Handles the notice that the tracks of the session were uploaded.
    pub fn handle_upload(&self, rtcs: Vec<RtcUploadResult>) -> (step: Step)
        ensures
            self.upload_step(rtcs@, step),
    {
        match self {
            PostprocessingStrategy::Webinar(strategy) => strategy.handle_upload(rtcs),
            PostprocessingStrategy::Minigroup(strategy) => strategy.handle_upload(rtcs),
        }
    }

    /// Handles the notice of the result of the adjustment of the event room.
    /// A reported error fails the handling at once and asks for no action.
    pub fn handle_adjust(&self, room_adjust_result: RoomAdjustResult) -> (step: Step)
        ensures
            self.adjust_step(room_adjust_result, step),
            room_adjust_result is Error ==> step.action() is None,
    {
        match self {
            PostprocessingStrategy::Webinar(strategy) => strategy.handle_adjust(
                room_adjust_result,
            ),
            PostprocessingStrategy::Minigroup(strategy) => strategy.handle_adjust(
                room_adjust_result,
            ),
        }
    }

    /// Handles the notice that the transcoding task is complete.
    pub fn handle_transcoding_completion(&self, completion_result: TaskCompleteResult) -> (step:
        Step)
        ensures
            self.transcoding_step(completion_result, step),
    {
        match self {
            PostprocessingStrategy::Webinar(strategy) => strategy.handle_transcoding_completion(
                completion_result,
            ),
            PostprocessingStrategy::Minigroup(strategy) => strategy.handle_transcoding_completion(
                completion_result,
            ),
        }
    }

    /// Goes on from `state` with the `outcome` of the action that the host was
    /// asked to perform.
    pub fn resume(&self, state: State, outcome: Outcome) -> (step: Step)
        ensures
            self.resume_step(state, outcome, step),
    {
        match self {
            PostprocessingStrategy::Webinar(strategy) => strategy.resume(state, outcome),
            PostprocessingStrategy::Minigroup(strategy) => strategy.resume(state, outcome),
        }
    }
}

/// A handling that fails asks for no action, and a failed adjustment fails
/// the handling: after an adjustment that reported an error nothing is
/// written and no task is submitted.
pub proof fn lemma_failed_adjustment_asks_nothing(
    strategy: PostprocessingStrategy,
    result: RoomAdjustResult,
    step: Step,
)
    requires
        result is Error,
        strategy.adjust_step(result, step),
    ensures
        step == Step::Failed(Error::AdjustFailed),
        step.action() is None,
{
}

/// No failure is swallowed: whatever the handling waits for, an action that
/// the host could not perform, or got no answer to in time, fails the
/// handling.
pub proof fn lemma_failures_surface(
    strategy: PostprocessingStrategy,
    state: State,
    outcome: Outcome,
    step: Step,
)
    requires
        outcome is Failed || outcome is TimedOut,
        strategy.resume_step(state, outcome, step),
    ensures
        step is Failed,
        step.action() is None,
{
}

} // verus!
