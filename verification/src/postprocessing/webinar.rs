//! Post-processing of webinars: one track per session, one stream.
//!
//! This is the older of the two flows.  It differs from that of minigroups in
//! what it persists: the adjustment stores the segments that the event
//! service returned as the modified segments of the recording, where the
//! minigroup flow stores the recorded ones.  In every other respect the two
//! flows fail alike: a ready event that cannot be published fails the
//! handling here too.

use crate::class::Object as Class;
use crate::error::{Call, Error};
use crate::postprocessing::minigroup::{
    are_rows_of, call_failure, events_path, failed_to_call, failed_to_persist, insert_recordings,
    persistence_failure, text_view,
};
use crate::postprocessing::{
    Action, Outcome, ReadyEvent, RoomAdjustResult, State, Step, WebinarReady,
};
use crate::recording::{Recording, RtcUploadReadyData, RtcUploadResult};
use crate::tq::{Task, TaskCompleteResult, TaskCompleteSuccess, TranscodeStreamToHlsSuccess};
use vstd::prelude::*;

verus! {

/// Whether `step` asks to insert the row of the single track `rtc` of the
/// class `class_id`, and to resume with that track.
pub open spec fn inserts_row_of(class_id: u128, rtc: RtcUploadReadyData, step: Step) -> bool {
    &&& step matches Step::Perform {
        action: Action::InsertRecordings { rows },
        state: State::InsertingRecordings { rtcs },
    }
    &&& rtcs@ == seq![rtc]
    &&& are_rows_of(rows@, class_id, rtcs@)
}

/// Whether `step` asks to adjust the room `room_id` to the segments of the
/// track `rtc`, without preroll.
pub open spec fn adjusts_room_to_track(room_id: u128, rtc: RtcUploadReadyData, step: Step) -> bool {
    &&& step matches Step::Perform {
        action: Action::AdjustRoom { room_id: room, started_at, segments, offset },
        state: State::AdjustingRoom,
    }
    &&& room == room_id
    &&& started_at@ == rtc.started_at@
    &&& segments@ == rtc.segments@
    &&& offset == 0
}

/// Whether `step` asks to submit the transcoding of the stream of
/// `recording`, cut to `modified_segments` along the events of the room
/// `modified_room_id`.
pub open spec fn creates_stream_task(
    class_id: u128,
    recording: Recording,
    modified_room_id: u128,
    modified_segments: Seq<crate::segments::Segment>,
    step: Step,
) -> bool {
    &&& step matches Step::Perform {
        action: Action::CreateTask {
            class_id: id,
            task: Task::TranscodeStreamToHls { stream_id, stream_uri, event_room_id, segments },
        },
        state: State::CreatingTask,
    }
    &&& id == class_id
    &&& stream_id == recording.rtc_id
    &&& stream_uri@ == recording.stream_uri@
    &&& event_room_id == Some(modified_room_id)
    &&& segments matches Some(s) && s@ == modified_segments
}

/// Whether `step` asks to announce that the stream of `class` is transcoded.
pub open spec fn publishes_webinar_ready(
    class: Class,
    success: TranscodeStreamToHlsSuccess,
    step: Step,
) -> bool {
    &&& step matches Step::Perform {
        action: Action::Publish { path, label, payload: ReadyEvent::Webinar(payload) },
        state: State::Publishing,
    }
    &&& path@ == events_path(class.audience@)
    &&& label@ == "webinar.ready"@
    &&& text_view(payload.tags) == text_view(class.tags)
    &&& payload.status@ == "success"@
    &&& payload.stream_duration == success.stream_duration
    &&& payload.stream_id == success.stream_id
    &&& payload.stream_uri@ == success.stream_uri@
    &&& payload.scope@ == class.scope@
    &&& payload.id == class.id
}

/// The post-processing of one webinar.
#[derive(Clone, Debug, PartialEq, Eq)]
pub struct WebinarPostprocessingStrategy {
    pub webinar: Class,
}

impl WebinarPostprocessingStrategy {
    /// The post-processing of `webinar`.
    pub fn new(webinar: Class) -> (res: WebinarPostprocessingStrategy)
        ensures
            res.webinar == webinar,
    {
        WebinarPostprocessingStrategy { webinar }
    }

    /// What the handling of an upload notice with the tracks `rtcs` starts
    /// with: only the first track counts.
    pub open spec fn upload_step(&self, rtcs: Seq<RtcUploadResult>, step: Step) -> bool {
        if rtcs.len() == 0 {
            step == Step::Failed(Error::EmptyTrackList)
        } else {
            match rtcs[0] {
                RtcUploadResult::Ready(rtc) => inserts_row_of(self.webinar.id, rtc, step),
                RtcUploadResult::Missing { id } => step == Step::Failed(
                    Error::MissingRecording { rtc_id: id },
                ),
            }
        }
    }

    /// What the handling of an adjustment notice starts with.
    pub open spec fn adjust_step(&self, result: RoomAdjustResult, step: Step) -> bool {
        match result {
            RoomAdjustResult::Success { original_room_id, modified_room_id, modified_segments } => {
                &&& step matches Step::Perform {
                    action: Action::SaveStreamAdjustment {
                        class_id,
                        original_room_id: original,
                        modified_room_id: modified,
                        modified_segments: stored,
                    },
                    state: State::SavingStreamAdjustment {
                        modified_room_id: room,
                        modified_segments: kept,
                    },
                }
                &&& class_id == self.webinar.id
                &&& original == original_room_id
                &&& modified == modified_room_id
                &&& stored@ == modified_segments@
                &&& room == modified_room_id
                &&& kept == modified_segments
            },
            RoomAdjustResult::Error { .. } => step == Step::Failed(Error::AdjustFailed),
        }
    }

    /// What the handling of a completion notice of the transcoding starts with.
    pub open spec fn transcoding_step(&self, result: TaskCompleteResult, step: Step) -> bool {
        match result {
            TaskCompleteResult::Success(TaskCompleteSuccess::TranscodeStreamToHls(success)) => step
                == (Step::Perform {
                action: Action::MarkTranscoded { class_id: self.webinar.id },
                state: State::MarkingStreamTranscoded { success },
            }),
            TaskCompleteResult::Success(_) => step == Step::Failed(Error::UnexpectedTemplate),
            TaskCompleteResult::Failure { .. } => step == Step::Failed(Error::TranscodingFailed),
        }
    }

    /// How the handling goes on from `state` once the host reports `outcome`.
    pub open spec fn resume_step(&self, state: State, outcome: Outcome, step: Step) -> bool {
        match state {
            State::InsertingRecordings { rtcs } => if outcome is Done {
                if rtcs@.len() == 0 {
                    step == Step::Failed(Error::EmptyTrackList)
                } else {
                    adjusts_room_to_track(self.webinar.event_room_id, rtcs@[0], step)
                }
            } else {
                step == persistence_failure(outcome)
            },
            State::AdjustingRoom => if outcome is Done {
                step == Step::Finished
            } else {
                step == call_failure(outcome, Call::AdjustRoom)
            },
            State::SavingStreamAdjustment { modified_room_id, modified_segments } => match outcome {
                Outcome::Saved { class, recordings } => if recordings@.len() == 0 {
                    step == Step::Failed(Error::NoRecordings)
                } else {
                    creates_stream_task(
                        self.webinar.id,
                        recordings@[0],
                        modified_room_id,
                        modified_segments@,
                        step,
                    )
                },
                _ => step == persistence_failure(outcome),
            },
            State::CreatingTask => if outcome is Done {
                step == Step::Finished
            } else {
                step == call_failure(outcome, Call::CreateTask)
            },
            State::MarkingStreamTranscoded { success } => if outcome is Done {
                publishes_webinar_ready(self.webinar, success, step)
            } else {
                step == persistence_failure(outcome)
            },
            State::Publishing => if outcome is Done {
                step == Step::Finished
            } else {
                step == call_failure(outcome, Call::Publish)
            },
            _ => step == Step::Failed(Error::UnexpectedOutcome),
        }
    }

    /// Handles the notice that the tracks `rtcs` of the session were uploaded.
    ///
    /// Only the first track is processed.  Fails on an empty list and if the
    /// first track has no recording.
    pub fn handle_upload(&self, rtcs: Vec<RtcUploadResult>) -> (step: Step)
        ensures
            self.upload_step(rtcs@, step),
    {
        let mut rest = rtcs;
        if rest.len() == 0 {
            return Step::Failed(Error::EmptyTrackList);
        }
        let first = rest.swap_remove(0);
        match first {
            RtcUploadResult::Ready(rtc) => {
                let mut rtcs: Vec<RtcUploadReadyData> = Vec::new();
                rtcs.push(rtc);
                let rows = insert_recordings(self.webinar.id(), rtcs.as_slice());
                Step::Perform {
                    action: Action::InsertRecordings { rows },
                    state: State::InsertingRecordings { rtcs },
                }
            },
            RtcUploadResult::Missing { id } => Step::Failed(Error::MissingRecording { rtc_id: id }),
        }
    }

    /// Handles the notice of the result of the adjustment of the event room.
    ///
    /// A reported error fails the handling at once and asks for no action.
    pub fn handle_adjust(&self, room_adjust_result: RoomAdjustResult) -> (step: Step)
        ensures
            self.adjust_step(room_adjust_result, step),
            room_adjust_result is Error ==> step.action() is None,
    {
        match room_adjust_result {
            RoomAdjustResult::Success { original_room_id, modified_room_id, modified_segments } => {
                let stored = modified_segments.duplicate();
                Step::Perform {
                    action: Action::SaveStreamAdjustment {
                        class_id: self.webinar.id(),
                        original_room_id,
                        modified_room_id,
                        modified_segments: stored,
                    },
                    state: State::SavingStreamAdjustment { modified_room_id, modified_segments },
                }
            },
            RoomAdjustResult::Error { .. } => Step::Failed(Error::AdjustFailed),
        }
    }

    /// Handles the notice that the transcoding task is complete.
    pub fn handle_transcoding_completion(&self, completion_result: TaskCompleteResult) -> (step:
        Step)
        ensures
            self.transcoding_step(completion_result, step),
    {
        match completion_result {
            TaskCompleteResult::Success(TaskCompleteSuccess::TranscodeStreamToHls(success)) => {
                Step::Perform {
                    action: Action::MarkTranscoded { class_id: self.webinar.id() },
                    state: State::MarkingStreamTranscoded { success },
                }
            },
            TaskCompleteResult::Success(_) => Step::Failed(Error::UnexpectedTemplate),
            TaskCompleteResult::Failure { .. } => Step::Failed(Error::TranscodingFailed),
        }
    }

    /// Goes on from `state` with the `outcome` of the action that the host was
    /// asked to perform.
    pub fn resume(&self, state: State, outcome: Outcome) -> (step: Step)
        ensures
            self.resume_step(state, outcome, step),
    {
        match state {
            State::InsertingRecordings { rtcs } => match outcome {
                Outcome::Done => {
                    if rtcs.len() == 0 {
                        Step::Failed(Error::EmptyTrackList)
                    } else {
                        let rtc = &rtcs[0];
                        Step::Perform {
                            action: Action::AdjustRoom {
                                room_id: self.webinar.event_room_id(),
                                started_at: rtc.started_at,
                                segments: rtc.segments.duplicate(),
                                offset: 0,
                            },
                            state: State::AdjustingRoom,
                        }
                    }
                },
                other => failed_to_persist(&other),
            },
            State::AdjustingRoom => match outcome {
                Outcome::Done => Step::Finished,
                other => failed_to_call(&other, Call::AdjustRoom),
            },
            State::SavingStreamAdjustment { modified_room_id, modified_segments } => match outcome {
                Outcome::Saved { class, recordings } => {
                    if recordings.len() == 0 {
                        Step::Failed(Error::NoRecordings)
                    } else {
                        let recording = &recordings[0];
                        Step::Perform {
                            action: Action::CreateTask {
                                class_id: self.webinar.id(),
                                task: Task::TranscodeStreamToHls {
                                    stream_id: recording.rtc_id(),
                                    stream_uri: recording.stream_uri.clone(),
                                    event_room_id: Some(modified_room_id),
                                    segments: Some(modified_segments),
                                },
                            },
                            state: State::CreatingTask,
                        }
                    }
                },
                other => failed_to_persist(&other),
            },
            State::CreatingTask => match outcome {
                Outcome::Done => Step::Finished,
                other => failed_to_call(&other, Call::CreateTask),
            },
            State::MarkingStreamTranscoded { success } => match outcome {
                Outcome::Done => self.publish_ready(success),
                other => failed_to_persist(&other),
            },
            State::Publishing => match outcome {
                Outcome::Done => Step::Finished,
                other => failed_to_call(&other, Call::Publish),
            },
            _ => Step::Failed(Error::UnexpectedOutcome),
        }
    }

    /// The step that announces the transcoded webinar.
    fn publish_ready(&self, success: TranscodeStreamToHlsSuccess) -> (step: Step)
        ensures
            publishes_webinar_ready(self.webinar, success, step),
    {
        let mut path = String::from_str("audiences/");
        path.append(self.webinar.audience());
        path.append("/events");
        let tags: Option<String> = match self.webinar.tags() {
            Some(tags) => Some(tags.clone()),
            None => None,
        };
        let payload = WebinarReady {
            tags,
            status: "success".to_owned(),
            stream_duration: success.stream_duration,
            stream_id: success.stream_id,
            stream_uri: success.stream_uri,
            scope: self.webinar.scope().to_owned(),
            id: self.webinar.id(),
        };
        Step::Perform {
            action: Action::Publish {
                path,
                label: "webinar.ready".to_owned(),
                payload: ReadyEvent::Webinar(payload),
            },
            state: State::Publishing,
        }
    }
}

} // verus!
