use dispatcher::agent::{AccountId, AgentId};
use dispatcher::class::{ClassType, Object as Class, Time};
use dispatcher::error::{Call, Error};
use dispatcher::event::{Event, EventRoomResponse};
use dispatcher::message_handler::MessageHandler;
use dispatcher::postprocessing::minigroup::{
    call_adjust, host_stream_id, insert_recordings, MinigroupPostprocessingStrategy,
};
use dispatcher::postprocessing::webinar::WebinarPostprocessingStrategy;
use dispatcher::postprocessing::{
    extract_ready_rtcs, get, Action, Outcome, PostprocessingStrategy, ReadyEvent,
    RoomAdjustResult, State, Step, WebinarReady,
};
use dispatcher::recording::{Recording, RecordingInsertQuery, RtcUploadReadyData, RtcUploadResult};
use dispatcher::queries::{RecreateQuery, UpdateQuery};
use dispatcher::repository::{
    delete_recordings, has_track, insert_new, inserted, mark_adjusted, mark_stream_adjusted,
    mark_transcoded, perform, perform_on_class, recreate_class, stage, update_class, Stage,
};
use dispatcher::segments::Segments;
use dispatcher::time::{Bound, Timestamp};
use dispatcher::tq::{
    Task, TaskCompleteResult, TaskCompleteSuccess, TranscodeMinigroupToHlsSuccess,
    TranscodeStreamToHlsSuccess,
};

const AUDIENCE: &str = "dev.usr.example.com";

fn at(secs: i64) -> Timestamp {
    Timestamp::new(secs, 0).unwrap()
}

fn agent(account: &str) -> AgentId {
    AgentId::new("web", AccountId::new(account, AUDIENCE))
}

fn class(kind: ClassType) -> Class {
    Class {
        id: 0x11,
        kind,
        scope: "scope-1".to_string(),
        time: Time::from_bounds((Bound::Included(at(1000)), Bound::Excluded(at(5000)))),
        audience: AUDIENCE.to_string(),
        created_at: at(500),
        tags: Some("{\"scope\":\"scope-1\"}".to_string()),
        conference_room_id: 0x22,
        event_room_id: 0x33,
        original_event_room_id: None,
        modified_event_room_id: None,
        preserve_history: true,
        reserve: None,
        room_events_uri: None,
        host: Some(AccountId::new("user2", AUDIENCE)),
    }
}

fn rtc(id: u128, started_at: i64, segments: Vec<(i64, i64)>, by: &str) -> RtcUploadReadyData {
    RtcUploadReadyData {
        id,
        uri: format!("s3://origin/{}.webm", id),
        started_at: at(started_at),
        segments: Segments::new(segments),
        created_by: agent(by),
    }
}

fn recording(id: u128, class_id: u128, started_at: i64, by: &str) -> Recording {
    Recording {
        id,
        class_id,
        rtc_id: 0xa0 + id,
        stream_uri: format!("s3://origin/{}.webm", id),
        segments: Segments::new(vec![(0, 1000)]),
        started_at: at(started_at),
        created_by: agent(by),
        adjusted_at: None,
        modified_segments: None,
        transcoded_at: None,
    }
}

fn minigroup_strategy() -> MinigroupPostprocessingStrategy {
    MinigroupPostprocessingStrategy::new(class(ClassType::Minigroup))
}

#[test]
fn the_strategy_follows_the_kind_of_the_class() {
    assert_eq!(
        get(class(ClassType::Minigroup)),
        Ok(PostprocessingStrategy::Minigroup(minigroup_strategy()))
    );
    assert_eq!(
        get(class(ClassType::Webinar)),
        Ok(PostprocessingStrategy::Webinar(WebinarPostprocessingStrategy::new(class(
            ClassType::Webinar
        ))))
    );
    assert_eq!(get(class(ClassType::P2P)), Err(Error::UnsupportedClassType));

    let handler = MessageHandler::new();
    assert_eq!(handler.strategy(None), Err(Error::ClassNotFound));
    assert_eq!(handler.strategy(Some(class(ClassType::P2P))), Err(Error::UnsupportedClassType));
    assert_eq!(
        handler.strategy(Some(class(ClassType::Minigroup))),
        Ok(PostprocessingStrategy::Minigroup(minigroup_strategy()))
    );
}

#[test]
fn an_upload_without_tracks_fails() {
    assert_eq!(minigroup_strategy().handle_upload(vec![]), Step::Failed(Error::EmptyTrackList));
    let webinar = WebinarPostprocessingStrategy::new(class(ClassType::Webinar));
    assert_eq!(webinar.handle_upload(vec![]), Step::Failed(Error::EmptyTrackList));
    assert_eq!(
        call_adjust(0x33, &[]),
        Step::Failed(Error::EmptyTrackList)
    );
}

#[test]
fn an_upload_with_a_missing_track_fails_on_the_first_one() {
    let rtcs = vec![
        RtcUploadResult::Ready(rtc(1, 1000, vec![(0, 10)], "user1")),
        RtcUploadResult::Missing { id: 7 },
        RtcUploadResult::Missing { id: 8 },
    ];
    assert_eq!(
        minigroup_strategy().handle_upload(rtcs.clone()),
        Step::Failed(Error::MissingRecording { rtc_id: 7 })
    );
    assert_eq!(extract_ready_rtcs(rtcs.clone()), Err(Error::MissingRecording { rtc_id: 7 }));
    assert_eq!(
        extract_ready_rtcs(vec![rtcs[0].clone()]),
        Ok(vec![rtc(1, 1000, vec![(0, 10)], "user1")])
    );
    assert_eq!(extract_ready_rtcs(vec![]), Ok(vec![]));

    let webinar = WebinarPostprocessingStrategy::new(class(ClassType::Webinar));
    assert_eq!(
        webinar.handle_upload(vec![RtcUploadResult::Missing { id: 9 }]),
        Step::Failed(Error::MissingRecording { rtc_id: 9 })
    );
}

#[test]
fn tracks_without_segments_cannot_be_adjusted_to() {
    let strategy = minigroup_strategy();
    let rtcs = vec![RtcUploadResult::Ready(rtc(1, 1000, vec![], "user1"))];
    let state = match strategy.handle_upload(rtcs) {
        Step::Perform { action: Action::InsertRecordings { rows }, state } => {
            assert_eq!(rows.len(), 1);
            state
        }
        other => panic!("unexpected {:?}", other),
    };
    assert_eq!(strategy.resume(state, Outcome::Done), Step::Failed(Error::NoSegments));
    assert_eq!(
        strategy.resume(State::InsertingRecordings { rtcs: vec![] }, Outcome::Done),
        Step::Failed(Error::EmptyTrackList)
    );
}

#[test]
fn rows_are_made_of_the_tracks_in_their_order() {
    let rtcs = vec![rtc(1, 1000, vec![(0, 10)], "user1"), rtc(2, 900, vec![(5, 6)], "user2")];
    let rows = insert_recordings(0x11, &rtcs);
    assert_eq!(
        rows,
        vec![
            RecordingInsertQuery::new(
                0x11,
                1,
                Segments::new(vec![(0, 10)]),
                at(1000),
                "s3://origin/1.webm".to_string(),
                agent("user1")
            ),
            RecordingInsertQuery::new(
                0x11,
                2,
                Segments::new(vec![(5, 6)]),
                at(900),
                "s3://origin/2.webm".to_string(),
                agent("user2")
            ),
        ]
    );
    assert_eq!(insert_recordings(0x11, &[]), vec![]);
}

#[test]
fn failures_of_the_host_fail_the_handling() {
    let strategy = minigroup_strategy();
    let states: Vec<(State, Error)> = vec![
        (
            State::InsertingRecordings { rtcs: vec![rtc(1, 1000, vec![(0, 10)], "user1")] },
            Error::PersistenceFailed,
        ),
        (State::AdjustingRoom, Error::ExternalCallFailed { call: Call::AdjustRoom }),
        (State::SavingAdjustment { modified_room_id: 5 }, Error::PersistenceFailed),
        (
            State::ReadingRoom {
                class: class(ClassType::Minigroup),
                recordings: vec![recording(1, 0x11, 1000, "user1")],
                modified_room_id: 5,
            },
            Error::ExternalCallFailed { call: Call::ReadRoom },
        ),
        (
            State::ListingEvents {
                class: class(ClassType::Minigroup),
                recordings: vec![recording(1, 0x11, 1000, "user1")],
                opened_at: at(1000),
            },
            Error::ExternalCallFailed { call: Call::ListEvents },
        ),
        (State::CreatingTask, Error::ExternalCallFailed { call: Call::CreateTask }),
        (State::MarkingTranscoded { recording_duration: 3 }, Error::PersistenceFailed),
        (State::Publishing, Error::ExternalCallFailed { call: Call::Publish }),
    ];
    for (state, error) in states {
        let timed_out = match error {
            Error::ExternalCallFailed { call } => Error::ExternalCallTimedOut { call },
            other => other,
        };
        assert_eq!(strategy.resume(state.clone(), Outcome::TimedOut), Step::Failed(timed_out));
        assert_eq!(strategy.resume(state.clone(), Outcome::Failed), Step::Failed(error));
        assert_eq!(
            strategy.resume(state, Outcome::Events { events: vec![] }).ne(&Step::Finished),
            true
        );
    }
    assert_eq!(
        strategy.resume(State::AdjustingRoom, Outcome::Events { events: vec![] }),
        Step::Failed(Error::UnexpectedOutcome)
    );
    assert_eq!(
        strategy.resume(State::SavingAdjustment { modified_room_id: 5 }, Outcome::Done),
        Step::Failed(Error::UnexpectedOutcome)
    );
    assert_eq!(
        strategy.resume(
            State::MarkingStreamTranscoded {
                success: TranscodeStreamToHlsSuccess {
                    stream_id: 1,
                    stream_uri: "s3://x".to_string(),
                    stream_duration: 5,
                }
            },
            Outcome::Done
        ),
        Step::Failed(Error::UnexpectedOutcome)
    );
}

#[test]
fn an_adjustment_without_recordings_fails() {
    let strategy = minigroup_strategy();
    assert_eq!(
        strategy.resume(
            State::SavingAdjustment { modified_room_id: 5 },
            Outcome::Saved { class: class(ClassType::Minigroup), recordings: vec![] }
        ),
        Step::Failed(Error::NoRecordings)
    );
}

#[test]
fn a_room_without_included_opening_fails() {
    let strategy = minigroup_strategy();
    for time in [
        (Bound::Excluded(at(1000)), Bound::Unbounded),
        (Bound::Unbounded, Bound::Included(at(1000))),
    ] {
        let state = State::ReadingRoom {
            class: class(ClassType::Minigroup),
            recordings: vec![recording(1, 0x11, 1000, "user1")],
            modified_room_id: 5,
        };
        assert_eq!(
            strategy.resume(state, Outcome::Room { room: EventRoomResponse { id: 5, time, tags: None } }),
            Step::Failed(Error::WrongRoomOpeningTime)
        );
    }
}

#[test]
fn transcoding_notices_that_cannot_be_used_fail() {
    let strategy = minigroup_strategy();
    assert_eq!(
        strategy.handle_transcoding_completion(TaskCompleteResult::Failure {
            error: "{\"title\":\"boom\"}".to_string()
        }),
        Step::Failed(Error::TranscodingFailed)
    );
    assert_eq!(
        strategy.handle_transcoding_completion(TaskCompleteResult::Success(
            TaskCompleteSuccess::TranscodeStreamToHls(TranscodeStreamToHlsSuccess {
                stream_id: 1,
                stream_uri: "s3://x".to_string(),
                stream_duration: 5,
            })
        )),
        Step::Failed(Error::UnexpectedTemplate)
    );
    let malformed = "three thousand".parse::<f64>().ok().map(|d| d.round() as u64);
    assert_eq!(
        strategy.handle_transcoding_completion(TaskCompleteResult::Success(
            TaskCompleteSuccess::TranscodeMinigroupToHls(TranscodeMinigroupToHlsSuccess {
                recording_duration: malformed,
            })
        )),
        Step::Failed(Error::InvalidDuration)
    );
    let rounded = "2999.5".parse::<f64>().ok().map(|d| d.round() as u64);
    match strategy.handle_transcoding_completion(TaskCompleteResult::Success(
        TaskCompleteSuccess::TranscodeMinigroupToHls(TranscodeMinigroupToHlsSuccess {
            recording_duration: rounded,
        }),
    )) {
        Step::Perform { state: State::MarkingTranscoded { recording_duration }, .. } => {
            assert_eq!(recording_duration, 3000)
        }
        other => panic!("unexpected {:?}", other),
    }

    let webinar = WebinarPostprocessingStrategy::new(class(ClassType::Webinar));
    assert_eq!(
        webinar.handle_transcoding_completion(TaskCompleteResult::Success(
            TaskCompleteSuccess::TranscodeMinigroupToHls(TranscodeMinigroupToHlsSuccess {
                recording_duration: Some(1),
            })
        )),
        Step::Failed(Error::UnexpectedTemplate)
    );
    assert_eq!(
        webinar.handle_transcoding_completion(TaskCompleteResult::Failure {
            error: "x".to_string()
        }),
        Step::Failed(Error::TranscodingFailed)
    );
}

#[test]
fn the_host_stream_is_the_first_one_of_the_host() {
    let recordings = vec![
        recording(1, 0x11, 1000, "user1"),
        recording(2, 0x11, 1000, "user2"),
        recording(3, 0x11, 1000, "user2"),
    ];
    let host = AccountId::new("user2", AUDIENCE);
    assert_eq!(host_stream_id(Some(&host), &recordings), Some(0xa2));
    assert_eq!(host_stream_id(Some(&AccountId::new("user3", AUDIENCE)), &recordings), None);
    assert_eq!(host_stream_id(Some(&AccountId::new("user2", "other")), &recordings), None);
    assert_eq!(host_stream_id(None, &recordings), None);
    assert_eq!(host_stream_id(Some(&host), &[]), None);
}

#[test]
fn a_minigroup_without_host_has_no_host_stream() {
    let mut minigroup = class(ClassType::Minigroup);
    minigroup.host = None;
    let strategy = MinigroupPostprocessingStrategy::new(minigroup.clone());
    let state = State::ListingEvents {
        class: minigroup,
        recordings: vec![recording(1, 0x11, 1000, "user1")],
        opened_at: at(1000),
    };
    match strategy.resume(state, Outcome::Events { events: vec![Event::pin(5, 0, agent("user1"))] }) {
        Step::Perform {
            action: Action::CreateTask { task: Task::TranscodeMinigroupToHls { streams, host_stream_id }, .. },
            ..
        } => {
            assert_eq!(host_stream_id, None);
            assert_eq!(streams.len(), 1);
            assert_eq!(streams[0].pin_segments, Some(Segments::new(vec![(0, 1000)])));
        }
        other => panic!("unexpected {:?}", other),
    }
}

#[test]
fn a_webinar_is_processed_stream_by_stream() {
    let webinar = class(ClassType::Webinar);
    let strategy = match get(webinar.clone()) {
        Ok(strategy) => strategy,
        Err(e) => panic!("unexpected {:?}", e),
    };

    let first = rtc(1, 1000, vec![(0, 10), (20, 30)], "user1");
    let second = rtc(2, 900, vec![(0, 50)], "user2");
    let step = strategy.handle_upload(vec![
        RtcUploadResult::Ready(first.clone()),
        RtcUploadResult::Ready(second),
    ]);
    let state = match step {
        Step::Perform { action: Action::InsertRecordings { rows }, state } => {
            assert_eq!(rows.len(), 1);
            assert_eq!(rows[0].rtc_id, 1);
            assert_eq!(rows[0].class_id, webinar.id());
            assert_eq!(state, State::InsertingRecordings { rtcs: vec![first.clone()] });
            state
        }
        other => panic!("unexpected {:?}", other),
    };
    assert_eq!(
        strategy.resume(state, Outcome::Done),
        Step::Perform {
            action: Action::AdjustRoom {
                room_id: webinar.event_room_id(),
                started_at: at(1000),
                segments: Segments::new(vec![(0, 10), (20, 30)]),
                offset: 0,
            },
            state: State::AdjustingRoom,
        }
    );

    let modified = Segments::new(vec![(0, 20)]);
    let step = strategy.handle_adjust(RoomAdjustResult::Success {
        original_room_id: 0x44,
        modified_room_id: 0x55,
        modified_segments: modified.clone(),
    });
    let state = match step {
        Step::Perform {
            action:
                Action::SaveStreamAdjustment {
                    class_id,
                    original_room_id,
                    modified_room_id,
                    modified_segments,
                },
            state,
        } => {
            assert_eq!(class_id, webinar.id());
            assert_eq!(original_room_id, 0x44);
            assert_eq!(modified_room_id, 0x55);
            assert_eq!(modified_segments, modified);
            state
        }
        other => panic!("unexpected {:?}", other),
    };
    let stored = recording(1, webinar.id(), 1000, "user1");
    assert_eq!(
        strategy.resume(
            state.clone(),
            Outcome::Saved { class: webinar.clone(), recordings: vec![stored.clone()] }
        ),
        Step::Perform {
            action: Action::CreateTask {
                class_id: webinar.id(),
                task: Task::TranscodeStreamToHls {
                    stream_id: stored.rtc_id(),
                    stream_uri: stored.stream_uri().to_string(),
                    event_room_id: Some(0x55),
                    segments: Some(modified.clone()),
                },
            },
            state: State::CreatingTask,
        }
    );
    assert_eq!(
        strategy.resume(state, Outcome::Saved { class: webinar.clone(), recordings: vec![] }),
        Step::Failed(Error::NoRecordings)
    );
    assert_eq!(
        strategy.handle_adjust(RoomAdjustResult::Error { error: "{}".to_string() }),
        Step::Failed(Error::AdjustFailed)
    );

    let success = TranscodeStreamToHlsSuccess {
        stream_id: 0xa1,
        stream_uri: "s3://hls/1.m3u8".to_string(),
        stream_duration: 3000,
    };
    let step = strategy.handle_transcoding_completion(TaskCompleteResult::Success(
        TaskCompleteSuccess::TranscodeStreamToHls(success.clone()),
    ));
    let state = match step {
        Step::Perform { action: Action::MarkTranscoded { class_id }, state } => {
            assert_eq!(class_id, webinar.id());
            state
        }
        other => panic!("unexpected {:?}", other),
    };
    assert_eq!(
        strategy.resume(state, Outcome::Done),
        Step::Perform {
            action: Action::Publish {
                path: format!("audiences/{}/events", AUDIENCE),
                label: "webinar.ready".to_string(),
                payload: ReadyEvent::Webinar(WebinarReady {
                    tags: webinar.tags.clone(),
                    status: "success".to_string(),
                    stream_duration: 3000,
                    stream_id: 0xa1,
                    stream_uri: "s3://hls/1.m3u8".to_string(),
                    scope: "scope-1".to_string(),
                    id: webinar.id(),
                }),
            },
            state: State::Publishing,
        }
    );
    assert_eq!(strategy.resume(State::Publishing, Outcome::Done), Step::Finished);
    assert_eq!(
        strategy.resume(State::Publishing, Outcome::Failed),
        Step::Failed(Error::ExternalCallFailed { call: Call::Publish })
    );
    assert_eq!(
        strategy.resume(State::Publishing, Outcome::TimedOut),
        Step::Failed(Error::ExternalCallTimedOut { call: Call::Publish })
    );
    assert_eq!(
        strategy.resume(State::Publishing, Outcome::Events { events: vec![] }),
        Step::Failed(Error::UnexpectedOutcome)
    );
    assert_eq!(
        strategy.resume(State::CreatingTask, Outcome::TimedOut),
        Step::Failed(Error::ExternalCallTimedOut { call: Call::CreateTask })
    );
    assert_eq!(
        strategy.resume(State::MarkingTranscoded { recording_duration: 1 }, Outcome::Done),
        Step::Failed(Error::UnexpectedOutcome)
    );
}

#[test]
fn the_pipeline_runs_against_recordings_in_memory() {
    let minigroup = class(ClassType::Minigroup);
    let strategy = MinigroupPostprocessingStrategy::new(minigroup.clone());
    let other_class = recording(9, 0x99, 1000, "user9");
    let mut stored: Vec<Recording> = vec![other_class.clone()];

    let step = strategy.handle_upload(vec![
        RtcUploadResult::Ready(rtc(1, 1010, vec![(0, 1000)], "user1")),
        RtcUploadResult::Ready(rtc(2, 1000, vec![(0, 3000)], "user2")),
    ]);
    let state = match step {
        Step::Perform { action: Action::InsertRecordings { rows }, state } => {
            for (n, row) in rows.into_iter().enumerate() {
                stored.push(inserted(row, 100 + n as u128));
            }
            state
        }
        other => panic!("unexpected {:?}", other),
    };
    assert_eq!(stored.len(), 3);
    assert_eq!(stored[1].id, 100);
    assert_eq!(stored[1].class_id, minigroup.id());
    assert_eq!(stored[1].rtc_id, 1);
    assert_eq!(stored[1].adjusted_at, None);
    assert_eq!(stored[1].modified_segments, None);
    assert_eq!(stored[1].transcoded_at, None);
    match strategy.resume(state, Outcome::Done) {
        Step::Perform { action: Action::AdjustRoom { started_at, segments, .. }, .. } => {
            assert_eq!(started_at, at(1000));
            assert_eq!(segments, Segments::new(vec![(0, 3000)]));
        }
        other => panic!("unexpected {:?}", other),
    }

    let now = at(7000);
    let stored = mark_adjusted(stored, minigroup.id(), now);
    assert_eq!(stored[0], other_class);
    for recording in &stored[1..] {
        assert_eq!(recording.adjusted_at(), Some(now));
        assert_eq!(recording.modified_segments(), Some(recording.segments()));
        assert_eq!(recording.transcoded_at(), None);
    }

    let later = at(8000);
    let stored = mark_transcoded(stored, minigroup.id(), later);
    assert_eq!(stored[0], other_class);
    for recording in &stored[1..] {
        assert_eq!(recording.transcoded_at(), Some(later));
        assert_eq!(recording.adjusted_at(), Some(now));
    }
    assert_eq!(stored[1].rtc_id(), 1);
    assert_eq!(stored[2].rtc_id(), 2);
    assert_eq!(stored[2].class_id(), minigroup.id());
    assert_eq!(stored[2].id(), 101);
    assert_eq!(stored[2].started_at(), at(1000));
    assert_eq!(stored[2].created_by(), &agent("user2"));
    assert_eq!(stored[2].stream_uri(), "s3://origin/2.webm");
}

#[test]
fn a_track_is_inserted_once() {
    let stored = vec![recording(1, 0x11, 1000, "user1"), recording(2, 0x22, 1000, "user2")];
    let fresh = vec![
        recording(1, 0x11, 2000, "user3"),
        recording(1, 0x22, 1000, "user1"),
        recording(3, 0x11, 1000, "user1"),
        recording(3, 0x11, 3000, "user4"),
    ];
    let once = insert_new(stored.clone(), fresh.clone());
    assert_eq!(
        once,
        vec![
            recording(1, 0x11, 1000, "user1"),
            recording(2, 0x22, 1000, "user2"),
            recording(1, 0x22, 1000, "user1"),
            recording(3, 0x11, 1000, "user1"),
        ]
    );
    assert_eq!(insert_new(once.clone(), fresh), once);
    assert_eq!(insert_new(stored.clone(), vec![]), stored);
    assert_eq!(insert_new(vec![], stored.clone()), stored);
    assert!(has_track(&once, 0x22, 0xa1));
    assert!(!has_track(&once, 0x22, 0xa3));
    assert!(!has_track(&[], 0x22, 0xa1));
}

#[test]
fn the_stage_of_a_session_shows_in_its_recordings() {
    assert_eq!(stage(&[]), Stage::AwaitingUpload);
    let stored = vec![recording(1, 0x11, 1000, "user1"), recording(2, 0x11, 1000, "user2")];
    assert_eq!(stage(&stored), Stage::AwaitingAdjust);
    let adjusted = mark_adjusted(stored.clone(), 0x11, at(2000));
    assert_eq!(stage(&adjusted), Stage::AwaitingTranscode);
    let transcoded = mark_transcoded(adjusted.clone(), 0x11, at(3000));
    assert_eq!(stage(&transcoded), Stage::Ready);

    let half = vec![adjusted[0].clone(), stored[1].clone()];
    assert_eq!(stage(&half), Stage::AwaitingAdjust);
    let half = vec![transcoded[0].clone(), adjusted[1].clone()];
    assert_eq!(stage(&half), Stage::AwaitingTranscode);
    assert_eq!(stage(&mark_adjusted(stored, 0x99, at(2000))), Stage::AwaitingAdjust);
}

#[test]
fn a_class_that_is_created_anew_loses_its_recordings() {
    let stored = vec![
        recording(1, 0x11, 1000, "user1"),
        recording(2, 0x22, 1000, "user2"),
        recording(3, 0x11, 1000, "user3"),
        recording(4, 0x33, 1000, "user4"),
    ];
    assert_eq!(
        delete_recordings(stored.clone(), 0x11),
        vec![recording(2, 0x22, 1000, "user2"), recording(4, 0x33, 1000, "user4")]
    );
    assert_eq!(delete_recordings(stored.clone(), 0x44), stored);
    assert_eq!(delete_recordings(vec![], 0x11), vec![]);
    assert_eq!(stage(&delete_recordings(vec![recording(1, 0x11, 1000, "user1")], 0x11)), Stage::AwaitingUpload);
    assert_eq!(MessageHandler::new().handle_close(), Step::Finished);
}

#[test]
fn actions_are_performed_on_recordings_in_memory() {
    let minigroup = class(ClassType::Minigroup);
    let strategy = MinigroupPostprocessingStrategy::new(minigroup.clone());
    let other = recording(9, 0x99, 1000, "user9");
    let now = at(7000);

    let insert = match strategy.handle_upload(vec![
        RtcUploadResult::Ready(rtc(1, 1010, vec![(0, 1000)], "user1")),
        RtcUploadResult::Ready(rtc(2, 1000, vec![(0, 3000)], "user2")),
    ]) {
        Step::Perform { action, .. } => action,
        step => panic!("unexpected {:?}", step),
    };
    let stored = perform(insert.clone(), vec![other.clone()], now, 100);
    assert_eq!(stored.len(), 3);
    assert_eq!(stored[0], other);
    assert_eq!((stored[1].id, stored[1].class_id, stored[1].rtc_id), (100, 0x11, 1));
    assert_eq!((stored[2].id, stored[2].class_id, stored[2].rtc_id), (101, 0x11, 2));
    assert_eq!(stored[2].segments, Segments::new(vec![(0, 3000)]));
    assert_eq!(stored[2].started_at, at(1000));
    assert_eq!(stored[2].created_by, agent("user2"));
    assert_eq!(stored[2].adjusted_at, None);
    assert_eq!(stored[2].transcoded_at, None);
    assert_eq!(perform(insert, stored.clone(), now, 200), stored);

    let save = match strategy.handle_adjust(RoomAdjustResult::Success {
        original_room_id: 0x44,
        modified_room_id: 0x55,
        modified_segments: Segments::new(vec![(0, 3000)]),
    }) {
        Step::Perform { action, .. } => action,
        step => panic!("unexpected {:?}", step),
    };
    let adjusted = perform(save.clone(), stored.clone(), now, 0);
    assert_eq!(adjusted[0], other);
    for recording in &adjusted[1..] {
        assert_eq!(recording.adjusted_at, Some(now));
        assert_eq!(recording.modified_segments.as_ref(), Some(&recording.segments));
    }
    let saved = perform_on_class(&save, minigroup.clone());
    assert_eq!(saved.original_event_room_id, Some(0x44));
    assert_eq!(saved.modified_event_room_id, Some(0x55));
    assert_eq!(saved.scope, minigroup.scope);
    let mut foreign = minigroup.clone();
    foreign.id = 0x99;
    assert_eq!(perform_on_class(&save, foreign.clone()), foreign);

    let mark = Action::MarkTranscoded { class_id: 0x11 };
    let transcoded = perform(mark.clone(), adjusted.clone(), at(8000), 0);
    assert_eq!(transcoded[0], other);
    for recording in &transcoded[1..] {
        assert_eq!(recording.transcoded_at, Some(at(8000)));
        assert_eq!(recording.adjusted_at, Some(now));
    }
    assert_eq!(perform_on_class(&mark, minigroup.clone()), minigroup);

    let read = Action::ReadRoom { room_id: 0x55 };
    assert_eq!(perform(read.clone(), transcoded.clone(), now, 0), transcoded);
    assert_eq!(perform_on_class(&read, minigroup.clone()), minigroup);
}

#[test]
fn the_adjustment_of_a_single_stream_stores_the_returned_segments() {
    let webinar = WebinarPostprocessingStrategy::new(class(ClassType::Webinar));
    let modified = Segments::new(vec![(0, 20)]);
    let save = match webinar.handle_adjust(RoomAdjustResult::Success {
        original_room_id: 0x44,
        modified_room_id: 0x55,
        modified_segments: modified.clone(),
    }) {
        Step::Perform { action, .. } => action,
        step => panic!("unexpected {:?}", step),
    };
    let stored = vec![recording(1, 0x11, 1000, "user1"), recording(2, 0x22, 1000, "user2")];
    let adjusted = perform(save, stored.clone(), at(7000), 0);
    assert_eq!(adjusted[0].modified_segments, Some(modified.clone()));
    assert_eq!(adjusted[0].adjusted_at, Some(at(7000)));
    assert_eq!(adjusted[0].segments, stored[0].segments);
    assert_eq!(adjusted[1], stored[1]);
    assert_eq!(mark_stream_adjusted(stored.clone(), 0x33, at(7000), &modified), stored);
}

#[test]
fn a_class_keeps_all_but_what_a_query_sets() {
    let before = class(ClassType::Minigroup);
    let after = update_class(before.clone(), UpdateQuery::new(0x11, 0x44, 0x55));
    let mut expected = before.clone();
    expected.original_event_room_id = Some(0x44);
    expected.modified_event_room_id = Some(0x55);
    assert_eq!(after, expected);
    assert_eq!(update_class(before.clone(), UpdateQuery::new(0x12, 0x44, 0x55)), before);

    let time = Time::from_bounds((Bound::Included(at(9000)), Bound::Unbounded));
    let again = recreate_class(after.clone(), RecreateQuery::new(0x11, time, 0x66, 0x77));
    let mut expected = before.clone();
    expected.time = time;
    expected.event_room_id = 0x66;
    expected.conference_room_id = 0x77;
    expected.original_event_room_id = None;
    expected.modified_event_room_id = None;
    assert_eq!(again, expected);
    assert_eq!(recreate_class(after.clone(), RecreateQuery::new(0x12, time, 0x66, 0x77)), after);
}
