use dispatcher::agent::{AccountId, AgentId};
use dispatcher::api::{
    classroom_object, conference_time, create_event_and_conference, encode_back_url, event_time,
    format_url, minigroup_insert, minigroup_rooms, recreate, update_classroom_id, webinar_object,
    MinigroupCreatePayload, RoomUpdate, StorageConfig,
};
use dispatcher::class::{
    AsClassType, ClassType, MinigroupType, Object as Class, P2PType, Time, WebinarType,
};
use dispatcher::clients::{
    created_room_id, generate_correlation_data, outcome_of, ClientError, EventRequest,
    CORRELATION_DATA_LENGTH,
};
use dispatcher::postprocessing::Outcome;
use dispatcher::error::{Call, Error, ErrorKind};
use dispatcher::id::{extract_id, read_id, to_text};
use dispatcher::message_handler::{bearer_token, MessageHandler, Notice};
use dispatcher::queries::{
    GenericReadQuery, MinigroupInsertQuery, MinigroupReadQuery, MinigroupTimeUpdateQuery,
    P2PInsertQuery, ReadQuery, ReadQueryPredicate, RecreateQuery, RoomCloseQuery,
    TimeUpdateQuery, UpdateDumpEventsQuery, UpdateQuery,
};
use dispatcher::recording::Recording;
use dispatcher::request_logger::{Level, LogMiddleware};
use dispatcher::segments::Segments;
use dispatcher::text::{append_number, find, text_after_last, text_before_first, text_without};
use dispatcher::time::{Bound, Timestamp};
use uuid::Uuid;

fn at(secs: i64) -> Timestamp {
    Timestamp::new(secs, 0).unwrap()
}

fn class(kind: ClassType) -> Class {
    Class {
        id: 0xa1a2a3a4b1b2c1c2d1d2d3d4d5d6d7d8,
        kind,
        scope: "scope-1".to_string(),
        time: Time::from_bounds((Bound::Included(at(100)), Bound::Excluded(at(200)))),
        audience: "dev.usr.example.com".to_string(),
        created_at: at(50),
        tags: Some("{\"foo\":\"bar\"}".to_string()),
        conference_room_id: 2,
        event_room_id: 3,
        original_event_room_id: None,
        modified_event_room_id: None,
        preserve_history: true,
        reserve: Some(10),
        room_events_uri: None,
        host: None,
    }
}

#[test]
fn identifiers_are_written_as_uuid_writes_them() {
    let ids: Vec<u128> = vec![
        0,
        1,
        u128::MAX,
        0xa1a2a3a4b1b2c1c2d1d2d3d4d5d6d7d8,
        0x0123456789abcdef0123456789abcdef,
        0xf000000000000000000000000000000f,
    ];
    for id in ids {
        assert_eq!(to_text(id), Uuid::from_u128(id).hyphenated().to_string());
        assert_eq!(read_id(&to_text(id)), Ok(id));
        assert_eq!(extract_id(&to_text(id)), Ok(id));
    }
    assert_eq!(
        to_text(0xa1a2a3a4b1b2c1c2d1d2d3d4d5d6d7d8),
        "a1a2a3a4-b1b2-c1c2-d1d2-d3d4d5d6d7d8"
    );
    assert_eq!(to_text(10), "00000000-0000-0000-0000-00000000000a");
    assert_eq!(
        extract_id("A1A2A3A4B1B2C1C2D1D2D3D4D5D6D7D8"),
        Ok(0xa1a2a3a4b1b2c1c2d1d2d3d4d5d6d7d8)
    );
    assert_eq!(extract_id("not-an-id"), Err(Error::InvalidParameter));
    assert_eq!(extract_id(""), Err(Error::InvalidParameter));
    assert!(read_id("zz").is_err());
}

#[test]
fn download_url_names_the_audience_and_the_track() {
    let config = StorageConfig { base_url: "storage.example.org".to_string() };
    let webinar = class(ClassType::Webinar);
    let recording = Recording {
        id: 1,
        class_id: webinar.id(),
        rtc_id: 0x0123456789abcdef0123456789abcdef,
        stream_uri: "s3://x".to_string(),
        segments: Segments::empty(),
        started_at: at(0),
        created_by: AgentId::new("web", AccountId::new("user1", "dev.usr.example.com")),
        adjusted_at: None,
        modified_segments: None,
        transcoded_at: None,
    };
    assert_eq!(
        format_url(&config, &webinar, &recording),
        "https://storage.example.org/api/v2/backends/yandex/sets/ms.webinar.dev.usr.example.com::01234567-89ab-cdef-0123-456789abcdef/objects/mp4"
    );
    assert_eq!(
        format_url(&config, &webinar, &recording),
        format!(
            "https://{}/api/v2/backends/yandex/sets/ms.webinar.{}::{}/objects/mp4",
            config.base_url,
            webinar.audience(),
            Uuid::from_u128(recording.rtc_id())
        )
    );
}

#[test]
fn authorization_objects_name_the_class() {
    assert_eq!(
        classroom_object(0xa1a2a3a4b1b2c1c2d1d2d3d4d5d6d7d8),
        vec!["classrooms".to_string(), "a1a2a3a4-b1b2-c1c2-d1d2-d3d4d5d6d7d8".to_string()]
    );
    assert_eq!(
        webinar_object(1),
        vec!["webinars".to_string(), "00000000-0000-0000-0000-000000000001".to_string()]
    );
}

#[test]
fn back_url_is_percent_encoded_but_for_letters_and_digits() {
    assert_eq!(encode_back_url("foo bar?"), "foo%20bar%3F");
    assert_eq!(
        encode_back_url("https://dispatcher.example.org/api/v1/redirs"),
        "https%3A%2F%2Fdispatcher%2Eexample%2Eorg%2Fapi%2Fv1%2Fredirs"
    );
    assert_eq!(encode_back_url(""), "");
    assert_eq!(encode_back_url("azAZ09"), "azAZ09");
    assert_eq!(encode_back_url("é_~-"), "%C3%A9%5F%7E%2D");
    assert_eq!(encode_back_url("\u{0}\u{7f}"), "%00%7F");
}

#[test]
fn notices_are_told_apart_by_their_label() {
    let handler = MessageHandler::new();
    assert_eq!(handler.handle_event(Some("room.close")), Notice::RoomClose);
    assert_eq!(handler.handle_event(Some("room.upload")), Notice::RoomUpload);
    assert_eq!(handler.handle_event(Some("room.adjust")), Notice::RoomAdjust);
    assert_eq!(handler.handle_event(Some("task.complete")), Notice::TaskComplete);
    assert_eq!(handler.handle_event(Some("room.open")), Notice::Other);
    assert_eq!(handler.handle_event(Some("")), Notice::Other);
    assert_eq!(handler.handle_event(Some("Room.close")), Notice::Other);
    assert_eq!(handler.handle_event(None), Notice::Other);
}

fn audience_by_splitting(topic: &str) -> String {
    topic
        .split("/audiences/")
        .collect::<Vec<&str>>()
        .iter()
        .rev()
        .next()
        .and_then(|s| s.split("/events").next())
        .map(|s| s.to_owned())
        .unwrap()
}

#[test]
fn the_audience_is_read_from_the_topic() {
    let handler = MessageHandler::new();
    assert_eq!(
        handler.audience("apps/event.dev.svc.example.org/api/v1/audiences/dev.usr.example.com/events"),
        "dev.usr.example.com"
    );
    let topics = vec![
        "apps/event.dev.svc.example.org/api/v1/audiences/dev.usr.example.com/events",
        "audiences/a/events",
        "/audiences/a/audiences/b/events/events",
        "/audiences/audiences/x/events",
        "/audiences//audiences/x",
        "no marker at all",
        "x/events/y",
        "/audiences/",
        "/events",
        "",
        "/audiences/é/events",
        "/audiences/audiences/audiences/",
        "a/audiences//events",
    ];
    for topic in topics {
        assert_eq!(handler.audience(topic), audience_by_splitting(topic), "{:?}", topic);
    }
}

#[test]
fn text_is_searched_and_cut_as_std_does() {
    let cases = vec![
        ("", ""),
        ("abc", ""),
        ("", "a"),
        ("aaa", "a"),
        ("aaaa", "aa"),
        ("abcabc", "bc"),
        ("abcabc", "abcabc"),
        ("abcabc", "abcabcd"),
        ("Bearer Bearer abc", "Bearer "),
        ("ééé", "é"),
        ("xéyéz", "éy"),
        ("--a--b--", "--"),
        ("---", "--"),
    ];
    for (text, pattern) in cases {
        let chars: Vec<char> = text.chars().collect();
        let expected = text.find(pattern).map(|at| text[..at].chars().count());
        assert_eq!(find(text, pattern, 0), expected, "{:?} {:?}", text, pattern);
        assert_eq!(find(text, pattern, chars.len() + 1), None);
        if !pattern.is_empty() {
            assert_eq!(text_without(text, pattern), text.replace(pattern, ""));
            assert_eq!(text_after_last(text, pattern), text.split(pattern).last().unwrap());
            assert_eq!(text_before_first(text, pattern), text.split(pattern).next().unwrap());
        } else {
            assert_eq!(text_without(text, pattern), text);
            assert_eq!(text_after_last(text, pattern), text);
            assert_eq!(text_before_first(text, pattern), "");
        }
    }
    assert_eq!(find("abcabc", "bc", 2), Some(4));
    assert_eq!(find("abcabc", "bc", 5), None);
    assert_eq!(find("abc", "", 3), Some(3));
    assert_eq!(find("abc", "", 4), None);
}

#[test]
fn the_token_is_the_header_without_bearer() {
    assert_eq!(bearer_token(Some("Bearer abc.def.ghi")), "abc.def.ghi");
    assert_eq!(bearer_token(Some("abc")), "abc");
    assert_eq!(bearer_token(Some("Bearer Bearer x Bearer ")), "x ");
    assert_eq!(bearer_token(Some("Bearer")), "Bearer");
    assert_eq!(bearer_token(Some("")), "");
    assert_eq!(bearer_token(None), "");
    for header in ["Bearer abc", "BearerBearer  x", "Bearer Bearer ", "bearer x"] {
        assert_eq!(bearer_token(Some(header)), header.replace("Bearer ", ""));
    }
}

#[test]
fn the_scope_is_read_from_the_tags() {
    let handler = MessageHandler::new();
    assert_eq!(handler.scope(Some("{\"scope\":\"abc\"}")), Ok("abc".to_string()));
    assert_eq!(
        handler.scope(Some("{\"foo\": 1, \"scope\": \"a\\u0062c\", \"x\": null}")),
        Ok("abc".to_string())
    );
    assert_eq!(handler.scope(Some("{\"scope\":1}")), Err(Error::MissingScope));
    assert_eq!(handler.scope(Some("{\"scope\":null}")), Err(Error::MissingScope));
    assert_eq!(handler.scope(Some("{\"Scope\":\"abc\"}")), Err(Error::MissingScope));
    assert_eq!(handler.scope(Some("[\"scope\"]")), Err(Error::MissingScope));
    assert_eq!(handler.scope(Some("\"scope\"")), Err(Error::MissingScope));
    assert_eq!(handler.scope(Some("{\"scope\":")), Err(Error::MissingScope));
    assert_eq!(handler.scope(Some("")), Err(Error::MissingScope));
    assert_eq!(handler.scope(None), Err(Error::MissingScope));
    assert_eq!(handler.scope_of_member(Some("s".to_string())), Ok("s".to_string()));
    assert_eq!(handler.scope_of_member(None), Err(Error::MissingScope));

    assert_eq!(
        handler.find_class("dev.usr.example.com", Some("{\"scope\":\"abc\"}")),
        Ok(ReadQuery::by_scope("dev.usr.example.com", "abc"))
    );
    assert_eq!(handler.find_class("dev.usr.example.com", None), Err(Error::MissingScope));
}

#[test]
fn correlation_data_is_sixteen_letters_and_digits() {
    assert_eq!(CORRELATION_DATA_LENGTH, 16);
    for _ in 0..64 {
        let data = generate_correlation_data();
        assert_eq!(data.chars().count(), 16);
        assert!(data.chars().all(|c| c.is_ascii_alphanumeric()));
    }
    let request = EventRequest::ReadRoom { id: 7 };
    let reqp = request.build_reqp("agents/a/api/v1/in/event.svc.example.org");
    assert_eq!(reqp.method, "room.read");
    assert_eq!(reqp.response_topic, "agents/a/api/v1/in/event.svc.example.org");
    assert_eq!(reqp.correlation_data.len(), 16);
    assert!(reqp.correlation_data.chars().all(|c| c.is_ascii_alphanumeric()));
}

#[test]
fn answers_of_the_event_service_are_judged_by_their_status() {
    let time = Time::from_bounds((Bound::Included(at(1)), Bound::Unbounded));
    let read = EventRequest::ReadRoom { id: 7 };
    let create = EventRequest::CreateRoom {
        time,
        audience: "a".to_string(),
        preserve_history: Some(true),
        tags: None,
    };
    let update = EventRequest::UpdateRoom { id: 7, time: Some(time), classroom_id: None };
    let adjust = EventRequest::AdjustRoom {
        id: 7,
        started_at: at(1),
        segments: Segments::new(vec![(0, 1)]),
        offset: 4018,
    };
    let lock = EventRequest::LockChat { room_id: 7 };
    let list = EventRequest::ListEvents { room_id: 7, kind: "pin".to_string() };
    assert_eq!(list.method(), "event.list");
    assert_eq!(list.check_status(500), Ok(()));

    assert_eq!(read.method(), "room.read");
    assert_eq!(create.method(), "room.create");
    assert_eq!(update.method(), "room.create");
    assert_eq!(adjust.method(), "room.adjust");
    assert_eq!(lock.method(), "event.create");

    assert_eq!(read.check_status(500), Ok(()));
    assert_eq!(create.check_status(404), Ok(()));
    assert_eq!(update.check_status(200), Ok(()));
    assert_eq!(adjust.check_status(202), Ok(()));
    assert_eq!(lock.check_status(201), Ok(()));
    assert_eq!(
        update.check_status(202),
        Err(ClientError::PayloadError("Event room update returned non 200 status".to_string()))
    );
    for status in [0u16, 7, 200, 201, 404, 500, 65535] {
        assert_eq!(
            adjust.check_status(status),
            Err(ClientError::PayloadError(format!("Wrong status, expected 202, got {:?}", status)))
        );
    }
    assert_eq!(
        lock.check_status(202),
        Err(ClientError::PayloadError("Wrong status, expected 201, got 202".to_string()))
    );
}

#[test]
fn a_call_that_timed_out_is_reported_as_such() {
    assert_eq!(outcome_of(&ClientError::TimeoutError), Outcome::TimedOut);
    assert_eq!(outcome_of(&ClientError::AgentError("x".to_string())), Outcome::Failed);
    assert_eq!(outcome_of(&ClientError::PayloadError("x".to_string())), Outcome::Failed);
    assert_eq!(outcome_of(&ClientError::HttpError("x".to_string())), Outcome::Failed);
}

#[test]
fn numbers_are_written_in_decimal() {
    for n in [0u64, 1, 9, 10, 11, 99, 100, 12345, 1_000_000, u64::MAX] {
        let mut text = "n=".to_string();
        append_number(&mut text, n);
        assert_eq!(text, format!("n={}", n));
    }
}

#[test]
fn the_created_room_is_named_by_the_answer() {
    assert_eq!(
        created_room_id(Some("a1a2a3a4-b1b2-c1c2-d1d2-d3d4d5d6d7d8")),
        Ok(0xa1a2a3a4b1b2c1c2d1d2d3d4d5d6d7d8)
    );
    assert_eq!(
        created_room_id(None),
        Err(ClientError::PayloadError("Missing id field in room.create response".to_string()))
    );
    match created_room_id(Some("nope")) {
        Err(ClientError::PayloadError(reason)) => {
            assert_eq!(reason, Uuid::parse_str("nope").unwrap_err().to_string())
        }
        other => panic!("unexpected {:?}", other),
    }
}

#[test]
fn class_kinds_have_their_markers_and_names() {
    assert_eq!(WebinarType::as_class_type(), ClassType::Webinar);
    assert_eq!(P2PType::as_class_type(), ClassType::P2P);
    assert_eq!(MinigroupType::as_class_type(), ClassType::Minigroup);
    assert_eq!(WebinarType::to_str(), "webinar");
    assert_eq!(P2PType::to_str(), "p2p");
    assert_eq!(MinigroupType::to_str(), "minigroup");
    assert_eq!(ClassType::Webinar.as_str(), "webinar");
    assert_eq!(ClassType::P2P.as_str(), "p2p");
    assert_eq!(ClassType::Minigroup.as_str(), "minigroup");
}

#[test]
fn class_getters_hand_out_the_fields() {
    let c = class(ClassType::Webinar);
    assert_eq!(c.id(), 0xa1a2a3a4b1b2c1c2d1d2d3d4d5d6d7d8);
    assert_eq!(c.kind(), ClassType::Webinar);
    assert_eq!(c.scope(), "scope-1");
    assert_eq!(c.event_room_id(), 3);
    assert_eq!(c.conference_room_id(), 2);
    assert_eq!(c.audience(), "dev.usr.example.com");
    assert_eq!(c.tags(), Some(&"{\"foo\":\"bar\"}".to_string()));
    assert_eq!(c.original_event_room_id(), None);
    assert_eq!(c.modified_event_room_id(), None);
    assert_eq!(c.reserve(), Some(10));
    assert_eq!(c.time().end(), Some(&at(200)));
    assert_eq!(c.room_events_uri(), None);
    assert_eq!(c.host(), None);
}

#[test]
fn queries_name_their_columns_in_the_order_of_their_values() {
    assert_eq!(ReadQuery::by_id(1).columns(), vec!["id"]);
    assert_eq!(ReadQuery::by_scope("a", "s").columns(), vec!["audience", "scope"]);
    assert_eq!(ReadQuery::by_conference_room(1).columns(), vec!["conference_room_id"]);
    assert_eq!(ReadQuery::by_event_room(1).columns(), vec!["event_room_id"]);
    assert_eq!(
        ReadQuery::by_scope("a", "s").condition,
        ReadQueryPredicate::Scope { audience: "a".to_string(), scope: "s".to_string() }
    );
    assert_eq!(ReadQuery::by_id(9).condition, ReadQueryPredicate::Id(9));
    assert_eq!(ReadQuery::by_conference_room(9).condition, ReadQueryPredicate::ConferenceRoom(9));
    assert_eq!(ReadQuery::by_event_room(9).condition, ReadQueryPredicate::EventRoom(9));

    let q = GenericReadQuery::<MinigroupType>::by_id(1);
    assert_eq!(q.class_type, ClassType::Minigroup);
    assert_eq!(q.columns(), vec!["id", "kind"]);
    let q = GenericReadQuery::<WebinarType>::by_scope("a", "s");
    assert_eq!(q.class_type, ClassType::Webinar);
    assert_eq!(q.columns(), vec!["audience", "scope", "kind"]);
    assert_eq!(GenericReadQuery::<P2PType>::by_id(1).class_type, ClassType::P2P);

    let q = MinigroupReadQuery::by_id(4);
    assert_eq!(q.condition, ReadQueryPredicate::Id(4));
    assert_eq!(q.columns(), vec!["id", "kind"]);
    assert_eq!(q.class_type(), ClassType::Minigroup);
    let q = MinigroupReadQuery::by_scope("a".to_string(), "s".to_string());
    assert_eq!(q.columns(), vec!["audience", "scope", "kind"]);

    let time = Time::from_bounds((Bound::Included(at(1)), Bound::Unbounded));
    assert_eq!(TimeUpdateQuery::new(1).columns(), Vec::<&str>::new());
    assert_eq!(TimeUpdateQuery::new(1).time(time).columns(), vec!["time"]);
    assert_eq!(TimeUpdateQuery::new(1).reserve(5).columns(), vec!["reserve"]);
    assert_eq!(TimeUpdateQuery::new(1).reserve(5).time(time).columns(), vec!["time", "reserve"]);
    let q = TimeUpdateQuery::new(1).time(time).reserve(5);
    assert_eq!(q, TimeUpdateQuery { id: 1, time: Some(time), reserve: Some(5) });
}

#[test]
fn queries_keep_what_they_are_built_with() {
    let time = Time::from_bounds((Bound::Included(at(1)), Bound::Excluded(at(2))));
    assert_eq!(
        UpdateQuery::new(1, 2, 3),
        UpdateQuery { id: 1, original_event_room_id: 2, modified_event_room_id: 3 }
    );
    assert_eq!(
        UpdateDumpEventsQuery::new(1, "s3://dump".to_string()),
        UpdateDumpEventsQuery { modified_event_room_id: 1, room_events_uri: "s3://dump".to_string() }
    );
    assert_eq!(
        RecreateQuery::new(1, time, 2, 3),
        RecreateQuery { id: 1, time, event_room_id: 2, conference_room_id: 3 }
    );
    assert_eq!(RoomCloseQuery::new(5), RoomCloseQuery { id: 5 });
    assert_eq!(MinigroupTimeUpdateQuery::new(5, time), MinigroupTimeUpdateQuery { id: 5, time });

    let host = AccountId::new("host", "dev.usr.example.com");
    let q = MinigroupInsertQuery::new("s".to_string(), "a".to_string(), time, host.clone(), 7, 8);
    assert_eq!(
        q,
        MinigroupInsertQuery {
            scope: "s".to_string(),
            audience: "a".to_string(),
            time,
            host: host.clone(),
            tags: None,
            preserve_history: true,
            reserve: None,
            conference_room_id: 7,
            event_room_id: 8,
        }
    );
    assert_eq!(q.class_type(), ClassType::Minigroup);
    let q = q.tags("{}".to_string()).reserve(10);
    assert_eq!(q.tags, Some("{}".to_string()));
    assert_eq!(q.reserve, Some(10));
    assert_eq!(q.host, host);

    let p = P2PInsertQuery::new("s".to_string(), "a".to_string(), 7, 8);
    assert_eq!(p.tags, None);
    assert_eq!(p.conference_room_id, 7);
    assert_eq!(p.event_room_id, 8);
    assert_eq!(p.time(), Time::from_bounds((Bound::Unbounded, Bound::Unbounded)));
    assert!(!p.preserve_history());
    assert_eq!(p.class_type(), ClassType::P2P);
    assert_eq!(p.tags("{\"a\":1}".to_string()).tags, Some("{\"a\":1}".to_string()));
}

#[test]
fn responses_are_logged_by_their_status() {
    let log = LogMiddleware::new();
    assert_eq!(log.level(200), Level::Info);
    assert_eq!(log.level(307), Level::Info);
    assert_eq!(log.level(399), Level::Info);
    assert_eq!(log.level(400), Level::Warning);
    assert_eq!(log.level(499), Level::Warning);
    assert_eq!(log.level(500), Level::Error);
    assert_eq!(log.level(599), Level::Error);
    assert_eq!(log.level(600), Level::Info);
    assert_eq!(log.level(0), Level::Info);
    assert!(log.logs_body(false));
    assert!(!log.logs_body(true));
}

#[test]
fn a_new_minigroup_gets_an_owned_conference_room_and_an_event_room() {
    let now = at(1000);
    let start = at(5000);
    let time = Time::from_bounds((Bound::Included(start), Bound::Excluded(at(9000))));
    let body = MinigroupCreatePayload {
        scope: "s".to_string(),
        audience: "dev.usr.example.com".to_string(),
        host: AccountId::new("host", "dev.usr.example.com"),
        time: Some(time),
        tags: Some("{\"a\":1}".to_string()),
        reserve: Some(10),
        locked_chat: true,
    };
    let (event, conference) = minigroup_rooms(&body, now);
    assert_eq!(event.time, Time::from_bounds((Bound::Included(now), Bound::Unbounded)));
    assert_eq!(event.audience, "dev.usr.example.com");
    assert_eq!(event.preserve_history, Some(true));
    assert_eq!(event.tags, body.tags);
    assert_eq!(conference.time, Time::from_bounds((Bound::Included(start), Bound::Unbounded)));
    assert_eq!(conference.policy, Some(String::from("owned")));
    assert_eq!(conference.reserve, Some(10));
    assert_eq!(conference.tags, body.tags);
    assert_eq!(conference.audience, "dev.usr.example.com");

    let query = minigroup_insert(body.clone(), 7, 8);
    assert_eq!(query.time, time);
    assert_eq!(query.reserve, Some(10));
    assert_eq!(query.tags, body.tags);
    assert_eq!(query.conference_room_id, 7);
    assert_eq!(query.event_room_id, 8);
    assert!(query.preserve_history);

    let mut untimed = body.clone();
    untimed.time = None;
    untimed.tags = None;
    untimed.reserve = None;
    let (_, conference) = minigroup_rooms(&untimed, now);
    assert_eq!(conference.time, Time::from_bounds((Bound::Included(now), Bound::Unbounded)));
    let query = minigroup_insert(untimed, 7, 8);
    assert_eq!(query.time, Time::from_bounds((Bound::Unbounded, Bound::Unbounded)));
    assert_eq!(query.tags, None);
    assert_eq!(query.reserve, None);

    assert_eq!(
        conference_time(Bound::Excluded(start), now),
        Time::from_bounds((Bound::Included(start), Bound::Unbounded))
    );
    assert_eq!(
        conference_time(Bound::Unbounded, now),
        Time::from_bounds((Bound::Included(now), Bound::Unbounded))
    );
    assert_eq!(event_time(now), Time::from_bounds((Bound::Included(now), Bound::Unbounded)));
}

#[test]
fn a_recreated_class_gets_a_shared_conference_room() {
    let now = at(1000);
    let c = class(ClassType::Minigroup);
    let time = Time::from_bounds((Bound::Excluded(at(5000)), Bound::Unbounded));
    let (event, conference) = create_event_and_conference(&c, &time, now);
    assert_eq!(event.time, Time::from_bounds((Bound::Included(now), Bound::Unbounded)));
    assert_eq!(event.preserve_history, Some(true));
    assert_eq!(event.tags, c.tags);
    assert_eq!(conference.time, Time::from_bounds((Bound::Included(at(5000)), Bound::Unbounded)));
    assert_eq!(conference.policy, Some(String::from("shared")));
    assert_eq!(conference.reserve, Some(10));
    assert_eq!(conference.audience, c.audience);

    assert_eq!(
        recreate(&c, Some(time), 8, 7),
        RecreateQuery { id: c.id, time, event_room_id: 8, conference_room_id: 7 }
    );
    assert_eq!(
        recreate(&c, None, 8, 7).time,
        Time::from_bounds((Bound::Unbounded, Bound::Unbounded))
    );
}

#[test]
fn every_failure_belongs_to_a_family() {
    let input = vec![
        Error::EmptyTrackList,
        Error::MissingRecording { rtc_id: 1 },
        Error::NoSegments,
        Error::NoRecordings,
        Error::WrongRoomOpeningTime,
        Error::MissingScope,
        Error::ClassNotFound,
        Error::InvalidDuration,
        Error::UnexpectedTemplate,
        Error::UnsupportedClassType,
        Error::InvalidParameter,
        Error::UnexpectedOutcome,
    ];
    for e in input {
        assert_eq!(e.kind(), ErrorKind::InputInvalid);
    }
    assert_eq!(Error::AdjustFailed.kind(), ErrorKind::UpstreamReportedFailure);
    assert_eq!(Error::TranscodingFailed.kind(), ErrorKind::UpstreamReportedFailure);
    for call in [Call::AdjustRoom, Call::ReadRoom, Call::ListEvents, Call::CreateTask, Call::Publish] {
        assert_eq!(Error::ExternalCallFailed { call }.kind(), ErrorKind::ExternalCallFailed);
        assert_eq!(Error::ExternalCallTimedOut { call }.kind(), ErrorKind::ExternalCallFailed);
    }
    assert_eq!(Error::PersistenceFailed.kind(), ErrorKind::PersistenceFailed);
}

fn create_payload(time: Option<Time>) -> MinigroupCreatePayload {
    MinigroupCreatePayload {
        scope: "scope-4f1a".to_string(),
        audience: "dev.usr.example.com".to_string(),
        host: AccountId::new("user1", "dev.usr.example.com"),
        time,
        tags: None,
        reserve: Some(10),
        locked_chat: true,
    }
}

#[test]
fn create_minigroup_no_time() {
    let now = at(1_600_000_000);
    let body = create_payload(None);
    let (_event, conference) = minigroup_rooms(&body, now);
    assert_eq!(conference.policy, Some(String::from("owned")));
    assert_eq!(conference.reserve, Some(10));
    let new_minigroup = minigroup_insert(body, 0x22, 0x33);
    assert_eq!(new_minigroup.reserve, Some(10),);
}

#[test]
fn create_minigroup_with_time() {
    let now = at(1_600_000_000);
    let time = Time::from_bounds((
        Bound::Included(at(1_600_000_000 + 3600)),
        Bound::Excluded(at(1_600_000_000 + 5 * 3600)),
    ));
    let body = create_payload(Some(time));
    let (_event, conference) = minigroup_rooms(&body, now);
    assert_eq!(conference.policy, Some(String::from("owned")));
    assert_eq!(conference.reserve, Some(10));
    let new_minigroup = minigroup_insert(body, 0x22, 0x33);
    assert_eq!(new_minigroup.reserve, Some(10),);
    assert_eq!(new_minigroup.time, time);
}

#[test]
fn the_rooms_of_a_stored_class_learn_its_identity() {
    let (event, conference) = update_classroom_id(0x11, 0x33, Some(0x22));
    assert_eq!(event, RoomUpdate { id: 0x33, time: None, classroom_id: Some(0x11) });
    assert_eq!(conference, Some(RoomUpdate { id: 0x22, time: None, classroom_id: Some(0x11) }));
    let (event, conference) = update_classroom_id(0x11, 0x33, None);
    assert_eq!(event, RoomUpdate { id: 0x33, time: None, classroom_id: Some(0x11) });
    assert_eq!(conference, None);
    let told = EventRequest::UpdateRoom { id: 0x33, time: None, classroom_id: Some(0x11) };
    assert_eq!(told.method(), "room.create");
    assert_eq!(told.check_status(200), Ok(()));
}
