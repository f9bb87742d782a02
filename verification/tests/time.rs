use chrono::{DateTime, TimeZone, Utc};
use dispatcher::class::Time;
use dispatcher::error::Error;
use dispatcher::postprocessing::minigroup::{event_room_offset, occurred_at_in_recording};
use dispatcher::time::{
    Bound, Duration, Timestamp, MAX_SECONDS, MAX_SPAN_MILLIS, MIN_SECONDS, NANOS_PER_SECOND,
};

fn stamp(secs: i64, nanos: u32) -> Timestamp {
    Timestamp::new(secs, nanos).expect("timestamp in range")
}

#[test]
fn timestamps_cover_the_range_of_chrono() {
    assert_eq!(DateTime::<Utc>::MIN_UTC.timestamp(), MIN_SECONDS);
    assert_eq!(DateTime::<Utc>::MAX_UTC.timestamp(), MAX_SECONDS);
    assert!(DateTime::from_timestamp(MIN_SECONDS, 0).is_some());
    assert!(DateTime::from_timestamp(MAX_SECONDS, NANOS_PER_SECOND - 1).is_some());
    assert!(DateTime::from_timestamp(MIN_SECONDS - 1, 0).is_none());
    assert!(DateTime::from_timestamp(MAX_SECONDS + 1, 0).is_none());

    assert!(Timestamp::new(MIN_SECONDS, 0).is_some());
    assert!(Timestamp::new(MAX_SECONDS, NANOS_PER_SECOND - 1).is_some());
    assert!(Timestamp::new(MIN_SECONDS - 1, 0).is_none());
    assert!(Timestamp::new(MAX_SECONDS + 1, 0).is_none());
    assert!(Timestamp::new(0, NANOS_PER_SECOND).is_none());
    assert!(Timestamp::new(i64::MIN, 0).is_none());
    assert!(Timestamp::new(i64::MAX, 0).is_none());
}

#[test]
fn the_longest_span_is_that_between_the_ends_of_the_range() {
    let first = stamp(MIN_SECONDS, 0);
    let last = stamp(MAX_SECONDS, NANOS_PER_SECOND - 1);
    assert_eq!(last.since(&first).num_milliseconds(), MAX_SPAN_MILLIS);
    assert_eq!(first.since(&last).num_milliseconds(), -MAX_SPAN_MILLIS);
    assert!(Duration::milliseconds(MAX_SPAN_MILLIS).is_some());
    assert!(Duration::milliseconds(-MAX_SPAN_MILLIS).is_some());
    assert!(Duration::milliseconds(MAX_SPAN_MILLIS + 1).is_none());
    assert!(Duration::milliseconds(-MAX_SPAN_MILLIS - 1).is_none());
    assert!(Duration::milliseconds(i64::MIN).is_none());
    assert_eq!(Duration::milliseconds(-7).unwrap().num_milliseconds(), -7);
    assert_eq!(Duration::zero().num_milliseconds(), 0);
}

#[test]
fn spans_are_whole_milliseconds_rounded_towards_zero() {
    assert_eq!(stamp(10, 0).since(&stamp(7, 0)).num_milliseconds(), 3000);
    assert_eq!(stamp(7, 0).since(&stamp(10, 0)).num_milliseconds(), -3000);
    assert_eq!(stamp(0, 2_100_000).since(&stamp(0, 1_900_000)).num_milliseconds(), 0);
    assert_eq!(stamp(0, 1_900_000).since(&stamp(0, 2_100_000)).num_milliseconds(), 0);
    assert_eq!(stamp(1, 999_999).since(&stamp(0, 0)).num_milliseconds(), 1000);
    assert_eq!(stamp(0, 0).since(&stamp(1, 999_999)).num_milliseconds(), -1000);
    assert_eq!(stamp(-1, 500_000_000).since(&stamp(0, 0)).num_milliseconds(), -500);
    assert_eq!(stamp(0, 0).since(&stamp(-1, 500_000_000)).num_milliseconds(), 500);
    assert_eq!(stamp(5, 1_999_999).since(&stamp(5, 0)).num_milliseconds(), 1);
}

#[test]
fn spans_agree_with_chrono() {
    let samples: Vec<(i64, u32)> = vec![
        (0, 0),
        (0, 1),
        (0, 999_999_999),
        (-1, 999_999_999),
        (-1, 1),
        (1_600_000_000, 123_456_789),
        (1_600_000_003, 999_000),
        (MIN_SECONDS, 0),
        (MAX_SECONDS, 999_999_999),
        (-62_167_219_200, 500_000_000),
    ];
    for (a_secs, a_nanos) in samples.iter().copied() {
        for (b_secs, b_nanos) in samples.iter().copied() {
            let a = Utc.timestamp_opt(a_secs, a_nanos).unwrap();
            let b = Utc.timestamp_opt(b_secs, b_nanos).unwrap();
            let expected = (a - b).num_milliseconds();
            let nanos = (a_secs as i128 - b_secs as i128) * 1_000_000_000
                + (a_nanos as i128 - b_nanos as i128);
            assert_eq!(expected as i128, nanos / 1_000_000);
            assert_eq!(
                stamp(a_secs, a_nanos).since(&stamp(b_secs, b_nanos)).num_milliseconds(),
                expected
            );
        }
    }
}

#[test]
fn timestamps_are_ordered_by_their_instant() {
    let a = stamp(5, 10);
    let b = stamp(5, 11);
    let c = stamp(6, 0);
    assert!(a.lt(&b) && b.lt(&c) && a.lt(&c));
    assert!(a.le(&a) && a.le(&b) && !b.le(&a));
    assert!(!a.lt(&a) && !c.lt(&b));
    assert!(a.same(&stamp(5, 10)) && !a.same(&b));
    assert_eq!(a.seconds(), 5);
    assert_eq!(a.subsec_nanos(), 10);
    assert_eq!(stamp(-1, 5).seconds(), -1);
    assert_eq!(Timestamp::epoch(), stamp(0, 0));
}

#[test]
fn event_times_are_moved_onto_the_recording() {
    let opened = stamp(1_600_000_000, 0);
    let room = (Bound::Included(opened), Bound::Unbounded);
    let started = stamp(1_600_000_600, 0);
    let offset = event_room_offset(started, &room).unwrap();
    assert_eq!(offset.num_milliseconds(), 600_000);
    assert_eq!(occurred_at_in_recording(1_200_000_000_000, offset), 600_000);
    assert_eq!(occurred_at_in_recording(0, offset), -600_000);
    assert_eq!(occurred_at_in_recording(1_999_999, Duration::zero()), 1);
    assert_eq!(
        occurred_at_in_recording(u64::MAX, Duration::milliseconds(-MAX_SPAN_MILLIS).unwrap()),
        18_446_744_073_709 + MAX_SPAN_MILLIS
    );

    let early = event_room_offset(stamp(1_599_999_999, 0), &room).unwrap();
    assert_eq!(early.num_milliseconds(), -1000);

    assert_eq!(
        event_room_offset(started, &(Bound::Excluded(opened), Bound::Unbounded)),
        Err(Error::WrongRoomOpeningTime)
    );
    assert_eq!(
        event_room_offset(started, &(Bound::Unbounded, Bound::Included(opened))),
        Err(Error::WrongRoomOpeningTime)
    );
}

#[test]
fn the_end_of_a_time_is_its_upper_bound() {
    let t = stamp(10, 0);
    assert_eq!(Time::from_bounds((Bound::Unbounded, Bound::Included(t))).end(), Some(&t));
    assert_eq!(Time::from_bounds((Bound::Unbounded, Bound::Excluded(t))).end(), Some(&t));
    assert_eq!(Time::from_bounds((Bound::Included(t), Bound::Unbounded)).end(), None);
    let time = Time::from_bounds((Bound::Included(t), Bound::Excluded(stamp(20, 0))));
    assert_eq!(time.to_bounds(), (Bound::Included(t), Bound::Excluded(stamp(20, 0))));
}

#[test]
fn nanoseconds_past_the_second_are_folded_into_the_next() {
    assert_eq!(Timestamp::folded(10, 5), Some(stamp(10, 5)));
    assert_eq!(Timestamp::folded(59, 1_500_000_000), Some(stamp(60, 500_000_000)));
    assert_eq!(Timestamp::folded(-1, 1_000_000_000), Some(stamp(0, 0)));
    assert_eq!(Timestamp::folded(0, u32::MAX), Some(stamp(4, 294_967_295)));
    assert_eq!(Timestamp::folded(MAX_SECONDS, 999_999_999), Some(stamp(MAX_SECONDS, 999_999_999)));
    assert_eq!(Timestamp::folded(MAX_SECONDS, 1_000_000_000), None);
    assert_eq!(Timestamp::folded(MAX_SECONDS + 1, 0), None);
    assert_eq!(Timestamp::folded(MIN_SECONDS - 1, 999_999_999), None);
    assert_eq!(Timestamp::folded(MIN_SECONDS - 1, 1_000_000_000), Some(stamp(MIN_SECONDS, 0)));
    assert_eq!(Timestamp::folded(MIN_SECONDS - 5, u32::MAX), None);
    assert_eq!(Timestamp::folded(i64::MIN, u32::MAX), None);
    assert_eq!(Timestamp::folded(i64::MAX, u32::MAX), None);

    let leap = chrono::NaiveDate::from_ymd_opt(2016, 12, 31)
        .unwrap()
        .and_hms_nano_opt(23, 59, 59, 1_250_000_000)
        .unwrap()
        .and_utc();
    let folded = Timestamp::folded(leap.timestamp(), leap.timestamp_subsec_nanos()).unwrap();
    assert_eq!(folded, stamp(leap.timestamp() + 1, 250_000_000));
    assert_eq!(
        folded.since(&stamp(leap.timestamp(), 0)).num_milliseconds(),
        leap.timestamp_millis() - leap.timestamp() * 1000
    );
}
