//! Points in time, the spans between them and time ranges.

use chrono::DateTime;
use vstd::prelude::*;

verus! {

/// Seconds from the Unix epoch to the earliest instant that can be held: the
/// first instant of `chrono::DateTime<Utc>`.
pub const MIN_SECONDS: i64 = -8_334_601_228_800;

/// Seconds from the Unix epoch to the last second that can be held: the last
/// second of `chrono::DateTime<Utc>`.
pub const MAX_SECONDS: i64 = 8_210_266_876_799;

/// Nanoseconds in one second.
pub const NANOS_PER_SECOND: u32 = 1_000_000_000;

/// The longest span between two instants, in whole milliseconds.
pub const MAX_SPAN_MILLIS: i64 = 16_544_868_105_599_999;

/// Whether `secs` seconds and `nanos` nanoseconds since the Unix epoch denote
/// an instant that a [`Timestamp`] holds.
pub open spec fn in_range(secs: i64, nanos: u32) -> bool {
    MIN_SECONDS <= secs <= MAX_SECONDS && nanos < NANOS_PER_SECOND
}

/// Nanoseconds since the Unix epoch of the instant `secs` seconds and `nanos`
/// nanoseconds after it.
pub open spec fn instant(secs: i64, nanos: u32) -> int {
    secs * 1_000_000_000 + nanos
}

/// The whole milliseconds in a span of `nanos` nanoseconds, rounded towards zero.
pub open spec fn whole_millis(nanos: int) -> int {
    if nanos >= 0 {
        nanos / 1_000_000
    } else {
        -((-nanos) / 1_000_000)
    }
}

/// An instant on the UTC time line with nanosecond precision.
///
/// Its view is the number of nanoseconds since the Unix epoch.
#[derive(Clone, Copy, Debug, PartialEq, Eq)]
pub struct Timestamp {
    secs: i64,
    nanos: u32,
}

impl View for Timestamp {
    type V = int;

    closed spec fn view(&self) -> int {
        instant(self.secs, self.nanos)
    }
}

/// A signed span of time in whole milliseconds.
///
/// Its view is the number of milliseconds.
#[derive(Clone, Copy, Debug, PartialEq, Eq)]
pub struct Duration {
    millis: i64,
}

impl View for Duration {
    type V = int;

    closed spec fn view(&self) -> int {
        self.millis as int
    }
}

/// The whole milliseconds between two instants in range, as
/// `chrono::DateTime::signed_duration_since` and
/// `chrono::TimeDelta::num_milliseconds` compute them: the instants are handed
/// over through `chrono::DateTime::from_timestamp`, which accepts every
/// instant in range, and the span from `b` to `a` comes back rounded towards
/// zero.
#[verifier::external_body]
fn chrono_millis_between(a_secs: i64, a_nanos: u32, b_secs: i64, b_nanos: u32) -> (ms: i64)
    requires
        in_range(a_secs, a_nanos),
        in_range(b_secs, b_nanos),
    ensures
        ms == whole_millis(instant(a_secs, a_nanos) - instant(b_secs, b_nanos)),
{
    let a = DateTime::from_timestamp(a_secs, a_nanos).unwrap();
    let b = DateTime::from_timestamp(b_secs, b_nanos).unwrap();
    a.signed_duration_since(b).num_milliseconds()
}

impl Timestamp {
    #[verifier::type_invariant]
    spec fn inv(self) -> bool {
        in_range(self.secs, self.nanos)
    }

    /// The instant `secs` seconds and `nanos` nanoseconds after the Unix
    /// epoch, or `None` where it is out of range.
    pub fn new(secs: i64, nanos: u32) -> (res: Option<Timestamp>)
        ensures
            res is Some <==> in_range(secs, nanos),
            res matches Some(t) ==> t@ == instant(secs, nanos),
    {
        if MIN_SECONDS <= secs && secs <= MAX_SECONDS && nanos < NANOS_PER_SECOND {
            Some(Timestamp { secs, nanos })
        } else {
            None
        }
    }

    /// The instant `nanos` nanoseconds after the second `secs` of the Unix
    /// time line, where `nanos` may run past the end of that second, as the
    /// nanoseconds inside a leap second do; `None` where the instant is out
    /// of range.
    pub fn folded(secs: i64, nanos: u32) -> (res: Option<Timestamp>)
        ensures
            res is Some <==> MIN_SECONDS <= secs + nanos / NANOS_PER_SECOND <= MAX_SECONDS,
            res matches Some(t) ==> t@ == instant(secs, nanos),
    {
        if secs < MIN_SECONDS - 4 || secs > MAX_SECONDS {
            return None;
        }
        let carry: u32 = nanos / NANOS_PER_SECOND;
        Timestamp::new(secs + carry as i64, nanos % NANOS_PER_SECOND)
    }

    /// The Unix epoch.
    pub fn epoch() -> (res: Timestamp)
        ensures
            res@ == 0,
    {
        Timestamp { secs: 0, nanos: 0 }
    }

    /// Whole seconds since the Unix epoch, rounded down.
    pub fn seconds(&self) -> (secs: i64)
        ensures
            MIN_SECONDS <= secs <= MAX_SECONDS,
            secs as int == self@ / 1_000_000_000,
    {
        proof {
            use_type_invariant(self);
        }
        self.secs
    }

    /// Nanoseconds since the last whole second.
    pub fn subsec_nanos(&self) -> (nanos: u32)
        ensures
            nanos < NANOS_PER_SECOND,
            nanos as int == self@ % 1_000_000_000,
    {
        proof {
            use_type_invariant(self);
        }
        self.nanos
    }

    /// Whether this instant is no later than `other`.
    pub fn le(&self, other: &Timestamp) -> (b: bool)
        ensures
            b == (self@ <= other@),
    {
        proof {
            use_type_invariant(self);
            use_type_invariant(other);
        }
        self.secs < other.secs || (self.secs == other.secs && self.nanos <= other.nanos)
    }

    /// Whether this instant is earlier than `other`.
    pub fn lt(&self, other: &Timestamp) -> (b: bool)
        ensures
            b == (self@ < other@),
    {
        proof {
            use_type_invariant(self);
            use_type_invariant(other);
        }
        self.secs < other.secs || (self.secs == other.secs && self.nanos < other.nanos)
    }

    /// Whether both are the same instant.
    pub fn same(&self, other: &Timestamp) -> (b: bool)
        ensures
            b == (self@ == other@),
    {
        proof {
            use_type_invariant(self);
            use_type_invariant(other);
        }
        self.secs == other.secs && self.nanos == other.nanos
    }

    /// The span from `earlier` to this instant in whole milliseconds, rounded
    /// towards zero; negative where `earlier` is in fact later.
    pub fn since(&self, earlier: &Timestamp) -> (res: Duration)
        ensures
            res@ == whole_millis(self@ - earlier@),
    {
        proof {
            use_type_invariant(self);
            use_type_invariant(earlier);
        }
        let ms: i64 = chrono_millis_between(self.secs, self.nanos, earlier.secs, earlier.nanos);
        Duration { millis: ms }
    }
}

impl Duration {
    #[verifier::type_invariant]
    spec fn inv(self) -> bool {
        -MAX_SPAN_MILLIS <= self.millis <= MAX_SPAN_MILLIS
    }

    /// A span of `millis` milliseconds, or `None` where it is longer than the
    /// longest span between two instants.
    pub fn milliseconds(millis: i64) -> (res: Option<Duration>)
        ensures
            res is Some <==> -MAX_SPAN_MILLIS <= millis <= MAX_SPAN_MILLIS,
            res matches Some(d) ==> d@ == millis,
    {
        if -MAX_SPAN_MILLIS <= millis && millis <= MAX_SPAN_MILLIS {
            Some(Duration { millis })
        } else {
            None
        }
    }

    /// The empty span.
    pub fn zero() -> (res: Duration)
        ensures
            res@ == 0,
    {
        Duration { millis: 0 }
    }

    /// The span in whole milliseconds.
    pub fn num_milliseconds(&self) -> (ms: i64)
        ensures
            ms == self@,
            -MAX_SPAN_MILLIS <= ms <= MAX_SPAN_MILLIS,
    {
        proof {
            use_type_invariant(self);
        }
        self.millis
    }
}

/// One end of a time range.
#[derive(Clone, Copy, Debug, PartialEq, Eq)]
pub enum Bound {
    Included(Timestamp),
    Excluded(Timestamp),
    Unbounded,
}

/// A time range given by its lower and its upper end.
pub type BoundedDateTimeTuple = (Bound, Bound);

} // verus!
