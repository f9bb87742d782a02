//! Segment sets: ordered half-open millisecond intervals of one track.

use vstd::prelude::*;

verus! {

/// A half-open interval `[start, stop)` of millisecond offsets.
#[derive(Clone, Copy, Debug, PartialEq, Eq)]
pub struct Segment {
    pub start: i64,
    pub stop: i64,
}

/// An ordered sequence of segments.
///
/// The producers of segment sets emit them sorted and without overlaps; the
/// constructor takes the sequence as it comes and neither sorts nor validates
/// it.  [`Segments::is_well_formed`] tells whether a set keeps that promise.
#[derive(Clone, Debug, PartialEq, Eq)]
pub struct Segments {
    items: Vec<Segment>,
}

/// Every segment ends no earlier than it starts, and each one starts no
/// earlier than its predecessor stops.
pub open spec fn well_formed(s: Seq<Segment>) -> bool {
    &&& forall|i: int| 0 <= i < s.len() ==> (#[trigger] s[i]).start <= s[i].stop
    &&& forall|i: int| 0 < i < s.len() ==> s[i - 1].stop <= (#[trigger] s[i]).start
}

/// The segments that a list of `(start, stop)` pairs denotes, in the same order.
pub open spec fn from_pairs(pairs: Seq<(i64, i64)>) -> Seq<Segment> {
    Seq::new(pairs.len(), |i: int| Segment { start: pairs[i].0, stop: pairs[i].1 })
}

/// The `(start, stop)` pairs of a sequence of segments, in the same order.
pub open spec fn to_pairs(s: Seq<Segment>) -> Seq<(i64, i64)> {
    Seq::new(s.len(), |i: int| (s[i].start, s[i].stop))
}

impl View for Segments {
    type V = Seq<Segment>;

    closed spec fn view(&self) -> Seq<Segment> {
        self.items@
    }
}

impl Segments {
    /// Builds a segment set from `(start, stop)` pairs, keeping their order.
    pub fn new(pairs: Vec<(i64, i64)>) -> (res: Segments)
        ensures
            res@ == from_pairs(pairs@),
    {
        let mut items: Vec<Segment> = Vec::new();
        let mut i: usize = 0;
        while i < pairs.len()
            invariant
                i <= pairs.len(),
                items@ == from_pairs(pairs@.take(i as int)),
            decreases pairs.len() - i,
        {
            items.push(Segment { start: pairs[i].0, stop: pairs[i].1 });
            i += 1;
        }
        Segments { items }
    }

    /// A segment set without segments.
    pub fn empty() -> (res: Segments)
        ensures
            res@ == Seq::<Segment>::empty(),
    {
        Segments { items: Vec::new() }
    }

    /// Builds a segment set from segments, keeping their order.
    pub fn from_segments(items: Vec<Segment>) -> (res: Segments)
        ensures
            res@ == items@,
    {
        Segments { items }
    }

    /// The number of segments.
    pub fn len(&self) -> (n: usize)
        ensures
            n == self@.len(),
    {
        self.items.len()
    }

    /// Whether the set holds no segment.
    pub fn is_empty(&self) -> (b: bool)
        ensures
            b == (self@.len() == 0),
    {
        self.items.len() == 0
    }

    /// The segment at position `i`, if there is one.
    pub fn get(&self, i: usize) -> (res: Option<Segment>)
        ensures
            res == if i < self@.len() { Some(self@[i as int]) } else { None },
    {
        if i < self.items.len() {
            Some(self.items[i])
        } else {
            None
        }
    }

    /// The first segment, if there is one.
    pub fn first(&self) -> (res: Option<Segment>)
        ensures
            res == if self@.len() > 0 { Some(self@.first()) } else { None },
    {
        if self.items.len() > 0 {
            Some(self.items[0])
        } else {
            None
        }
    }

    /// The last segment, if there is one.
    pub fn last(&self) -> (res: Option<Segment>)
        ensures
            res == if self@.len() > 0 { Some(self@.last()) } else { None },
    {
        let n = self.items.len();
        if n > 0 {
            Some(self.items[n - 1])
        } else {
            None
        }
    }

    /// The whole ordered sequence, as `(start, stop)` pairs.
    pub fn to_vec(&self) -> (res: Vec<(i64, i64)>)
        ensures
            res@ == to_pairs(self@),
    {
        let mut out: Vec<(i64, i64)> = Vec::new();
        let mut i: usize = 0;
        while i < self.items.len()
            invariant
                i <= self.items.len(),
                out@ == to_pairs(self.items@.take(i as int)),
            decreases self.items.len() - i,
        {
            out.push((self.items[i].start, self.items[i].stop));
            i += 1;
        }
        out
    }

    /// A copy of the set.
    pub fn duplicate(&self) -> (res: Segments)
        ensures
            res@ == self@,
    {
        let mut items: Vec<Segment> = Vec::new();
        let mut i: usize = 0;
        while i < self.items.len()
            invariant
                i <= self.items.len(),
                items@ == self.items@.take(i as int),
            decreases self.items.len() - i,
        {
            items.push(self.items[i]);
            i += 1;
        }
        Segments { items }
    }

    /// Whether the set is sorted ascending, free of overlaps and free of
    /// segments that stop before they start.
    pub fn is_well_formed(&self) -> (b: bool)
        ensures
            b == well_formed(self@),
    {
        let mut i: usize = 0;
        while i < self.items.len()
            invariant
                i <= self.items.len(),
                well_formed(self.items@.take(i as int)),
            decreases self.items.len() - i,
        {
            let cur = self.items[i];
            if cur.start > cur.stop {
                return false;
            }
            if i > 0 && self.items[i - 1].stop > cur.start {
                return false;
            }
            i += 1;
        }
        assert(self.items@.take(i as int) =~= self.items@);
        true
    }
}

/// Pairs survive the passage through a segment set unchanged.
pub proof fn lemma_pairs_round_trip(pairs: Seq<(i64, i64)>)
    ensures
        to_pairs(from_pairs(pairs)) == pairs,
{
}

} // verus!
