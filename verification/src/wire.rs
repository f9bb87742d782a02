//! The wire form of a segment set.
//!
//! On the wire a segment set is the JSON array of its segments, each of them
//! the array of its start and its stop, in the shortest way to write it down:
//! decimal numbers and no white space, as in `[[0,1500],[1800,3000]]`.

use crate::segments::{Segment, Segments};
use vstd::prelude::*;

verus! {

/// The bracket that opens a segment and a segment set.
pub const OPENING: u8 = 91;

/// The bracket that closes a segment and a segment set.
pub const CLOSING: u8 = 93;

/// The comma between two numbers and between two segments.
pub const COMMA: u8 = 44;

/// The sign of a negative number.
pub const MINUS: u8 = 45;

/// The digit zero.
pub const ZERO: u8 = 48;

/// The ASCII digit for `d`, which is below ten.
pub open spec fn digit(d: nat) -> u8 {
    (ZERO + d) as u8
}

/// The decimal digits of `n`, most significant first.
pub open spec fn digits(n: nat) -> Seq<u8>
    decreases n,
{
    if n < 10 {
        seq![digit(n)]
    } else {
        digits(n / 10).push(digit(n % 10))
    }
}

/// The decimal form of `n`: a minus sign if it is negative, then the digits
/// of its magnitude.
pub open spec fn decimal(n: int) -> Seq<u8> {
    if n < 0 {
        seq![MINUS] + digits((-n) as nat)
    } else {
        digits(n as nat)
    }
}

/// The wire form of one segment: `[start,stop]`.
pub open spec fn segment_text(s: Segment) -> Seq<u8> {
    seq![OPENING] + decimal(s.start as int) + seq![COMMA] + decimal(s.stop as int) + seq![CLOSING]
}

/// The wire forms of the segments, separated by commas.
pub open spec fn segments_text(items: Seq<Segment>) -> Seq<u8>
    decreases items.len(),
{
    if items.len() == 0 {
        Seq::empty()
    } else if items.len() == 1 {
        segment_text(items[0])
    } else {
        segments_text(items.drop_last()) + seq![COMMA] + segment_text(items.last())
    }
}

/// The wire form of a segment set: its segments between square brackets.
pub open spec fn wire_text(items: Seq<Segment>) -> Seq<u8> {
    seq![OPENING] + segments_text(items) + seq![CLOSING]
}

/// Whether `bytes` is the wire form of some segment set.
pub open spec fn is_wire_text(bytes: Seq<u8>) -> bool {
    exists|items: Seq<Segment>| bytes == #[trigger] wire_text(items)
}

/// Why bytes could not be read as a segment set.
#[derive(Clone, Copy, Debug, PartialEq, Eq, Structural)]
pub enum WireError {
    /// The bytes are not the wire form of any segment set.
    Malformed,
}

spec fn is_digit(c: u8) -> bool {
    ZERO <= c <= ZERO + 9
}

/// The end of the run of digits that starts at `pos`.
spec fn digits_end(b: Seq<u8>, pos: int) -> int
    decreases b.len() - pos,
{
    if 0 <= pos < b.len() && is_digit(b[pos]) {
        digits_end(b, pos + 1)
    } else {
        pos
    }
}

/// The number that a run of digits denotes.
spec fn digits_value(ds: Seq<u8>) -> nat
    decreases ds.len(),
{
    if ds.len() == 0 {
        0
    } else {
        digits_value(ds.drop_last()) * 10 + (ds.last() - ZERO) as nat
    }
}

/// The integer written at `pos` and the position behind it.
spec fn int_at(b: Seq<u8>, pos: int) -> Option<(i64, int)> {
    let negative = 0 <= pos < b.len() && b[pos] == MINUS;
    let start = if negative {
        pos + 1
    } else {
        pos
    };
    let end = digits_end(b, start);
    let magnitude = digits_value(b.subrange(start, end));
    let value = if negative {
        -magnitude
    } else {
        magnitude as int
    };
    if start < end && i64::MIN <= value <= i64::MAX {
        Some((value as i64, end))
    } else {
        None
    }
}

spec fn is_byte(b: Seq<u8>, pos: int, c: u8) -> bool {
    0 <= pos < b.len() && b[pos] == c
}

/// The segment written at `pos` and the position behind it.
spec fn segment_at(b: Seq<u8>, pos: int) -> Option<(Segment, int)> {
    if !is_byte(b, pos, OPENING) {
        None
    } else {
        match int_at(b, pos + 1) {
            None => None,
            Some((start, p)) => if !is_byte(b, p, COMMA) {
                None
            } else {
                match int_at(b, p + 1) {
                    None => None,
                    Some((stop, q)) => if is_byte(b, q, CLOSING) {
                        Some((Segment { start, stop }, q + 1))
                    } else {
                        None
                    },
                }
            },
        }
    }
}

/// The segments read so far followed by those written from `pos` up to the
/// closing bracket that ends `b`.
spec fn list_at(b: Seq<u8>, pos: int, read: Seq<Segment>) -> Option<Seq<Segment>>
    decreases b.len() - pos,
{
    match segment_at(b, pos) {
        None => None,
        Some((s, p)) => if is_byte(b, p, COMMA) && p >= pos {
            list_at(b, p + 1, read.push(s))
        } else if is_byte(b, p, CLOSING) && p + 1 == b.len() {
            Some(read.push(s))
        } else {
            None
        },
    }
}

/// The segments that a scan of `b` finds.
spec fn scanned(b: Seq<u8>) -> Option<Seq<Segment>> {
    if !is_byte(b, 0, OPENING) {
        None
    } else if is_byte(b, 1, CLOSING) {
        if b.len() == 2 {
            Some(Seq::empty())
        } else {
            None
        }
    } else {
        list_at(b, 1, Seq::empty())
    }
}

/// The segment set that `bytes` is the wire form of, if it is one.
pub closed spec fn parsed(bytes: Seq<u8>) -> Option<Seq<Segment>> {
    match scanned(bytes) {
        Some(items) => if wire_text(items) == bytes {
            Some(items)
        } else {
            None
        },
        None => None,
    }
}

proof fn lemma_digits(n: nat)
    ensures
        digits(n).len() >= 1,
        forall|i: int| 0 <= i < digits(n).len() ==> is_digit(#[trigger] digits(n)[i]),
        digits_value(digits(n)) == n,
    decreases n,
{
    if n < 10 {
        assert(digits(n).drop_last() =~= Seq::<u8>::empty());
        assert(digits_value(Seq::<u8>::empty()) == 0);
    } else {
        lemma_digits(n / 10);
        assert(digits(n).drop_last() =~= digits(n / 10));
    }
}

proof fn lemma_digits_end(b: Seq<u8>, pos: int, end: int)
    requires
        0 <= pos <= end <= b.len(),
        forall|i: int| pos <= i < end ==> is_digit(#[trigger] b[i]),
        end == b.len() || !is_digit(b[end]),
    ensures
        digits_end(b, pos) == end,
    decreases end - pos,
{
    if pos < end {
        lemma_digits_end(b, pos + 1, end);
    }
}

/// An integer in decimal form that no digit follows is read back as it is.
proof fn lemma_int_at(b: Seq<u8>, pos: int, n: i64)
    requires
        0 <= pos,
        pos + decimal(n as int).len() <= b.len(),
        b.subrange(pos, pos + decimal(n as int).len()) == decimal(n as int),
        pos + decimal(n as int).len() == b.len() || !is_digit(b[pos + decimal(n as int).len()]),
    ensures
        int_at(b, pos) == Some((n, pos + decimal(n as int).len())),
{
    let text = decimal(n as int);
    let end = pos + text.len();
    assert forall|i: int| 0 <= i < text.len() implies b[pos + i] == text[i] by {
        assert(b.subrange(pos, end)[i] == text[i]);
    }
    if n < 0 {
        let m = (-n) as nat;
        lemma_digits(m);
        assert(text[0] == MINUS);
        assert(b[pos] == MINUS);
        assert forall|i: int| pos + 1 <= i < end implies is_digit(#[trigger] b[i]) by {
            assert(b[i] == text[i - pos]);
            assert(text[i - pos] == digits(m)[i - pos - 1]);
        }
        lemma_digits_end(b, pos + 1, end);
        assert(text.len() == 1 + digits(m).len());
        assert forall|i: int| 0 <= i < digits(m).len() implies b.subrange(pos + 1, end)[i]
            == digits(m)[i] by {
            assert(b[pos + 1 + i] == text[1 + i]);
        }
        assert(b.subrange(pos + 1, end) =~= digits(m));
    } else {
        let m = n as nat;
        lemma_digits(m);
        assert(is_digit(text[0]));
        assert(b[pos] == text[0]);
        assert forall|i: int| pos <= i < end implies is_digit(#[trigger] b[i]) by {
            assert(b[i] == text[i - pos]);
        }
        lemma_digits_end(b, pos, end);
        assert(b.subrange(pos, end) =~= digits(m));
    }
}

/// A segment in wire form is read back as it is.
proof fn lemma_segment_at(b: Seq<u8>, pos: int, s: Segment)
    requires
        0 <= pos,
        pos + segment_text(s).len() <= b.len(),
        b.subrange(pos, pos + segment_text(s).len()) == segment_text(s),
    ensures
        segment_at(b, pos) == Some((s, pos + segment_text(s).len())),
{
    let text = segment_text(s);
    let first = decimal(s.start as int);
    let second = decimal(s.stop as int);
    assert forall|i: int| 0 <= i < text.len() implies b[pos + i] == text[i] by {
        assert(b.subrange(pos, pos + text.len())[i] == text[i]);
    }
    assert(text[0] == OPENING);
    let p = pos + 1 + first.len();
    assert(text[1 + first.len() as int] == COMMA);
    assert(b[p] == COMMA);
    assert(b.subrange(pos + 1, p) =~= first) by {
        assert forall|i: int| 0 <= i < first.len() implies b[pos + 1 + i] == first[i] by {
            assert(text[1 + i] == first[i]);
        }
    }
    lemma_int_at(b, pos + 1, s.start);
    let q = p + 1 + second.len();
    assert(text[1 + first.len() as int + 1 + second.len() as int] == CLOSING);
    assert(b[q] == CLOSING);
    assert(b.subrange(p + 1, q) =~= second) by {
        assert forall|i: int| 0 <= i < second.len() implies b[p + 1 + i] == second[i] by {
            assert(text[1 + first.len() + 1 + i] == second[i]);
        }
    }
    lemma_int_at(b, p + 1, s.stop);
}

/// The text of the first `k` segments opens the text of all of them, and a
/// comma follows it unless those are all.
proof fn lemma_text_prefix(items: Seq<Segment>, k: int)
    requires
        1 <= k <= items.len(),
    ensures
        segments_text(items.take(k)).len() <= segments_text(items).len(),
        segments_text(items).subrange(0, segments_text(items.take(k)).len() as int)
            == segments_text(items.take(k)),
        k < items.len() ==> segments_text(items.take(k)).len() < segments_text(items).len()
            && segments_text(items)[segments_text(items.take(k)).len() as int] == COMMA,
    decreases items.len(),
{
    if k == items.len() {
        assert(items.take(k) =~= items);
        assert(segments_text(items).subrange(0, segments_text(items).len() as int)
            =~= segments_text(items));
    } else {
        let before = items.drop_last();
        assert(before.take(k) =~= items.take(k));
        lemma_text_prefix(before, k);
        let head = segments_text(items.take(k));
        assert(segments_text(items) == segments_text(before) + seq![COMMA] + segment_text(
            items.last(),
        ));
        assert(segments_text(items).subrange(0, head.len() as int) =~= segments_text(
            before,
        ).subrange(0, head.len() as int));
        if k == before.len() {
            assert(before.take(k) =~= before);
        }
    }
}

/// The position in the wire form at which the segment `k` is written.
spec fn position_of(items: Seq<Segment>, k: int) -> int {
    if k == 0 {
        1
    } else {
        1 + segments_text(items.take(k)).len() as int + 1
    }
}

proof fn lemma_list_at(items: Seq<Segment>, k: int)
    requires
        0 <= k < items.len(),
    ensures
        list_at(wire_text(items), position_of(items, k), items.take(k)) == Some(items),
    decreases items.len() - k,
{
    let b = wire_text(items);
    let body = segments_text(items);
    let pos = position_of(items, k);
    let s = items[k];
    let text = segment_text(s);
    let upto = segments_text(items.take(k + 1));
    lemma_text_prefix(items, k + 1);
    assert(items.take(k + 1).drop_last() =~= items.take(k));
    assert(items.take(k + 1).last() == s);
    if k == 0 {
        assert(items.take(1).len() == 1);
        assert(upto == text);
    } else {
        assert(upto == segments_text(items.take(k)) + seq![COMMA] + text);
    }
    assert(pos + text.len() == 1 + upto.len());
    assert(b.subrange(pos, pos + text.len()) =~= text) by {
        assert forall|i: int| 0 <= i < text.len() implies b[pos + i] == text[i] by {
            assert(b[pos + i] == body[pos + i - 1]);
            assert(body.subrange(0, upto.len() as int)[pos + i - 1] == upto[pos + i - 1]);
        }
    }
    lemma_segment_at(b, pos, s);
    let p = pos + text.len();
    assert(text.len() >= 1);
    if k + 1 < items.len() {
        assert(b[p] == body[p - 1]);
        assert(is_byte(b, p, COMMA));
        assert(items.take(k).push(s) =~= items.take(k + 1));
        assert(p + 1 == position_of(items, k + 1));
        lemma_list_at(items, k + 1);
    } else {
        assert(items.take(k + 1) =~= items);
        assert(b[p] == CLOSING);
        assert(p + 1 == b.len());
        assert(items.take(k).push(s) =~= items);
    }
}

/// The wire form of a segment set is read back as that set.
pub proof fn lemma_round_trip(items: Seq<Segment>)
    ensures
        parsed(wire_text(items)) == Some(items),
{
    let b = wire_text(items);
    if items.len() == 0 {
        assert(b =~= seq![OPENING, CLOSING]);
    } else {
        lemma_text_prefix(items, 1);
        assert(items.take(1).len() == 1);
        assert(segments_text(items.take(1)) == segment_text(items[0]));
        assert(segment_text(items[0])[0] == OPENING);
        assert(segments_text(items)[0] == segments_text(items).subrange(
            0,
            segments_text(items.take(1)).len() as int,
        )[0]);
        assert(b[1] == OPENING);
        assert(items.take(0) =~= Seq::<Segment>::empty());
        lemma_list_at(items, 0);
    }
}

/// Bytes are read as a segment set exactly if they are its wire form.
pub proof fn lemma_parsed_is_inverse(bytes: Seq<u8>, items: Seq<Segment>)
    ensures
        parsed(bytes) == Some(items) <==> bytes == wire_text(items),
{
    if bytes == wire_text(items) {
        lemma_round_trip(items);
    }
}

/// Two segment sets with the same wire form are the same.
pub proof fn lemma_wire_text_injective(a: Seq<Segment>, b: Seq<Segment>)
    requires
        wire_text(a) == wire_text(b),
    ensures
        a == b,
{
    lemma_round_trip(a);
    lemma_round_trip(b);
}

/// One more than the magnitude of the least integer that a segment can hold.
const MAGNITUDE_CAP: u128 = 9_223_372_036_854_775_809;

spec fn capped(n: nat) -> nat {
    if n > MAGNITUDE_CAP {
        MAGNITUDE_CAP as nat
    } else {
        n
    }
}

fn push_digits(out: &mut Vec<u8>, n: u64)
    ensures
        final(out)@ == old(out)@ + digits(n as nat),
    decreases n,
{
    if n >= 10 {
        push_digits(out, n / 10);
    }
    let d: u8 = (n % 10) as u8;
    out.push(ZERO + d);
    assert(out@ =~= old(out)@ + digits(n as nat));
}

fn push_decimal(out: &mut Vec<u8>, n: i64)
    ensures
        final(out)@ == old(out)@ + decimal(n as int),
{
    if n < 0 {
        out.push(MINUS);
        let magnitude: u64 = ((-(n + 1)) as u64) + 1;
        push_digits(out, magnitude);
        assert(out@ =~= old(out)@ + decimal(n as int));
    } else {
        push_digits(out, n as u64);
    }
}

/// The wire form of a segment set.
pub fn encode(segments: &Segments) -> (bytes: Vec<u8>)
    ensures
        bytes@ == wire_text(segments@),
{
    let mut out: Vec<u8> = Vec::new();
    out.push(OPENING);
    let n: usize = segments.len();
    let mut i: usize = 0;
    while i < n
        invariant
            i <= n,
            n == segments@.len(),
            out@ == seq![OPENING] + segments_text(segments@.take(i as int)),
        decreases n - i,
    {
        let ghost before = out@;
        let ghost done = segments@.take(i as int);
        if i > 0 {
            out.push(COMMA);
        }
        match segments.get(i) {
            Some(s) => {
                out.push(OPENING);
                push_decimal(&mut out, s.start);
                out.push(COMMA);
                push_decimal(&mut out, s.stop);
                out.push(CLOSING);
                proof {
                    let now = segments@.take(i + 1);
                    assert(now.drop_last() =~= done);
                    assert(now.last() == s);
                    if i > 0 {
                        assert(out@ =~= before + seq![COMMA] + segment_text(s));
                        assert(out@ =~= seq![OPENING] + segments_text(now));
                    } else {
                        assert(done =~= Seq::<Segment>::empty());
                        assert(out@ =~= before + segment_text(s));
                        assert(out@ =~= seq![OPENING] + segments_text(now));
                    }
                }
            },
            None => {},
        }
        i += 1;
    }
    assert(segments@.take(i as int) =~= segments@);
    out.push(CLOSING);
    out
}

fn parse_int(bytes: &[u8], pos: usize) -> (res: Option<(i64, usize)>)
    requires
        pos <= bytes@.len(),
    ensures
        res matches Some((value, next)) ==> int_at(bytes@, pos as int) == Some((value, next as int))
            && pos < next <= bytes@.len(),
        res is None ==> int_at(bytes@, pos as int) is None,
{
    let len: usize = bytes.len();
    let negative: bool = pos < len && bytes[pos] == MINUS;
    let start: usize = if negative {
        pos + 1
    } else {
        pos
    };
    let mut i: usize = start;
    let mut acc: u128 = 0;
    assert(bytes@.subrange(start as int, start as int) =~= Seq::<u8>::empty());
    while i < len && ZERO <= bytes[i] && bytes[i] <= ZERO + 9
        invariant
            start <= i <= len,
            len == bytes@.len(),
            digits_end(bytes@, start as int) == digits_end(bytes@, i as int),
            acc == capped(digits_value(bytes@.subrange(start as int, i as int))),
        decreases len - i,
    {
        let d: u128 = (bytes[i] - ZERO) as u128;
        let next: u128 = acc * 10 + d;
        assert(bytes@.subrange(start as int, i + 1).drop_last() =~= bytes@.subrange(
            start as int,
            i as int,
        ));
        acc =
        if next > MAGNITUDE_CAP {
            MAGNITUDE_CAP
        } else {
            next
        };
        i += 1;
    }
    if i == start {
        return None;
    }
    if negative {
        if acc < 9_223_372_036_854_775_808 {
            Some((-(acc as i64), i))
        } else if acc == 9_223_372_036_854_775_808 {
            Some((i64::MIN, i))
        } else {
            None
        }
    } else {
        if acc < 9_223_372_036_854_775_808 {
            Some((acc as i64, i))
        } else {
            None
        }
    }
}

fn parse_segment(bytes: &[u8], pos: usize) -> (res: Option<(Segment, usize)>)
    requires
        pos <= bytes@.len(),
    ensures
        res matches Some((s, next)) ==> segment_at(bytes@, pos as int) == Some((s, next as int))
            && pos < next <= bytes@.len(),
        res is None ==> segment_at(bytes@, pos as int) is None,
{
    let len: usize = bytes.len();
    if !(pos < len && bytes[pos] == OPENING) {
        return None;
    }
    let (start, p) = match parse_int(bytes, pos + 1) {
        Some(found) => found,
        None => {
            return None;
        },
    };
    if !(p < len && bytes[p] == COMMA) {
        return None;
    }
    let (stop, q) = match parse_int(bytes, p + 1) {
        Some(found) => found,
        None => {
            return None;
        },
    };
    if q < len && bytes[q] == CLOSING {
        Some((Segment { start, stop }, q + 1))
    } else {
        None
    }
}

fn scan(bytes: &[u8]) -> (res: Option<Vec<Segment>>)
    ensures
        res matches Some(items) ==> scanned(bytes@) == Some(items@),
        res is None ==> scanned(bytes@) is None,
{
    let len: usize = bytes.len();
    let mut items: Vec<Segment> = Vec::new();
    if !(len > 0 && bytes[0] == OPENING) {
        return None;
    }
    if len > 1 && bytes[1] == CLOSING {
        if len == 2 {
            return Some(items);
        } else {
            return None;
        }
    }
    let mut pos: usize = 1;
    loop
        invariant
            1 <= pos <= len,
            len == bytes@.len(),
            list_at(bytes@, pos as int, items@) == scanned(bytes@),
        decreases len - pos,
    {
        let (s, p) = match parse_segment(bytes, pos) {
            Some(found) => found,
            None => {
                return None;
            },
        };
        if p < len && bytes[p] == COMMA {
            items.push(s);
            pos = p + 1;
        } else if p < len && bytes[p] == CLOSING && p + 1 == len {
            items.push(s);
            return Some(items);
        } else {
            return None;
        }
    }
}

fn same_bytes(a: &[u8], b: &[u8]) -> (same: bool)
    ensures
        same == (a@ == b@),
{
    if a.len() != b.len() {
        return false;
    }
    let mut i: usize = 0;
    while i < a.len()
        invariant
            i <= a.len(),
            a@.len() == b@.len(),
            a@.take(i as int) == b@.take(i as int),
        decreases a.len() - i,
    {
        if a[i] != b[i] {
            return false;
        }
        assert(a@.take(i + 1) =~= a@.take(i as int).push(a@[i as int]));
        assert(b@.take(i + 1) =~= b@.take(i as int).push(b@[i as int]));
        i += 1;
    }
    assert(a@.take(i as int) =~= a@);
    assert(b@.take(i as int) =~= b@);
    true
}

/// Reads a segment set from its wire form.  Succeeds exactly on the bytes
/// that are the wire form of a segment set, and returns that set.
pub fn parse(bytes: &[u8]) -> (res: Result<Segments, WireError>)
    ensures
        res matches Ok(segments) ==> bytes@ == wire_text(segments@) && parsed(bytes@) == Some(
            segments@,
        ),
        res matches Err(e) ==> e == WireError::Malformed && !is_wire_text(bytes@) && parsed(bytes@)
            is None,
{
    proof {
        assert forall|items: Seq<Segment>| bytes@ == #[trigger] wire_text(items) implies parsed(
            bytes@,
        ) == Some(items) by {
            lemma_round_trip(items);
        }
    }
    match scan(bytes) {
        Some(items) => {
            let segments = Segments::from_segments(items);
            let text = encode(&segments);
            if same_bytes(bytes, text.as_slice()) {
                Ok(segments)
            } else {
                Err(WireError::Malformed)
            }
        },
        None => Err(WireError::Malformed),
    }
}

} // verus!
