//! Searching and cutting text.

use vstd::prelude::*;

verus! {

/// Whether `pattern` stands in `text` at position `i`.
pub open spec fn occurs_at(text: Seq<char>, pattern: Seq<char>, i: int) -> bool {
    0 <= i && i + pattern.len() <= text.len() && text.subrange(i, i + pattern.len()) == pattern
}

/// The first position at or after `from` at which `pattern` stands in `text`.
pub open spec fn first_occurrence(text: Seq<char>, pattern: Seq<char>, from: int) -> Option<int>
    decreases text.len() + 1 - from,
{
    if from < 0 || from + pattern.len() > text.len() {
        None
    } else if occurs_at(text, pattern, from) {
        Some(from)
    } else {
        first_occurrence(text, pattern, from + 1)
    }
}

/// The position behind the last of the occurrences of `pattern` that a scan
/// of `text` from `from` meets, each scan going on behind the occurrence it
/// met; `from` itself if it meets none.
pub open spec fn behind_last(text: Seq<char>, pattern: Seq<char>, from: int) -> int
    decreases text.len() - from,
{
    match first_occurrence(text, pattern, from) {
        Some(i) => if pattern.len() > 0 && from <= i && i + pattern.len() <= text.len() {
            behind_last(text, pattern, i + pattern.len())
        } else {
            from
        },
        None => from,
    }
}

/// What is left of `text` behind the last occurrence of `pattern`; all of it
/// if there is none.
pub open spec fn after_last(text: Seq<char>, pattern: Seq<char>) -> Seq<char> {
    text.skip(behind_last(text, pattern, 0))
}

/// What stands in `text` before the first occurrence of `pattern`; all of it
/// if there is none.
pub open spec fn before_first(text: Seq<char>, pattern: Seq<char>) -> Seq<char> {
    match first_occurrence(text, pattern, 0) {
        Some(i) => text.take(i),
        None => text,
    }
}

/// What is left of `text` from `from` on once every occurrence of `pattern`
/// that a scan meets is taken out.
pub open spec fn without_from(text: Seq<char>, pattern: Seq<char>, from: int) -> Seq<char>
    decreases text.len() - from,
{
    match first_occurrence(text, pattern, from) {
        Some(i) => if pattern.len() > 0 && 0 <= from <= i && i + pattern.len() <= text.len() {
            text.subrange(from, i) + without_from(text, pattern, i + pattern.len())
        } else {
            text.skip(from)
        },
        None => text.skip(from),
    }
}

/// `text` with every occurrence of `pattern` taken out.
pub open spec fn without(text: Seq<char>, pattern: Seq<char>) -> Seq<char> {
    without_from(text, pattern, 0)
}

/// The first occurrence is an occurrence, it lies at or after `from`, and no
/// occurrence lies between `from` and it; where there is none, `pattern` does
/// not stand in `text` at or after `from`.
pub proof fn lemma_first_occurrence(text: Seq<char>, pattern: Seq<char>, from: int)
    requires
        0 <= from,
    ensures
        first_occurrence(text, pattern, from) matches Some(i) ==> from <= i && occurs_at(
            text,
            pattern,
            i,
        ),
        forall|j: int|
            from <= j && (first_occurrence(text, pattern, from) matches Some(i) ==> j < i)
                ==> !occurs_at(text, pattern, j),
    decreases text.len() + 1 - from,
{
    if from + pattern.len() > text.len() {
    } else if occurs_at(text, pattern, from) {
    } else {
        lemma_first_occurrence(text, pattern, from + 1);
    }
}

/// The position of the first occurrence of `pattern` in `text` at or after
/// `from`, counted in characters.
pub fn find(text: &str, pattern: &str, from: usize) -> (res: Option<usize>)
    ensures
        res matches Some(i) ==> first_occurrence(text@, pattern@, from as int) == Some(i as int)
            && from <= i && i + pattern@.len() <= text@.len() && occurs_at(
            text@,
            pattern@,
            i as int,
        ),
        res is None ==> first_occurrence(text@, pattern@, from as int) is None,
        forall|j: int|
            from <= j && (res matches Some(i) ==> j < i) ==> !occurs_at(text@, pattern@, j),
{
    let n: usize = text.unicode_len();
    let m: usize = pattern.unicode_len();
    let mut i: usize = from;
    while i <= n && n - i >= m
        invariant
            from <= i,
            n == text@.len(),
            m == pattern@.len(),
            first_occurrence(text@, pattern@, from as int) == first_occurrence(
                text@,
                pattern@,
                i as int,
            ),
        decreases n + 1 - i,
    {
        let mut j: usize = 0;
        let mut same: bool = true;
        while j < m && same
            invariant
                j <= m,
                i + m <= n,
                n == text@.len(),
                m == pattern@.len(),
                same ==> text@.subrange(i as int, i + j) == pattern@.take(j as int),
                !same ==> m > 0 && !occurs_at(text@, pattern@, i as int),
            decreases m - j + if same { 1int } else { 0int },
        {
            if text.get_char(i + j) == pattern.get_char(j) {
                assert(text@.subrange(i as int, i + j + 1) =~= text@.subrange(
                    i as int,
                    i + j,
                ).push(text@[i + j]));
                j += 1;
            } else {
                same = false;
            }
        }
        if same {
            assert(pattern@.take(m as int) =~= pattern@);
            proof {
                lemma_first_occurrence(text@, pattern@, from as int);
            }
            return Some(i);
        }
        i += 1;
    }
    proof {
        lemma_first_occurrence(text@, pattern@, from as int);
    }
    None
}

/// What is left of `text` behind the last occurrence of `pattern`.
pub fn text_after_last(text: &str, pattern: &str) -> (res: String)
    ensures
        res@ == after_last(text@, pattern@),
{
    let n: usize = text.unicode_len();
    let m: usize = pattern.unicode_len();
    let mut from: usize = 0;
    if m > 0 {
        let mut next: Option<usize> = find(text, pattern, from);
        while next.is_some()
            invariant
                m > 0,
                m == pattern@.len(),
                n == text@.len(),
                from <= n,
                behind_last(text@, pattern@, 0) == behind_last(text@, pattern@, from as int),
                next matches Some(i) ==> first_occurrence(text@, pattern@, from as int) == Some(
                    i as int,
                ) && from <= i && i + m <= n,
                next is None ==> first_occurrence(text@, pattern@, from as int) is None,
            decreases n - from,
        {
            match next {
                Some(i) => {
                    from = i + m;
                },
                None => {},
            }
            next = find(text, pattern, from);
        }
    }
    text.substring_char(from, n).to_owned()
}

/// What stands in `text` before the first occurrence of `pattern`.
pub fn text_before_first(text: &str, pattern: &str) -> (res: String)
    ensures
        res@ == before_first(text@, pattern@),
{
    match find(text, pattern, 0) {
        Some(i) => text.substring_char(0, i).to_owned(),
        None => text.to_owned(),
    }
}

/// `text` with every occurrence of `pattern` taken out.
pub fn text_without(text: &str, pattern: &str) -> (res: String)
    ensures
        res@ == without(text@, pattern@),
{
    let n: usize = text.unicode_len();
    let m: usize = pattern.unicode_len();
    let mut out = String::new();
    let mut from: usize = 0;
    if m > 0 {
        let mut next: Option<usize> = find(text, pattern, from);
        while next.is_some()
            invariant
                m > 0,
                m == pattern@.len(),
                n == text@.len(),
                from <= n,
                without(text@, pattern@) == out@ + without_from(text@, pattern@, from as int),
                next matches Some(i) ==> first_occurrence(text@, pattern@, from as int) == Some(
                    i as int,
                ) && from <= i && i + m <= n,
                next is None ==> first_occurrence(text@, pattern@, from as int) is None,
            decreases n - from,
        {
            match next {
                Some(i) => {
                    let ghost before = out@;
                    out.append(text.substring_char(from, i));
                    assert(before + (text@.subrange(from as int, i as int) + without_from(
                        text@,
                        pattern@,
                        i + m,
                    )) =~= out@ + without_from(text@, pattern@, i + m));
                    from = i + m;
                },
                None => {},
            }
            next = find(text, pattern, from);
        }
    }
    out.append(text.substring_char(from, n));
    out
}

/// The decimal digit for `d`, which is below ten.
pub open spec fn digit_text(d: nat) -> Seq<char> {
    if d == 0 {
        "0"@
    } else if d == 1 {
        "1"@
    } else if d == 2 {
        "2"@
    } else if d == 3 {
        "3"@
    } else if d == 4 {
        "4"@
    } else if d == 5 {
        "5"@
    } else if d == 6 {
        "6"@
    } else if d == 7 {
        "7"@
    } else if d == 8 {
        "8"@
    } else {
        "9"@
    }
}

/// The decimal form of `n`.
pub open spec fn number_text(n: nat) -> Seq<char>
    decreases n,
{
    if n < 10 {
        digit_text(n)
    } else {
        number_text(n / 10) + digit_text(n % 10)
    }
}

/// Appends the decimal form of `n` to `out`.
pub fn append_number(out: &mut String, n: u64)
    ensures
        final(out)@ == old(out)@ + number_text(n as nat),
    decreases n,
{
    if n >= 10 {
        append_number(out, n / 10);
    }
    let d: u64 = n % 10;
    let digit: &'static str = if d == 0 {
        "0"
    } else if d == 1 {
        "1"
    } else if d == 2 {
        "2"
    } else if d == 3 {
        "3"
    } else if d == 4 {
        "4"
    } else if d == 5 {
        "5"
    } else if d == 6 {
        "6"
    } else if d == 7 {
        "7"
    } else if d == 8 {
        "8"
    } else {
        "9"
    };
    out.append(digit);
}

} // verus!
