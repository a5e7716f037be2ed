use vstd::prelude::*;

use crate::text::copy_range;

verus! {

/// The newline byte.
pub const NEWLINE: u8 = 10;

/// The separator between a label and its value.
pub const COLON: u8 = 58;

/// The first index at or after `i` where `t` holds `b`, or the length of `t`.
pub open spec fn find_from(t: Seq<u8>, i: int, b: u8) -> int
    decreases t.len() - i,
{
    if i >= t.len() {
        t.len() as int
    } else if t[i] == b {
        i
    } else {
        find_from(t, i + 1, b)
    }
}

/// Whether `line` begins with `label`.
pub open spec fn starts_with(line: Seq<u8>, label: Seq<u8>) -> bool {
    label.len() <= line.len() && line.subrange(0, label.len() as int) == label
}

/// The value of a line: the bytes between its first colon and the next one,
/// or the end of the line; none where the line has no colon.
pub open spec fn colon_field(line: Seq<u8>) -> Option<Seq<u8>> {
    let c = find_from(line, 0, COLON);
    if c >= line.len() {
        None
    } else {
        Some(line.subrange(c + 1, find_from(line, c + 1, COLON)))
    }
}

/// The value of the last line of `t`, from the line starting at `i` on, that
/// begins with `label` and has a value; `acc` where there is none. A value is
/// given with the start of its line.
pub open spec fn last_field_from(
    t: Seq<u8>,
    i: int,
    label: Seq<u8>,
    acc: Option<(int, Seq<u8>)>,
) -> Option<(int, Seq<u8>)>
    decreases t.len() - i
    via last_field_from_decreases
{
    if i < 0 || i >= t.len() {
        acc
    } else {
        let e = find_from(t, i, NEWLINE);
        let line = t.subrange(i, e);
        let next = if starts_with(line, label) && colon_field(line) is Some {
            Some((i, colon_field(line)->0))
        } else {
            acc
        };
        if e < t.len() {
            last_field_from(t, e + 1, label, next)
        } else {
            next
        }
    }
}

#[via_fn]
proof fn last_field_from_decreases(
    t: Seq<u8>,
    i: int,
    label: Seq<u8>,
    acc: Option<(int, Seq<u8>)>,
) {
    if 0 <= i < t.len() {
        lemma_find_from_bounds(t, i, NEWLINE);
    }
}

/// The value of the last line of `t` that begins with `label` and has one.
pub open spec fn last_field(t: Seq<u8>, label: Seq<u8>) -> Option<(int, Seq<u8>)> {
    last_field_from(t, 0, label, None)
}

proof fn lemma_find_from_bounds(t: Seq<u8>, i: int, b: u8)
    requires
        0 <= i,
    ensures
        i <= find_from(t, i, b) || (i > t.len() && find_from(t, i, b) == t.len()),
        find_from(t, i, b) <= t.len(),
        find_from(t, i, b) < t.len() ==> t[find_from(t, i, b)] == b,
    decreases t.len() - i,
{
    if i < t.len() && t[i] != b {
        lemma_find_from_bounds(t, i + 1, b);
    }
}

/// The first index at or after `i`, below `hi`, where `t` holds `b`; `hi`
/// where there is none.
fn find_byte(t: &[u8], i: usize, hi: usize, b: u8) -> (r: usize)
    requires
        i <= hi <= t@.len(),
    ensures
        r == find_from(t@.subrange(0, hi as int), i as int, b),
{
    let ghost s = t@.subrange(0, hi as int);
    let mut j: usize = i;
    while j < hi && t[j] != b
        invariant
            i <= j <= hi <= t@.len(),
            s == t@.subrange(0, hi as int),
            find_from(s, i as int, b) == find_from(s, j as int, b),
        decreases hi - j,
    {
        j = j + 1;
    }
    j
}

/// Whether the part `[lo, hi)` of `t` begins with `label`.
fn has_prefix(t: &[u8], lo: usize, hi: usize, label: &[u8]) -> (r: bool)
    requires
        lo <= hi <= t@.len(),
    ensures
        r == starts_with(t@.subrange(lo as int, hi as int), label@),
{
    if label.len() > hi - lo {
        return false;
    }
    let mut k: usize = 0;
    while k < label.len()
        invariant
            label@.len() <= hi - lo,
            lo <= hi <= t@.len(),
            k <= label@.len(),
            forall|m: int| 0 <= m < k ==> t@[lo + m] == label@[m],
        decreases label@.len() - k,
    {
        if t[lo + k] != label[k] {
            assert(t@.subrange(lo as int, hi as int).subrange(0, label@.len() as int)[k as int]
                != label@[k as int]);
            return false;
        }
        k = k + 1;
    }
    assert(t@.subrange(lo as int, hi as int).subrange(0, label@.len() as int) =~= label@);
    true
}

/// The value of the line `[lo, hi)` of `t`.
fn line_field(t: &[u8], lo: usize, hi: usize) -> (r: Option<Vec<u8>>)
    requires
        lo <= hi <= t@.len(),
    ensures
        r is Some == colon_field(t@.subrange(lo as int, hi as int)) is Some,
        r is Some ==> r->0@ == colon_field(t@.subrange(lo as int, hi as int))->0,
{
    let ghost line = t@.subrange(lo as int, hi as int);
    let c = find_byte(t, lo, hi, COLON);
    proof {
        lemma_find_shift(t@, lo as int, hi as int, 0, COLON);
        lemma_find_from_bounds(t@.subrange(0, hi as int), lo as int, COLON);
    }
    if c >= hi {
        return None;
    }
    let d = find_byte(t, c + 1, hi, COLON);
    proof {
        lemma_find_shift(t@, lo as int, hi as int, c - lo + 1, COLON);
        lemma_find_from_bounds(t@.subrange(0, hi as int), c + 1, COLON);
        assert(line.subrange(c - lo + 1, d - lo) =~= t@.subrange(c + 1, d as int));
    }
    Some(copy_range(t, c + 1, d))
}

/// Searching a line from position `k` is searching the whole text, cut at the
/// line's end, from the line's start plus `k`.
proof fn lemma_find_shift(t: Seq<u8>, lo: int, hi: int, k: int, b: u8)
    requires
        0 <= lo <= hi <= t.len(),
        0 <= k <= hi - lo,
    ensures
        find_from(t.subrange(lo, hi), k, b) + lo == find_from(t.subrange(0, hi), lo + k, b),
    decreases hi - lo - k,
{
    if k < hi - lo {
        lemma_find_shift(t, lo, hi, k + 1, b);
    }
}

/// The line start of a found value; -1 where none was found.
pub open spec fn pos_of(o: Option<(int, Seq<u8>)>) -> int {
    match o {
        Some((p, _)) => p,
        None => -1,
    }
}

/// A found value; empty where none was found.
pub open spec fn value_of(o: Option<(int, Seq<u8>)>) -> Seq<u8> {
    match o {
        Some((_, v)) => v,
        None => Seq::empty(),
    }
}

/// The model of a value found by `last_field_value`.
pub open spec fn found(r: Option<(usize, Vec<u8>)>) -> Option<(int, Seq<u8>)> {
    match r {
        Some((p, v)) => Some((p as int, v@)),
        None => None,
    }
}

/// The value of the last line of `text` that begins with `label` and has one,
/// with the start of that line.
pub fn last_field_value(text: &[u8], label: &[u8]) -> (r: Option<(usize, Vec<u8>)>)
    ensures
        found(r) == last_field(text@, label@),
{
    let mut acc: Option<(usize, Vec<u8>)> = None;
    let mut i: usize = 0;
    let n = text.len();
    assert(text@.subrange(0, n as int) =~= text@);
    while i < n
        invariant
            n == text@.len(),
            text@.subrange(0, n as int) == text@,
            i <= n,
            last_field(text@, label@) == last_field_from(text@, i as int, label@, found(acc)),
        decreases n - i,
    {
        let e = find_byte(text, i, n, NEWLINE);
        proof {
            lemma_find_from_bounds(text@, i as int, NEWLINE);
        }
        if has_prefix(text, i, e, label) {
            match line_field(text, i, e) {
                Some(v) => {
                    acc = Some((i, v));
                },
                None => {},
            }
        }
        if e >= n {
            i = n;
        } else {
            i = e + 1;
        }
    }
    acc
}

} // verus!
