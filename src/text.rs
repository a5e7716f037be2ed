use vstd::prelude::*;
use vstd::utf8::{decode_utf8, valid_utf8};

verus! {

/// The characters that `String::from_utf8_lossy` makes of `b`.
pub uninterp spec fn lossy_utf8(b: Seq<u8>) -> Seq<char>;

/// Whether every byte of `b` is ASCII.
pub open spec fn all_ascii(b: Seq<u8>) -> bool {
    forall|i: int| 0 <= i < b.len() ==> #[trigger] b[i] < 0x80
}

/// The characters of ASCII bytes, one for one.
pub open spec fn ascii_chars(b: Seq<u8>) -> Seq<char> {
    Seq::new(b.len(), |i: int| b[i] as char)
}

/// Relies on `String::from_utf8_lossy`: valid UTF-8, and so ASCII in
/// particular, comes out as the same characters.
#[verifier::external_body]
pub(crate) fn text_from_bytes(b: &[u8]) -> (r: String)
    ensures
        r@ == lossy_utf8(b@),
        valid_utf8(b@) ==> r@ == decode_utf8(b@),
        all_ascii(b@) ==> r@ == ascii_chars(b@),
{
    String::from_utf8_lossy(b).into_owned()
}

/// White space as Unicode's White_Space property defines it, which is what
/// `char::is_whitespace` and `str::trim` go by.
pub open spec fn is_white_space(c: char) -> bool {
    let v = c as u32;
    ||| 0x09 <= v <= 0x0d
    ||| v == 0x20
    ||| v == 0x85
    ||| v == 0xa0
    ||| v == 0x1680
    ||| 0x2000 <= v <= 0x200a
    ||| v == 0x2028
    ||| v == 0x2029
    ||| v == 0x202f
    ||| v == 0x205f
    ||| v == 0x3000
}

/// `s` without its leading white space.
pub open spec fn trim_start(s: Seq<char>) -> Seq<char>
    decreases s.len(),
{
    if s.len() > 0 && is_white_space(s[0]) {
        trim_start(s.drop_first())
    } else {
        s
    }
}

/// `s` without its trailing white space.
pub open spec fn trim_end(s: Seq<char>) -> Seq<char>
    decreases s.len(),
{
    if s.len() > 0 && is_white_space(s.last()) {
        trim_end(s.drop_last())
    } else {
        s
    }
}

/// `s` without white space at either end.
pub open spec fn trim_text(s: Seq<char>) -> Seq<char> {
    trim_end(trim_start(s))
}

/// `s` without its trailing NUL characters.
pub open spec fn trim_nul_end(s: Seq<char>) -> Seq<char>
    decreases s.len(),
{
    if s.len() > 0 && s.last() == '\0' {
        trim_nul_end(s.drop_last())
    } else {
        s
    }
}

/// Relies on `str::trim`: removes leading and trailing White_Space characters.
#[verifier::external_body]
pub(crate) fn trimmed(s: &str) -> (r: String)
    ensures
        r@ == trim_text(s@),
{
    s.trim().to_string()
}

/// Relies on `str::trim_end_matches` with the NUL character: removes every
/// trailing NUL.
#[verifier::external_body]
pub(crate) fn without_trailing_nul(s: &str) -> (r: String)
    ensures
        r@ == trim_nul_end(s@),
{
    s.trim_end_matches('\0').to_string()
}

/// The part `[lo, hi)` of `b`.
pub(crate) fn copy_range(b: &[u8], lo: usize, hi: usize) -> (r: Vec<u8>)
    requires
        lo <= hi <= b@.len(),
    ensures
        r@ == b@.subrange(lo as int, hi as int),
{
    let mut r: Vec<u8> = Vec::new();
    let mut i: usize = lo;
    while i < hi
        invariant
            lo <= i <= hi <= b@.len(),
            r@ == b@.subrange(lo as int, i as int),
        decreases hi - i,
    {
        r.push(b[i]);
        i = i + 1;
        assert(r@ =~= b@.subrange(lo as int, i as int));
    }
    r
}

/// The text of `b`, without white space at either end.
pub fn trimmed_text(b: &[u8]) -> (r: String)
    ensures
        r@ == trim_text(lossy_utf8(b@)),
        all_ascii(b@) ==> r@ == trim_text(ascii_chars(b@)),
{
    let t = text_from_bytes(b);
    trimmed(t.as_str())
}

} // verus!

verus! {

/// The decimal digits of `v`, most significant first.
pub open spec fn decimal(v: nat) -> Seq<u8>
    decreases v,
{
    if v < 10 {
        seq![(48 + v) as u8]
    } else {
        decimal(v / 10).push((48 + v % 10) as u8)
    }
}

proof fn lemma_decimal_ascii(v: nat)
    ensures
        all_ascii(decimal(v)),
    decreases v,
{
    if v >= 10 {
        lemma_decimal_ascii(v / 10);
    }
}

fn push_decimal(v: u64, out: &mut Vec<u8>)
    ensures
        final(out)@ == old(out)@ + decimal(v as nat),
    decreases v,
{
    if v >= 10 {
        push_decimal(v / 10, out);
    }
    out.push((48 + v % 10) as u8);
    assert(final(out)@ =~= old(out)@ + decimal(v as nat));
}

/// The decimal representation of `v`.
pub fn decimal_string(v: u64) -> (r: String)
    ensures
        r@ == ascii_chars(decimal(v as nat)),
{
    let mut b: Vec<u8> = Vec::new();
    push_decimal(v, &mut b);
    assert(b@ =~= decimal(v as nat));
    proof {
        lemma_decimal_ascii(v as nat);
    }
    text_from_bytes(b.as_slice())
}

} // verus!
