//! Small verified text utilities shared by the rendering code: decimal
//! conversion of integers, character repetition and padding, substring
//! search, and lowercase folding.

use vstd::prelude::*;

verus! {

/// The decimal digit character for `d` (`0` maps to `'0'`, ..., `9` to `'9'`).
pub open spec fn spec_digit_char(d: int) -> char
    recommends
        0 <= d < 10,
{
    ((48 + d) as u8) as char
}

/// The decimal representation of `n`, most significant digit first,
/// without a sign and without leading zeros (except for `n == 0` itself).
pub open spec fn spec_decimal(n: int) -> Seq<char>
    recommends
        n >= 0,
    decreases n,
{
    if n < 10 {
        seq![spec_digit_char(n)]
    } else {
        spec_decimal(n / 10) + seq![spec_digit_char(n % 10)]
    }
}

/// Relies on `String::push`: appends exactly one character to the string.
#[verifier::external_body]
pub fn push_char(s: &mut String, c: char)
    ensures
        final(s)@ == old(s)@ + seq![c],
{
    s.push(c)
}

/// Relies on `String::pop`: removes the last character, if there is one.
#[verifier::external_body]
pub fn pop_char(s: &mut String)
    ensures
        old(s)@.len() > 0 ==> final(s)@ == old(s)@.drop_last(),
        old(s)@.len() == 0 ==> final(s)@ == old(s)@,
{
    let _ = s.pop();
}

fn digit_char(d: u8) -> (c: char)
    requires
        d < 10,
    ensures
        c == spec_digit_char(d as int),
{
    (48 + d) as char
}

/// Appends the decimal representation of `n` to `s`.
pub fn append_decimal_u64(s: &mut String, n: u64)
    ensures
        final(s)@ == old(s)@ + spec_decimal(n as int),
    decreases n,
{
    if n < 10 {
        push_char(s, digit_char(n as u8));
    } else {
        append_decimal_u64(s, n / 10);
        push_char(s, digit_char((n % 10) as u8));
        assert(final(s)@ == old(s)@ + spec_decimal(n as int / 10) + seq![
            spec_digit_char(n as int % 10),
        ]);
    }
}

/// The decimal representation of `n` as a fresh string.
pub fn u64_to_string(n: u64) -> (r: String)
    ensures
        r@ == spec_decimal(n as int),
{
    let mut s = String::new();
    append_decimal_u64(&mut s, n);
    assert(s@ =~= spec_decimal(n as int));
    s
}

/// `n` copies of the character `c`.
pub open spec fn spec_repeat(c: char, n: int) -> Seq<char> {
    Seq::new(n as nat, |i: int| c)
}

/// Appends `n` copies of `c` to `s`.
#[verifier::loop_isolation(false)]
pub fn append_repeat(s: &mut String, c: char, n: usize)
    ensures
        final(s)@ == old(s)@ + spec_repeat(c, n as int),
{
    let mut i: usize = 0;
    while i < n
        invariant
            i <= n,
            s@ == old(s)@ + spec_repeat(c, i as int),
        decreases n - i,
    {
        push_char(s, c);
        assert(old(s)@ + spec_repeat(c, i + 1 as int) =~= (old(s)@ + spec_repeat(c, i as int))
            + seq![c]);
        i = i + 1;
    }
}

/// `s` padded on the left with spaces to `width` characters;
/// a string already at least that long is unchanged.
pub open spec fn spec_pad_left(s: Seq<char>, width: int) -> Seq<char> {
    if s.len() >= width {
        s
    } else {
        spec_repeat(' ', width - s.len()) + s
    }
}

/// Appends `s`, left-padded with spaces to `width` characters, to `out`.
pub fn append_pad_left(out: &mut String, s: &str, width: usize)
    ensures
        final(out)@ == old(out)@ + spec_pad_left(s@, width as int),
{
    let n = s.unicode_len();
    if n < width {
        append_repeat(out, ' ', width - n);
    }
    out.append(s);
}

/// `needle` occurs in `hay` starting at position `i`.
pub open spec fn spec_contains_at(hay: Seq<char>, needle: Seq<char>, i: int) -> bool {
    0 <= i && i + needle.len() <= hay.len() && hay.subrange(i, i + needle.len() as int) == needle
}

/// `needle` occurs somewhere in `hay` (always true for an empty `needle`).
pub open spec fn spec_contains(hay: Seq<char>, needle: Seq<char>) -> bool {
    exists|i: int| spec_contains_at(hay, needle, i)
}

/// Whether `needle` occurs at position `i` of `hay`.
#[verifier::loop_isolation(false)]
fn matches_at(hay: &str, needle: &str, i: usize) -> (r: bool)
    requires
        i + needle@.len() <= hay@.len(),
        hay@.len() <= usize::MAX,
    ensures
        r == spec_contains_at(hay@, needle@, i as int),
{
    let nn = needle.unicode_len();
    let mut k: usize = 0;
    while k < nn
        invariant
            k <= nn,
            nn == needle@.len(),
            forall|m: int| 0 <= m < k ==> hay@[i + m] == needle@[m],
        decreases nn - k,
    {
        if hay.get_char(i + k) != needle.get_char(k) {
            assert(hay@.subrange(i as int, i + nn as int)[k as int] != needle@[k as int]);
            return false;
        }
        k = k + 1;
    }
    assert(hay@.subrange(i as int, i + nn as int) =~= needle@);
    true
}

/// Substring search: whether `needle` occurs anywhere in `hay`.
#[verifier::loop_isolation(false)]
pub fn contains_sub(hay: &str, needle: &str) -> (r: bool)
    ensures
        r == spec_contains(hay@, needle@),
{
    let hn = hay.unicode_len();
    let nn = needle.unicode_len();
    if nn > hn {
        assert(forall|i: int| !spec_contains_at(hay@, needle@, i));
        return false;
    }
    if nn == 0 {
        assert(hay@.subrange(0, 0) =~= needle@);
        assert(spec_contains_at(hay@, needle@, 0));
        return true;
    }
    let mut i: usize = 0;
    while i <= hn - nn
        invariant
            i <= hn - nn + 1,
            forall|j: int| 0 <= j < i ==> !spec_contains_at(hay@, needle@, j),
        decreases hn - nn + 1 - i,
    {
        if matches_at(hay, needle, i) {
            return true;
        }
        i = i + 1;
    }
    assert(forall|j: int| j >= i ==> !spec_contains_at(hay@, needle@, j));
    false
}

/// What `str::to_lowercase` returns for a given sequence of characters;
/// the result depends on the characters alone.
pub uninterp spec fn lower_of(s: Seq<char>) -> Seq<char>;

/// Relies on `str::to_lowercase`: Unicode lowercase folding of the string;
/// an empty string stays empty.
#[verifier::external_body]
pub fn lowercase(s: &str) -> (r: String)
    ensures
        r@ == lower_of(s@),
        s@.len() == 0 ==> r@.len() == 0,
{
    s.to_lowercase()
}

/// Case-insensitive substring test: whether the lowercase folding of
/// `needle` occurs in the lowercase folding of `hay`.
pub fn contains_case_insensitive(hay: &str, needle: &str) -> (r: bool)
    ensures
        r == spec_contains(lower_of(hay@), lower_of(needle@)),
{
    let h = lowercase(hay);
    let n = lowercase(needle);
    contains_sub(h.as_str(), n.as_str())
}

} // verus!
