//! Character-level helpers shared by the rest of the library.
//!
//! Every contract in this crate speaks of text as a `Seq<char>`; the
//! functions here move between `&str`, `String` and `Vec<char>` and provide
//! the few string operations the protocol needs.

use vstd::prelude::*;

verus! {

/// White space as `char::is_whitespace` defines it: the code points with the
/// Unicode property `White_Space`.
pub open spec fn is_whitespace(c: char) -> bool {
    let n = c as u32;
    ||| (0x09 <= n && n <= 0x0D)
    ||| n == 0x20
    ||| n == 0x85
    ||| n == 0xA0
    ||| n == 0x1680
    ||| (0x2000 <= n && n <= 0x200A)
    ||| n == 0x2028
    ||| n == 0x2029
    ||| n == 0x202F
    ||| n == 0x205F
    ||| n == 0x3000
}

/// A line terminator: line feed or carriage return.
pub open spec fn is_line_end(c: char) -> bool {
    c == '\n' || c == '\r'
}

/// `s` without its trailing white space.
pub open spec fn trim_end(s: Seq<char>) -> Seq<char>
    decreases s.len(),
{
    if s.len() > 0 && is_whitespace(s.last()) {
        trim_end(s.drop_last())
    } else {
        s
    }
}

/// `s` without its leading white space.
pub open spec fn trim_start(s: Seq<char>) -> Seq<char>
    decreases s.len(),
{
    if s.len() > 0 && is_whitespace(s.first()) {
        trim_start(s.drop_first())
    } else {
        s
    }
}

/// `s` without white space at either end.
pub open spec fn trim(s: Seq<char>) -> Seq<char> {
    trim_start(trim_end(s))
}

/// `s` without its trailing line feeds and carriage returns.
pub open spec fn strip_line_end(s: Seq<char>) -> Seq<char>
    decreases s.len(),
{
    if s.len() > 0 && is_line_end(s.last()) {
        strip_line_end(s.drop_last())
    } else {
        s
    }
}

/// `s` begins with `prefix`, character for character.
pub open spec fn starts_with(s: Seq<char>, prefix: Seq<char>) -> bool {
    prefix.len() <= s.len() && s.take(prefix.len() as int) == prefix
}

/// `c` equals `lower` once ASCII upper-case letters are folded to lower case.
/// `lower` is meant to be no upper-case letter.
pub open spec fn folds_to(c: char, lower: char) -> bool {
    c == lower || ('A' <= c && c <= 'Z' && c as u32 + 32 == lower as u32)
}

/// `s` begins with `lower` when ASCII case is ignored. `lower` is written in
/// lower case.
pub open spec fn starts_with_folded(s: Seq<char>, lower: Seq<char>) -> bool {
    lower.len() <= s.len() && forall|i: int| 0 <= i < lower.len() ==> folds_to(s[i], lower[i])
}

/// `s` equals `lower` when ASCII case is ignored. `lower` is written in lower
/// case.
pub open spec fn equals_folded(s: Seq<char>, lower: Seq<char>) -> bool {
    s.len() == lower.len() && starts_with_folded(s, lower)
}

/// Appends one character to a string by `String::push`: the string's
/// characters afterwards are those before, followed by `c`.
#[verifier::external_body]
fn push_char(s: &mut String, c: char)
    ensures
        final(s)@ == old(s)@.push(c),
{
    s.push(c);
}

/// The characters of `s`, in order.
pub fn chars_of(s: &str) -> (v: Vec<char>)
    ensures
        v@ == s@,
{
    let mut v: Vec<char> = Vec::new();
    for c in it: s.chars()
        invariant
            v@ == it.seq().take(it.index()),
            it.seq() == s@,
    {
        v.push(c);
    }
    v
}

/// The string made of the characters of `v`, in order.
pub fn string_of(v: &Vec<char>) -> (s: String)
    ensures
        s@ == v@,
{
    let mut s = String::new();
    let mut i: usize = 0;
    while i < v.len()
        invariant
            i <= v.len(),
            s@ == v@.take(i as int),
        decreases v.len() - i,
    {
        push_char(&mut s, v[i]);
        i += 1;
    }
    s
}

/// Appends the characters of `tail` to `out`.
pub fn extend_chars(out: &mut Vec<char>, tail: &Vec<char>)
    ensures
        final(out)@ == old(out)@ + tail@,
{
    let mut i: usize = 0;
    while i < tail.len()
        invariant
            i <= tail.len(),
            out@ == old(out)@ + tail@.take(i as int),
        decreases tail.len() - i,
    {
        out.push(tail[i]);
        i += 1;
    }
}

/// Appends the characters of `tail` to `out`.
pub fn extend_str(out: &mut Vec<char>, tail: &str)
    ensures
        final(out)@ == old(out)@ + tail@,
{
    let t = chars_of(tail);
    extend_chars(out, &t);
}

/// Tells whether `c` is white space.
pub fn char_is_whitespace(c: char) -> (r: bool)
    ensures
        r == is_whitespace(c),
{
    let n: u32 = c as u32;
    (0x09 <= n && n <= 0x0D) || n == 0x20 || n == 0x85 || n == 0xA0 || n == 0x1680 || (0x2000 <= n
        && n <= 0x200A) || n == 0x2028 || n == 0x2029 || n == 0x202F || n == 0x205F || n == 0x3000
}

/// The part of `v` from `from` up to, not including, `to`.
pub(crate) fn slice_chars(v: &Vec<char>, from: usize, to: usize) -> (r: Vec<char>)
    requires
        from <= to <= v.len(),
    ensures
        r@ == v@.subrange(from as int, to as int),
{
    let mut r: Vec<char> = Vec::new();
    let mut i: usize = from;
    while i < to
        invariant
            from <= i <= to <= v.len(),
            r@ == v@.subrange(from as int, i as int),
        decreases to - i,
    {
        r.push(v[i]);
        i += 1;
    }
    r
}

/// How many characters of `v` are left once trailing white space is dropped.
pub fn trim_end_len(v: &Vec<char>) -> (n: usize)
    ensures
        n <= v.len(),
        v@.take(n as int) == trim_end(v@),
{
    let mut n: usize = v.len();
    assert(v@.take(n as int) == v@);
    while n > 0 && char_is_whitespace(v[n - 1])
        invariant
            n <= v.len(),
            trim_end(v@.take(n as int)) == trim_end(v@),
        decreases n,
    {
        assert(v@.take(n as int).drop_last() == v@.take(n - 1));
        n -= 1;
    }
    n
}

/// How many characters of `v` are left once trailing line terminators are
/// dropped.
pub fn strip_line_end_len(v: &Vec<char>) -> (n: usize)
    ensures
        n <= v.len(),
        v@.take(n as int) == strip_line_end(v@),
{
    let mut n: usize = v.len();
    assert(v@.take(n as int) == v@);
    while n > 0 && (v[n - 1] == '\n' || v[n - 1] == '\r')
        invariant
            n <= v.len(),
            strip_line_end(v@.take(n as int)) == strip_line_end(v@),
        decreases n,
    {
        assert(v@.take(n as int).drop_last() == v@.take(n - 1));
        n -= 1;
    }
    n
}

/// `v` without white space at either end.
pub fn trim_chars(v: &Vec<char>) -> (r: Vec<char>)
    ensures
        r@ == trim(v@),
{
    let end = trim_end_len(v);
    let mut start: usize = 0;
    assert(v@.subrange(0, end as int) == v@.take(end as int));
    while start < end && char_is_whitespace(v[start])
        invariant
            start <= end <= v.len(),
            trim_start(v@.subrange(start as int, end as int)) == trim(v@),
        decreases end - start,
    {
        assert(v@.subrange(start as int, end as int).drop_first() == v@.subrange(
            start + 1,
            end as int,
        ));
        start += 1;
    }
    slice_chars(v, start, end)
}

/// Tells whether `v` begins with `prefix`.
pub fn has_prefix(v: &Vec<char>, prefix: &str) -> (r: bool)
    ensures
        r == starts_with(v@, prefix@),
{
    let p = chars_of(prefix);
    if v.len() < p.len() {
        return false;
    }
    let mut i: usize = 0;
    while i < p.len()
        invariant
            i <= p.len() <= v.len(),
            p@ == prefix@,
            v@.take(i as int) == p@.take(i as int),
        decreases p.len() - i,
    {
        if v[i] != p[i] {
            assert(v@.take(p.len() as int)[i as int] != p@[i as int]);
            return false;
        }
        assert(v@.take(i + 1) == v@.take(i as int).push(v@[i as int]));
        assert(p@.take(i + 1) == p@.take(i as int).push(p@[i as int]));
        i += 1;
    }
    assert(p@.take(p.len() as int) == p@);
    true
}

/// Tells whether `a` and `b` hold the same characters.
pub fn same_text(a: &str, b: &str) -> (r: bool)
    ensures
        r == (a@ == b@),
{
    let v = chars_of(a);
    let n = b.unicode_len();
    if v.len() != n {
        return false;
    }
    let r = has_prefix(&v, b);
    assert(v@.take(v.len() as int) == v@);
    r
}

/// Tells whether `c` folds to `lower`.
pub fn char_folds_to(c: char, lower: char) -> (r: bool)
    ensures
        r == folds_to(c, lower),
{
    let n: u32 = c as u32;
    let m: u32 = lower as u32;
    n == m || (0x41 <= n && n <= 0x5A && n + 32 == m)
}

/// Tells whether `v` begins with `lower` when ASCII case is ignored.
pub fn has_prefix_folded(v: &Vec<char>, lower: &str) -> (r: bool)
    ensures
        r == starts_with_folded(v@, lower@),
{
    let p = chars_of(lower);
    if v.len() < p.len() {
        return false;
    }
    let mut i: usize = 0;
    while i < p.len()
        invariant
            i <= p.len() <= v.len(),
            p@ == lower@,
            forall|k: int| 0 <= k < i ==> folds_to(v@[k], p@[k]),
        decreases p.len() - i,
    {
        if !char_folds_to(v[i], p[i]) {
            return false;
        }
        i += 1;
    }
    true
}

/// Tells whether `v` equals `lower` when ASCII case is ignored.
pub fn is_folded(v: &Vec<char>, lower: &str) -> (r: bool)
    ensures
        r == equals_folded(v@, lower@),
{
    let n = lower.unicode_len();
    v.len() == n && has_prefix_folded(v, lower)
}

} // verus!
