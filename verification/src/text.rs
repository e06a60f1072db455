//! Character-level utilities shared by the rewriting passes: character
//! classes, conversions between `&str`, `Vec<char>` and `String`, and a
//! verified decimal formatter.

use vstd::prelude::*;

verus! {

/// Whitespace as the rewriting passes understand it: the ASCII blank
/// characters (space, tab, line feed, carriage return, vertical tab and
/// form feed).
pub open spec fn is_ws(c: char) -> bool {
    c == ' ' || c == '\t' || c == '\n' || c == '\r' || c == '\u{b}' || c == '\u{c}'
}

/// Executable twin of [`is_ws`].
pub(crate) fn is_ws_char(c: char) -> (r: bool)
    ensures
        r == is_ws(c),
{
    c == ' ' || c == '\t' || c == '\n' || c == '\r' || c == '\u{b}' || c == '\u{c}'
}

/// An ASCII decimal digit.
pub open spec fn is_digit(c: char) -> bool {
    '0' <= c && c <= '9'
}

/// Executable twin of [`is_digit`].
pub(crate) fn is_digit_char(c: char) -> (r: bool)
    ensures
        r == is_digit(c),
{
    '0' <= c && c <= '9'
}

/// The first character of an environment-variable name: an ASCII capital
/// letter or an underscore.
pub open spec fn is_env_start(c: char) -> bool {
    ('A' <= c && c <= 'Z') || c == '_'
}

/// Executable twin of [`is_env_start`].
pub(crate) fn is_env_start_char(c: char) -> (r: bool)
    ensures
        r == is_env_start(c),
{
    ('A' <= c && c <= 'Z') || c == '_'
}

/// A character allowed after the first one in an environment-variable name:
/// capital letter, digit or underscore.
pub open spec fn is_env_rest(c: char) -> bool {
    is_env_start(c) || is_digit(c)
}

/// Executable twin of [`is_env_rest`].
pub(crate) fn is_env_rest_char(c: char) -> (r: bool)
    ensures
        r == is_env_rest(c),
{
    is_env_start_char(c) || is_digit_char(c)
}

/// The decimal digit sequence of `n`, most significant digit first.
pub open spec fn dec_digits(n: nat) -> Seq<char>
    decreases n,
{
    if n < 10 {
        seq![((48 + n) as u8) as char]
    } else {
        dec_digits(n / 10) + seq![((48 + n % 10) as u8) as char]
    }
}

/// Appends the decimal digits of `n` to `out`.
pub(crate) fn push_dec(out: &mut Vec<char>, n: u64)
    ensures
        final(out)@ == old(out)@ + dec_digits(n as nat),
    decreases n,
{
    if n < 10 {
        out.push(((48 + n) as u8) as char);
    } else {
        push_dec(out, n / 10);
        out.push(((48 + n % 10) as u8) as char);
    }
}

/// Renders `n` in decimal.
pub fn u64_to_string(n: u64) -> (r: String)
    ensures
        r@ == dec_digits(n as nat),
{
    let mut out: Vec<char> = Vec::new();
    push_dec(&mut out, n);
    chars_to_string(&out)
}

/// Relies on `String`'s `FromIterator<char>` implementation: collecting an
/// iterator of characters yields the string made of exactly those
/// characters, in order.
#[verifier::external_body]
pub(crate) fn chars_to_string(v: &Vec<char>) -> (r: String)
    ensures
        r@ == v@,
{
    v.iter().collect()
}

/// Copies the characters of `s` into a vector.
pub(crate) fn str_to_chars(s: &str) -> (r: Vec<char>)
    ensures
        r@ == s@,
{
    let n = s.unicode_len();
    let mut r: Vec<char> = Vec::new();
    let mut i: usize = 0;
    while i < n
        invariant
            n == s@.len(),
            i <= n,
            r@ == s@.take(i as int),
        decreases n - i,
    {
        r.push(s.get_char(i));
        assert(r@ =~= s@.take(i + 1 as int));
        i = i + 1;
    }
    assert(r@ =~= s@);
    r
}

/// Appends `src[a..b]` to `out`.
pub(crate) fn push_range(out: &mut Vec<char>, src: &Vec<char>, a: usize, b: usize)
    requires
        a <= b <= src@.len(),
    ensures
        final(out)@ == old(out)@ + src@.subrange(a as int, b as int),
{
    let mut i: usize = a;
    while i < b
        invariant
            a <= i <= b <= src@.len(),
            out@ == old(out)@ + src@.subrange(a as int, i as int),
        decreases b - i,
    {
        out.push(src[i]);
        assert(out@ =~= old(out)@ + src@.subrange(a as int, i + 1 as int));
        i = i + 1;
    }
}

/// Appends the characters of `s` to `out`.
pub(crate) fn push_str_chars(out: &mut Vec<char>, s: &str)
    ensures
        final(out)@ == old(out)@ + s@,
{
    let n = s.unicode_len();
    let mut i: usize = 0;
    while i < n
        invariant
            n == s@.len(),
            i <= n,
            out@ == old(out)@ + s@.take(i as int),
        decreases n - i,
    {
        out.push(s.get_char(i));
        assert(out@ =~= old(out)@ + s@.take(i + 1 as int));
        i = i + 1;
    }
    assert(old(out)@ + s@.take(n as int) =~= old(out)@ + s@);
}

/// Lowercases an ASCII capital letter and leaves every other character
/// unchanged.
pub open spec fn lower_char(c: char) -> char {
    if 'A' <= c && c <= 'Z' {
        (((c as u8) + 32) as u8) as char
    } else {
        c
    }
}

/// Character-wise ASCII lowercasing.
pub open spec fn lower(s: Seq<char>) -> Seq<char> {
    s.map_values(|c: char| lower_char(c))
}

/// Lowercasing twice equals lowercasing once.
pub proof fn lemma_lower_idempotent(s: Seq<char>)
    ensures
        lower(lower(s)) == lower(s),
{
    assert forall|i: int| 0 <= i < s.len() implies lower_char(lower_char(s[i])) == lower_char(
        s[i],
    ) by {
        let c = s[i];
        if 'A' <= c && c <= 'Z' {
            assert(!('A' <= lower_char(c) && lower_char(c) <= 'Z'));
        }
    }
    assert(lower(lower(s)) =~= lower(s));
}

/// ASCII-lowercases every character of `v`.
pub(crate) fn to_lower_chars(v: &Vec<char>) -> (r: Vec<char>)
    ensures
        r@ == lower(v@),
{
    let mut r: Vec<char> = Vec::new();
    let mut i: usize = 0;
    while i < v.len()
        invariant
            i <= v@.len(),
            r@ == lower(v@.take(i as int)),
        decreases v@.len() - i,
    {
        let c = v[i];
        if 'A' <= c && c <= 'Z' {
            r.push((((c as u8) + 32) as u8) as char);
        } else {
            r.push(c);
        }
        assert(r@ =~= lower(v@.take(i + 1 as int)));
        i = i + 1;
    }
    assert(v@.take(v@.len() as int) =~= v@);
    r
}

/// Compares a character vector with a string.
pub(crate) fn seq_eq_str(v: &Vec<char>, s: &str) -> (r: bool)
    ensures
        r == (v@ == s@),
{
    let n = s.unicode_len();
    if v.len() != n {
        assert(v@ != s@) by {
            assert(v@.len() != s@.len());
        }
        return false;
    }
    let mut i: usize = 0;
    while i < n
        invariant
            n == s@.len() && n == v@.len(),
            i <= n,
            forall|j: int| 0 <= j < i ==> v@[j] == s@[j],
        decreases n - i,
    {
        if v[i] != s.get_char(i) {
            return false;
        }
        i = i + 1;
    }
    assert(v@ =~= s@);
    true
}

/// The suffix of `s` after the last occurrence of `c`, or all of `s` when
/// `c` does not occur.
pub open spec fn after_last(s: Seq<char>, c: char) -> Seq<char>
    decreases s.len(),
{
    if s.len() == 0 {
        s
    } else if s.last() == c {
        Seq::empty()
    } else {
        after_last(s.drop_last(), c) + seq![s.last()]
    }
}

proof fn lemma_after_last_no_occurrence(s: Seq<char>, c: char)
    requires
        forall|j: int| 0 <= j < s.len() ==> s[j] != c,
    ensures
        after_last(s, c) == s,
    decreases s.len(),
{
    if s.len() > 0 {
        lemma_after_last_no_occurrence(s.drop_last(), c);
        assert(after_last(s, c) =~= s);
    }
}

proof fn lemma_after_last_at(s: Seq<char>, c: char, i: int)
    requires
        0 <= i < s.len(),
        s[i] == c,
        forall|j: int| i < j < s.len() ==> s[j] != c,
    ensures
        after_last(s, c) == s.subrange(i + 1, s.len() as int),
    decreases s.len(),
{
    if i == s.len() - 1 {
        assert(after_last(s, c) =~= s.subrange(i + 1, s.len() as int));
    } else {
        lemma_after_last_at(s.drop_last(), c, i);
        assert(after_last(s, c) =~= s.subrange(i + 1, s.len() as int));
    }
}

/// Copies the suffix of `v` after its last occurrence of `c` (all of `v`
/// when `c` does not occur).
pub(crate) fn suffix_after_last(v: &Vec<char>, c: char) -> (r: Vec<char>)
    ensures
        r@ == after_last(v@, c),
{
    let mut start: usize = 0;
    let mut i: usize = 0;
    while i < v.len()
        invariant
            i <= v@.len(),
            start <= i,
            start == 0 ==> forall|j: int| 0 <= j < i ==> v@[j] != c,
            start > 0 ==> v@[start - 1] == c && forall|j: int| start <= j < i ==> v@[j] != c,
        decreases v@.len() - i,
    {
        if v[i] == c {
            start = i + 1;
        }
        i = i + 1;
    }
    let mut r: Vec<char> = Vec::new();
    push_range(&mut r, v, start, v.len());
    proof {
        if start == 0 {
            lemma_after_last_no_occurrence(v@, c);
            assert(v@.subrange(0, v@.len() as int) =~= v@);
        } else {
            lemma_after_last_at(v@, c, start - 1);
        }
    }
    r
}

/// Compares two strings character by character.
pub(crate) fn str_eq(a: &str, b: &str) -> (r: bool)
    ensures
        r == (a@ == b@),
{
    let na = a.unicode_len();
    let nb = b.unicode_len();
    if na != nb {
        assert(a@ != b@) by {
            assert(a@.len() != b@.len());
        }
        return false;
    }
    let mut i: usize = 0;
    while i < na
        invariant
            na == a@.len() && na == b@.len(),
            i <= na,
            forall|j: int| 0 <= j < i ==> a@[j] == b@[j],
        decreases na - i,
    {
        if a.get_char(i) != b.get_char(i) {
            return false;
        }
        i = i + 1;
    }
    assert(a@ =~= b@);
    true
}

} // verus!
