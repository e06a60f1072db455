//! Filename token substitution: every occurrence of the literal token
//! `{{ filename }}` in a body is replaced with the final segment of the
//! source file's path. No other `{{ ... }}` token is touched.

use vstd::prelude::*;

use crate::text::{after_last, chars_to_string, str_to_chars, suffix_after_last};

verus! {

/// The one reserved token this pass interprets.
pub open spec fn filename_token() -> Seq<char> {
    "{{ filename }}"@
}

/// Whether `pat` occurs in `s` at position `i`.
pub open spec fn contains_at(s: Seq<char>, pat: Seq<char>, i: int) -> bool {
    0 <= i && i + pat.len() <= s.len() && s.subrange(i, i + pat.len()) == pat
}

/// Whether `pat` occurs anywhere in `s`.
pub open spec fn contains_seq(s: Seq<char>, pat: Seq<char>) -> bool {
    exists|i: int| #[trigger] contains_at(s, pat, i)
}

/// `s` from position `i` on, with every occurrence of `pat` (leftmost
/// first, non-overlapping) replaced by `seg`.
pub open spec fn replace_from(s: Seq<char>, pat: Seq<char>, seg: Seq<char>, i: int) -> Seq<char>
    decreases s.len() - i when 0 <= i <= s.len() && pat.len() >= 1
{
    if contains_at(s, pat, i) {
        seg + replace_from(s, pat, seg, i + pat.len())
    } else if i < s.len() {
        seq![s[i]] + replace_from(s, pat, seg, i + 1)
    } else {
        Seq::empty()
    }
}

/// The whole replacement pass.
pub open spec fn replace_all(s: Seq<char>, pat: Seq<char>, seg: Seq<char>) -> Seq<char> {
    replace_from(s, pat, seg, 0)
}

/// What [`substitute_filename`] computes: every `{{ filename }}` replaced
/// with the part of `path` after its last `/`.
pub open spec fn spec_substitute(body: Seq<char>, path: Seq<char>) -> Seq<char> {
    replace_all(body, filename_token(), after_last(path, '/'))
}

proof fn lemma_replace_identity_from(s: Seq<char>, pat: Seq<char>, seg: Seq<char>, i: int)
    requires
        0 <= i <= s.len(),
        pat.len() >= 1,
        forall|j: int| !contains_at(s, pat, j),
    ensures
        replace_from(s, pat, seg, i) == s.subrange(i, s.len() as int),
    decreases s.len() - i,
{
    assert(!contains_at(s, pat, i));
    if i < s.len() {
        lemma_replace_identity_from(s, pat, seg, i + 1);
        assert(seq![s[i]] + s.subrange(i + 1, s.len() as int) =~= s.subrange(i, s.len() as int));
    } else {
        assert(Seq::<char>::empty() =~= s.subrange(i, s.len() as int));
    }
}

/// Replacing a pattern that does not occur changes nothing.
pub proof fn lemma_replace_identity(s: Seq<char>, pat: Seq<char>, seg: Seq<char>)
    requires
        pat.len() >= 1,
        !contains_seq(s, pat),
    ensures
        replace_all(s, pat, seg) == s,
{
    assert forall|j: int| !contains_at(s, pat, j) by {
        if contains_at(s, pat, j) {
            assert(contains_seq(s, pat));
        }
    }
    lemma_replace_identity_from(s, pat, seg, 0);
    assert(s.subrange(0, s.len() as int) =~= s);
}

/// Substituting the filename twice equals substituting it once, whenever
/// the first substitution leaves no token behind (which holds unless the
/// path's final segment itself spells out a new `{{ filename }}` token).
pub proof fn lemma_substitute_filename_idempotent(body: Seq<char>, path: Seq<char>)
    requires
        !contains_seq(spec_substitute(body, path), filename_token()),
    ensures
        spec_substitute(spec_substitute(body, path), path) == spec_substitute(body, path),
{
    reveal_strlit("{{ filename }}");
    lemma_replace_identity(
        spec_substitute(body, path),
        filename_token(),
        after_last(path, '/'),
    );
}

/// Whether `pat` occurs in `v` at position `i`.
fn matches_at(v: &Vec<char>, i: usize, pat: &str) -> (r: bool)
    requires
        i <= v@.len(),
    ensures
        r == contains_at(v@, pat@, i as int),
{
    let m = pat.unicode_len();
    let n = v.len();
    if n - i < m {
        return false;
    }
    let mut j: usize = 0;
    while j < m
        invariant
            m == pat@.len(),
            n == v@.len(),
            i + m <= n,
            j <= m,
            forall|x: int| 0 <= x < j ==> v@[i + x] == pat@[x],
        decreases m - j,
    {
        if v[i + j] != pat.get_char(j) {
            assert(!contains_at(v@, pat@, i as int)) by {
                if contains_at(v@, pat@, i as int) {
                    assert(v@.subrange(i as int, i + pat@.len())[j as int] == pat@[j as int]);
                }
            }
            return false;
        }
        j = j + 1;
    }
    assert(v@.subrange(i as int, i + pat@.len()) =~= pat@);
    true
}

/// Replaces every occurrence of `pat` in `s` with `seg`.
fn replace_all_vec(s: &Vec<char>, pat: &str, seg: &Vec<char>) -> (r: Vec<char>)
    requires
        pat@.len() >= 1,
    ensures
        r@ == replace_all(s@, pat@, seg@),
{
    let m = pat.unicode_len();
    let mut out: Vec<char> = Vec::new();
    let mut i: usize = 0;
    while i < s.len()
        invariant
            m == pat@.len() >= 1,
            i <= s@.len(),
            replace_all(s@, pat@, seg@) == out@ + replace_from(s@, pat@, seg@, i as int),
        decreases s@.len() - i,
    {
        if matches_at(s, i, pat) {
            crate::text::push_range(&mut out, seg, 0, seg.len());
            assert(seg@.subrange(0, seg@.len() as int) =~= seg@);
            i = i + m;
        } else {
            out.push(s[i]);
            i = i + 1;
        }
    }
    assert(replace_from(s@, pat@, seg@, i as int) == Seq::<char>::empty());
    assert(out@ =~= out@ + Seq::<char>::empty());
    out
}

/// Replaces every `{{ filename }}` token in `body` with the final segment
/// of `path` (the part after the last `/`; the whole of `path` when it has
/// no `/`).
pub fn substitute_filename(body: &str, path: &str) -> (r: String)
    ensures
        r@ == spec_substitute(body@, path@),
{
    let body_chars = str_to_chars(body);
    let path_chars = str_to_chars(path);
    let seg = suffix_after_last(&path_chars, '/');
    proof {
        reveal_strlit("{{ filename }}");
    }
    let out = replace_all_vec(&body_chars, "{{ filename }}", &seg);
    chars_to_string(&out)
}

/// The final segment of a path: everything after the last `/`, or the
/// whole path when it has no `/`.
pub fn final_path_segment(path: &str) -> (r: String)
    ensures
        r@ == after_last(path@, '/'),
{
    let path_chars = str_to_chars(path);
    let seg = suffix_after_last(&path_chars, '/');
    chars_to_string(&seg)
}

} // verus!
