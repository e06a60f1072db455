//! The block rewriter: a second pass over the whole, already line-rewritten
//! text that replaces every `/* ... */` span (the inner text may contain
//! newlines; the match is non-greedy) with the target language's block
//! comment delimiters, keeping the inner text verbatim.

use vstd::prelude::*;

use crate::language::{GrammarView, LanguageInfo};
use crate::text::push_range;

verus! {

/// The first position `j >= i` where `a` is followed by `b`, or `s.len()`
/// when the pair does not occur at or after `i`.
pub open spec fn find_pair(s: Seq<char>, a: char, b: char, i: int) -> int
    decreases s.len() - i when 0 <= i
{
    if i + 1 >= s.len() {
        s.len() as int
    } else if s[i] == a && s[i + 1] == b {
        i
    } else {
        find_pair(s, a, b, i + 1)
    }
}

/// What [`find_pair`] returns: either `s.len()`, or the first position of
/// the pair, which then fits inside `s`.
pub proof fn lemma_find_pair(s: Seq<char>, a: char, b: char, i: int)
    requires
        0 <= i <= s.len(),
    ensures
        i <= find_pair(s, a, b, i) <= s.len(),
        find_pair(s, a, b, i) < s.len() ==> find_pair(s, a, b, i) + 2 <= s.len() && s[find_pair(
            s,
            a,
            b,
            i,
        )] == a && s[find_pair(s, a, b, i) + 1] == b,
        forall|j: int|
            i <= j < find_pair(s, a, b, i) && j + 1 < s.len() ==> !(#[trigger] s[j] == a && s[j + 1]
                == b),
    decreases s.len() - i,
{
    if i + 1 < s.len() && !(s[i] == a && s[i + 1] == b) {
        lemma_find_pair(s, a, b, i + 1);
    }
}

/// The text from position `i` on with every `/* ... */` span replaced by
/// `start` + inner text + `end`. A `/*` with no later `*/` is left as it
/// stands.
pub open spec fn rewrite_blocks_from(s: Seq<char>, start: Seq<char>, end: Seq<char>, i: int) -> Seq<
    char,
>
    decreases s.len() - i when 0 <= i <= s.len()
{
    let p = find_pair(s, '/', '*', i);
    if i <= p && p + 2 <= s.len() {
        let q = find_pair(s, '*', '/', p + 2);
        if p + 2 <= q && q + 2 <= s.len() {
            s.subrange(i, p) + start + s.subrange(p + 2, q) + end + rewrite_blocks_from(
                s,
                start,
                end,
                q + 2,
            )
        } else {
            s.subrange(i, s.len() as int)
        }
    } else {
        s.subrange(i, s.len() as int)
    }
}

/// The whole block pass: only grammars with block delimiters rewrite
/// anything.
pub open spec fn spec_rewrite_blocks(s: Seq<char>, g: GrammarView) -> Seq<char> {
    match g.block_comment {
        Some((start, end)) => rewrite_blocks_from(s, start, end, 0),
        None => s,
    }
}

/// A text without a `/*` passes through the block rewriter unchanged.
pub proof fn lemma_rewrite_blocks_identity(s: Seq<char>, g: GrammarView)
    requires
        forall|j: int| #![trigger s[j]] 0 <= j < s.len() - 1 ==> !(s[j] == '/' && s[j + 1] == '*'),
    ensures
        spec_rewrite_blocks(s, g) == s,
{
    match g.block_comment {
        Some((start, end)) => {
            lemma_find_pair(s, '/', '*', 0);
            let p = find_pair(s, '/', '*', 0);
            assert(p == s.len());
            assert(s.subrange(0, s.len() as int) =~= s);
        },
        None => {},
    }
}

/// Executable twin of [`find_pair`].
pub(crate) fn find_pair_vec(v: &Vec<char>, a: char, b: char, start: usize) -> (j: usize)
    requires
        start <= v@.len(),
    ensures
        j == find_pair(v@, a, b, start as int),
        start <= j <= v@.len(),
        j < v@.len() ==> j + 2 <= v@.len() && v@[j as int] == a && v@[j + 1] == b,
{
    let mut i: usize = start;
    loop
        invariant
            start <= v@.len(),
            start <= i,
            find_pair(v@, a, b, start as int) == find_pair(v@, a, b, i as int),
        decreases v@.len() - i,
    {
        if !(i < v.len() && v.len() - i > 1) {
            proof {
                lemma_find_pair(v@, a, b, start as int);
            }
            return v.len();
        }
        if v[i] == a && v[i + 1] == b {
            proof {
                lemma_find_pair(v@, a, b, start as int);
            }
            return i;
        }
        i = i + 1;
    }
}

/// Rewrites the block comments of `s` from position `i` on, appending to
/// `out`.
fn rewrite_blocks_rec(s: &Vec<char>, start: &str, end: &str, i: usize, out: &mut Vec<char>)
    requires
        i <= s@.len(),
    ensures
        final(out)@ == old(out)@ + rewrite_blocks_from(s@, start@, end@, i as int),
    decreases s@.len() - i,
{
    let p = find_pair_vec(s, '/', '*', i);
    if p < s.len() {
        let q = find_pair_vec(s, '*', '/', p + 2);
        if q < s.len() {
            push_range(out, s, i, p);
            crate::text::push_str_chars(out, start);
            push_range(out, s, p + 2, q);
            crate::text::push_str_chars(out, end);
            rewrite_blocks_rec(s, start, end, q + 2, out);
            assert(out@ =~= old(out)@ + (s@.subrange(i as int, p as int) + start@ + s@.subrange(
                p + 2,
                q as int,
            ) + end@ + rewrite_blocks_from(s@, start@, end@, q + 2)));
        } else {
            push_range(out, s, i, s.len());
        }
    } else {
        push_range(out, s, i, s.len());
    }
}

/// The whole block pass over `s`.
pub(crate) fn rewrite_blocks_vec(s: &Vec<char>, g: &LanguageInfo) -> (r: Vec<char>)
    ensures
        r@ == spec_rewrite_blocks(s@, g@),
{
    match &g.block_comment {
        Some((start, end)) => {
            let mut out: Vec<char> = Vec::new();
            rewrite_blocks_rec(s, start.as_str(), end.as_str(), 0, &mut out);
            out
        },
        None => {
            let mut r: Vec<char> = Vec::new();
            push_range(&mut r, s, 0, s.len());
            assert(r@ =~= s@);
            r
        },
    }
}

} // verus!
