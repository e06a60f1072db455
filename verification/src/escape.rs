//! The variable escaper: rewrites `$NAME` and `${NAME}`
//! environment-variable references into escaped form (`\$NAME`,
//! `\${NAME}`), except where the reference overlaps a span of LSP snippet
//! syntax — a tabstop `$1`, a placeholder `${1:default}` or a choice
//! `${1|a,b,c|}` — computed against the pristine input, so that earlier
//! rewrites can never corrupt the overlap test for later ones.

use vstd::prelude::*;

use crate::rewrite::find_char;
use crate::text::{is_digit, is_digit_char, is_env_rest, is_env_rest_char, is_env_start,
    is_env_start_char};

verus! {

/// The end of the run of decimal digits that starts at `i`.
pub open spec fn digit_run_end(s: Seq<char>, i: int) -> int
    decreases s.len() - i when 0 <= i <= s.len()
{
    if i >= s.len() {
        i
    } else if is_digit(s[i]) {
        digit_run_end(s, i + 1)
    } else {
        i
    }
}

/// The end of the run of name characters (capitals, digits, underscores)
/// that starts at `i`.
pub open spec fn word_run_end(s: Seq<char>, i: int) -> int
    decreases s.len() - i when 0 <= i <= s.len()
{
    if i >= s.len() {
        i
    } else if is_env_rest(s[i]) {
        word_run_end(s, i + 1)
    } else {
        i
    }
}

/// What [`word_run_end`] returns: a position in `[i, s.len()]`, with name
/// characters before it (from `i`) and none at it.
pub proof fn lemma_word_run_end(s: Seq<char>, i: int)
    requires
        0 <= i <= s.len(),
    ensures
        i <= word_run_end(s, i) <= s.len(),
        word_run_end(s, i) < s.len() ==> !is_env_rest(s[word_run_end(s, i)]),
        forall|j: int| i <= j < word_run_end(s, i) ==> is_env_rest(s[j]),
    decreases s.len() - i,
{
    if i < s.len() && is_env_rest(s[i]) {
        lemma_word_run_end(s, i + 1);
    }
}

/// An LSP tabstop `$<digits>` starts at `i`.
pub open spec fn tabstop_at(s: Seq<char>, i: int) -> bool {
    0 <= i && i + 1 < s.len() && s[i] == '$' && is_digit(s[i + 1])
}

/// One past the last character of the tabstop starting at `i`.
pub open spec fn tabstop_end(s: Seq<char>, i: int) -> int {
    digit_run_end(s, i + 1)
}

/// An LSP placeholder `${<digits>:<text without }>}` starts at `i`.
pub open spec fn placeholder_at(s: Seq<char>, i: int) -> bool {
    0 <= i && i + 2 < s.len() && s[i] == '$' && s[i + 1] == '{' && is_digit(s[i + 2]) && {
        let d = digit_run_end(s, i + 2);
        d < s.len() && s[d] == ':' && find_char(s, '}', d + 1) < s.len()
    }
}

/// One past the closing `}` of the placeholder starting at `i`.
pub open spec fn placeholder_end(s: Seq<char>, i: int) -> int {
    find_char(s, '}', digit_run_end(s, i + 2) + 1) + 1
}

/// An LSP choice `${<digits>|<choices without }>|}` starts at `i`.
pub open spec fn choice_at(s: Seq<char>, i: int) -> bool {
    0 <= i && i + 2 < s.len() && s[i] == '$' && s[i + 1] == '{' && is_digit(s[i + 2]) && {
        let d = digit_run_end(s, i + 2);
        d < s.len() && s[d] == '|' && {
            let q = find_char(s, '}', d + 1);
            q < s.len() && q >= d + 2 && s[q - 1] == '|'
        }
    }
}

/// One past the closing `}` of the choice starting at `i`.
pub open spec fn choice_end(s: Seq<char>, i: int) -> int {
    find_char(s, '}', digit_run_end(s, i + 2) + 1) + 1
}

/// Whether position `p` lies inside an LSP snippet span that starts at
/// `i`.
pub open spec fn lsp_covers(s: Seq<char>, i: int, p: int) -> bool {
    ||| (tabstop_at(s, i) && i <= p < tabstop_end(s, i))
    ||| (placeholder_at(s, i) && i <= p < placeholder_end(s, i))
    ||| (choice_at(s, i) && i <= p < choice_end(s, i))
}

/// Whether position `p` lies inside any LSP snippet span of `s`.
pub open spec fn covered(s: Seq<char>, p: int) -> bool {
    exists|i: int| #[trigger] lsp_covers(s, i, p)
}

/// A simple environment-variable reference `$NAME` starts at `i`.
pub open spec fn simple_env_at(s: Seq<char>, i: int) -> bool {
    0 <= i && i + 1 < s.len() && s[i] == '$' && is_env_start(s[i + 1])
}

/// One past the last name character of the reference starting at `i`.
pub open spec fn simple_env_end(s: Seq<char>, i: int) -> int {
    word_run_end(s, i + 2)
}

/// A braced environment-variable reference `${NAME}` starts at `i`.
pub open spec fn braced_env_at(s: Seq<char>, i: int) -> bool {
    0 <= i && i + 2 < s.len() && s[i] == '$' && s[i + 1] == '{' && is_env_start(s[i + 2]) && {
        let e = word_run_end(s, i + 3);
        e < s.len() && s[e] == '}'
    }
}

/// One past the closing `}` of the reference starting at `i`.
pub open spec fn braced_env_end(s: Seq<char>, i: int) -> int {
    word_run_end(s, i + 3) + 1
}

/// The escaped text from position `i` on: each environment-variable
/// reference whose start lies outside every LSP span gains a leading
/// backslash; everything else is copied unchanged.
pub open spec fn escape_from(s: Seq<char>, i: int) -> Seq<char>
    decreases s.len() - i when 0 <= i <= s.len()
{
    if i >= s.len() {
        Seq::empty()
    } else if braced_env_at(s, i) && i < braced_env_end(s, i) <= s.len() {
        let j = braced_env_end(s, i);
        if covered(s, i) {
            s.subrange(i, j) + escape_from(s, j)
        } else {
            seq!['\\'] + s.subrange(i, j) + escape_from(s, j)
        }
    } else if simple_env_at(s, i) && i < simple_env_end(s, i) <= s.len() {
        let j = simple_env_end(s, i);
        if covered(s, i) {
            s.subrange(i, j) + escape_from(s, j)
        } else {
            seq!['\\'] + s.subrange(i, j) + escape_from(s, j)
        }
    } else {
        seq![s[i]] + escape_from(s, i + 1)
    }
}

/// The whole escaping pass.
pub open spec fn spec_escape(s: Seq<char>) -> Seq<char> {
    escape_from(s, 0)
}

/// Overlap correctness: an environment-variable reference `[i, j)`
/// intersects some LSP snippet span — any intersection, not just
/// containment — exactly when its first character does. Every LSP span
/// starts with `$`, and a reference holds no `$` after its first
/// character, so no span can begin strictly inside one; testing the
/// reference's start against the spans therefore decides overlap.
pub proof fn lemma_overlap_is_start_coverage(s: Seq<char>, i: int, j: int)
    requires
        (simple_env_at(s, i) && j == simple_env_end(s, i)) || (braced_env_at(s, i) && j
            == braced_env_end(s, i)),
    ensures
        (exists|p: int| i <= p < j && covered(s, p)) <==> covered(s, i),
{
    if simple_env_at(s, i) && j == simple_env_end(s, i) {
        lemma_word_run_end(s, i + 2);
    } else {
        lemma_word_run_end(s, i + 3);
    }
    assert(i < j);
    assert forall|a: int| i < a < j implies s[a] != '$' by {
        if simple_env_at(s, i) && j == simple_env_end(s, i) {
            if a == i + 1 {
                assert(is_env_start(s[a]));
            } else {
                assert(is_env_rest(s[a]));
            }
        } else {
            let e = word_run_end(s, i + 3);
            if a == i + 1 {
                assert(s[a] == '{');
            } else if a == i + 2 {
                assert(is_env_start(s[a]));
            } else if a < e {
                assert(is_env_rest(s[a]));
            } else {
                assert(s[a] == '}');
            }
        }
    }
    if exists|p: int| i <= p < j && covered(s, p) {
        let p = choose|p: int| i <= p < j && covered(s, p);
        let a = choose|a: int| #[trigger] lsp_covers(s, a, p);
        assert(a <= p);
        if a > i {
            assert(s[a] == '$');
            assert(false);
        }
        assert(a <= i <= p);
        assert(lsp_covers(s, a, i));
        assert(covered(s, i));
    }
    if covered(s, i) {
        assert(i <= i < j && covered(s, i));
    }
}

/// Executable twin of [`digit_run_end`].
pub(crate) fn digit_run_end_vec(v: &Vec<char>, start: usize) -> (j: usize)
    requires
        start <= v@.len(),
    ensures
        j == digit_run_end(v@, start as int),
        start <= j <= v@.len(),
{
    let mut i: usize = start;
    while i < v.len() && is_digit_char(v[i])
        invariant
            start <= i <= v@.len(),
            digit_run_end(v@, start as int) == digit_run_end(v@, i as int),
        decreases v@.len() - i,
    {
        i = i + 1;
    }
    i
}

/// Executable twin of [`word_run_end`].
pub(crate) fn word_run_end_vec(v: &Vec<char>, start: usize) -> (j: usize)
    requires
        start <= v@.len(),
    ensures
        j == word_run_end(v@, start as int),
        start <= j <= v@.len(),
{
    let mut i: usize = start;
    while i < v.len() && is_env_rest_char(v[i])
        invariant
            start <= i <= v@.len(),
            word_run_end(v@, start as int) == word_run_end(v@, i as int),
        decreases v@.len() - i,
    {
        i = i + 1;
    }
    i
}

/// Whether position `p` of `v` lies inside any LSP snippet span.
fn covered_vec(v: &Vec<char>, p: usize) -> (r: bool)
    requires
        p < v@.len(),
    ensures
        r == covered(v@, p as int),
{
    let n = v.len();
    let mut i: usize = 0;
    while i <= p
        invariant
            n == v@.len(),
            p < n,
            i <= p + 1,
            forall|x: int| 0 <= x < i ==> !lsp_covers(v@, x, p as int),
        decreases p + 1 - i,
    {
        if v[i] == '$' {
            if n - i > 1 && is_digit_char(v[i + 1]) {
                let e = digit_run_end_vec(v, i + 1);
                if p < e {
                    assert(lsp_covers(v@, i as int, p as int));
                    return true;
                }
            }
            if n - i > 2 && v[i + 1] == '{' && is_digit_char(v[i + 2]) {
                let d = digit_run_end_vec(v, i + 2);
                if d < n && v[d] == ':' {
                    let q = crate::rewrite::find_char_vec(v, '}', d + 1);
                    if q < n && p < q + 1 {
                        assert(placeholder_at(v@, i as int));
                        assert(lsp_covers(v@, i as int, p as int));
                        return true;
                    }
                }
                if d < n && v[d] == '|' {
                    let q = crate::rewrite::find_char_vec(v, '}', d + 1);
                    if q < n && q >= d + 2 && v[q - 1] == '|' && p < q + 1 {
                        assert(choice_at(v@, i as int));
                        assert(lsp_covers(v@, i as int, p as int));
                        return true;
                    }
                }
            }
        }
        assert(!lsp_covers(v@, i as int, p as int));
        i = i + 1;
    }
    assert forall|x: int| !lsp_covers(v@, x, p as int) by {
        if lsp_covers(v@, x, p as int) {
            assert(0 <= x <= p);
        }
    }
    false
}

/// The escaping pass over a character vector.
fn escape_chars(v: &Vec<char>) -> (r: Vec<char>)
    ensures
        r@ == spec_escape(v@),
{
    let n = v.len();
    let mut out: Vec<char> = Vec::new();
    let mut i: usize = 0;
    while i < n
        invariant
            n == v@.len(),
            i <= n,
            spec_escape(v@) == out@ + escape_from(v@, i as int),
        decreases n - i,
    {
        let ghost prev = out@;
        if v[i] == '$' && n - i > 2 && v[i + 1] == '{' && is_env_start_char(v[i + 2]) {
            let e = word_run_end_vec(v, i + 3);
            if e < n && v[e] == '}' {
                assert(braced_env_at(v@, i as int));
                let j = e + 1;
                let c = covered_vec(v, i);
                if !c {
                    out.push('\\');
                }
                crate::text::push_range(&mut out, v, i, j);
                proof {
                    let pre = if c {
                        v@.subrange(i as int, j as int)
                    } else {
                        seq!['\\'] + v@.subrange(i as int, j as int)
                    };
                    assert(escape_from(v@, i as int) == pre + escape_from(v@, j as int));
                    assert(out@ =~= prev + pre);
                    assert(prev + (pre + escape_from(v@, j as int)) =~= (prev + pre)
                        + escape_from(v@, j as int));
                }
                i = j;
                continue ;
            }
        }
        if v[i] == '$' && n - i > 1 && is_env_start_char(v[i + 1]) {
            assert(simple_env_at(v@, i as int));
            let j = word_run_end_vec(v, i + 2);
            let c = covered_vec(v, i);
            if !c {
                out.push('\\');
            }
            crate::text::push_range(&mut out, v, i, j);
            proof {
                let pre = if c {
                    v@.subrange(i as int, j as int)
                } else {
                    seq!['\\'] + v@.subrange(i as int, j as int)
                };
                assert(escape_from(v@, i as int) == pre + escape_from(v@, j as int));
                assert(out@ =~= prev + pre);
                assert(prev + (pre + escape_from(v@, j as int)) =~= (prev + pre) + escape_from(
                    v@,
                    j as int,
                ));
            }
            i = j;
            continue ;
        }
        out.push(v[i]);
        proof {
            assert(escape_from(v@, i as int) == seq![v@[i as int]] + escape_from(v@, i + 1));
            assert(out@ =~= prev + seq![v@[i as int]]);
            assert(prev + (seq![v@[i as int]] + escape_from(v@, i + 1)) =~= (prev + seq![
                v@[i as int],
            ]) + escape_from(v@, i + 1));
        }
        i = i + 1;
    }
    assert(out@ =~= out@ + escape_from(v@, i as int));
    out
}

/// Escapes the environment-variable references of `content` that do not
/// overlap LSP snippet syntax; with escaping disabled, returns the input
/// unchanged, byte for byte.
pub(crate) fn escape_environment_variables(content: &str, should_escape: bool) -> (r: String)
    ensures
        should_escape ==> r@ == spec_escape(content@),
        !should_escape ==> r@ == content@,
{
    if !should_escape {
        return content.to_owned();
    }
    let v = crate::text::str_to_chars(content);
    let out = escape_chars(&v);
    crate::text::chars_to_string(&out)
}

} // verus!
