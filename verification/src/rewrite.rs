//! The line-by-line rewriter: translates universal `//` comments (at the
//! start of a line or trailing a line's code) into the target language's
//! comment style, and four-space indentation runs into the target
//! language's indentation unit. Input is split on `\n`, each line is
//! rewritten independently, and the lines are rejoined, so every newline of
//! the input survives.

use vstd::prelude::*;

use crate::language::{GrammarView, LanguageInfo};
use crate::text::{is_ws, is_ws_char, push_range, push_str_chars, str_eq};

verus! {

/// The first position `j >= i` with `s[j] == c`, or `s.len()` when `c`
/// does not occur at or after `i`.
pub open spec fn find_char(s: Seq<char>, c: char, i: int) -> int
    decreases s.len() - i when 0 <= i <= s.len()
{
    if i >= s.len() {
        s.len() as int
    } else if s[i] == c {
        i
    } else {
        find_char(s, c, i + 1)
    }
}

/// What [`find_char`] returns: a position in `[i, s.len()]`, holding `c`
/// unless it is `s.len()`, with no `c` before it.
pub proof fn lemma_find_char(s: Seq<char>, c: char, i: int)
    requires
        0 <= i <= s.len(),
    ensures
        i <= find_char(s, c, i) <= s.len(),
        find_char(s, c, i) < s.len() ==> s[find_char(s, c, i)] == c,
        forall|j: int| i <= j < find_char(s, c, i) ==> s[j] != c,
    decreases s.len() - i,
{
    if i < s.len() && s[i] != c {
        lemma_find_char(s, c, i + 1);
    }
}

/// The end of the whitespace run that starts at `i`: the first position
/// `j >= i` whose character is not whitespace, or `s.len()`.
pub open spec fn ws_run_end(s: Seq<char>, i: int) -> int
    decreases s.len() - i when 0 <= i <= s.len()
{
    if i >= s.len() {
        i
    } else if is_ws(s[i]) {
        ws_run_end(s, i + 1)
    } else {
        i
    }
}

/// What [`ws_run_end`] returns: a position in `[i, s.len()]` with only
/// whitespace before it (from `i`) and a non-whitespace character at it
/// unless it is `s.len()`.
pub proof fn lemma_ws_run_end(s: Seq<char>, i: int)
    requires
        0 <= i <= s.len(),
    ensures
        i <= ws_run_end(s, i) <= s.len(),
        ws_run_end(s, i) < s.len() ==> !is_ws(s[ws_run_end(s, i)]),
        forall|j: int| i <= j < ws_run_end(s, i) ==> is_ws(s[j]),
    decreases s.len() - i,
{
    if i < s.len() && is_ws(s[i]) {
        lemma_ws_run_end(s, i + 1);
    }
}

/// Whether the line is a comment line: optional leading whitespace, then
/// the universal line comment token `//`.
pub open spec fn starts_line_comment(line: Seq<char>) -> bool {
    let w = ws_run_end(line, 0);
    w + 1 < line.len() && line[w] == '/' && line[w + 1] == '/'
}

/// The first position `e >= start` where `//` follows at least one
/// whitespace character, or `line.len()` when there is none.
pub open spec fn trailing_comment_pos(line: Seq<char>, e: int) -> int
    decreases line.len() - e when 1 <= e
{
    if e + 1 >= line.len() {
        line.len() as int
    } else if line[e] == '/' && line[e + 1] == '/' && is_ws(line[e - 1]) {
        e
    } else {
        trailing_comment_pos(line, e + 1)
    }
}

/// Whether the line has code followed by whitespace and then `//`.
pub open spec fn has_trailing_comment(line: Seq<char>) -> bool {
    trailing_comment_pos(line, 1) < line.len()
}

/// Rewrites one line's universal comment into a line-comment token: the
/// text before the `//` is kept, `//` and the whitespace after it are
/// replaced by `tok` and a single space, and the remainder is kept.
pub open spec fn line_with_line_comment(line: Seq<char>, tok: Seq<char>) -> Seq<char> {
    if starts_line_comment(line) {
        let w = ws_run_end(line, 0);
        line.take(w) + tok + seq![' '] + line.skip(ws_run_end(line, w + 2))
    } else if has_trailing_comment(line) {
        let e = trailing_comment_pos(line, 1);
        line.take(e) + tok + seq![' '] + line.skip(ws_run_end(line, e + 2))
    } else {
        line
    }
}

/// Rewrites one line's universal comment into a block comment: as
/// [`line_with_line_comment`], but the comment text is wrapped in the
/// `start`/`end` delimiters, each set off by one space.
pub open spec fn line_with_block_comment(line: Seq<char>, start: Seq<char>, end: Seq<char>) -> Seq<
    char,
> {
    if starts_line_comment(line) {
        let w = ws_run_end(line, 0);
        line.take(w) + start + seq![' '] + line.skip(ws_run_end(line, w + 2)) + seq![' '] + end
    } else if has_trailing_comment(line) {
        let e = trailing_comment_pos(line, 1);
        line.take(e) + start + seq![' '] + line.skip(ws_run_end(line, e + 2)) + seq![' '] + end
    } else {
        line
    }
}

/// The comment-translation stage of one line: a line-comment token wins
/// over block delimiters; a grammar with neither leaves the line alone.
pub open spec fn rewrite_comment(line: Seq<char>, g: GrammarView) -> Seq<char> {
    match g.line_comment {
        Some(tok) => line_with_line_comment(line, tok),
        None => match g.block_comment {
            Some((start, end)) => line_with_block_comment(line, start, end),
            None => line,
        },
    }
}

/// How many groups of exactly four spaces stand at position `i`.
pub open spec fn indent_groups(line: Seq<char>, i: int) -> int
    decreases line.len() - i when 0 <= i
{
    if i + 4 <= line.len() && line[i] == ' ' && line[i + 1] == ' ' && line[i + 2] == ' ' && line[i
        + 3] == ' ' {
        1 + indent_groups(line, i + 4)
    } else {
        0
    }
}

/// `s` repeated `k` times.
pub open spec fn repeat(s: Seq<char>, k: int) -> Seq<char>
    decreases k when k >= 0
{
    if k <= 0 {
        Seq::empty()
    } else {
        repeat(s, k - 1) + s
    }
}

/// The indentation stage of one line: when the target unit differs from
/// four spaces, the leading run of four-space groups is replaced by as many
/// copies of the target unit.
pub open spec fn rewrite_indent(line: Seq<char>, g: GrammarView) -> Seq<char> {
    if g.indent_char == "    "@ {
        line
    } else {
        let k = indent_groups(line, 0);
        repeat(g.indent_char, k) + line.skip(4 * k)
    }
}

/// One line's full rewrite: comment translation, then indentation.
pub open spec fn rewrite_line(line: Seq<char>, g: GrammarView) -> Seq<char> {
    rewrite_indent(rewrite_comment(line, g), g)
}

/// The rewrite of the text from position `i` on: each `\n`-separated line
/// is rewritten independently and the separators are kept.
pub open spec fn rewrite_lines_from(s: Seq<char>, g: GrammarView, i: int) -> Seq<char>
    decreases s.len() - i when 0 <= i <= s.len()
{
    let j = find_char(s, '\n', i);
    if i <= j && j < s.len() {
        rewrite_line(s.subrange(i, j), g) + seq!['\n'] + rewrite_lines_from(s, g, j + 1)
    } else {
        rewrite_line(s.subrange(i, s.len() as int), g)
    }
}

/// The whole line-by-line pass.
pub open spec fn spec_rewrite_lines(s: Seq<char>, g: GrammarView) -> Seq<char> {
    rewrite_lines_from(s, g, 0)
}

/// Where [`trailing_comment_pos`] lands: its result is at most
/// `line.len()`, and when it is less, `//` stands there after whitespace.
pub proof fn lemma_trailing_comment_pos(line: Seq<char>, e: int)
    requires
        1 <= e,
    ensures
        trailing_comment_pos(line, e) <= line.len() || trailing_comment_pos(line, e) == e,
        trailing_comment_pos(line, e) < line.len() ==> e <= trailing_comment_pos(line, e),
        trailing_comment_pos(line, e) < line.len() ==> {
            let t = trailing_comment_pos(line, e);
            t + 1 < line.len() && line[t] == '/' && line[t + 1] == '/' && is_ws(line[t - 1])
        },
    decreases line.len() - e,
{
    if e + 1 < line.len() && !(line[e] == '/' && line[e + 1] == '/' && is_ws(line[e - 1])) {
        lemma_trailing_comment_pos(line, e + 1);
    }
}

/// A line without two adjacent slashes is left unchanged by a grammar
/// whose indentation unit is the universal four spaces.
pub proof fn lemma_rewrite_line_identity(line: Seq<char>, g: GrammarView)
    requires
        forall|j: int| #![trigger line[j]] 0 <= j < line.len() - 1 ==> !(line[j] == '/'
            && line[j + 1] == '/'),
        g.indent_char == "    "@,
    ensures
        rewrite_line(line, g) == line,
{
    lemma_ws_run_end(line, 0);
    assert(!starts_line_comment(line));
    lemma_trailing_comment_pos(line, 1);
    let t = trailing_comment_pos(line, 1);
    if t < line.len() {
        assert(line[t] == '/' && line[t + 1] == '/');
        assert(false);
    }
    assert(!has_trailing_comment(line));
    assert(rewrite_comment(line, g) == line);
}

/// A text without two adjacent slashes passes through the line-by-line
/// rewriter unchanged, under a grammar whose indentation unit is four
/// spaces.
pub proof fn lemma_rewrite_lines_identity_from(s: Seq<char>, g: GrammarView, i: int)
    requires
        0 <= i <= s.len(),
        forall|j: int| #![trigger s[j]] 0 <= j < s.len() - 1 ==> !(s[j] == '/' && s[j + 1] == '/'),
        g.indent_char == "    "@,
    ensures
        rewrite_lines_from(s, g, i) == s.subrange(i, s.len() as int),
    decreases s.len() - i,
{
    lemma_find_char(s, '\n', i);
    let j = find_char(s, '\n', i);
    if i <= j && j < s.len() {
        let line = s.subrange(i, j);
        assert forall|k: int| #![trigger line[k]] 0 <= k < line.len() - 1 implies !(line[k]
            == '/' && line[k + 1] == '/') by {
            assert(line[k] == s[i + k] && line[k + 1] == s[i + k + 1]);
        }
        lemma_rewrite_line_identity(line, g);
        lemma_rewrite_lines_identity_from(s, g, j + 1);
        assert(s.subrange(i, j) + seq!['\n'] + s.subrange(j + 1, s.len() as int) =~= s.subrange(
            i,
            s.len() as int,
        ));
    } else {
        let line = s.subrange(i, s.len() as int);
        assert forall|k: int| #![trigger line[k]] 0 <= k < line.len() - 1 implies !(line[k]
            == '/' && line[k + 1] == '/') by {
            assert(line[k] == s[i + k] && line[k + 1] == s[i + k + 1]);
        }
        lemma_rewrite_line_identity(line, g);
    }
}

/// Executable twin of [`find_char`].
pub(crate) fn find_char_vec(v: &Vec<char>, c: char, start: usize) -> (j: usize)
    requires
        start <= v@.len(),
    ensures
        j == find_char(v@, c, start as int),
        start <= j <= v@.len(),
        j < v@.len() ==> v@[j as int] == c,
{
    let mut i: usize = start;
    while i < v.len() && v[i] != c
        invariant
            start <= i <= v@.len(),
            find_char(v@, c, start as int) == find_char(v@, c, i as int),
        decreases v@.len() - i,
    {
        i = i + 1;
    }
    i
}

/// Executable twin of [`ws_run_end`].
pub(crate) fn ws_run_end_vec(v: &Vec<char>, start: usize) -> (j: usize)
    requires
        start <= v@.len(),
    ensures
        j == ws_run_end(v@, start as int),
        start <= j <= v@.len(),
{
    let mut i: usize = start;
    while i < v.len() && is_ws_char(v[i])
        invariant
            start <= i <= v@.len(),
            ws_run_end(v@, start as int) == ws_run_end(v@, i as int),
        decreases v@.len() - i,
    {
        i = i + 1;
    }
    i
}

/// Executable twin of [`trailing_comment_pos`], started at position 1.
fn trailing_comment_pos_vec(v: &Vec<char>) -> (e: usize)
    ensures
        e == trailing_comment_pos(v@, 1),
        e <= v@.len(),
        e < v@.len() ==> e >= 1 && e + 2 <= v@.len(),
{
    let mut e: usize = 1;
    while e < v.len() && v.len() - e > 1
        invariant
            1 <= e,
            trailing_comment_pos(v@, 1) == trailing_comment_pos(v@, e as int),
        decreases v@.len() - e,
    {
        if v[e] == '/' && v[e + 1] == '/' && is_ws_char(v[e - 1]) {
            return e;
        }
        e = e + 1;
    }
    v.len()
}

/// The comment-translation stage of one line.
fn rewrite_comment_vec(line: &Vec<char>, g: &LanguageInfo) -> (r: Vec<char>)
    ensures
        r@ == rewrite_comment(line@, g@),
{
    match &g.line_comment {
        Some(tok) => rewrite_comment_tokens(line, tok.as_str(), None),
        None => match &g.block_comment {
            Some((start, end)) => rewrite_comment_tokens(line, start.as_str(), Some(end.as_str())),
            None => {
                let mut r: Vec<char> = Vec::new();
                push_range(&mut r, line, 0, line.len());
                assert(r@ =~= line@);
                r
            },
        },
    }
}

/// Shared body of the two comment styles: rewrites with `tok` in place of
/// `//`, and additionally closes the comment with `end` when one is given.
fn rewrite_comment_tokens(line: &Vec<char>, tok: &str, end: Option<&str>) -> (r: Vec<char>)
    ensures
        end is None ==> r@ == line_with_line_comment(line@, tok@),
        end matches Some(e) ==> r@ == line_with_block_comment(line@, tok@, e@),
{
    let w = ws_run_end_vec(line, 0);
    let mut r: Vec<char> = Vec::new();
    if w < line.len() && line.len() - w > 1 && line[w] == '/' && line[w + 1] == '/' {
        let rest = ws_run_end_vec(line, w + 2);
        push_range(&mut r, line, 0, w);
        push_str_chars(&mut r, tok);
        r.push(' ');
        push_range(&mut r, line, rest, line.len());
        match end {
            Some(e) => {
                r.push(' ');
                push_str_chars(&mut r, e);
                assert(r@ =~= line@.take(w as int) + tok@ + seq![' '] + line@.skip(
                    ws_run_end(line@, w + 2),
                ) + seq![' '] + e@);
            },
            None => {
                assert(r@ =~= line@.take(w as int) + tok@ + seq![' '] + line@.skip(
                    ws_run_end(line@, w + 2),
                ));
            },
        }
        r
    } else {
        let e0 = trailing_comment_pos_vec(line);
        if e0 < line.len() {
            let rest = ws_run_end_vec(line, e0 + 2);
            push_range(&mut r, line, 0, e0);
            push_str_chars(&mut r, tok);
            r.push(' ');
            push_range(&mut r, line, rest, line.len());
            match end {
                Some(e) => {
                    r.push(' ');
                    push_str_chars(&mut r, e);
                    assert(r@ =~= line@.take(e0 as int) + tok@ + seq![' '] + line@.skip(
                        ws_run_end(line@, e0 + 2),
                    ) + seq![' '] + e@);
                },
                None => {
                    assert(r@ =~= line@.take(e0 as int) + tok@ + seq![' '] + line@.skip(
                        ws_run_end(line@, e0 + 2),
                    ));
                },
            }
            r
        } else {
            push_range(&mut r, line, 0, line.len());
            assert(r@ =~= line@);
            r
        }
    }
}

/// The indentation stage of one line.
fn rewrite_indent_vec(line: &Vec<char>, g: &LanguageInfo) -> (r: Vec<char>)
    ensures
        r@ == rewrite_indent(line@, g@),
{
    if str_eq(g.indent_char.as_str(), "    ") {
        let mut r: Vec<char> = Vec::new();
        push_range(&mut r, line, 0, line.len());
        assert(r@ =~= line@);
        r
    } else {
        let mut k: usize = 0;
        let mut i: usize = 0;
        while line.len() - i >= 4 && line[i] == ' ' && line[i + 1] == ' ' && line[i + 2] == ' '
            && line[i + 3] == ' '
            invariant
                i <= line@.len(),
                i == 4 * k,
                indent_groups(line@, 0) == k + indent_groups(line@, i as int),
            decreases line@.len() - i,
        {
            k = k + 1;
            i = i + 4;
        }
        assert(indent_groups(line@, i as int) == 0);
        assert(indent_groups(line@, 0) == k);
        let mut r: Vec<char> = Vec::new();
        let mut j: usize = 0;
        while j < k
            invariant
                j <= k,
                r@ == repeat(g@.indent_char, j as int),
            decreases k - j,
        {
            push_str_chars(&mut r, g.indent_char.as_str());
            j = j + 1;
        }
        push_range(&mut r, line, i, line.len());
        assert(r@ =~= repeat(g@.indent_char, k as int) + line@.skip(4 * (k as int)));
        r
    }
}

/// One line's full rewrite.
fn rewrite_line_vec(line: &Vec<char>, g: &LanguageInfo) -> (r: Vec<char>)
    ensures
        r@ == rewrite_line(line@, g@),
{
    let commented = rewrite_comment_vec(line, g);
    rewrite_indent_vec(&commented, g)
}

/// Rewrites the lines of `s` from position `i` on, appending to `out`.
fn rewrite_lines_rec(s: &Vec<char>, g: &LanguageInfo, i: usize, out: &mut Vec<char>)
    requires
        i <= s@.len(),
    ensures
        final(out)@ == old(out)@ + rewrite_lines_from(s@, g@, i as int),
    decreases s@.len() - i,
{
    let j = find_char_vec(s, '\n', i);
    let mut line: Vec<char> = Vec::new();
    push_range(&mut line, s, i, j);
    let rl = rewrite_line_vec(&line, g);
    push_range(out, &rl, 0, rl.len());
    assert(rl@.subrange(0, rl@.len() as int) =~= rl@);
    if j < s.len() {
        out.push('\n');
        rewrite_lines_rec(s, g, j + 1, out);
        assert(out@ =~= old(out)@ + (rewrite_line(s@.subrange(i as int, j as int), g@)
            + seq!['\n'] + rewrite_lines_from(s@, g@, j + 1)));
    } else {
        assert(s@.subrange(i as int, j as int) =~= s@.subrange(i as int, s@.len() as int));
    }
}

/// The whole line-by-line pass over `s`.
pub(crate) fn rewrite_lines_vec(s: &Vec<char>, g: &LanguageInfo) -> (r: Vec<char>)
    ensures
        r@ == spec_rewrite_lines(s@, g@),
{
    let mut out: Vec<char> = Vec::new();
    rewrite_lines_rec(s, g, 0, &mut out);
    out
}

} // verus!
