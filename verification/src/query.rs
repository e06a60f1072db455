//! Building the search query that is handed to the snippet store, and
//! extracting the word under the cursor that seeds it.

use vstd::prelude::*;

use crate::text::{chars_to_string, is_ws, push_range, push_str_chars, str_to_chars};

verus! {

/// Every character of `s` is whitespace (vacuously true of the empty
/// sequence).
pub open spec fn all_ws(s: Seq<char>) -> bool {
    forall|i: int| 0 <= i < s.len() ==> is_ws(#[trigger] s[i])
}

/// Whether `s` is empty or whitespace only.
pub(crate) fn is_blank(s: &str) -> (r: bool)
    ensures
        r == all_ws(s@),
{
    let n = s.unicode_len();
    let mut i: usize = 0;
    while i < n
        invariant
            n == s@.len(),
            i <= n,
            forall|j: int| 0 <= j < i ==> is_ws(#[trigger] s@[j]),
        decreases n - i,
    {
        if !crate::text::is_ws_char(s.get_char(i)) {
            return false;
        }
        i = i + 1;
    }
    true
}

/// What a snippet search asks for: an optional language, an optional
/// title prefix, and a result limit.
#[derive(Debug, Clone)]
pub struct SnippetFilter {
    pub language_id: Option<String>,
    pub query_prefix: Option<String>,
    pub max_results: usize,
}

/// The full-text-search query for a filter: snippets tagged with the
/// language or tagged universal when a non-blank language is given, and
/// every snippet otherwise.
pub open spec fn spec_fts_query(filter: SnippetFilter) -> Seq<char> {
    match filter.language_id {
        Some(l) => if !all_ws(l@) {
            "(tags:"@ + l@ + " AND tags:\"_snip_\") OR (tags:universal AND tags:\"_snip_\")"@
        } else {
            "tags:\"_snip_\""@
        },
        None => "tags:\"_snip_\""@,
    }
}

impl SnippetFilter {
    pub fn new(
        language_id: Option<String>,
        query_prefix: Option<String>,
        max_results: usize,
    ) -> (r: Self)
        ensures
            r.language_id == language_id,
            r.query_prefix == query_prefix,
            r.max_results == max_results,
    {
        SnippetFilter { language_id, query_prefix, max_results }
    }

    /// The full-text-search query for this filter; there is one for every
    /// filter.
    pub fn build_fts_query(&self) -> (r: Option<String>)
        ensures
            r matches Some(q) && q@ == spec_fts_query(*self),
    {
        match &self.language_id {
            Some(l) => {
                if !is_blank(l.as_str()) {
                    let mut out: Vec<char> = Vec::new();
                    push_str_chars(&mut out, "(tags:");
                    push_str_chars(&mut out, l.as_str());
                    push_str_chars(
                        &mut out,
                        " AND tags:\"_snip_\") OR (tags:universal AND tags:\"_snip_\")",
                    );
                    Some(chars_to_string(&out))
                } else {
                    Some("tags:\"_snip_\"".to_owned())
                }
            },
            None => Some("tags:\"_snip_\"".to_owned()),
        }
    }
}

impl Default for SnippetFilter {
    /// The default filter: no language, no prefix, 50 results.
    fn default() -> (r: Self)
        ensures
            r.language_id is None,
            r.query_prefix is None,
            r.max_results == 50,
    {
        SnippetFilter { language_id: None, query_prefix: None, max_results: 50 }
    }
}

/// Whether a character is alphanumeric. The result is a function of the
/// character alone.
pub uninterp spec fn alnum(c: char) -> bool;

/// Relies on `char::is_alphanumeric`: whether the character belongs to a
/// Unicode letter or number category, a property of the character alone.
#[verifier::external_body]
fn is_alnum_char(c: char) -> (r: bool)
    ensures
        r == alnum(c),
{
    c.is_alphanumeric()
}

/// A character that can belong to the word under the cursor.
pub open spec fn is_word_char(c: char) -> bool {
    alnum(c) || c == '_' || c == '-'
}

/// Where the word that ends at position `p` starts: the first position
/// reached from `p` by stepping left over word characters.
pub open spec fn word_start(line: Seq<char>, p: int) -> int
    decreases p when 0 <= p <= line.len()
{
    if p > 0 && is_word_char(line[p - 1]) {
        word_start(line, p - 1)
    } else {
        p
    }
}

/// Whether `line[a..b]` holds at least one alphanumeric character.
pub open spec fn has_alnum(line: Seq<char>, a: int, b: int) -> bool {
    exists|j: int| a <= j < b && alnum(#[trigger] line[j])
}

/// Extracts the word that ends at column `character` of `line`: the
/// maximal run of word characters (alphanumerics, `_`, `-`) ending there.
/// Returns the word and the column it starts at, or `None` when the
/// column is out of range, the run is empty, or the run has no
/// alphanumeric character.
pub fn extract_word_query(line: &str, character: usize) -> (r: Option<(String, usize)>)
    ensures
        character > line@.len() ==> r is None,
        character <= line@.len() ==> {
            let ws = word_start(line@, character as int);
            if ws < character && has_alnum(line@, ws, character as int) {
                r matches Some((w, s)) && w@ == line@.subrange(ws, character as int) && s == ws
            } else {
                r is None
            }
        },
{
    let chars = str_to_chars(line);
    if character > chars.len() {
        return None;
    }
    let mut i: usize = character;
    while i > 0 && is_alnum_or_mark(&chars, i - 1)
        invariant
            i <= character <= chars@.len(),
            chars@ == line@,
            word_start(line@, character as int) == word_start(line@, i as int),
        decreases i,
    {
        i = i - 1;
    }
    assert(i == word_start(line@, character as int));
    if i >= character {
        return None;
    }
    let mut j: usize = i;
    let mut any: bool = false;
    while j < character
        invariant
            i <= j <= character <= chars@.len(),
            chars@ == line@,
            any == has_alnum(line@, i as int, j as int),
        decreases character - j,
    {
        if is_alnum_char(chars[j]) {
            any = true;
            assert(has_alnum(line@, i as int, j + 1 as int));
        }
        j = j + 1;
    }
    if !any {
        return None;
    }
    let mut w: Vec<char> = Vec::new();
    push_range(&mut w, &chars, i, character);
    Some((chars_to_string(&w), i))
}

/// Whether `v[p]` is a word character.
fn is_alnum_or_mark(v: &Vec<char>, p: usize) -> (r: bool)
    requires
        p < v@.len(),
    ensures
        r == is_word_char(v@[p as int]),
{
    is_alnum_char(v[p]) || v[p] == '_' || v[p] == '-'
}

} // verus!
