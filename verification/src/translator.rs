//! The translation orchestrator: grammar lookup, the line-by-line pass,
//! the block pass, and filename substitution, in that order. Only snippets
//! tagged universal are translated; all others pass through unchanged.

use vstd::prelude::*;

use crate::blocks::{lemma_rewrite_blocks_identity, rewrite_blocks_vec, spec_rewrite_blocks};
use crate::escape::spec_escape;
use crate::filename::{contains_at, contains_seq, filename_token, lemma_replace_identity,
    spec_substitute, substitute_filename};
use crate::language::{lookup_spec, LanguageRegistry};
use crate::rewrite::{lemma_rewrite_lines_identity_from, rewrite_lines_vec, spec_rewrite_lines};
use crate::snippet::Snippet;
use crate::text::{after_last, chars_to_string, str_to_chars};

verus! {

/// The orchestrator's one failure mode: an internal invariant did not
/// hold. The fallback grammar guarantee keeps this from ever arising; the
/// variant exists so that callers can tell an internal error from "no
/// translation needed".
#[derive(Debug, Clone, Copy, PartialEq, Eq, Structural)]
pub enum TranslationError {
    InternalInvariant,
}

/// What translating a universal body to `language_id` yields: the line
/// pass, then the block pass, then filename substitution, all under the
/// grammar that `language_id` resolves to.
pub open spec fn spec_translate(
    content: Seq<char>,
    language_id: Seq<char>,
    source_path: Seq<char>,
) -> Seq<char> {
    let g = lookup_spec(language_id);
    spec_substitute(spec_rewrite_blocks(spec_rewrite_lines(content, g), g), source_path)
}

/// Translating already-translated output a second time with the same
/// target grammar changes nothing, provided the first translation's output
/// no longer holds the universal markers (`//`, `/*`, a `{{ filename }}`
/// token) and the grammar keeps the universal four-space indentation unit.
/// (Rewriting is not idempotent in general: a body such as `// a // b`
/// still holds `//` after one translation.)
pub proof fn lemma_translate_stable(
    content: Seq<char>,
    language_id: Seq<char>,
    source_path: Seq<char>,
)
    requires
        lookup_spec(language_id).indent_char == "    "@,
        !contains_seq(spec_translate(content, language_id, source_path), "//"@),
        !contains_seq(spec_translate(content, language_id, source_path), "/*"@),
        !contains_seq(spec_translate(content, language_id, source_path), filename_token()),
    ensures
        spec_translate(spec_translate(content, language_id, source_path), language_id, source_path)
            == spec_translate(content, language_id, source_path),
{
    let g = lookup_spec(language_id);
    let t = spec_translate(content, language_id, source_path);
    reveal_strlit("//");
    reveal_strlit("/*");
    reveal_strlit("{{ filename }}");
    assert forall|j: int| #![trigger t[j]] 0 <= j < t.len() - 1 implies !(t[j] == '/' && t[j
        + 1] == '/') by {
        if t[j] == '/' && t[j + 1] == '/' {
            assert(t.subrange(j, j + 2) =~= "//"@);
            assert(contains_at(t, "//"@, j));
            assert(contains_seq(t, "//"@));
        }
    }
    assert forall|j: int| #![trigger t[j]] 0 <= j < t.len() - 1 implies !(t[j] == '/' && t[j
        + 1] == '*') by {
        if t[j] == '/' && t[j + 1] == '*' {
            assert(t.subrange(j, j + 2) =~= "/*"@);
            assert(contains_at(t, "/*"@, j));
            assert(contains_seq(t, "/*"@));
        }
    }
    lemma_rewrite_lines_identity_from(t, g, 0);
    assert(t.subrange(0, t.len() as int) =~= t);
    lemma_rewrite_blocks_identity(t, g);
    lemma_replace_identity(t, filename_token(), after_last(source_path, '/'));
}

/// Translates universal snippet bodies into a target language's
/// conventions.
pub struct LanguageTranslator;

impl LanguageTranslator {
    /// Rewrites the universal markers of `content` — `//` comments,
    /// `/* ... */` blocks, four-space indentation, the `{{ filename }}`
    /// token — into the conventions of `language_id`. Never fails.
    pub fn translate_rust_patterns(content: &str, language_id: &str, source_path: &str) -> (r:
        Result<String, TranslationError>)
        ensures
            r matches Ok(t) && t@ == spec_translate(content@, language_id@, source_path@),
    {
        let g = LanguageRegistry::get_language_info(language_id);
        let chars = str_to_chars(content);
        let lined = rewrite_lines_vec(&chars, &g);
        let blocked = rewrite_blocks_vec(&lined, &g);
        let joined = chars_to_string(&blocked);
        Ok(substitute_filename(joined.as_str(), source_path))
    }

    /// Translates a snippet's body when the snippet is tagged universal,
    /// and returns the body unchanged otherwise. Never fails.
    pub fn translate_snippet(snippet: &Snippet, language_id: &str, source_path: &str) -> (r: Result<
        String,
        TranslationError,
    >)
        ensures
            snippet.has_tag("universal"@) ==> (r matches Ok(t) && t@ == spec_translate(
                snippet.content@,
                language_id@,
                source_path@,
            )),
            !snippet.has_tag("universal"@) ==> (r matches Ok(t) && t@ == snippet.content@),
    {
        if snippet.is_universal() {
            Self::translate_rust_patterns(snippet.get_content(), language_id, source_path)
        } else {
            Ok(snippet.get_content().to_owned())
        }
    }

    /// Escapes the environment-variable references of `content` that do
    /// not overlap LSP snippet syntax. With escaping disabled, the input
    /// comes back unchanged, byte for byte.
    pub fn escape_environment_variables(content: &str, should_escape: bool) -> (r: String)
        ensures
            should_escape ==> r@ == spec_escape(content@),
            !should_escape ==> r@ == content@,
    {
        crate::escape::escape_environment_variables(content, should_escape)
    }
}

} // verus!
