//! The language grammar registry: a fixed table mapping a language
//! identifier to the comment and indentation conventions of that language.
//! Lookup is case-insensitive and never fails; unknown identifiers resolve
//! to a fallback grammar (line comment `#`, no block comment, four-space
//! indentation).

use vstd::prelude::*;

use crate::text::{
    after_last, lemma_lower_idempotent, lower, seq_eq_str, str_to_chars, suffix_after_last,
    to_lower_chars,
};

verus! {

/// Comment and indentation conventions of one target language.
#[derive(Debug, Clone)]
pub struct LanguageInfo {
    /// Token that starts a line comment, or `None` when the language has no
    /// line comments.
    pub line_comment: Option<String>,
    /// Paired block comment delimiters, or `None` when the language has no
    /// block comments.
    pub block_comment: Option<(String, String)>,
    /// The string inserted per indentation level.
    pub indent_char: String,
}

/// The mathematical value of a [`LanguageInfo`].
pub ghost struct GrammarView {
    pub line_comment: Option<Seq<char>>,
    pub block_comment: Option<(Seq<char>, Seq<char>)>,
    pub indent_char: Seq<char>,
}

impl View for LanguageInfo {
    type V = GrammarView;

    open spec fn view(&self) -> GrammarView {
        GrammarView {
            line_comment: match self.line_comment {
                Some(s) => Some(s@),
                None => None,
            },
            block_comment: match self.block_comment {
                Some((a, b)) => Some((a@, b@)),
                None => None,
            },
            indent_char: self.indent_char@,
        }
    }
}

/// Builds a grammar value from its three parts.
pub open spec fn grammar(
    line_comment: Option<Seq<char>>,
    block_comment: Option<(Seq<char>, Seq<char>)>,
    indent_char: Seq<char>,
) -> GrammarView {
    GrammarView { line_comment, block_comment, indent_char }
}

/// The grammar that unknown language identifiers resolve to.
pub open spec fn fallback_grammar() -> GrammarView {
    grammar(Some("#"@), None, "    "@)
}

/// Whether `s` (already lowercased) is one of the identifiers in the table.
pub open spec fn is_known_language(s: Seq<char>) -> bool {
    ||| s == "rust"@
    ||| s == "javascript"@
    ||| s == "js"@
    ||| s == "typescript"@
    ||| s == "ts"@
    ||| s == "python"@
    ||| s == "go"@
    ||| s == "java"@
    ||| s == "c"@
    ||| s == "cpp"@
    ||| s == "c++"@
    ||| s == "html"@
    ||| s == "css"@
    ||| s == "scss"@
    ||| s == "ruby"@
    ||| s == "php"@
    ||| s == "swift"@
    ||| s == "kotlin"@
    ||| s == "shell"@
    ||| s == "bash"@
    ||| s == "sh"@
    ||| s == "yaml"@
    ||| s == "yml"@
    ||| s == "json"@
    ||| s == "markdown"@
    ||| s == "md"@
    ||| s == "xml"@
    ||| s == "vim"@
    ||| s == "viml"@
}

/// The grammar table, keyed by the lowercased language identifier.
pub open spec fn spec_grammar(s: Seq<char>) -> GrammarView {
    if s == "rust"@ {
        grammar(Some("//"@), Some(("/*"@, "*/"@)), "    "@)
    } else if s == "javascript"@ || s == "js"@ {
        grammar(Some("//"@), Some(("/*"@, "*/"@)), "  "@)
    } else if s == "typescript"@ || s == "ts"@ {
        grammar(Some("//"@), Some(("/*"@, "*/"@)), "  "@)
    } else if s == "python"@ {
        grammar(Some("#"@), Some(("\"\"\""@, "\"\"\""@)), "    "@)
    } else if s == "go"@ {
        grammar(Some("//"@), Some(("/*"@, "*/"@)), "\t"@)
    } else if s == "java"@ {
        grammar(Some("//"@), Some(("/*"@, "*/"@)), "    "@)
    } else if s == "c"@ {
        grammar(Some("//"@), Some(("/*"@, "*/"@)), "    "@)
    } else if s == "cpp"@ || s == "c++"@ {
        grammar(Some("//"@), Some(("/*"@, "*/"@)), "    "@)
    } else if s == "html"@ {
        grammar(None, Some(("<!--"@, "-->"@)), "  "@)
    } else if s == "css"@ {
        grammar(None, Some(("/*"@, "*/"@)), "  "@)
    } else if s == "scss"@ {
        grammar(Some("//"@), Some(("/*"@, "*/"@)), "  "@)
    } else if s == "ruby"@ {
        grammar(Some("#"@), Some(("=begin"@, "=end"@)), "  "@)
    } else if s == "php"@ {
        grammar(Some("//"@), Some(("/*"@, "*/"@)), "    "@)
    } else if s == "swift"@ {
        grammar(Some("//"@), Some(("/*"@, "*/"@)), "    "@)
    } else if s == "kotlin"@ {
        grammar(Some("//"@), Some(("/*"@, "*/"@)), "    "@)
    } else if s == "shell"@ || s == "bash"@ || s == "sh"@ {
        grammar(Some("#"@), None, "    "@)
    } else if s == "yaml"@ || s == "yml"@ {
        grammar(Some("#"@), None, "  "@)
    } else if s == "json"@ {
        grammar(None, None, "  "@)
    } else if s == "markdown"@ || s == "md"@ {
        grammar(None, Some(("<!--"@, "-->"@)), "  "@)
    } else if s == "xml"@ {
        grammar(None, Some(("<!--"@, "-->"@)), "  "@)
    } else if s == "vim"@ || s == "viml"@ {
        grammar(Some("\""@), None, "  "@)
    } else {
        fallback_grammar()
    }
}

/// What a lookup of `s` (in its original spelling) returns.
pub open spec fn lookup_spec(s: Seq<char>) -> GrammarView {
    spec_grammar(lower(s))
}

/// Every known language other than `json` has at least one comment style.
/// `json` is the one entry of the table with neither a line nor a block
/// comment.
pub proof fn lemma_known_language_has_comment_style(s: Seq<char>)
    requires
        is_known_language(s),
        s != "json"@,
    ensures
        spec_grammar(s).line_comment is Some || spec_grammar(s).block_comment is Some,
{
}

/// Identifiers outside the table resolve to the fallback grammar.
pub proof fn lemma_unknown_language_gets_fallback(s: Seq<char>)
    requires
        !is_known_language(s),
    ensures
        spec_grammar(s) == fallback_grammar(),
{
}

/// Lookup is case-insensitive: an identifier and its lowercased spelling
/// resolve to the same grammar.
pub proof fn lemma_lookup_case_insensitive(s: Seq<char>)
    ensures
        lookup_spec(s) == lookup_spec(lower(s)),
{
    lemma_lower_idempotent(s);
}

/// Whether `seg` has a `.` anywhere after its first character, which is
/// what it takes for the part after the last `.` to count as an extension
/// (a name such as `.bashrc` has none).
pub open spec fn has_extension_dot(seg: Seq<char>) -> bool {
    exists|i: int| 1 <= i < seg.len() && seg[i] == '.'
}

/// The extension of the final path segment of `path`, or the empty
/// sequence when there is none.
pub open spec fn extension_of(path: Seq<char>) -> Seq<char> {
    let seg = after_last(path, '/');
    if has_extension_dot(seg) {
        after_last(seg, '.')
    } else {
        Seq::empty()
    }
}

/// The comment token used when a file-path comment is inserted, chosen by
/// the extension of the path's final segment.
pub open spec fn spec_comment_syntax(path: Seq<char>) -> Seq<char> {
    let ext = extension_of(path);
    if ext == "rs"@ || ext == "js"@ || ext == "mjs"@ || ext == "ts"@ || ext == "tsx"@ || ext
        == "go"@ || ext == "java"@ || ext == "c"@ || ext == "h"@ || ext == "cpp"@ || ext == "cc"@
        || ext == "cxx"@ || ext == "hpp"@ || ext == "swift"@ || ext == "kt"@ || ext == "kts"@
        || ext == "scss"@ || ext == "php"@ {
        "//"@
    } else if ext == "html"@ || ext == "htm"@ || ext == "md"@ || ext == "markdown"@ || ext
        == "xml"@ {
        "<!--"@
    } else if ext == "css"@ {
        "/*"@
    } else if ext == "vim"@ {
        "\""@
    } else {
        "#"@
    }
}

/// The per-language lookup table. Constructed data only; no mutable state.
pub struct LanguageRegistry;

spec fn opt_str_view(o: Option<&str>) -> Option<Seq<char>> {
    match o {
        Some(s) => Some(s@),
        None => None,
    }
}

spec fn opt_pair_view(o: Option<(&str, &str)>) -> Option<(Seq<char>, Seq<char>)> {
    match o {
        Some((a, b)) => Some((a@, b@)),
        None => None,
    }
}

fn mk_info(
    line_comment: Option<&str>,
    block_comment: Option<(&str, &str)>,
    indent_char: &str,
) -> (r: LanguageInfo)
    ensures
        r@ == grammar(opt_str_view(line_comment), opt_pair_view(block_comment), indent_char@),
{
    LanguageInfo {
        line_comment: match line_comment {
            Some(s) => Some(s.to_owned()),
            None => None,
        },
        block_comment: match block_comment {
            Some((a, b)) => Some((a.to_owned(), b.to_owned())),
            None => None,
        },
        indent_char: indent_char.to_owned(),
    }
}

impl LanguageRegistry {
    /// Looks up the grammar of `language_id`, case-insensitively; unknown
    /// identifiers get the fallback grammar.
    pub fn get_language_info(language_id: &str) -> (r: LanguageInfo)
        ensures
            r@ == lookup_spec(language_id@),
    {
        let chars = str_to_chars(language_id);
        let low = to_lower_chars(&chars);
        if seq_eq_str(&low, "rust") {
            mk_info(Some("//"), Some(("/*", "*/")), "    ")
        } else if seq_eq_str(&low, "javascript") || seq_eq_str(&low, "js") {
            mk_info(Some("//"), Some(("/*", "*/")), "  ")
        } else if seq_eq_str(&low, "typescript") || seq_eq_str(&low, "ts") {
            mk_info(Some("//"), Some(("/*", "*/")), "  ")
        } else if seq_eq_str(&low, "python") {
            mk_info(Some("#"), Some(("\"\"\"", "\"\"\"")), "    ")
        } else if seq_eq_str(&low, "go") {
            mk_info(Some("//"), Some(("/*", "*/")), "\t")
        } else if seq_eq_str(&low, "java") {
            mk_info(Some("//"), Some(("/*", "*/")), "    ")
        } else if seq_eq_str(&low, "c") {
            mk_info(Some("//"), Some(("/*", "*/")), "    ")
        } else if seq_eq_str(&low, "cpp") || seq_eq_str(&low, "c++") {
            mk_info(Some("//"), Some(("/*", "*/")), "    ")
        } else if seq_eq_str(&low, "html") {
            mk_info(None, Some(("<!--", "-->")), "  ")
        } else if seq_eq_str(&low, "css") {
            mk_info(None, Some(("/*", "*/")), "  ")
        } else if seq_eq_str(&low, "scss") {
            mk_info(Some("//"), Some(("/*", "*/")), "  ")
        } else if seq_eq_str(&low, "ruby") {
            mk_info(Some("#"), Some(("=begin", "=end")), "  ")
        } else if seq_eq_str(&low, "php") {
            mk_info(Some("//"), Some(("/*", "*/")), "    ")
        } else if seq_eq_str(&low, "swift") {
            mk_info(Some("//"), Some(("/*", "*/")), "    ")
        } else if seq_eq_str(&low, "kotlin") {
            mk_info(Some("//"), Some(("/*", "*/")), "    ")
        } else if seq_eq_str(&low, "shell") || seq_eq_str(&low, "bash") || seq_eq_str(&low, "sh") {
            mk_info(Some("#"), None, "    ")
        } else if seq_eq_str(&low, "yaml") || seq_eq_str(&low, "yml") {
            mk_info(Some("#"), None, "  ")
        } else if seq_eq_str(&low, "json") {
            mk_info(None, None, "  ")
        } else if seq_eq_str(&low, "markdown") || seq_eq_str(&low, "md") {
            mk_info(None, Some(("<!--", "-->")), "  ")
        } else if seq_eq_str(&low, "xml") {
            mk_info(None, Some(("<!--", "-->")), "  ")
        } else if seq_eq_str(&low, "vim") || seq_eq_str(&low, "viml") {
            mk_info(Some("\""), None, "  ")
        } else {
            mk_info(Some("#"), None, "    ")
        }
    }

    /// The comment token for a file-path comment, chosen by the extension
    /// of the path's final segment.
    pub fn get_comment_syntax(file_path: &str) -> (r: &'static str)
        ensures
            r@ == spec_comment_syntax(file_path@),
    {
        let chars = str_to_chars(file_path);
        let seg = suffix_after_last(&chars, '/');
        let mut has_dot: bool = false;
        let mut i: usize = 1;
        while i < seg.len()
            invariant
                1 <= i || seg@.len() == 0,
                i <= seg@.len() || (i == 1 && seg@.len() == 0),
                has_dot == exists|j: int| 1 <= j < i && seg@[j] == '.',
            decreases seg@.len() - i,
        {
            if seg[i] == '.' {
                has_dot = true;
                assert(1 <= i < i + 1 && seg@[i as int] == '.');
            }
            i = i + 1;
        }
        assert(has_dot == has_extension_dot(seg@));
        let ext: Vec<char> = if has_dot {
            suffix_after_last(&seg, '.')
        } else {
            Vec::new()
        };
        assert(ext@ == extension_of(file_path@));
        if seq_eq_str(&ext, "rs") || seq_eq_str(&ext, "js") || seq_eq_str(&ext, "mjs")
            || seq_eq_str(&ext, "ts") || seq_eq_str(&ext, "tsx") || seq_eq_str(&ext, "go")
            || seq_eq_str(&ext, "java") || seq_eq_str(&ext, "c") || seq_eq_str(&ext, "h")
            || seq_eq_str(&ext, "cpp") || seq_eq_str(&ext, "cc") || seq_eq_str(&ext, "cxx")
            || seq_eq_str(&ext, "hpp") || seq_eq_str(&ext, "swift") || seq_eq_str(&ext, "kt")
            || seq_eq_str(&ext, "kts") || seq_eq_str(&ext, "scss") || seq_eq_str(&ext, "php") {
            "//"
        } else if seq_eq_str(&ext, "html") || seq_eq_str(&ext, "htm") || seq_eq_str(&ext, "md")
            || seq_eq_str(&ext, "markdown") || seq_eq_str(&ext, "xml") {
            "<!--"
        } else if seq_eq_str(&ext, "css") {
            "/*"
        } else if seq_eq_str(&ext, "vim") {
            "\""
        } else {
            "#"
        }
    }
}

} // verus!
