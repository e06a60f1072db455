//! The file-path comment: the one editor command this server offers
//! inserts a comment holding the file's path at the top of the file. The
//! comment style follows the file's extension. Assembling the comment line
//! is pure and lives here; resolving the path against the project root is
//! file-system work and stays with the caller.

use vstd::prelude::*;

use crate::language::{spec_comment_syntax, LanguageRegistry};
use crate::text::{chars_to_string, push_str_chars, str_eq};

verus! {

/// The comment line for a file-path comment: the path wrapped in the
/// comment style that fits `uri`'s extension, ending in a newline.
pub open spec fn spec_filepath_comment(uri: Seq<char>, path: Seq<char>) -> Seq<char> {
    let syntax = spec_comment_syntax(uri);
    if syntax == "<!--"@ {
        "<!-- "@ + path + " -->\n"@
    } else if syntax == "/*"@ {
        "/* "@ + path + " */\n"@
    } else {
        syntax + " "@ + path + "\n"@
    }
}

/// Executes editor commands; the one command is the file-path comment.
pub struct CommandService;

impl CommandService {
    /// The text of the file-path comment for `file_uri`, holding
    /// `relative_path`.
    pub fn filepath_comment_text(file_uri: &str, relative_path: &str) -> (r: String)
        ensures
            r@ == spec_filepath_comment(file_uri@, relative_path@),
    {
        let syntax = LanguageRegistry::get_comment_syntax(file_uri);
        let mut out: Vec<char> = Vec::new();
        if str_eq(syntax, "<!--") {
            push_str_chars(&mut out, "<!-- ");
            push_str_chars(&mut out, relative_path);
            push_str_chars(&mut out, " -->\n");
        } else if str_eq(syntax, "/*") {
            push_str_chars(&mut out, "/* ");
            push_str_chars(&mut out, relative_path);
            push_str_chars(&mut out, " */\n");
        } else {
            push_str_chars(&mut out, syntax);
            push_str_chars(&mut out, " ");
            push_str_chars(&mut out, relative_path);
            push_str_chars(&mut out, "\n");
        }
        proof {
            if spec_comment_syntax(file_uri@) == "<!--"@ {
                assert(out@ =~= "<!-- "@ + relative_path@ + " -->\n"@);
            } else if spec_comment_syntax(file_uri@) == "/*"@ {
                assert(out@ =~= "/* "@ + relative_path@ + " */\n"@);
            } else {
                assert(out@ =~= spec_comment_syntax(file_uri@) + " "@ + relative_path@ + "\n"@);
            }
        }
        chars_to_string(&out)
    }
}

} // verus!
