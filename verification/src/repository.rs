//! The snippet-store repository: building the argument list for the store's
//! command-line search interface. Spawning the store process and parsing
//! its output are the caller's business; everything here is pure.

use vstd::prelude::*;

use crate::config::RepositoryConfig;
use crate::query::{all_ws, spec_fts_query, SnippetFilter};
use crate::text::{chars_to_string, dec_digits, push_str_chars, u64_to_string};

verus! {

/// The arguments of one store invocation: the search subcommand, JSON
/// output, interpolation, the result limit, and the full-text-search
/// query, extended with a title-prefix term when the filter carries a
/// non-blank prefix.
pub open spec fn spec_command_args(filter: SnippetFilter) -> Seq<Seq<char>> {
    let lang_part = "("@ + spec_fts_query(filter) + ")"@;
    let query = match filter.query_prefix {
        Some(p) => if !all_ws(p@) {
            lang_part + " AND metadata:"@ + p@ + "*"@
        } else {
            lang_part
        },
        None => lang_part,
    };
    seq![
        "search"@,
        "--json"@,
        "--interpolate"@,
        "--limit"@,
        dec_digits(filter.max_results as nat),
        query,
    ]
}

/// Repository that reaches snippets through the store's command-line
/// interface.
pub struct BkmrRepository {
    pub config: RepositoryConfig,
}

impl BkmrRepository {
    pub fn new(config: RepositoryConfig) -> (r: Self)
        ensures
            r.config == config,
    {
        BkmrRepository { config }
    }

    /// The argument list for one search against the store.
    pub fn build_command_args(&self, filter: &SnippetFilter) -> (r: Vec<String>)
        ensures
            r@.map_values(|s: String| s@) == spec_command_args(*filter),
    {
        let mut args: Vec<String> = Vec::new();
        args.push("search".to_owned());
        args.push("--json".to_owned());
        args.push("--interpolate".to_owned());
        args.push("--limit".to_owned());
        args.push(u64_to_string(filter.max_results as u64));
        let q = match filter.build_fts_query() {
            Some(s) => s,
            None => {
                assert(false);
                String::new()
            },
        };
        let mut qv: Vec<char> = Vec::new();
        push_str_chars(&mut qv, "(");
        push_str_chars(&mut qv, q.as_str());
        push_str_chars(&mut qv, ")");
        match &filter.query_prefix {
            Some(p) => {
                if !crate::query::is_blank(p.as_str()) {
                    push_str_chars(&mut qv, " AND metadata:");
                    push_str_chars(&mut qv, p.as_str());
                    push_str_chars(&mut qv, "*");
                }
            },
            None => {},
        }
        args.push(chars_to_string(&qv));
        proof {
            assert(qv@ =~= match filter.query_prefix {
                Some(p) => if !all_ws(p@) {
                    ("("@ + spec_fts_query(*filter) + ")"@) + " AND metadata:"@ + p@ + "*"@
                } else {
                    "("@ + spec_fts_query(*filter) + ")"@
                },
                None => "("@ + spec_fts_query(*filter) + ")"@,
            });
            assert(args@.map_values(|s: String| s@) =~= spec_command_args(*filter));
        }
        args
    }
}

} // verus!
