//! Configuration records for the server and for the snippet repository.

use vstd::prelude::*;

verus! {

/// Configuration of the server: which snippet-store binary to invoke, how
/// many completions to return, and whether environment variables in
/// snippet bodies are escaped.
#[derive(Debug, Clone)]
pub struct BkmrConfig {
    pub bkmr_binary: String,
    pub max_completions: usize,
    pub escape_variables: bool,
}

impl Default for BkmrConfig {
    /// The defaults: the `bkmr` binary, 50 completions, escaping on.
    fn default() -> (r: Self)
        ensures
            r.bkmr_binary@ == "bkmr"@,
            r.max_completions == 50,
            r.escape_variables == true,
    {
        BkmrConfig { bkmr_binary: "bkmr".to_owned(), max_completions: 50, escape_variables: true }
    }
}

/// Configuration of a snippet repository.
#[derive(Debug, Clone)]
pub struct RepositoryConfig {
    pub binary_path: String,
    pub max_results: usize,
    pub timeout_seconds: u64,
}

impl Default for RepositoryConfig {
    /// The defaults: the `bkmr` binary, 50 results, a ten-second timeout.
    fn default() -> (r: Self)
        ensures
            r.binary_path@ == "bkmr"@,
            r.max_results == 50,
            r.timeout_seconds == 10,
    {
        RepositoryConfig { binary_path: "bkmr".to_owned(), max_results: 50, timeout_seconds: 10 }
    }
}

impl From<BkmrConfig> for RepositoryConfig {
    /// Carries the binary path and result limit over; the timeout is the
    /// repository default of ten seconds.
    fn from(config: BkmrConfig) -> (r: Self) {
        RepositoryConfig {
            binary_path: config.bkmr_binary,
            max_results: config.max_completions,
            timeout_seconds: 10,
        }
    }
}

impl vstd::std_specs::convert::FromSpecImpl<BkmrConfig> for RepositoryConfig {
    open spec fn obeys_from_spec() -> bool {
        true
    }

    open spec fn from_spec(config: BkmrConfig) -> RepositoryConfig {
        RepositoryConfig {
            binary_path: config.bkmr_binary,
            max_results: config.max_completions,
            timeout_seconds: 10,
        }
    }
}

} // verus!
