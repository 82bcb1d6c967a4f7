//! Search configuration: the query, the identifier of the content source,
//! and the case-sensitivity mode, gathered from positional arguments and an
//! explicit case toggle and validated before use.
//!
//! The toggle is passed in by the caller (for example from the presence of
//! an environment variable), so that building a configuration itself reads
//! no process-wide state.

use vstd::prelude::*;
use crate::search::{ci_matching_lines, matching_lines, search, search_case_insensitive};

verus! {

/// Why a configuration could not be built.
#[derive(Clone, Copy, Debug, PartialEq, Eq, Structural)]
pub enum ConfigError {
    /// No query argument was supplied.
    MissingQuery,
    /// No source-path argument followed the query.
    MissingSourcePath,
}

/// A validated search configuration.  Once built it is immutable: the mode
/// never changes during a search.
pub struct Config {
    /// The substring to search for.
    pub query: String,
    /// An opaque path or name identifying where the content comes from; the
    /// search itself never interprets it.
    pub file_path: String,
    /// Whether lines are matched case-insensitively.
    pub ignore_case: bool,
}

/// The lines that a search under the given mode returns.
pub open spec fn run_lines(ignore_case: bool, query: Seq<char>, contents: Seq<char>) -> Seq<
    Seq<char>,
> {
    if ignore_case {
        ci_matching_lines(query, contents)
    } else {
        matching_lines(query, contents)
    }
}

impl Config {
    /// Builds a configuration from an argument sequence whose first element
    /// is the invoking program's own name (and is discarded), followed by
    /// the query and the source path.  `ignore_case` is the externally
    /// sourced case toggle; callers that have no toggle pass `false`.
    ///
    /// Fails with `MissingQuery` when no query argument is present, and
    /// with `MissingSourcePath` when nothing follows the query.
    pub fn build(args: Vec<String>, ignore_case: bool) -> (r: Result<Config, ConfigError>)
        ensures
            r is Ok <==> args@.len() >= 3,
            r == Result::<Config, ConfigError>::Err(ConfigError::MissingQuery) <==> args@.len()
                < 2,
            r == Result::<Config, ConfigError>::Err(ConfigError::MissingSourcePath) <==> args@.len()
                == 2,
            r matches Ok(c) ==> c.query@ == args@[1]@ && c.file_path@ == args@[2]@
                && c.ignore_case == ignore_case,
    {
        let mut args = args;
        if args.len() < 2 {
            return Err(ConfigError::MissingQuery);
        }
        if args.len() < 3 {
            return Err(ConfigError::MissingSourcePath);
        }
        let query = args.remove(1);
        let file_path = args.remove(1);
        Ok(Config { query, file_path, ignore_case })
    }
}

/// Dispatches to exact or case-insensitive search according to the
/// configuration's mode; this is the only branch between the two
/// algorithms.
pub fn run<'a>(config: &Config, contents: &'a str) -> (result: Vec<&'a str>)
    ensures
        result.deep_view() == run_lines(config.ignore_case, config.query@, contents@),
{
    if config.ignore_case {
        search_case_insensitive(config.query.as_str(), contents)
    } else {
        search(config.query.as_str(), contents)
    }
}

/// Running a search twice on the same query and content yields identical
/// results, in either mode: the outcome is fully determined by the inputs.
pub proof fn lemma_run_deterministic(
    ignore_case: bool,
    query: Seq<char>,
    contents: Seq<char>,
    r1: Seq<Seq<char>>,
    r2: Seq<Seq<char>>,
)
    requires
        r1 == run_lines(ignore_case, query, contents),
        r2 == run_lines(ignore_case, query, contents),
    ensures
        r1 == r2,
{
}

} // verus!
