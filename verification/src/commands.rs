//! The commands the program accepts, the batch parsing of their query
//! arguments, and the rate limit on catalog refreshes. Argument parsing
//! from the command line and dispatch with its I/O are the surrounding
//! program's work.

use vstd::prelude::*;

use crate::errs::CommandError;
use crate::ls::LsFormat;
use crate::query::{QueryV, VersionSearchQuery, parse_query, spec_parse_query};
use crate::repo_formatting::SortFormat;

verus! {

/// A way to launch an installed build.
#[derive(Debug, Clone, PartialEq)]
pub enum RunCommand {
    /// Open a specific file with whichever build suits it.
    File { path: String },
    /// Launch a specific build, with extra arguments for it.
    Build { build: Option<String>, args: Vec<String> },
}

/// One top-level command.
#[derive(Debug, Clone, PartialEq)]
pub enum Command {
    /// Refresh the remote catalogs; downloads no build.
    Fetch { force: bool, parallel: bool, ignore_errors: bool },
    /// Check every installed build's metadata, regenerating what is
    /// missing.
    Verify { repos: Option<Vec<String>> },
    /// Download builds matching the queries.
    Pull { queries: Vec<String>, all_platforms: bool },
    /// Remove installed builds matching the queries.
    Rm { queries: Vec<String>, no_trash: bool },
    /// List available and installed builds.
    Ls {
        format: Option<LsFormat>,
        sort_by: Option<SortFormat>,
        installed_only: bool,
        variants: bool,
        all_builds: bool,
    },
    /// Launch an installed build.
    Run { command: RunCommand },
}

/// The models of a list of parsed queries.
pub open spec fn parsed_query_views(qs: Seq<VersionSearchQuery>) -> Seq<QueryV> {
    qs.map_values(|q: VersionSearchQuery| q@)
}

/// Parses a batch of query strings before any other work. An empty
/// batch is an error; a string that fails the grammar fails the whole
/// batch, naming the first offending string; otherwise every query is
/// returned, parsed, in order.
pub fn strings_to_queries(queries: &Vec<String>) -> (r: Result<
    Vec<VersionSearchQuery>,
    CommandError,
>)
    ensures
        queries@.len() == 0 ==> r is Err && r->Err_0 == CommandError::MissingQuery,
        r is Ok ==> {
            &&& queries@.len() > 0
            &&& r->Ok_0@.len() == queries@.len()
            &&& forall|k: int|
                0 <= k < queries@.len() ==> spec_parse_query((#[trigger] queries@[k])@) == Some(
                    parsed_query_views(r->Ok_0@)[k],
                )
        },
        r is Err && queries@.len() > 0 ==> exists|k: int|
            {
                &&& 0 <= k < queries@.len()
                &&& spec_parse_query((#[trigger] queries@[k])@) is None
                &&& r->Err_0 == CommandError::CouldNotParseQuery(queries@[k])
                &&& forall|j: int| 0 <= j < k ==> spec_parse_query(queries@[j]@) is Some
            },
{
    if queries.len() == 0 {
        return Err(CommandError::MissingQuery);
    }
    let mut out: Vec<VersionSearchQuery> = Vec::new();
    let mut i: usize = 0;
    while i < queries.len()
        invariant
            i <= queries@.len(),
            out@.len() == i,
            forall|k: int|
                0 <= k < i ==> spec_parse_query((#[trigger] queries@[k])@) == Some(
                    parsed_query_views(out@)[k],
                ),
        decreases queries@.len() - i,
    {
        match parse_query(queries[i].as_str()) {
            Ok(q) => {
                out.push(q);
            },
            Err(_) => {
                return Err(CommandError::CouldNotParseQuery(queries[i].clone()));
            },
        }
        i = i + 1;
    }
    Ok(out)
}

/// Whether a catalog refresh is allowed: enough time has passed since
/// the last one, or the operator forces it. A denied refresh reports
/// how many seconds remain. A never-refreshed configuration counts as
/// last checked at the epoch.
pub fn fetch_due(last_checked: Option<i64>, interval: i64, now: i64, force: bool) -> (r: Result<
    (),
    i64,
>)
    requires
        i64::MIN <= (match last_checked {
            Some(t) => t as int,
            None => 0,
        }) + interval <= i64::MAX,
        i64::MIN <= (match last_checked {
            Some(t) => t as int,
            None => 0,
        }) + interval - now <= i64::MAX,
    ensures
        ({
            let ready_time = (match last_checked {
                Some(t) => t as int,
                None => 0,
            }) + interval;
            &&& (r is Ok <==> (ready_time < now || force))
            &&& (r is Err ==> r->Err_0 == ready_time - now)
        }),
{
    let checked: i64 = match last_checked {
        Some(t) => t,
        None => 0,
    };
    let ready_time = checked + interval;
    if ready_time < now || force {
        Ok(())
    } else {
        Err(ready_time - now)
    }
}

} // verus!
