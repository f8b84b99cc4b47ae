//! Launch planning for an installed build: what to run, which query
//! selects the build, and how strictly ambiguity is treated. The
//! process launch itself, and reading a file's header to guess its
//! version, are the surrounding program's work.

use vstd::prelude::*;

use crate::commands::RunCommand;
use crate::errs::CommandError;
use crate::query::{
    OrdPlacement, QueryV, TimePlacement, VersionSearchQuery, parse_query, spec_parse_query,
};

verus! {

/// What the launch command resolved its arguments to.
#[derive(Debug, Clone, PartialEq)]
pub struct RunTarget {
    /// A file to open, when one was given.
    pub file: Option<String>,
    /// The query selecting the build, when one was given.
    pub query: Option<VersionSearchQuery>,
    /// Extra arguments for the launched build.
    pub args: Vec<String>,
}

/// Turns the launch command into a target. A file is opened with the
/// build its header suggests (the query stays open here); launching a
/// named build parses the name as a query; a missing name is too little
/// input; a name that fails the grammar is reported with it.
pub fn run_plan(cmd: &RunCommand) -> (r: Result<RunTarget, CommandError>)
    ensures
        cmd is File ==> r is Ok && r->Ok_0.file == Some(cmd->File_path) && r->Ok_0.query is None
            && r->Ok_0.args@.len() == 0,
        cmd is Build && cmd->Build_build is None ==> r is Err && r->Err_0
            == CommandError::NotEnoughInput,
        cmd is Build && cmd->Build_build is Some ==> {
            let text = cmd->Build_build->0;
            match spec_parse_query(text@) {
                Some(qv) => r is Ok && r->Ok_0.file is None && r->Ok_0.query is Some
                    && r->Ok_0.query->0@ == qv && r->Ok_0.args@ == cmd->Build_args@,
                None => r is Err && r->Err_0 == CommandError::CouldNotParseQuery(text),
            }
        },
{
    match cmd {
        RunCommand::File { path } => Ok(
            RunTarget { file: Some(path.clone()), query: None, args: Vec::new() },
        ),
        RunCommand::Build { build, args } => match build {
            None => Err(CommandError::NotEnoughInput),
            Some(text) => match parse_query(text.as_str()) {
                Ok(q) => {
                    let mut a: Vec<String> = Vec::new();
                    let mut i: usize = 0;
                    while i < args.len()
                        invariant
                            i <= args@.len(),
                            a@.len() == i,
                            forall|k: int| 0 <= k < i ==> a@[k] == args@[k],
                        decreases args@.len() - i,
                    {
                        a.push(args[i].clone());
                        i = i + 1;
                    }
                    proof {
                        assert(a@ =~= args@);
                    }
                    Ok(RunTarget { file: None, query: Some(q), args: a })
                },
                Err(_) => Err(CommandError::CouldNotParseQuery(text.clone())),
            },
        },
    }
}

/// The query a file header suggests: exactly the header's major and
/// minor version, any patch, any branch, hash or commit time.
pub fn query_from_header(major: u64, minor: u64) -> (q: VersionSearchQuery)
    ensures
        q@ == (QueryV {
            repository: None,
            major: OrdPlacement::Exact(major),
            minor: OrdPlacement::Exact(minor),
            patch: OrdPlacement::Any,
            branch: None,
            build_hash: None,
            commit_dt: TimePlacement::Any,
        }),
{
    VersionSearchQuery {
        repository: crate::query::WildPlacement::Any,
        major: OrdPlacement::Exact(major),
        minor: OrdPlacement::Exact(minor),
        patch: OrdPlacement::Any,
        branch: crate::query::WildPlacement::Any,
        build_hash: crate::query::WildPlacement::Any,
        commit_dt: TimePlacement::Any,
    }
}

/// How the build selection proceeds for a launch, given how many
/// installed builds matched and whether unresolved ambiguity is fatal.
#[derive(Debug, Clone, Copy, PartialEq, Eq, Structural)]
pub enum SelectionPlan {
    /// Exactly one match: use it, no prompt.
    UseSingle,
    /// Ambiguity in strict mode: fail instead of prompting.
    FailAmbiguous,
    /// No match in interactive mode: offer every installed build.
    MenuOverAll,
    /// Several matches in interactive mode: offer the matches.
    MenuOverMatches,
}

/// Decides the selection plan: one match is used as is; in strict mode
/// zero or several matches fail; otherwise zero matches open a menu
/// over every installed build and several matches a menu over them.
pub fn select_build_plan(n_matches: usize, strict: bool) -> (r: SelectionPlan)
    ensures
        n_matches == 1 ==> r == SelectionPlan::UseSingle,
        n_matches != 1 && strict ==> r == SelectionPlan::FailAmbiguous,
        n_matches == 0 && !strict ==> r == SelectionPlan::MenuOverAll,
        n_matches >= 2 && !strict ==> r == SelectionPlan::MenuOverMatches,
{
    if n_matches == 1 {
        SelectionPlan::UseSingle
    } else if strict {
        SelectionPlan::FailAmbiguous
    } else if n_matches == 0 {
        SelectionPlan::MenuOverAll
    } else {
        SelectionPlan::MenuOverMatches
    }
}

} // verus!
