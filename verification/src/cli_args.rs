//! The parsed command line: one command plus global overrides. Parsing
//! the actual command line and evaluating the command are the
//! surrounding program's work.

use vstd::prelude::*;

use crate::commands::Command;
use crate::config::Config;

verus! {

/// The whole invocation: the chosen command and the global options.
#[derive(Debug, Clone, PartialEq)]
pub struct Cli {
    pub commands: Command,
    /// Overrides the configured library directory.
    pub library: Option<String>,
}

impl Cli {
    /// Applies the global overrides to the configuration: a given
    /// library path replaces the configured one; everything else stays.
    pub fn apply_overrides(&self, config: &mut Config)
        ensures
            final(config)@.library == (match self.library {
                Some(p) => p@,
                None => old(config)@.library,
            }),
            final(config)@.remote_repos_dir == old(config)@.remote_repos_dir,
            final(config)@.repos == old(config)@.repos,
            final(config)@.last_time_checked == old(config)@.last_time_checked,
    {
        match &self.library {
            Some(pth) => {
                config.library = pth.clone();
            },
            None => {},
        }
    }
}

} // verus!
