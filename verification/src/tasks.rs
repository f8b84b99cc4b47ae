//! Deferred configuration updates a command leaves behind, applied once
//! the command has finished.

use vstd::prelude::*;

use crate::config::Config;

verus! {

/// A configuration change requested by a finished command.
#[derive(Debug, Clone, Copy, PartialEq, Eq, Structural)]
pub enum ConfigTask {
    /// Remember the moment the remote catalogs were last fetched.
    UpdateLastTimeChecked,
}

impl ConfigTask {
    /// Applies the task to the configuration; `now` is the current time
    /// in seconds since the Unix epoch, supplied by the surrounding
    /// program.
    pub fn eval(self, cfg: &mut Config, now: i64)
        ensures
            final(cfg)@.last_time_checked == Some(now as int),
            final(cfg)@.library == old(cfg)@.library,
            final(cfg)@.remote_repos_dir == old(cfg)@.remote_repos_dir,
            final(cfg)@.repos == old(cfg)@.repos,
    {
        match self {
            ConfigTask::UpdateLastTimeChecked => {
                cfg.last_time_checked = Some(now);
            },
        }
    }
}

} // verus!
