//! The configuration the pipeline consumes: the library directory, the
//! catalog cache directory, the configured repositories, and when the
//! remote catalogs were last refreshed. Loading and persisting the
//! configuration is the surrounding program's work.

use vstd::prelude::*;

use crate::repo::{RepoV, RepositoryDescriptor};

verus! {

/// Mathematical model of the configuration.
#[verifier::ext_equal]
pub ghost struct ConfigV {
    pub library: Seq<char>,
    pub remote_repos_dir: Seq<char>,
    pub repos: Seq<RepoV>,
    pub last_time_checked: Option<int>,
}

/// The pipeline's configuration.
#[derive(Debug, Clone, PartialEq)]
pub struct Config {
    /// Where installed builds and downloaded archives live.
    pub library: String,
    /// Where the per-repository catalog snapshots live.
    pub remote_repos_dir: String,
    /// The configured repositories.
    pub repos: Vec<RepositoryDescriptor>,
    /// When the remote catalogs were last fetched, as seconds since the
    /// Unix epoch.
    pub last_time_checked: Option<i64>,
}

impl View for Config {
    type V = ConfigV;

    open spec fn view(&self) -> ConfigV {
        ConfigV {
            library: self.library@,
            remote_repos_dir: self.remote_repos_dir@,
            repos: self.repos@.map_values(|r: RepositoryDescriptor| r@),
            last_time_checked: match self.last_time_checked {
                Some(t) => Some(t as int),
                None => None,
            },
        }
    }
}

} // verus!
