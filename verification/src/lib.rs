//! Build-acquisition and lifecycle manager for binary artifact builds
//! distributed across several remote repositories.
//!
//! The crate covers the resolution, acquisition and materialization
//! pipeline: merging per-repository catalogs, matching wildcard version
//! queries, resolving ambiguity deterministically, driving a resumable
//! download state machine, planning archive extraction, and cleaning up
//! after cancellation. Interactive prompting, networking and filesystem
//! traffic live outside the library; the library computes every decision
//! those activities need and states each computation in a contract.

mod catalog;
mod cleanup;
mod cli_args;
mod commands;
mod config;
mod download;
mod errs;
mod extract;
mod fetcher;
mod install;
mod ls;
mod platform;
mod pull;
mod query;
mod repo;
mod repo_formatting;
mod resolving;
mod rm;
mod run;
mod search;
mod strutil;
mod tasks;
mod verify;
mod version;

pub use catalog::{
    CatalogEntry, RepoSet, filter_variants, filter_with_fallback, merge_catalog,
};
pub use cleanup::{
    AcquisitionOutcome, CleanupPhase, CleanupPrompt, PipelineReport, cleanup_prompts, outcome_of,
};
pub use cli_args::Cli;
pub use commands::{Command, RunCommand, fetch_due, strings_to_queries};
pub use config::Config;
pub use download::{
    CancelDecision, DownloadState, EndAction, StartDecision, TransferEnd, TransferOutcome,
    TransferResult, cancel_check, is_success_status, on_chunk, on_end, on_open,
    on_transport_error, run_transfer, start_decision,
};
pub use errs::{
    CommandError, IoErrorOrigin, OsErrorDetail, error_reading, error_renaming, error_writing,
};
pub use extract::{
    ArchiveFormat, classify_extension, entry_destination, extraction_targets, progress_total,
};
pub use fetcher::{continue_fetching, fetch_conclusion};
pub use install::{
    AcquisitionStage, AcquisitionTarget, LocalBuildRecord, acquisition_target, advance_stage,
    archive_filename, materialize_record, path_to_repo, version_string,
};
pub use ls::{
    BuildEntry, InstalledBuild, LsFormat, RepoEntry, filter_entries_by_target,
    group_by_installed, has_installed_builds, installed_builds, installed_paths,
    retain_installed_repos, to_match_candidates, uninstalled_sets,
};
pub use platform::{Arch, FileKind, Os, Platform};
pub use pull::{check_all_queries_matched, random_fallback_stem};
pub use query::{
    OrdPlacement, QueryParseError, TimePlacement, VersionSearchQuery, WildPlacement, parse_query,
};
pub use repo::{RepoBuild, RepoKind, RepositoryDescriptor, Variant, VariantSet};
pub use repo_formatting::SortFormat;
pub use resolving::{
    ChoiceMenu, MatchResolution, VariantResolution, format_commit_time, get_choice_map,
    menu_choice, resolve_match, resolve_variant, sort_matches,
};
pub use rm::{find_record_for, first_deletion_error};
pub use run::{RunTarget, SelectionPlan, query_from_header, run_plan, select_build_plan};
pub use search::find_matches;
pub use strutil::string_from_chars;
pub use tasks::ConfigTask;
pub use verify::{VerifyAction, filter_folders, is_dir_or_link_to_dir, verify_build_action};
pub use version::{BuildIdentity, build_label_string, identity_le, same_identity};
