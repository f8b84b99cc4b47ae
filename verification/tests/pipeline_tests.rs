//! Batch validation, acquisition layout, materialization, cleanup and
//! the error taxonomy.

use blrs_cli::{
    AcquisitionOutcome, BuildIdentity, CleanupPhase, CommandError, IoErrorOrigin, OsErrorDetail,
    PipelineReport, acquisition_target, archive_filename, check_all_queries_matched,
    cleanup_prompts, error_writing, materialize_record, outcome_of, path_to_repo,
    random_fallback_stem, version_string,
};

fn build(major: u64, minor: u64, patch: u64) -> BuildIdentity {
    BuildIdentity {
        major,
        minor,
        patch,
        branch: String::from("main"),
        build_hash: String::from("abc"),
        commit_dt: 1000,
    }
}

#[test]
fn batch_fails_naming_exactly_the_unmatched_query() {
    // Three queries, one of which matches nothing: the whole batch
    // fails before any download, naming exactly that one query.
    let queries = vec![
        String::from("4.2.1"),
        String::from("9.9.9"),
        String::from("4.2.*"),
    ];
    let counts = vec![1usize, 0, 2];
    match check_all_queries_matched(&queries, &counts) {
        Ok(()) => panic!("a query without matches must fail the batch"),
        Err(CommandError::QueryResultEmpty(s)) => assert_eq!(s, "9.9.9"),
        Err(_) => panic!("wrong error variant"),
    }
}

#[test]
fn batch_error_lists_every_unmatched_query() {
    let queries = vec![String::from("1.0.0"), String::from("2.0.0"), String::from("3.0.0")];
    let counts = vec![0usize, 1, 0];
    match check_all_queries_matched(&queries, &counts) {
        Err(CommandError::QueryResultEmpty(s)) => assert_eq!(s, "1.0.0, 3.0.0"),
        _ => panic!("two unmatched queries must both be named"),
    }
}

#[test]
fn batch_passes_when_every_query_matched() {
    let queries = vec![String::from("4.2.1")];
    let counts = vec![3usize];
    assert!(check_all_queries_matched(&queries, &counts).is_ok());
}

#[test]
fn acquisition_paths_are_laid_out_under_the_repo_dir() {
    let t = acquisition_target(
        "/lib",
        "daily",
        &String::from("https://example.test/dl/blender-4.2.1.tar.xz"),
        "/dl/blender-4.2.1.tar.xz",
        "fallback",
        "xz",
        &build(4, 2, 1),
    );
    assert_eq!(t.completed_filepath, "/lib/daily/blender-4.2.1.tar.xz");
    assert_eq!(t.temporary_filepath, "/lib/daily/blender-4.2.1.tar.xz.part");
    assert_eq!(t.destination, "/lib/daily/4.2.1");
}

#[test]
fn archive_filename_falls_back_to_generated_stem() {
    assert_eq!(archive_filename("/dl/file.zip", "stem", "zip"), "file.zip");
    assert_eq!(archive_filename("/dl/", "stem", "zip"), "stem.zip");
    assert_eq!(archive_filename("", "stem", ""), "stem");
}

#[test]
fn generated_fallback_stem_is_a_uuid_text() {
    assert_eq!(random_fallback_stem().len(), 36);
}

#[test]
fn version_text_is_the_triple() {
    assert_eq!(version_string(&build(4, 2, 1)), "4.2.1");
    assert_eq!(version_string(&build(0, 10, 300)), "0.10.300");
}

#[test]
fn repo_dir_joins_library_and_id() {
    assert_eq!(path_to_repo("/lib", "daily"), "/lib/daily");
}

#[test]
fn materialized_record_has_default_metadata() {
    let rec = materialize_record(&build(4, 2, 1), "/lib/daily/4.2.1");
    assert_eq!(rec.folder, "/lib/daily/4.2.1");
    assert_eq!(rec.basic, build(4, 2, 1));
    assert!(!rec.is_favorited);
    assert!(rec.custom_name.is_none());
    assert!(rec.custom_exe.is_none());
    assert!(rec.custom_env.is_none());
}

#[test]
fn outcome_distinguishes_cancellation_from_failure() {
    assert_eq!(outcome_of(&None), AcquisitionOutcome::Succeeded);
    assert_eq!(outcome_of(&Some(CommandError::Cancelled)), AcquisitionOutcome::Cancelled);
    assert_eq!(
        outcome_of(&Some(CommandError::ReturnCode(500))),
        AcquisitionOutcome::Failed
    );
}

fn report(outcome: AcquisitionOutcome, temp_exists: bool, completed_exists: bool) -> PipelineReport {
    PipelineReport {
        outcome,
        temporary_filepath: String::from("/lib/a.part"),
        temp_exists,
        completed_filepath: String::from("/lib/a"),
        completed_exists,
    }
}

#[test]
fn only_cancelled_pipelines_prompt_for_leftovers() {
    let reports = vec![
        report(AcquisitionOutcome::Cancelled, true, true),
        report(AcquisitionOutcome::Failed, true, true),
        report(AcquisitionOutcome::Succeeded, true, true),
        report(AcquisitionOutcome::Cancelled, false, true),
        report(AcquisitionOutcome::Cancelled, false, false),
    ];
    let prompts = cleanup_prompts(&reports);
    assert_eq!(prompts.len(), 3);
    assert_eq!(prompts[0].path, "/lib/a.part");
    assert_eq!(prompts[0].phase, CleanupPhase::Downloading);
    assert_eq!(prompts[1].path, "/lib/a");
    assert_eq!(prompts[1].phase, CleanupPhase::Extraction);
    assert_eq!(prompts[2].phase, CleanupPhase::Extraction);
}

#[test]
fn exit_codes_follow_the_taxonomy() {
    assert_eq!(CommandError::MissingQuery.exit_code(), 2);
    assert_eq!(CommandError::CouldNotParseQuery(String::from("x")).exit_code(), 2);
    assert_eq!(CommandError::QueryResultEmpty(String::from("q")).exit_code(), 2);
    assert_eq!(CommandError::FetchingTooFast { remaining: 5 }.exit_code(), 2);
    assert_eq!(CommandError::ReturnCode(500).exit_code(), 1);
    assert_eq!(CommandError::UnsupportedFileFormat(String::from("dmg")).exit_code(), 1);
    assert_eq!(CommandError::Cancelled.exit_code(), 130);
    let with_os = CommandError::IoError(
        IoErrorOrigin::WritingObject(String::from("/p")),
        OsErrorDetail { raw_os_error: Some(13), message: String::from("denied") },
    );
    assert_eq!(with_os.exit_code(), 13);
    let without_os = CommandError::IoError(
        IoErrorOrigin::Fetching,
        OsErrorDetail { raw_os_error: None, message: String::from("odd") },
    );
    assert_eq!(without_os.exit_code(), 1);
    assert_eq!(CommandError::TrashError(String::from("/p"), Some(7)).exit_code(), 7);
    assert_eq!(CommandError::TrashError(String::from("/p"), None).exit_code(), 1);
    assert_eq!(CommandError::NotEnoughInput.exit_code(), 2);
    assert_eq!(CommandError::InvalidInput.exit_code(), 2);
    assert_eq!(CommandError::ReqwestError(String::from("refused")).exit_code(), 1);
    assert_eq!(CommandError::CouldNotGenerateParams(String::from("no exe")).exit_code(), 1);
}

#[test]
fn io_error_helpers_attach_origin_and_path() {
    let detail = OsErrorDetail { raw_os_error: Some(2), message: String::from("missing") };
    match error_writing(String::from("/p"), detail) {
        CommandError::IoError(IoErrorOrigin::WritingObject(p), d) => {
            assert_eq!(p, "/p");
            assert_eq!(d.raw_os_error, Some(2));
        },
        _ => panic!("wrong shape"),
    }
}
