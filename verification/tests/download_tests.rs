//! The download state machine: skip-if-complete, chunk accounting,
//! cooperative cancellation, and commit only on full success.

use blrs_cli::{
    DownloadState, EndAction, StartDecision, TransferEnd, TransferResult, cancel_check,
    is_success_status, on_chunk, on_end, on_open, run_transfer, start_decision,
};

fn chunks() -> Vec<Vec<u8>> {
    vec![vec![1, 2, 3], vec![4, 5], vec![6, 7, 8, 9]]
}

#[test]
fn existing_completed_file_short_circuits() {
    // Idempotence: with the completed file already present, no request
    // is issued and nothing is written.
    let o = run_transfer(true, Some(9), &chunks(), None, TransferEnd::Ended(200));
    assert!(!o.requested);
    assert_eq!(o.result, TransferResult::Skipped);
    assert!(o.temp.is_empty());
    assert!(!o.committed);
    assert_eq!(o.state, DownloadState::Ready);
}

#[test]
fn cancel_after_two_of_three_chunks() {
    // The temporary file holds exactly the bytes of the first two
    // chunks, and the completed file never comes into being.
    let o = run_transfer(false, Some(9), &chunks(), Some(2), TransferEnd::Ended(200));
    assert!(o.requested);
    assert_eq!(o.result, TransferResult::Cancelled);
    assert_eq!(o.temp, vec![1, 2, 3, 4, 5]);
    assert!(!o.committed);
    assert_eq!(o.state, DownloadState::Failed);
}

#[test]
fn cancel_flag_set_before_start_is_seen_after_first_chunk() {
    // The flag is checked only after a chunk is written, so a flag set
    // up front still lets one chunk through.
    let o = run_transfer(false, None, &chunks(), Some(0), TransferEnd::Ended(200));
    assert_eq!(o.result, TransferResult::Cancelled);
    assert_eq!(o.temp, vec![1, 2, 3]);
}

#[test]
fn full_run_commits_on_success_status() {
    let o = run_transfer(false, Some(9), &chunks(), None, TransferEnd::Ended(200));
    assert!(o.requested);
    assert_eq!(o.result, TransferResult::Completed);
    assert_eq!(o.temp, vec![1, 2, 3, 4, 5, 6, 7, 8, 9]);
    assert!(o.committed);
    assert_eq!(o.state, DownloadState::Finished { status: 200 });
}

#[test]
fn full_run_fails_on_error_status() {
    // A stream that ends with a non-success status is an error, never a
    // silent finish, and nothing is committed.
    let o = run_transfer(false, None, &chunks(), None, TransferEnd::Ended(404));
    assert_eq!(o.result, TransferResult::HttpError(404));
    assert!(!o.committed);
    assert_eq!(o.state, DownloadState::Failed);
}

#[test]
fn transport_failure_is_terminal() {
    let o = run_transfer(false, None, &chunks(), None, TransferEnd::TransportFailure);
    assert_eq!(o.result, TransferResult::TransportError);
    assert!(!o.committed);
    assert_eq!(o.state, DownloadState::Failed);
}

#[test]
fn cancel_planned_past_the_stream_never_fires() {
    let o = run_transfer(false, None, &chunks(), Some(9), TransferEnd::Ended(200));
    assert_eq!(o.result, TransferResult::Completed);
    assert!(o.committed);
}

#[test]
fn empty_stream_still_ends_by_status() {
    let none: Vec<Vec<u8>> = Vec::new();
    let o = run_transfer(false, None, &none, Some(0), TransferEnd::Ended(200));
    assert_eq!(o.result, TransferResult::Completed);
    assert!(o.temp.is_empty());
}

#[test]
fn received_count_saturates_at_the_counter_limit() {
    let s = on_open(DownloadState::Ready, None);
    let s = on_chunk(s, u64::MAX);
    let s = on_chunk(s, 10);
    assert_eq!(s, DownloadState::Downloading { received: u64::MAX, total: None });
}

#[test]
fn start_decision_skips_only_when_complete() {
    assert_eq!(start_decision(true), StartDecision::AlreadyComplete);
    assert_eq!(start_decision(false), StartDecision::OpenRequest);
}

#[test]
fn success_status_is_the_two_hundreds() {
    assert!(!is_success_status(199));
    assert!(is_success_status(200));
    assert!(is_success_status(299));
    assert!(!is_success_status(300));
    assert!(!is_success_status(404));
}

#[test]
fn stepwise_transitions_advance_forward() {
    let s = on_open(DownloadState::Ready, Some(100));
    assert_eq!(s, DownloadState::Downloading { received: 0, total: Some(100) });
    let s = on_chunk(s, 40);
    assert_eq!(s, DownloadState::Downloading { received: 40, total: Some(100) });
    let (s, d) = cancel_check(s, false);
    assert_eq!(d, blrs_cli::CancelDecision::Continue);
    let (s, a) = on_end(s, 204);
    assert_eq!(a, EndAction::CommitRename);
    assert_eq!(s, DownloadState::Finished { status: 204 });
}

#[test]
fn cancel_check_aborts_terminally() {
    let s = on_open(DownloadState::Ready, None);
    let (s, d) = cancel_check(s, true);
    assert_eq!(d, blrs_cli::CancelDecision::Abort);
    assert_eq!(s, DownloadState::Failed);
}

#[test]
fn stream_end_with_failure_status_fails() {
    let s = on_open(DownloadState::Ready, None);
    let (s, a) = on_end(s, 500);
    assert_eq!(a, EndAction::FailStatus);
    assert_eq!(s, DownloadState::Failed);
}
