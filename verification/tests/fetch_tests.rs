//! Catalog-refresh decisions: early abort and batch conclusion.

use blrs_cli::{ConfigTask, OsErrorDetail, continue_fetching, fetch_conclusion};

fn err(msg: &str) -> OsErrorDetail {
    OsErrorDetail { raw_os_error: None, message: String::from(msg) }
}

#[test]
fn sequential_refresh_stops_at_first_error_unless_ignoring() {
    assert!(continue_fetching(true, false));
    assert!(continue_fetching(true, true));
    assert!(!continue_fetching(false, false));
    assert!(continue_fetching(false, true));
}

#[test]
fn clean_refresh_yields_the_update_task() {
    let results: Vec<Option<OsErrorDetail>> = vec![None, None, None];
    assert_eq!(fetch_conclusion(&results), Ok(ConfigTask::UpdateLastTimeChecked));
}

#[test]
fn first_error_in_repository_order_wins() {
    let results = vec![None, Some(err("one")), Some(err("two"))];
    match fetch_conclusion(&results) {
        Err(e) => assert_eq!(e.message, "one"),
        Ok(_) => panic!("an error must surface"),
    }
}
