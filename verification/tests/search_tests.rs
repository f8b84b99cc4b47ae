//! The matcher: exact filters and extremal narrowing.

use blrs_cli::{BuildIdentity, RepoBuild, find_matches, parse_query};

fn build(major: u64, minor: u64, patch: u64, branch: &str, dt: i64) -> BuildIdentity {
    BuildIdentity {
        major,
        minor,
        patch,
        branch: String::from(branch),
        build_hash: String::from("abc"),
        commit_dt: dt,
    }
}

fn candidate(major: u64, minor: u64, patch: u64, branch: &str, dt: i64, nick: &str) -> RepoBuild {
    RepoBuild { build: build(major, minor, patch, branch, dt), nickname: String::from(nick) }
}

#[test]
fn exact_triple_matches_one() {
    let builds = vec![
        candidate(4, 2, 1, "main", 100, "a"),
        candidate(4, 2, 3, "main", 200, "b"),
    ];
    let q = parse_query("4.2.1").unwrap();
    assert_eq!(find_matches(&q, &builds), vec![0]);
}

#[test]
fn star_patch_matches_all_of_series() {
    let builds = vec![
        candidate(4, 2, 1, "main", 100, "a"),
        candidate(4, 2, 3, "main", 200, "b"),
        candidate(3, 6, 2, "main", 50, "a"),
    ];
    let q = parse_query("4.2.*").unwrap();
    assert_eq!(find_matches(&q, &builds), vec![0, 1]);
}

#[test]
fn hat_query_selects_lexicographically_largest() {
    let builds = vec![
        candidate(4, 2, 1, "main", 100, "a"),
        candidate(4, 2, 3, "main", 200, "b"),
        candidate(4, 1, 9, "main", 300, "a"),
        candidate(3, 6, 2, "main", 400, "a"),
    ];
    let q = parse_query("^.^.^").unwrap();
    assert_eq!(find_matches(&q, &builds), vec![1]);
}

#[test]
fn smallest_query_selects_oldest_version() {
    let builds = vec![
        candidate(4, 2, 1, "main", 100, "a"),
        candidate(3, 6, 2, "main", 400, "a"),
        candidate(4, 1, 9, "main", 300, "a"),
    ];
    let q = parse_query("-.-.-").unwrap();
    assert_eq!(find_matches(&q, &builds), vec![1]);
}

#[test]
fn repository_prefix_filters_by_nickname() {
    let builds = vec![
        candidate(4, 2, 1, "main", 100, "alpha"),
        candidate(4, 2, 1, "main", 100, "beta"),
    ];
    let q = parse_query("beta/4.2.1").unwrap();
    assert_eq!(find_matches(&q, &builds), vec![1]);
}

#[test]
fn branch_filter_applies_before_narrowing() {
    let builds = vec![
        candidate(4, 2, 9, "main", 100, "a"),
        candidate(4, 2, 1, "daily", 200, "a"),
    ];
    let q = parse_query("^.^.^-daily").unwrap();
    assert_eq!(find_matches(&q, &builds), vec![1]);
}

#[test]
fn newest_commit_narrowing() {
    let builds = vec![
        candidate(4, 2, 1, "main", 100, "a"),
        candidate(4, 2, 1, "daily", 900, "a"),
        candidate(4, 2, 1, "lts", 500, "a"),
    ];
    let q = parse_query("4.2.1@^").unwrap();
    assert_eq!(find_matches(&q, &builds), vec![1]);
}

#[test]
fn no_match_yields_empty() {
    let builds = vec![candidate(4, 2, 1, "main", 100, "a")];
    let q = parse_query("5.0.0").unwrap();
    assert_eq!(find_matches(&q, &builds), Vec::<usize>::new());
}
