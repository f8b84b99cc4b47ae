//! The version-query grammar: what parses, to what, and what is
//! rejected.

use blrs_cli::{OrdPlacement, TimePlacement, WildPlacement, parse_query};

#[test]
fn parses_plain_triple() {
    let q = parse_query("4.2.1").unwrap();
    assert_eq!(q.repository, WildPlacement::Any);
    assert_eq!(q.major, OrdPlacement::Exact(4));
    assert_eq!(q.minor, OrdPlacement::Exact(2));
    assert_eq!(q.patch, OrdPlacement::Exact(1));
    assert_eq!(q.branch, WildPlacement::Any);
    assert_eq!(q.build_hash, WildPlacement::Any);
    assert_eq!(q.commit_dt, TimePlacement::Any);
}

#[test]
fn parses_wildcards() {
    let q = parse_query("^.*.-").unwrap();
    assert_eq!(q.major, OrdPlacement::Largest);
    assert_eq!(q.minor, OrdPlacement::Any);
    assert_eq!(q.patch, OrdPlacement::Smallest);
}

#[test]
fn parses_repository_prefix() {
    let q = parse_query("daily/4.2.1").unwrap();
    assert_eq!(q.repository, WildPlacement::Exact(String::from("daily")));
    assert_eq!(q.major, OrdPlacement::Exact(4));
}

#[test]
fn parses_branch_and_hash() {
    let q = parse_query("4.2.1-main+abc123").unwrap();
    assert_eq!(q.branch, WildPlacement::Exact(String::from("main")));
    assert_eq!(q.build_hash, WildPlacement::Exact(String::from("abc123")));
}

#[test]
fn parses_hash_with_number_sign() {
    let q = parse_query("4.2.1#abc123").unwrap();
    assert_eq!(q.branch, WildPlacement::Any);
    assert_eq!(q.build_hash, WildPlacement::Exact(String::from("abc123")));
}

#[test]
fn parses_commit_time_wildcards() {
    assert_eq!(parse_query("4.2.1@^").unwrap().commit_dt, TimePlacement::Largest);
    assert_eq!(parse_query("4.2.1@*").unwrap().commit_dt, TimePlacement::Any);
    assert_eq!(parse_query("4.2.1@-").unwrap().commit_dt, TimePlacement::Smallest);
}

#[test]
fn commit_time_defaults_to_any() {
    assert_eq!(parse_query("4.2.1-main").unwrap().commit_dt, TimePlacement::Any);
}

#[test]
fn branch_may_contain_dashes() {
    let q = parse_query("4.2.1-feat-branch@^").unwrap();
    assert_eq!(q.branch, WildPlacement::Exact(String::from("feat-branch")));
    assert_eq!(q.commit_dt, TimePlacement::Largest);
}

#[test]
fn smallest_patch_then_branch() {
    let q = parse_query("4.2.--daily").unwrap();
    assert_eq!(q.patch, OrdPlacement::Smallest);
    assert_eq!(q.branch, WildPlacement::Exact(String::from("daily")));
}

#[test]
fn rejects_literal_commit_time() {
    assert!(parse_query("4.2.1@1700000000").is_err());
}

#[test]
fn rejects_missing_components() {
    assert!(parse_query("").is_err());
    assert!(parse_query("4").is_err());
    assert!(parse_query("4.2").is_err());
    assert!(parse_query("4.2.").is_err());
    assert!(parse_query("..").is_err());
}

#[test]
fn rejects_letters_in_version() {
    assert!(parse_query("a.b.c").is_err());
    assert!(parse_query("4x.2.1").is_err());
}

#[test]
fn rejects_number_too_large() {
    assert!(parse_query("99999999999999999999999.1.2").is_err());
}

#[test]
fn accepts_number_at_limit() {
    let q = parse_query("18446744073709551615.0.0").unwrap();
    assert_eq!(q.major, OrdPlacement::Exact(u64::MAX));
    assert!(parse_query("18446744073709551616.0.0").is_err());
}

#[test]
fn rejects_trailing_garbage() {
    assert!(parse_query("4.2.1@^x").is_err());
}
