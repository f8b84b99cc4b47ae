//! The ambiguity and variant resolvers: single matches pass through
//! silently; everything else becomes a deterministic, sorted menu.

use blrs_cli::{
    Arch, BuildIdentity, FileKind, MatchResolution, Os, Platform, RepoBuild, Variant,
    VariantResolution, VariantSet, build_label_string, format_commit_time, get_choice_map,
    menu_choice, resolve_match, resolve_variant, same_identity,
};

fn build(major: u64, minor: u64, patch: u64, dt: i64) -> BuildIdentity {
    BuildIdentity {
        major,
        minor,
        patch,
        branch: String::new(),
        build_hash: String::new(),
        commit_dt: dt,
    }
}

fn candidate(major: u64, minor: u64, patch: u64, dt: i64, nick: &str) -> RepoBuild {
    RepoBuild { build: build(major, minor, patch, dt), nickname: String::from(nick) }
}

fn variant(os: Os, arch: Arch) -> Variant {
    Variant {
        os,
        arch,
        kind: FileKind::Archive,
        url: String::from("https://example.test/f"),
        file_extension: Some(String::from("xz")),
    }
}

#[test]
fn commit_time_renders_as_utc_text() {
    assert_eq!(format_commit_time(33), "1970-01-01 00:00:33 UTC");
    assert_eq!(format_commit_time(0), "1970-01-01 00:00:00 UTC");
}

#[test]
fn build_label_contains_version_branch_and_hash() {
    let mut b = build(4, 2, 1, 0);
    b.branch = String::from("daily");
    b.build_hash = String::from("abc123");
    assert_eq!(build_label_string(&b), "4.2.1-daily+abc123");
    assert_eq!(build_label_string(&build(4, 2, 1, 0)), "4.2.1");
}

#[test]
fn single_match_is_chosen_without_any_menu() {
    // Exactly one match never prompts: the resolver hands it back.
    let matches = vec![candidate(4, 2, 1, 100, "alpha")];
    match resolve_match(&matches) {
        MatchResolution::Chosen(b) => assert!(same_identity(&b, &matches[0].build)),
        MatchResolution::Menu(_) => panic!("one match must not open a menu"),
    }
}

#[test]
fn two_matches_menu_is_sorted_oldest_first_with_cursor_on_newest() {
    // Two matching builds: a menu of two entries sorted oldest to
    // newest, cursor defaulted to the newest (4.2.3).
    let matches = vec![
        candidate(4, 2, 3, 2000, "repo_b"),
        candidate(4, 2, 1, 1000, "repo_a"),
    ];
    match resolve_match(&matches) {
        MatchResolution::Chosen(_) => panic!("two matches must open a menu"),
        MatchResolution::Menu(menu) => {
            assert_eq!(menu.entries.len(), 2);
            assert_eq!(menu.entries[0].build.patch, 1);
            assert_eq!(menu.entries[1].build.patch, 3);
            assert_eq!(menu.default_index, 1);
            assert_eq!(menu.labels.len(), 2);
            assert_eq!(menu.labels[0], "repo_a/4.2.1  1970-01-01 00:16:40 UTC");
            assert_eq!(menu.labels[1], "repo_b/4.2.3  1970-01-01 00:33:20 UTC");
        },
    }
}

#[test]
fn menu_labels_are_padded_to_equal_width() {
    let matches = vec![
        candidate(4, 2, 1, 1000, "a"),
        candidate(10, 20, 30, 2000, "long_nickname"),
    ];
    let menu = get_choice_map(&matches);
    let w1 = menu.labels[0].find("  1970").unwrap();
    let w2 = menu.labels[1].find("  1970").unwrap();
    assert_eq!(w1, w2);
    assert!(menu.labels[0].starts_with("a/4.2.1 "));
}

#[test]
fn menu_choice_picks_by_index() {
    let matches = vec![
        candidate(4, 2, 1, 1000, "a"),
        candidate(4, 2, 3, 2000, "b"),
    ];
    let menu = get_choice_map(&matches);
    let picked = menu_choice(&menu, 0).unwrap();
    assert_eq!(picked.build.patch, 1);
    assert!(menu_choice(&menu, 2).is_none());
}

#[test]
fn variant_resolver_returns_single_candidate_silently() {
    let set = VariantSet { basic: build(4, 2, 1, 0), v: vec![variant(Os::Linux, Arch::X64)] };
    let target = Platform { os: Os::Linux, arch: Arch::X64 };
    match resolve_variant(&set, false, target) {
        VariantResolution::Single(v) => assert_eq!(v.os, Os::Linux),
        VariantResolution::Menu { .. } => panic!("one candidate must not open a menu"),
    }
}

#[test]
fn variant_resolver_narrows_to_platform() {
    let set = VariantSet {
        basic: build(4, 2, 1, 0),
        v: vec![variant(Os::Windows, Arch::X64), variant(Os::Linux, Arch::X64)],
    };
    let target = Platform { os: Os::Linux, arch: Arch::X64 };
    match resolve_variant(&set, false, target) {
        VariantResolution::Single(v) => assert_eq!(v.os, Os::Linux),
        VariantResolution::Menu { .. } => panic!("filtering must leave the one matching variant"),
    }
}

#[test]
fn variant_resolver_falls_back_to_full_sorted_menu() {
    // No variant matches the host: the full set is offered, sorted by
    // description label for a deterministic menu.
    let set = VariantSet {
        basic: build(4, 2, 1, 0),
        v: vec![variant(Os::Windows, Arch::X64), variant(Os::MacOs, Arch::Arm64)],
    };
    let target = Platform { os: Os::Linux, arch: Arch::X86 };
    match resolve_variant(&set, false, target) {
        VariantResolution::Single(_) => panic!("two candidates must open a menu"),
        VariantResolution::Menu { labels, variants } => {
            assert_eq!(variants.len(), 2);
            assert_eq!(labels, vec!["macos-arm64-archive", "windows-x64-archive"]);
            assert_eq!(variants[0].os, Os::MacOs);
        },
    }
}

#[test]
fn variant_resolver_all_platforms_keeps_original_order() {
    let set = VariantSet {
        basic: build(4, 2, 1, 0),
        v: vec![variant(Os::Windows, Arch::X64), variant(Os::Linux, Arch::X64)],
    };
    let target = Platform { os: Os::Linux, arch: Arch::X64 };
    match resolve_variant(&set, true, target) {
        VariantResolution::Single(_) => panic!("all-platforms with two variants must open a menu"),
        VariantResolution::Menu { labels, variants } => {
            assert_eq!(variants[0].os, Os::Windows);
            assert_eq!(variants[1].os, Os::Linux);
            assert_eq!(labels[0], "windows-x64-archive");
        },
    }
}
