//! Catalog merging and the platform filter with its fallback.

use blrs_cli::{
    Arch, BuildIdentity, FileKind, Os, Platform, RepoKind, RepoSet, RepositoryDescriptor, Variant,
    VariantSet, filter_variants, filter_with_fallback, merge_catalog, same_identity,
};

fn build(major: u64, patch: u64, dt: i64) -> BuildIdentity {
    BuildIdentity {
        major,
        minor: 2,
        patch,
        branch: String::from("main"),
        build_hash: String::from("abc"),
        commit_dt: dt,
    }
}

fn repo(id: &str, nick: &str) -> RepositoryDescriptor {
    RepositoryDescriptor {
        repo_id: String::from(id),
        nickname: String::from(nick),
        url: String::from("https://example.test/repo"),
        kind: RepoKind::Remote,
    }
}

fn variant(os: Os, arch: Arch) -> Variant {
    Variant {
        os,
        arch,
        kind: FileKind::Archive,
        url: String::from("https://example.test/file.tar.xz"),
        file_extension: Some(String::from("xz")),
    }
}

#[test]
fn merge_shares_identity_across_two_repos() {
    // The same build offered by two repositories merges into exactly one
    // entry whose variant list length is the sum of the inputs' lengths.
    let b = build(4, 1, 100);
    let pairs = vec![
        RepoSet {
            repo: repo("r1", "alpha"),
            set: VariantSet { basic: b.clone(), v: vec![variant(Os::Linux, Arch::X64)] },
        },
        RepoSet {
            repo: repo("r2", "beta"),
            set: VariantSet {
                basic: b.clone(),
                v: vec![variant(Os::Windows, Arch::X64), variant(Os::MacOs, Arch::Arm64)],
            },
        },
    ];
    let catalog = merge_catalog(&pairs);
    assert_eq!(catalog.len(), 1);
    assert!(same_identity(&catalog[0].basic, &b));
    assert_eq!(catalog[0].variants.len(), 3);
    // every contributor is recorded, in order; the displayed origin is
    // the last one
    assert_eq!(catalog[0].repos.len(), 2);
    assert_eq!(catalog[0].repos[0].nickname, "alpha");
    assert_eq!(catalog[0].repos[1].nickname, "beta");
}

#[test]
fn merge_keeps_distinct_identities_in_first_appearance_order() {
    let b1 = build(4, 1, 100);
    let b2 = build(4, 3, 300);
    let pairs = vec![
        RepoSet {
            repo: repo("r1", "alpha"),
            set: VariantSet { basic: b2.clone(), v: vec![variant(Os::Linux, Arch::X64)] },
        },
        RepoSet {
            repo: repo("r2", "beta"),
            set: VariantSet { basic: b1.clone(), v: vec![variant(Os::Linux, Arch::X64)] },
        },
    ];
    let catalog = merge_catalog(&pairs);
    assert_eq!(catalog.len(), 2);
    assert!(same_identity(&catalog[0].basic, &b2));
    assert!(same_identity(&catalog[1].basic, &b1));
}

#[test]
fn merge_of_nothing_is_empty() {
    assert_eq!(merge_catalog(&Vec::new()).len(), 0);
}

#[test]
fn filter_keeps_only_matching_variants() {
    let set = VariantSet {
        basic: build(4, 1, 100),
        v: vec![
            variant(Os::Linux, Arch::X64),
            variant(Os::Windows, Arch::X64),
            variant(Os::Linux, Arch::Arm64),
        ],
    };
    let target = Platform { os: Os::Linux, arch: Arch::X64 };
    let out = filter_variants(&set, target);
    assert_eq!(out.v.len(), 1);
    assert_eq!(out.v[0].os, Os::Linux);
    assert_eq!(out.v[0].arch, Arch::X64);
}

#[test]
fn filter_fallback_returns_input_when_nothing_matches() {
    // The fallback law: with no matching platform the original set comes
    // back, same identity and same variants.
    let set = VariantSet {
        basic: build(4, 1, 100),
        v: vec![variant(Os::Windows, Arch::X64), variant(Os::MacOs, Arch::Arm64)],
    };
    let target = Platform { os: Os::Linux, arch: Arch::X86 };
    let out = filter_with_fallback(&set, target);
    assert!(same_identity(&out.basic, &set.basic));
    assert_eq!(out.v, set.v);
}

#[test]
fn filter_fallback_narrows_when_something_matches() {
    let set = VariantSet {
        basic: build(4, 1, 100),
        v: vec![variant(Os::Windows, Arch::X64), variant(Os::Linux, Arch::X64)],
    };
    let target = Platform { os: Os::Windows, arch: Arch::X64 };
    let out = filter_with_fallback(&set, target);
    assert_eq!(out.v.len(), 1);
    assert_eq!(out.v[0].os, Os::Windows);
}
