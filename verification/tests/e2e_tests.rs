//! End-to-end resolution: from per-repository listings through the
//! merged catalog and the matcher into the resolver.

use blrs_cli::{
    Arch, BuildEntry, BuildIdentity, FileKind, MatchResolution, Os, RepoBuild, RepoEntry,
    RepoKind, RepositoryDescriptor, Variant, VariantSet, find_matches, merge_catalog,
    parse_query, resolve_match, uninstalled_sets,
};

fn repo(id: &str, nick: &str) -> RepositoryDescriptor {
    RepositoryDescriptor {
        repo_id: String::from(id),
        nickname: String::from(nick),
        url: String::from("https://example.test"),
        kind: RepoKind::Remote,
    }
}

fn offering(major: u64, minor: u64, patch: u64, dt: i64) -> BuildEntry {
    BuildEntry::NotInstalled(VariantSet {
        basic: BuildIdentity {
            major,
            minor,
            patch,
            branch: String::new(),
            build_hash: String::new(),
            commit_dt: dt,
        },
        v: vec![Variant {
            os: Os::Linux,
            arch: Arch::X64,
            kind: FileKind::Archive,
            url: String::from("https://example.test/f.tar.xz"),
            file_extension: Some(String::from("xz")),
        }],
    })
}

fn candidates_of(repos: Vec<RepoEntry>) -> Vec<RepoBuild> {
    let catalog = merge_catalog(&uninstalled_sets(&repos));
    catalog
        .iter()
        .map(|entry| RepoBuild {
            build: entry.basic.clone(),
            nickname: entry.repos.last().map(|r| r.nickname.clone()).unwrap_or_default(),
        })
        .collect()
}

#[test]
fn series_query_opens_a_two_entry_menu_cursor_on_newest() {
    // Query 4.2.* against a catalog holding 4.2.1 (repo A) and 4.2.3
    // (repo B), nothing installed: a menu of two entries sorted oldest
    // to newest, cursor defaulted to 4.2.3.
    let repos = vec![
        RepoEntry::Registered(repo("a", "repo_a"), vec![offering(4, 2, 1, 1_000)]),
        RepoEntry::Registered(repo("b", "repo_b"), vec![offering(4, 2, 3, 2_000)]),
    ];
    let candidates = candidates_of(repos);
    let q = parse_query("4.2.*").unwrap();
    let matches: Vec<RepoBuild> = find_matches(&q, &candidates)
        .into_iter()
        .map(|i| candidates[i].clone())
        .collect();
    assert_eq!(matches.len(), 2);
    match resolve_match(&matches) {
        MatchResolution::Chosen(_) => panic!("two matches must open a menu"),
        MatchResolution::Menu(menu) => {
            assert_eq!(menu.entries.len(), 2);
            assert_eq!(menu.entries[0].build.patch, 1);
            assert_eq!(menu.entries[1].build.patch, 3);
            assert_eq!(menu.entries[menu.default_index].build.patch, 3);
        }
    }
}

#[test]
fn all_largest_query_resolves_without_any_prompt() {
    // Query ^.^.^ against a catalog of distinct versions: the matcher
    // narrows to exactly one build before the resolver runs, so the
    // resolver returns it with zero prompts, whatever the catalog size.
    let repos = vec![
        RepoEntry::Registered(
            repo("a", "repo_a"),
            vec![offering(4, 2, 1, 1_000), offering(3, 6, 9, 5_000)],
        ),
        RepoEntry::Registered(
            repo("b", "repo_b"),
            vec![offering(4, 2, 3, 2_000), offering(4, 1, 0, 9_000)],
        ),
    ];
    let candidates = candidates_of(repos);
    let q = parse_query("^.^.^").unwrap();
    let matches: Vec<RepoBuild> = find_matches(&q, &candidates)
        .into_iter()
        .map(|i| candidates[i].clone())
        .collect();
    assert_eq!(matches.len(), 1);
    match resolve_match(&matches) {
        MatchResolution::Chosen(b) => {
            assert_eq!((b.major, b.minor, b.patch), (4, 2, 3));
        }
        MatchResolution::Menu(_) => panic!("a single match must never prompt"),
    }
}

#[test]
fn shared_identity_across_repos_is_one_candidate_from_the_last_repo() {
    let shared = BuildIdentity {
        major: 4,
        minor: 2,
        patch: 1,
        branch: String::new(),
        build_hash: String::new(),
        commit_dt: 1_000,
    };
    let entry = |dt_variant: Os| {
        BuildEntry::NotInstalled(VariantSet {
            basic: shared.clone(),
            v: vec![Variant {
                os: dt_variant,
                arch: Arch::X64,
                kind: FileKind::Archive,
                url: String::from("https://example.test/f.tar.xz"),
                file_extension: Some(String::from("xz")),
            }],
        })
    };
    let repos = vec![
        RepoEntry::Registered(repo("a", "repo_a"), vec![entry(Os::Linux)]),
        RepoEntry::Registered(repo("b", "repo_b"), vec![entry(Os::Windows)]),
    ];
    let catalog = merge_catalog(&uninstalled_sets(&repos));
    assert_eq!(catalog.len(), 1);
    assert_eq!(catalog[0].variants.len(), 2);
    let candidates = candidates_of(vec![
        RepoEntry::Registered(repo("a", "repo_a"), vec![entry(Os::Linux)]),
        RepoEntry::Registered(repo("b", "repo_b"), vec![entry(Os::Windows)]),
    ]);
    assert_eq!(candidates.len(), 1);
    assert_eq!(candidates[0].nickname, "repo_b");
}
