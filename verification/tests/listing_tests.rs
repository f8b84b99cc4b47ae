//! The listing model: gathering, filtering, grouping and sorting.

use blrs_cli::{
    Arch, BuildEntry, BuildIdentity, Cli, Command, CommandError, Config, ConfigTask, FileKind,
    LocalBuildRecord, Os, Platform, RepoEntry, RepoKind, RepositoryDescriptor, RunCommand,
    SortFormat, Variant, VariantSet, fetch_due, filter_entries_by_target, filter_folders,
    find_record_for, first_deletion_error, group_by_installed, has_installed_builds,
    installed_builds, installed_paths, query_from_header, retain_installed_repos, run_plan,
    select_build_plan, strings_to_queries, to_match_candidates, uninstalled_sets,
    SelectionPlan, OrdPlacement,
};

fn build(major: u64, minor: u64, patch: u64, dt: i64) -> BuildIdentity {
    BuildIdentity {
        major,
        minor,
        patch,
        branch: String::from("main"),
        build_hash: String::from("abc"),
        commit_dt: dt,
    }
}

fn record(major: u64, dt: i64, folder: &str) -> LocalBuildRecord {
    LocalBuildRecord {
        folder: String::from(folder),
        basic: build(major, 0, 0, dt),
        is_favorited: false,
        custom_name: None,
        custom_exe: None,
        custom_env: None,
    }
}

fn repo(id: &str, nick: &str) -> RepositoryDescriptor {
    RepositoryDescriptor {
        repo_id: String::from(id),
        nickname: String::from(nick),
        url: String::from("https://example.test"),
        kind: RepoKind::Remote,
    }
}

fn variant(os: Os) -> Variant {
    Variant {
        os,
        arch: Arch::X64,
        kind: FileKind::Archive,
        url: String::from("https://example.test/f"),
        file_extension: Some(String::from("xz")),
    }
}

fn not_installed(major: u64, os: Os) -> BuildEntry {
    BuildEntry::NotInstalled(VariantSet { basic: build(major, 0, 0, 10), v: vec![variant(os)] })
}

fn installed(major: u64, folder: &str) -> BuildEntry {
    BuildEntry::Installed(String::from(folder), record(major, 10, folder))
}

#[test]
fn installed_detection_looks_through_entries() {
    let with_one = RepoEntry::Registered(repo("r", "r"), vec![not_installed(4, Os::Linux), installed(3, "/f")]);
    let without = RepoEntry::Registered(repo("r", "r"), vec![not_installed(4, Os::Linux)]);
    let errored = RepoEntry::Error(String::from("r"), String::from("broken"));
    assert!(has_installed_builds(&with_one));
    assert!(!has_installed_builds(&without));
    assert!(!has_installed_builds(&errored));
}

#[test]
fn retain_keeps_only_repos_with_installs() {
    let repos = vec![
        RepoEntry::Registered(repo("a", "a"), vec![not_installed(4, Os::Linux)]),
        RepoEntry::Unknown(String::from("b"), vec![installed(3, "/b")]),
    ];
    let kept = retain_installed_repos(repos);
    assert_eq!(kept.len(), 1);
    assert!(matches!(&kept[0], RepoEntry::Unknown(n, _) if n == "b"));
}

#[test]
fn grouping_puts_repos_without_installs_first() {
    let repos = vec![
        RepoEntry::Unknown(String::from("one"), vec![installed(3, "/b")]),
        RepoEntry::Unknown(String::from("two"), vec![not_installed(4, Os::Linux)]),
        RepoEntry::Unknown(String::from("three"), vec![installed(5, "/c")]),
    ];
    let grouped = group_by_installed(repos);
    let names: Vec<&str> = grouped
        .iter()
        .map(|r| match r {
            RepoEntry::Unknown(n, _) => n.as_str(),
            _ => "?",
        })
        .collect();
    assert_eq!(names, vec!["two", "one", "three"]);
}

#[test]
fn uninstalled_sets_feed_the_merge_in_order() {
    let repos = vec![
        RepoEntry::Registered(repo("a", "a"), vec![not_installed(4, Os::Linux), installed(3, "/x")]),
        RepoEntry::Unknown(String::from("u"), vec![not_installed(9, Os::Linux)]),
        RepoEntry::Registered(repo("b", "b"), vec![not_installed(5, Os::Windows)]),
    ];
    let sets = uninstalled_sets(&repos);
    assert_eq!(sets.len(), 2);
    assert_eq!(sets[0].repo.repo_id, "a");
    assert_eq!(sets[0].set.basic.major, 4);
    assert_eq!(sets[1].repo.repo_id, "b");
    assert_eq!(sets[1].set.basic.major, 5);
}

#[test]
fn installed_builds_carry_their_repo_nickname() {
    let repos = vec![
        RepoEntry::Registered(repo("a", "alpha"), vec![installed(3, "/lib/a/3.0.0")]),
        RepoEntry::Unknown(String::from("stray"), vec![installed(5, "/lib/stray/5.0.0")]),
        RepoEntry::Error(String::from("bad"), String::from("unreadable")),
    ];
    let builds = installed_builds(&repos);
    assert_eq!(builds.len(), 2);
    assert_eq!(builds[0].nickname, "alpha");
    assert_eq!(builds[1].nickname, "stray");
    let candidates = to_match_candidates(&builds);
    assert_eq!(candidates[1].build.major, 5);
    let paths = installed_paths(&builds);
    assert_eq!(paths, vec!["/lib/a/3.0.0", "/lib/stray/5.0.0"]);
}

#[test]
fn platform_narrowing_drops_foreign_builds() {
    let es = vec![
        not_installed(4, Os::Linux),
        not_installed(5, Os::Windows),
        installed(3, "/f"),
    ];
    let target = Platform { os: Os::Linux, arch: Arch::X64 };
    let out = filter_entries_by_target(&es, target);
    assert_eq!(out.len(), 2);
    assert!(matches!(&out[0], BuildEntry::NotInstalled(vs) if vs.basic.major == 4));
    assert!(matches!(&out[1], BuildEntry::Installed(_, _)));
}

#[test]
fn sort_by_version_orders_the_triple_first() {
    let mut es = vec![
        not_installed(5, Os::Linux),
        installed(3, "/f"),
        not_installed(4, Os::Linux),
    ];
    SortFormat::Version.sort(&mut es);
    let majors: Vec<u64> = es
        .iter()
        .map(|e| match e {
            BuildEntry::NotInstalled(vs) => vs.basic.major,
            BuildEntry::Installed(_, r) => r.basic.major,
            BuildEntry::Errored { .. } => 0,
        })
        .collect();
    assert_eq!(majors, vec![3, 4, 5]);
}

#[test]
fn sort_by_datetime_uses_commit_then_version() {
    let e1 = BuildEntry::NotInstalled(VariantSet {
        basic: build(9, 0, 0, 100),
        v: vec![variant(Os::Linux)],
    });
    let e2 = BuildEntry::Installed(String::from("/f"), record(1, 900, "/f"));
    let e3 = BuildEntry::Errored { error: String::from("bad"), path: None, modified: Some(500) };
    let mut es = vec![e2, e3, e1];
    SortFormat::Datetime.sort(&mut es);
    assert!(matches!(&es[0], BuildEntry::NotInstalled(_)));
    assert!(matches!(&es[1], BuildEntry::Errored { .. }));
    assert!(matches!(&es[2], BuildEntry::Installed(_, _)));
}

#[test]
fn folders_filter_by_final_component() {
    let folders = vec![
        String::from("/lib/daily"),
        String::from("/lib/lts"),
        String::from("/lib/experimental"),
    ];
    let selected = filter_folders(&folders, &Some(vec![String::from("lts"), String::from("daily")]));
    assert_eq!(selected, vec!["/lib/daily", "/lib/lts"]);
    let all = filter_folders(&folders, &None);
    assert_eq!(all.len(), 3);
}

#[test]
fn record_lookup_matches_identity_and_nickname() {
    let repos = vec![RepoEntry::Registered(repo("a", "alpha"), vec![installed(3, "/lib/a/3")])];
    let builds = installed_builds(&repos);
    let candidates = to_match_candidates(&builds);
    let found = find_record_for(&builds, &candidates[0]).unwrap();
    assert_eq!(found.folder, "/lib/a/3");
    let mut other = candidates[0].clone();
    other.nickname = String::from("beta");
    assert!(find_record_for(&builds, &other).is_none());
}

#[test]
fn first_deletion_error_reports_in_order() {
    let results = vec![
        None,
        Some(CommandError::ReturnCode(500)),
        Some(CommandError::Cancelled),
    ];
    match first_deletion_error(&results) {
        Some(CommandError::ReturnCode(c)) => assert_eq!(c, 500),
        _ => panic!("the first error must come back"),
    }
    assert!(first_deletion_error(&vec![None, None]).is_none());
}

#[test]
fn query_batch_parsing_fails_fast() {
    assert!(matches!(
        strings_to_queries(&Vec::new()),
        Err(CommandError::MissingQuery)
    ));
    let qs = vec![String::from("4.2.1"), String::from("nonsense"), String::from("5.0.0")];
    match strings_to_queries(&qs) {
        Err(CommandError::CouldNotParseQuery(s)) => assert_eq!(s, "nonsense"),
        _ => panic!("the first unparseable query must be named"),
    }
    let ok = strings_to_queries(&vec![String::from("4.2.1")]).unwrap();
    assert_eq!(ok.len(), 1);
    assert_eq!(ok[0].major, OrdPlacement::Exact(4));
}

#[test]
fn fetch_rate_limit_reports_remaining_seconds() {
    assert!(fetch_due(Some(1000), 600, 1700, false).is_ok());
    assert_eq!(fetch_due(Some(1000), 600, 1500, false), Err(100));
    assert!(fetch_due(Some(1000), 600, 1500, true).is_ok());
    assert_eq!(fetch_due(None, 600, 100, false), Err(500));
}

#[test]
fn config_task_records_the_check_time() {
    let mut cfg = Config {
        library: String::from("/lib"),
        remote_repos_dir: String::from("/cache"),
        repos: vec![repo("a", "alpha")],
        last_time_checked: None,
    };
    ConfigTask::UpdateLastTimeChecked.eval(&mut cfg, 1234);
    assert_eq!(cfg.last_time_checked, Some(1234));
    assert_eq!(cfg.library, "/lib");
}

#[test]
fn cli_override_replaces_the_library_path() {
    let mut cfg = Config {
        library: String::from("/lib"),
        remote_repos_dir: String::from("/cache"),
        repos: Vec::new(),
        last_time_checked: None,
    };
    let cli = Cli {
        commands: Command::Ls {
            format: None,
            sort_by: None,
            installed_only: false,
            variants: false,
            all_builds: false,
        },
        library: Some(String::from("/elsewhere")),
    };
    cli.apply_overrides(&mut cfg);
    assert_eq!(cfg.library, "/elsewhere");
    let plain = Cli { commands: cli.commands.clone(), library: None };
    plain.apply_overrides(&mut cfg);
    assert_eq!(cfg.library, "/elsewhere");
}

#[test]
fn launch_plan_handles_each_command_shape() {
    let by_file = run_plan(&RunCommand::File { path: String::from("/scene.blend") }).unwrap();
    assert_eq!(by_file.file.as_deref(), Some("/scene.blend"));
    assert!(by_file.query.is_none());

    assert!(matches!(
        run_plan(&RunCommand::Build { build: None, args: Vec::new() }),
        Err(CommandError::NotEnoughInput)
    ));

    let by_query = run_plan(&RunCommand::Build {
        build: Some(String::from("4.2.1")),
        args: vec![String::from("--background")],
    })
    .unwrap();
    assert_eq!(by_query.query.unwrap().major, OrdPlacement::Exact(4));
    assert_eq!(by_query.args, vec!["--background"]);

    assert!(matches!(
        run_plan(&RunCommand::Build { build: Some(String::from("nope")), args: Vec::new() }),
        Err(CommandError::CouldNotParseQuery(_))
    ));
}

#[test]
fn header_query_pins_major_and_minor() {
    let q = query_from_header(4, 2);
    assert_eq!(q.major, OrdPlacement::Exact(4));
    assert_eq!(q.minor, OrdPlacement::Exact(2));
    assert_eq!(q.patch, OrdPlacement::Any);
}

#[test]
fn selection_plan_matches_strictness() {
    assert_eq!(select_build_plan(1, true), SelectionPlan::UseSingle);
    assert_eq!(select_build_plan(1, false), SelectionPlan::UseSingle);
    assert_eq!(select_build_plan(0, true), SelectionPlan::FailAmbiguous);
    assert_eq!(select_build_plan(3, true), SelectionPlan::FailAmbiguous);
    assert_eq!(select_build_plan(0, false), SelectionPlan::MenuOverAll);
    assert_eq!(select_build_plan(3, false), SelectionPlan::MenuOverMatches);
}
