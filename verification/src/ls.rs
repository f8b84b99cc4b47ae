//! The on-disk listing model: what each repository holds — builds not
//! yet installed, builds installed, entries that failed to read — and
//! the gathering, filtering and projection steps behind the listing
//! command. Reading the disk and rendering trees or JSON are the
//! surrounding program's work.

use vstd::prelude::*;

use crate::catalog::{RepoSet, RepoSetV, matching_variants};
use crate::install::{LocalBuildRecord, LocalBuildRecordV};
use crate::platform::Platform;
use crate::repo::{
    RepoBuild, RepoBuildV, RepoV, RepositoryDescriptor, VariantSet, VariantSetV, clone_variants,
};

verus! {

/// How the listing command renders its result.
#[derive(Debug, Clone, Copy, PartialEq, Eq, Structural)]
pub enum LsFormat {
    /// A visual tree, for human reading.
    Tree,
    /// Only the filesystem paths of installed builds.
    Paths,
    /// Single-line JSON.
    Json,
    /// JSON indented for human reading.
    PrettyJson,
}

/// Mathematical model of one listing entry.
#[verifier::ext_equal]
pub ghost enum BuildEntryV {
    NotInstalled(VariantSetV),
    Installed { path: Seq<char>, record: LocalBuildRecordV },
    Errored { error: Seq<char>, path: Option<Seq<char>>, modified: Option<int> },
}

/// One build as a repository lists it.
#[derive(Debug, PartialEq)]
pub enum BuildEntry {
    /// Available remotely, not installed: its platform variants.
    NotInstalled(VariantSet),
    /// Installed locally: where it sits and its metadata record.
    Installed(String, LocalBuildRecord),
    /// A directory that failed to read as a build: the rendered error,
    /// the path if one is known, and its modification time (seconds
    /// since the Unix epoch) if the surrounding program could read one.
    Errored { error: String, path: Option<String>, modified: Option<i64> },
}

impl View for BuildEntry {
    type V = BuildEntryV;

    open spec fn view(&self) -> BuildEntryV {
        match self {
            BuildEntry::NotInstalled(vs) => BuildEntryV::NotInstalled(vs@),
            BuildEntry::Installed(p, rec) => BuildEntryV::Installed { path: p@, record: rec@ },
            BuildEntry::Errored { error, path, modified } => BuildEntryV::Errored {
                error: error@,
                path: match path {
                    Some(p) => Some(p@),
                    None => None,
                },
                modified: match modified {
                    Some(m) => Some(m as int),
                    None => None,
                },
            },
        }
    }
}

impl Clone for BuildEntry {
    fn clone(&self) -> (r: Self)
        ensures
            r@ == self@,
    {
        match self {
            BuildEntry::NotInstalled(vs) => BuildEntry::NotInstalled(vs.clone()),
            BuildEntry::Installed(p, rec) => BuildEntry::Installed(p.clone(), rec.clone()),
            BuildEntry::Errored { error, path, modified } => BuildEntry::Errored {
                error: error.clone(),
                path: match path {
                    Some(p) => Some(p.clone()),
                    None => None,
                },
                modified: *modified,
            },
        }
    }
}

/// Mathematical model of one repository's listing.
#[verifier::ext_equal]
pub ghost enum RepoEntryV {
    Registered(RepoV, Seq<BuildEntryV>),
    Unknown(Seq<char>, Seq<BuildEntryV>),
    Error(Seq<char>, Seq<char>),
}

/// One repository as the listing sees it: configured, present on disk
/// but unconfigured, or unreadable.
#[derive(Debug, Clone, PartialEq)]
pub enum RepoEntry {
    Registered(RepositoryDescriptor, Vec<BuildEntry>),
    Unknown(String, Vec<BuildEntry>),
    Error(String, String),
}

/// The models of an entry list.
pub open spec fn build_entry_views(es: Seq<BuildEntry>) -> Seq<BuildEntryV> {
    es.map_values(|e: BuildEntry| e@)
}

impl View for RepoEntry {
    type V = RepoEntryV;

    open spec fn view(&self) -> RepoEntryV {
        match self {
            RepoEntry::Registered(rd, es) => RepoEntryV::Registered(rd@, build_entry_views(es@)),
            RepoEntry::Unknown(n, es) => RepoEntryV::Unknown(n@, build_entry_views(es@)),
            RepoEntry::Error(n, e) => RepoEntryV::Error(n@, e@),
        }
    }
}

/// The models of a repository list.
pub open spec fn repo_entry_views(rs: Seq<RepoEntry>) -> Seq<RepoEntryV> {
    rs.map_values(|r: RepoEntry| r@)
}

/// Whether a repository's listing holds at least one installed build.
pub open spec fn has_installed(r: RepoEntryV) -> bool {
    match r {
        RepoEntryV::Registered(_, es) => exists|j: int|
            0 <= j < es.len() && (#[trigger] es[j]) is Installed,
        RepoEntryV::Unknown(_, es) => exists|j: int|
            0 <= j < es.len() && (#[trigger] es[j]) is Installed,
        RepoEntryV::Error(_, _) => false,
    }
}

fn entries_have_installed(es: &Vec<BuildEntry>) -> (r: bool)
    ensures
        r == exists|j: int|
            0 <= j < build_entry_views(es@).len() && (#[trigger] build_entry_views(es@)[j])
                is Installed,
{
    let ghost ev = build_entry_views(es@);
    let mut j: usize = 0;
    while j < es.len()
        invariant
            ev == build_entry_views(es@),
            j <= ev.len(),
            es@.len() == ev.len(),
            forall|k: int| 0 <= k < j ==> !((#[trigger] ev[k]) is Installed),
        decreases ev.len() - j,
    {
        match &es[j] {
            BuildEntry::Installed(_, _) => {
                assert(ev[j as int] is Installed);
                return true;
            },
            _ => {},
        }
        j = j + 1;
    }
    false
}

/// Decides whether a repository's listing holds an installed build.
pub fn has_installed_builds(r: &RepoEntry) -> (b: bool)
    ensures
        b == has_installed(r@),
{
    match r {
        RepoEntry::Registered(_, es) => entries_have_installed(es),
        RepoEntry::Unknown(_, es) => entries_have_installed(es),
        RepoEntry::Error(_, _) => false,
    }
}

/// The repositories that hold an installed build, in order.
pub open spec fn installed_only(rs: Seq<RepoEntryV>) -> Seq<RepoEntryV>
    decreases rs.len(),
{
    if rs.len() == 0 {
        Seq::empty()
    } else {
        installed_only(rs.drop_last()) + (if has_installed(rs.last()) {
            seq![rs.last()]
        } else {
            Seq::empty()
        })
    }
}

/// The repositories without an installed build, in order.
pub open spec fn not_installed_only(rs: Seq<RepoEntryV>) -> Seq<RepoEntryV>
    decreases rs.len(),
{
    if rs.len() == 0 {
        Seq::empty()
    } else {
        not_installed_only(rs.drop_last()) + (if has_installed(rs.last()) {
            Seq::empty()
        } else {
            seq![rs.last()]
        })
    }
}

/// Keeps only the repositories with installed builds, preserving order.
pub fn retain_installed_repos(repos: Vec<RepoEntry>) -> (out: Vec<RepoEntry>)
    ensures
        repo_entry_views(out@) == installed_only(repo_entry_views(repos@)),
{
    let ghost orig = repo_entry_views(repos@);
    let mut rest = repos;
    let mut out: Vec<RepoEntry> = Vec::new();
    let ghost mut done: int = 0;
    assert(orig.subrange(0, 0) =~= Seq::<RepoEntryV>::empty());
    assert(orig.subrange(0, orig.len() as int) =~= orig);
    while rest.len() > 0
        invariant
            0 <= done <= orig.len(),
            repo_entry_views(rest@) =~= orig.subrange(done, orig.len() as int),
            repo_entry_views(out@) == installed_only(orig.subrange(0, done)),
        decreases rest@.len(),
    {
        proof {
            assert(repo_entry_views(rest@).len() == rest@.len());
            assert(done < orig.len());
        }
        let ghost cur = orig.subrange(0, done + 1);
        proof {
            assert(cur.drop_last() =~= orig.subrange(0, done));
            assert(repo_entry_views(rest@)[0] == orig[done]);
            assert(cur.last() == orig[done]);
        }
        let ghost pre_rest = rest@;
        let ghost oldout = out@;
        let e = rest.remove(0);
        assert(e@ == orig[done]);
        if has_installed_builds(&e) {
            out.push(e);
            proof {
                oldout.lemma_push_map_commute(|r: RepoEntry| r@, e);
            }
        }
        proof {
            assert(repo_entry_views(out@) =~= installed_only(cur));
            assert(rest@ == pre_rest.remove(0));
            assert forall|k: int| 0 <= k < rest@.len() implies #[trigger] repo_entry_views(
                rest@,
            )[k] == orig.subrange(done + 1, orig.len() as int)[k] by {
                assert(rest@[k] == pre_rest[k + 1]);
                assert(repo_entry_views(pre_rest)[k + 1] == pre_rest[k + 1]@);
            }
            done = done + 1;
            assert(repo_entry_views(rest@) =~= orig.subrange(done, orig.len() as int));
        }
    }
    proof {
        assert(done == orig.len());
        assert(orig.subrange(0, orig.len() as int) =~= orig);
    }
    out
}

/// Moves the repositories without installed builds ahead of those with
/// them, preserving the order inside each group — the listing order
/// that puts installed repositories last.
pub fn group_by_installed(repos: Vec<RepoEntry>) -> (out: Vec<RepoEntry>)
    ensures
        repo_entry_views(out@) == not_installed_only(repo_entry_views(repos@)) + installed_only(
            repo_entry_views(repos@),
        ),
{
    let ghost orig = repo_entry_views(repos@);
    let mut rest = repos;
    let mut without: Vec<RepoEntry> = Vec::new();
    let mut with_installed: Vec<RepoEntry> = Vec::new();
    let ghost mut done: int = 0;
    assert(orig.subrange(0, 0) =~= Seq::<RepoEntryV>::empty());
    assert(orig.subrange(0, orig.len() as int) =~= orig);
    while rest.len() > 0
        invariant
            0 <= done <= orig.len(),
            repo_entry_views(rest@) =~= orig.subrange(done, orig.len() as int),
            repo_entry_views(without@) == not_installed_only(orig.subrange(0, done)),
            repo_entry_views(with_installed@) == installed_only(orig.subrange(0, done)),
        decreases rest@.len(),
    {
        proof {
            assert(repo_entry_views(rest@).len() == rest@.len());
            assert(done < orig.len());
        }
        let ghost cur = orig.subrange(0, done + 1);
        proof {
            assert(cur.drop_last() =~= orig.subrange(0, done));
            assert(repo_entry_views(rest@)[0] == orig[done]);
            assert(cur.last() == orig[done]);
        }
        let ghost pre_rest = rest@;
        let ghost old_without = without@;
        let ghost old_with = with_installed@;
        let e = rest.remove(0);
        assert(e@ == orig[done]);
        if has_installed_builds(&e) {
            with_installed.push(e);
            proof {
                old_with.lemma_push_map_commute(|r: RepoEntry| r@, e);
            }
        } else {
            without.push(e);
            proof {
                old_without.lemma_push_map_commute(|r: RepoEntry| r@, e);
            }
        }
        proof {
            assert(repo_entry_views(without@) =~= not_installed_only(cur));
            assert(repo_entry_views(with_installed@) =~= installed_only(cur));
            assert(rest@ == pre_rest.remove(0));
            assert forall|k: int| 0 <= k < rest@.len() implies #[trigger] repo_entry_views(
                rest@,
            )[k] == orig.subrange(done + 1, orig.len() as int)[k] by {
                assert(rest@[k] == pre_rest[k + 1]);
                assert(repo_entry_views(pre_rest)[k + 1] == pre_rest[k + 1]@);
            }
            done = done + 1;
            assert(repo_entry_views(rest@) =~= orig.subrange(done, orig.len() as int));
        }
    }
    proof {
        assert(done == orig.len());
        assert(orig.subrange(0, orig.len() as int) =~= orig);
    }
    let mut out = without;
    let mut tail = with_installed;
    let ghost head = repo_entry_views(out@);
    let ghost tl = repo_entry_views(tail@);
    out.append(&mut tail);
    proof {
        assert(repo_entry_views(out@) =~= head + tl);
    }
    out
}

/// The not-yet-installed offerings of every configured repository, as
/// merge input: one pair per NotInstalled entry of a Registered
/// repository, in listing order.
pub open spec fn uninstalled_of_entries(rd: RepoV, es: Seq<BuildEntryV>) -> Seq<RepoSetV>
    decreases es.len(),
{
    if es.len() == 0 {
        Seq::empty()
    } else {
        uninstalled_of_entries(rd, es.drop_last()) + (match es.last() {
            BuildEntryV::NotInstalled(vs) => seq![RepoSetV { repo: rd, set: vs }],
            _ => Seq::empty(),
        })
    }
}

/// The offerings of one repository listing.
pub open spec fn uninstalled_of_repo(r: RepoEntryV) -> Seq<RepoSetV> {
    match r {
        RepoEntryV::Registered(rd, es) => uninstalled_of_entries(rd, es),
        _ => Seq::empty(),
    }
}

/// The offerings of a whole listing, in order.
pub open spec fn uninstalled_of(rs: Seq<RepoEntryV>) -> Seq<RepoSetV>
    decreases rs.len(),
{
    if rs.len() == 0 {
        Seq::empty()
    } else {
        uninstalled_of(rs.drop_last()) + uninstalled_of_repo(rs.last())
    }
}

/// Collects the not-yet-installed offerings of every configured
/// repository, in order: the Catalog Merge's input.
pub fn uninstalled_sets(repos: &Vec<RepoEntry>) -> (out: Vec<RepoSet>)
    ensures
        out@.map_values(|p: RepoSet| p@) == uninstalled_of(repo_entry_views(repos@)),
{
    let ghost rv = repo_entry_views(repos@);
    let mut out: Vec<RepoSet> = Vec::new();
    let mut i: usize = 0;
    assert(rv.subrange(0, 0) =~= Seq::<RepoEntryV>::empty());
    while i < repos.len()
        invariant
            rv == repo_entry_views(repos@),
            i <= rv.len(),
            repos@.len() == rv.len(),
            out@.map_values(|p: RepoSet| p@) == uninstalled_of(rv.subrange(0, i as int)),
        decreases rv.len() - i,
    {
        let ghost cur = rv.subrange(0, i + 1);
        proof {
            assert(cur.drop_last() =~= rv.subrange(0, i as int));
            assert(cur.last() == rv[i as int]);
        }
        match &repos[i] {
            RepoEntry::Registered(rd, es) => {
                let ghost ev = build_entry_views(es@);
                let mut j: usize = 0;
                assert(ev.subrange(0, 0) =~= Seq::<BuildEntryV>::empty());
                while j < es.len()
                    invariant
                        rv == repo_entry_views(repos@),
                        i < rv.len(),
                        repos@.len() == rv.len(),
                        repos@[i as int] == RepoEntry::Registered(*rd, *es),
                        ev == build_entry_views(es@),
                        j <= ev.len(),
                        es@.len() == ev.len(),
                        out@.map_values(|p: RepoSet| p@) == uninstalled_of(
                            rv.subrange(0, i as int),
                        ) + uninstalled_of_entries(rd@, ev.subrange(0, j as int)),
                    decreases ev.len() - j,
                {
                    let ghost ecur = ev.subrange(0, j + 1);
                    proof {
                        assert(ecur.drop_last() =~= ev.subrange(0, j as int));
                        assert(ecur.last() == ev[j as int]);
                    }
                    match &es[j] {
                        BuildEntry::NotInstalled(vs) => {
                            let rs = RepoSet { repo: rd.clone(), set: vs.clone() };
                            proof {
                                assert(rs@.repo == rd@);
                                assert(rs@.set.basic == vs@.basic);
                                assert(rs@.set.v =~= vs@.v);
                                assert(rs@.set =~= vs@);
                                assert(rs@ =~~= (RepoSetV { repo: rd@, set: vs@ }));
                                assert(ev[j as int] == BuildEntryV::NotInstalled(vs@));
                            }
                            let ghost oldout = out@;
                            out.push(rs);
                            proof {
                                oldout.lemma_push_map_commute(|p: RepoSet| p@, rs);
                                assert(out@.map_values(|p: RepoSet| p@) =~= oldout.map_values(
                                    |p: RepoSet| p@,
                                ).push(rs@));
                                assert(uninstalled_of_entries(rd@, ecur) =~~= uninstalled_of_entries(
                                    rd@,
                                    ev.subrange(0, j as int),
                                ) + seq![RepoSetV { repo: rd@, set: vs@ }]);
                                assert(out@.map_values(|p: RepoSet| p@) =~~= uninstalled_of(
                                    rv.subrange(0, i as int),
                                ) + uninstalled_of_entries(rd@, ecur));
                            }
                        },
                        _ => {
                            proof {
                                assert(!(ev[j as int] is NotInstalled));
                                assert(uninstalled_of_entries(rd@, ecur) =~~= uninstalled_of_entries(
                                    rd@,
                                    ev.subrange(0, j as int),
                                ));
                                assert(out@.map_values(|p: RepoSet| p@) =~~= uninstalled_of(
                                    rv.subrange(0, i as int),
                                ) + uninstalled_of_entries(rd@, ecur));
                            }
                        },
                    }
                    j = j + 1;
                    assert(ev.subrange(0, j as int) =~= ecur);
                }
                proof {
                    assert(ev.subrange(0, ev.len() as int) =~= ev);
                    assert(rv[i as int] == RepoEntryV::Registered(rd@, ev));
                    assert(out@.map_values(|p: RepoSet| p@) =~= uninstalled_of(cur));
                }
            },
            _ => {
                proof {
                    assert(uninstalled_of_repo(rv[i as int]) =~= Seq::<RepoSetV>::empty());
                    assert(out@.map_values(|p: RepoSet| p@) =~= uninstalled_of(cur));
                }
            },
        }
        i = i + 1;
        assert(rv.subrange(0, i as int) =~= cur);
    }
    proof {
        assert(rv.subrange(0, rv.len() as int) =~= rv);
    }
    out
}

/// Mathematical model of one installed build with its repository.
#[verifier::ext_equal]
pub ghost struct InstalledBuildV {
    pub record: LocalBuildRecordV,
    pub nickname: Seq<char>,
}

/// One installed build together with the nickname of the repository it
/// sits in.
#[derive(Debug, Clone, PartialEq)]
pub struct InstalledBuild {
    pub record: LocalBuildRecord,
    pub nickname: String,
}

impl View for InstalledBuild {
    type V = InstalledBuildV;

    open spec fn view(&self) -> InstalledBuildV {
        InstalledBuildV { record: self.record@, nickname: self.nickname@ }
    }
}

/// The installed builds of one repository listing, paired with its
/// nickname.
pub open spec fn installed_of_entries(nick: Seq<char>, es: Seq<BuildEntryV>) -> Seq<
    InstalledBuildV,
>
    decreases es.len(),
{
    if es.len() == 0 {
        Seq::empty()
    } else {
        installed_of_entries(nick, es.drop_last()) + (match es.last() {
            BuildEntryV::Installed { path: _, record } => seq![
                InstalledBuildV { record, nickname: nick },
            ],
            _ => Seq::empty(),
        })
    }
}

/// The installed builds of one repository listing: a configured
/// repository contributes under its nickname, an unconfigured one under
/// its directory name, an unreadable one nothing.
pub open spec fn installed_of_repo(r: RepoEntryV) -> Seq<InstalledBuildV> {
    match r {
        RepoEntryV::Registered(rd, es) => installed_of_entries(rd.nickname, es),
        RepoEntryV::Unknown(n, es) => installed_of_entries(n, es),
        RepoEntryV::Error(_, _) => Seq::empty(),
    }
}

/// Every installed build of a whole listing, in order.
pub open spec fn installed_of(rs: Seq<RepoEntryV>) -> Seq<InstalledBuildV>
    decreases rs.len(),
{
    if rs.len() == 0 {
        Seq::empty()
    } else {
        installed_of(rs.drop_last()) + installed_of_repo(rs.last())
    }
}

fn collect_installed_entries(
    out: &mut Vec<InstalledBuild>,
    nickname: &String,
    es: &Vec<BuildEntry>,
)
    ensures
        final(out)@.map_values(|b: InstalledBuild| b@) == old(out)@.map_values(
            |b: InstalledBuild| b@,
        ) + installed_of_entries(nickname@, build_entry_views(es@)),
{
    let ghost ev = build_entry_views(es@);
    let ghost base = old(out)@.map_values(|b: InstalledBuild| b@);
    let mut j: usize = 0;
    assert(ev.subrange(0, 0) =~= Seq::<BuildEntryV>::empty());
    assert(out@.map_values(|b: InstalledBuild| b@) =~= base + installed_of_entries(
        nickname@,
        ev.subrange(0, 0),
    ));
    while j < es.len()
        invariant
            ev == build_entry_views(es@),
            j <= ev.len(),
            es@.len() == ev.len(),
            out@.map_values(|b: InstalledBuild| b@) == base + installed_of_entries(
                nickname@,
                ev.subrange(0, j as int),
            ),
        decreases ev.len() - j,
    {
        let ghost ecur = ev.subrange(0, j + 1);
        proof {
            assert(ecur.drop_last() =~= ev.subrange(0, j as int));
            assert(ecur.last() == ev[j as int]);
        }
        match &es[j] {
            BuildEntry::Installed(_, rec) => {
                let b = InstalledBuild { record: rec.clone(), nickname: nickname.clone() };
                proof {
                    assert(b@.record == rec@);
                    assert(b@.nickname == nickname@);
                }
                let ghost oldout = out@;
                out.push(b);
                proof {
                    oldout.lemma_push_map_commute(|b2: InstalledBuild| b2@, b);
                    assert(out@.map_values(|b2: InstalledBuild| b2@) =~= oldout.map_values(
                        |b2: InstalledBuild| b2@,
                    ).push(b@));
                }
            },
            _ => {},
        }
        proof {
            assert(out@.map_values(|b: InstalledBuild| b@) =~~= base + installed_of_entries(
                nickname@,
                ecur,
            ));
        }
        j = j + 1;
        assert(ev.subrange(0, j as int) =~= ecur);
    }
    assert(ev.subrange(0, ev.len() as int) =~= ev);
}

/// Collects every installed build of a listing, in order, each under
/// its repository's nickname.
pub fn installed_builds(repos: &Vec<RepoEntry>) -> (out: Vec<InstalledBuild>)
    ensures
        out@.map_values(|b: InstalledBuild| b@) == installed_of(repo_entry_views(repos@)),
{
    let ghost rv = repo_entry_views(repos@);
    let mut out: Vec<InstalledBuild> = Vec::new();
    let mut i: usize = 0;
    assert(rv.subrange(0, 0) =~= Seq::<RepoEntryV>::empty());
    assert(out@.map_values(|b: InstalledBuild| b@) =~= installed_of(rv.subrange(0, 0)));
    while i < repos.len()
        invariant
            rv == repo_entry_views(repos@),
            i <= rv.len(),
            repos@.len() == rv.len(),
            out@.map_values(|b: InstalledBuild| b@) == installed_of(rv.subrange(0, i as int)),
        decreases rv.len() - i,
    {
        let ghost cur = rv.subrange(0, i + 1);
        proof {
            assert(cur.drop_last() =~= rv.subrange(0, i as int));
            assert(cur.last() == rv[i as int]);
        }
        match &repos[i] {
            RepoEntry::Registered(rd, es) => {
                collect_installed_entries(&mut out, &rd.nickname, es);
                proof {
                    assert(rv[i as int] == RepoEntryV::Registered(rd@, build_entry_views(es@)));
                    assert(out@.map_values(|b: InstalledBuild| b@) =~= installed_of(cur));
                }
            },
            RepoEntry::Unknown(n, es) => {
                collect_installed_entries(&mut out, n, es);
                proof {
                    assert(rv[i as int] == RepoEntryV::Unknown(n@, build_entry_views(es@)));
                    assert(out@.map_values(|b: InstalledBuild| b@) =~= installed_of(cur));
                }
            },
            RepoEntry::Error(_, _) => {
                proof {
                    assert(installed_of_repo(rv[i as int]) =~= Seq::<InstalledBuildV>::empty());
                    assert(out@.map_values(|b: InstalledBuild| b@) =~= installed_of(cur));
                }
            },
        }
        i = i + 1;
        assert(rv.subrange(0, i as int) =~= cur);
    }
    proof {
        assert(rv.subrange(0, rv.len() as int) =~= rv);
    }
    out
}

/// Projects installed builds to what the matcher consumes: the build
/// identity of each record under its repository nickname, in order.
pub fn to_match_candidates(builds: &Vec<InstalledBuild>) -> (out: Vec<RepoBuild>)
    ensures
        out@.len() == builds@.len(),
        forall|k: int|
            0 <= k < out@.len() ==> (#[trigger] out@[k])@ == (RepoBuildV {
                build: builds@[k]@.record.basic,
                nickname: builds@[k]@.nickname,
            }),
{
    let mut out: Vec<RepoBuild> = Vec::new();
    let mut i: usize = 0;
    while i < builds.len()
        invariant
            i <= builds@.len(),
            out@.len() == i,
            forall|k: int|
                0 <= k < i ==> (#[trigger] out@[k])@ == (RepoBuildV {
                    build: builds@[k]@.record.basic,
                    nickname: builds@[k]@.nickname,
                }),
        decreases builds@.len() - i,
    {
        let b = &builds[i];
        out.push(RepoBuild { build: b.record.basic.clone(), nickname: b.nickname.clone() });
        i = i + 1;
    }
    out
}

/// The install folders of every installed build, in order: the content
/// of the paths-only listing format.
pub fn installed_paths(builds: &Vec<InstalledBuild>) -> (out: Vec<String>)
    ensures
        out@.len() == builds@.len(),
        forall|k: int| 0 <= k < out@.len() ==> (#[trigger] out@[k])@ == builds@[k]@.record.folder,
{
    let mut out: Vec<String> = Vec::new();
    let mut i: usize = 0;
    while i < builds.len()
        invariant
            i <= builds@.len(),
            out@.len() == i,
            forall|k: int|
                0 <= k < i ==> (#[trigger] out@[k])@ == builds@[k]@.record.folder,
        decreases builds@.len() - i,
    {
        out.push(builds[i].record.folder.clone());
        i = i + 1;
    }
    out
}

/// The platform filter over one listing entry: a not-installed build
/// keeps only its matching variants and disappears when none match;
/// installed and unreadable entries stay.
pub open spec fn narrow_entry(e: BuildEntryV, target: Platform) -> Option<BuildEntryV> {
    match e {
        BuildEntryV::NotInstalled(vs) => if matching_variants(vs.v, target).len() == 0 {
            None
        } else {
            Some(
                BuildEntryV::NotInstalled(
                    VariantSetV { basic: vs.basic, v: matching_variants(vs.v, target) },
                ),
            )
        },
        _ => Some(e),
    }
}

/// The platform filter over a whole entry list.
pub open spec fn narrow_entries(es: Seq<BuildEntryV>, target: Platform) -> Seq<BuildEntryV>
    decreases es.len(),
{
    if es.len() == 0 {
        Seq::empty()
    } else {
        narrow_entries(es.drop_last(), target) + (match narrow_entry(es.last(), target) {
            Some(e) => seq![e],
            None => Seq::empty(),
        })
    }
}

/// Narrows every not-installed entry of a listing to the target
/// platform's variants, dropping builds with none.
pub fn filter_entries_by_target(es: &Vec<BuildEntry>, target: Platform) -> (out: Vec<BuildEntry>)
    ensures
        build_entry_views(out@) == narrow_entries(build_entry_views(es@), target),
{
    let ghost ev = build_entry_views(es@);
    let mut out: Vec<BuildEntry> = Vec::new();
    let mut i: usize = 0;
    assert(ev.subrange(0, 0) =~= Seq::<BuildEntryV>::empty());
    while i < es.len()
        invariant
            ev == build_entry_views(es@),
            i <= ev.len(),
            es@.len() == ev.len(),
            build_entry_views(out@) == narrow_entries(ev.subrange(0, i as int), target),
        decreases ev.len() - i,
    {
        let ghost cur = ev.subrange(0, i + 1);
        proof {
            assert(cur.drop_last() =~= ev.subrange(0, i as int));
            assert(cur.last() == ev[i as int]);
        }
        match &es[i] {
            BuildEntry::NotInstalled(vs) => {
                let filtered = crate::catalog::filter_variants(vs, target);
                if filtered.v.len() > 0 {
                    out.push(BuildEntry::NotInstalled(filtered));
                }
            },
            BuildEntry::Installed(p, rec) => {
                out.push(BuildEntry::Installed(p.clone(), rec.clone()));
            },
            BuildEntry::Errored { error, path, modified } => {
                out.push(
                    BuildEntry::Errored {
                        error: error.clone(),
                        path: match path {
                            Some(p) => Some(p.clone()),
                            None => None,
                        },
                        modified: *modified,
                    },
                );
            },
        }
        proof {
            assert(build_entry_views(out@) =~= narrow_entries(cur, target));
        }
        i = i + 1;
        assert(ev.subrange(0, i as int) =~= cur);
    }
    proof {
        assert(ev.subrange(0, ev.len() as int) =~= ev);
    }
    out
}

} // verus!
