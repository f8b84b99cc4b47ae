//! The query matcher: which catalog builds satisfy a version search query.
//!
//! Matching happens in two phases. First every exact constraint is
//! applied as a filter: repository nickname, branch, build hash, and any
//! version component given as a literal number. Then the wildcard `^`
//! (largest) and `-` (smallest) components narrow the remaining
//! candidates to those extremal in that component, in the order major,
//! minor, patch, commit time.

use vstd::prelude::*;

use crate::query::{OrdPlacement, QueryV, TimePlacement, VersionSearchQuery};
use crate::repo::{RepoBuild, RepoBuildV};

verus! {

/// Whether a textual constraint admits the given text.
pub open spec fn wild_ok(w: Option<Seq<char>>, s: Seq<char>) -> bool {
    match w {
        None => true,
        Some(t) => t == s,
    }
}

/// Whether an ordered constraint, read as a plain filter, admits `v`.
/// The extremal wildcards restrict nothing at this phase.
pub open spec fn ord_filter_ok(p: OrdPlacement, v: int) -> bool {
    match p {
        OrdPlacement::Exact(n) => v == n,
        _ => true,
    }
}

/// Phase one: every exact constraint of the query holds of candidate `i`.
pub open spec fn sel_base(q: QueryV, bs: Seq<RepoBuildV>, i: int) -> bool {
    &&& 0 <= i < bs.len()
    &&& wild_ok(q.repository, bs[i].nickname)
    &&& ord_filter_ok(q.major, bs[i].build.major)
    &&& ord_filter_ok(q.minor, bs[i].build.minor)
    &&& ord_filter_ok(q.patch, bs[i].build.patch)
    &&& wild_ok(q.branch, bs[i].build.branch)
    &&& wild_ok(q.build_hash, bs[i].build.build_hash)
}

/// Phase two, first step: the major component is extremal when asked.
pub open spec fn sel_major(q: QueryV, bs: Seq<RepoBuildV>, i: int) -> bool {
    &&& sel_base(q, bs, i)
    &&& match q.major {
        OrdPlacement::Largest => forall|j: int|
            sel_base(q, bs, j) ==> bs[j].build.major <= bs[i].build.major,
        OrdPlacement::Smallest => forall|j: int|
            sel_base(q, bs, j) ==> bs[i].build.major <= bs[j].build.major,
        _ => true,
    }
}

/// Phase two, second step: the minor component is extremal when asked.
pub open spec fn sel_minor(q: QueryV, bs: Seq<RepoBuildV>, i: int) -> bool {
    &&& sel_major(q, bs, i)
    &&& match q.minor {
        OrdPlacement::Largest => forall|j: int|
            sel_major(q, bs, j) ==> bs[j].build.minor <= bs[i].build.minor,
        OrdPlacement::Smallest => forall|j: int|
            sel_major(q, bs, j) ==> bs[i].build.minor <= bs[j].build.minor,
        _ => true,
    }
}

/// Phase two, third step: the patch component is extremal when asked.
pub open spec fn sel_patch(q: QueryV, bs: Seq<RepoBuildV>, i: int) -> bool {
    &&& sel_minor(q, bs, i)
    &&& match q.patch {
        OrdPlacement::Largest => forall|j: int|
            sel_minor(q, bs, j) ==> bs[j].build.patch <= bs[i].build.patch,
        OrdPlacement::Smallest => forall|j: int|
            sel_minor(q, bs, j) ==> bs[i].build.patch <= bs[j].build.patch,
        _ => true,
    }
}

/// The whole selection: phase one, then every extremal narrowing, ending
/// with the commit time.
pub open spec fn query_selects(q: QueryV, bs: Seq<RepoBuildV>, i: int) -> bool {
    &&& sel_patch(q, bs, i)
    &&& match q.commit_dt {
        TimePlacement::Largest => forall|j: int|
            sel_patch(q, bs, j) ==> bs[j].build.commit_dt <= bs[i].build.commit_dt,
        TimePlacement::Smallest => forall|j: int|
            sel_patch(q, bs, j) ==> bs[i].build.commit_dt <= bs[j].build.commit_dt,
        TimePlacement::Any => true,
    }
}

/// The models of a list of candidates.
pub open spec fn views_of(builds: Seq<RepoBuild>) -> Seq<RepoBuildV> {
    builds.map_values(|x: RepoBuild| x@)
}

fn wild_matches_str(w: &crate::query::WildPlacement, s: &String) -> (r: bool)
    ensures
        r == wild_ok(w@, s@),
{
    match w {
        crate::query::WildPlacement::Any => true,
        crate::query::WildPlacement::Exact(t) => *t == *s,
    }
}

fn ord_filter_matches(p: &OrdPlacement, v: u64) -> (r: bool)
    ensures
        r == ord_filter_ok(*p, v as int),
{
    match p {
        OrdPlacement::Exact(n) => *n == v,
        _ => true,
    }
}

/// Narrows `keep` to the candidates whose value is extremal among the
/// kept ones; with `largest` the maximum, otherwise the minimum.
fn narrow_extreme(keep: &Vec<bool>, vals: &Vec<i128>, largest: bool) -> (out: Vec<bool>)
    requires
        keep@.len() == vals@.len(),
    ensures
        out@.len() == keep@.len(),
        forall|i: int|
            0 <= i < out@.len() ==> out@[i] == (keep@[i] && (if largest {
                forall|j: int| 0 <= j < keep@.len() && keep@[j] ==> vals@[j] <= vals@[i]
            } else {
                forall|j: int| 0 <= j < keep@.len() && keep@[j] ==> vals@[i] <= vals@[j]
            })),
{
    let n = keep.len();
    let mut best: Option<i128> = None;
    let mut i: usize = 0;
    while i < n
        invariant
            n == keep@.len() == vals@.len(),
            i <= n,
            match best {
                None => forall|j: int| 0 <= j < i ==> !keep@[j],
                Some(b) => {
                    &&& exists|j: int| 0 <= j < i && keep@[j] && vals@[j] == b
                    &&& forall|j: int|
                        0 <= j < i && keep@[j] ==> (if largest {
                            vals@[j] <= b
                        } else {
                            b <= vals@[j]
                        })
                },
            },
        decreases n - i,
    {
        if keep[i] {
            best = match best {
                None => Some(vals[i]),
                Some(b) => {
                    if largest {
                        if vals[i] > b {
                            Some(vals[i])
                        } else {
                            Some(b)
                        }
                    } else {
                        if vals[i] < b {
                            Some(vals[i])
                        } else {
                            Some(b)
                        }
                    }
                },
            };
        }
        i = i + 1;
    }
    let mut out: Vec<bool> = Vec::new();
    let mut k: usize = 0;
    while k < n
        invariant
            n == keep@.len() == vals@.len(),
            k <= n,
            out@.len() == k,
            match best {
                None => forall|j: int| 0 <= j < n ==> !keep@[j],
                Some(b) => {
                    &&& exists|j: int| 0 <= j < n && keep@[j] && vals@[j] == b
                    &&& forall|j: int|
                        0 <= j < n && keep@[j] ==> (if largest {
                            vals@[j] <= b
                        } else {
                            b <= vals@[j]
                        })
                },
            },
            forall|i2: int|
                0 <= i2 < k ==> out@[i2] == (keep@[i2] && (if largest {
                    forall|j: int| 0 <= j < keep@.len() && keep@[j] ==> vals@[j] <= vals@[i2]
                } else {
                    forall|j: int| 0 <= j < keep@.len() && keep@[j] ==> vals@[i2] <= vals@[j]
                })),
        decreases n - k,
    {
        let kept = keep[k];
        let is_best = match best {
            None => false,
            Some(b) => kept && vals[k] == b,
        };
        proof {
            if kept {
                let b = best->Some_0;
                if is_best {
                    assert(forall|j: int|
                        0 <= j < n && keep@[j] ==> (if largest {
                            vals@[j] <= vals@[k as int]
                        } else {
                            vals@[k as int] <= vals@[j]
                        }));
                } else {
                    let jw = choose|j: int| 0 <= j < n && keep@[j] && vals@[j] == b;
                    if largest {
                        assert(vals@[k as int] <= b);
                        assert(vals@[k as int] != b);
                        assert(!(vals@[jw] <= vals@[k as int]));
                    } else {
                        assert(b <= vals@[k as int]);
                        assert(vals@[k as int] != b);
                        assert(!(vals@[k as int] <= vals@[jw]));
                    }
                }
            }
        }
        out.push(is_best);
        k = k + 1;
    }
    out
}

/// Finds every build satisfying the query, as ascending indices into
/// `builds`.
pub fn find_matches(q: &VersionSearchQuery, builds: &Vec<RepoBuild>) -> (r: Vec<usize>)
    ensures
        forall|k: int| 0 <= k < r@.len() ==> r@[k] < builds@.len(),
        forall|k: int| 0 <= k < r@.len() ==> query_selects(q@, views_of(builds@), r@[k] as int),
        forall|k1: int, k2: int| 0 <= k1 < k2 < r@.len() ==> r@[k1] < r@[k2],
        forall|i: int|
            0 <= i < builds@.len() && #[trigger] query_selects(q@, views_of(builds@), i)
                ==> exists|k: int| 0 <= k < r@.len() && r@[k] == i,
{
    let ghost bsv = views_of(builds@);
    let n = builds.len();

    // Phase one: exact constraints.
    let mut keep: Vec<bool> = Vec::new();
    let mut majors: Vec<i128> = Vec::new();
    let mut minors: Vec<i128> = Vec::new();
    let mut patches: Vec<i128> = Vec::new();
    let mut commits: Vec<i128> = Vec::new();
    let mut i: usize = 0;
    while i < n
        invariant
            n == builds@.len(),
            bsv == views_of(builds@),
            i <= n,
            keep@.len() == i,
            majors@.len() == i,
            minors@.len() == i,
            patches@.len() == i,
            commits@.len() == i,
            forall|j: int| 0 <= j < i ==> keep@[j] == sel_base(q@, bsv, j),
            forall|j: int| 0 <= j < i ==> majors@[j] == bsv[j].build.major,
            forall|j: int| 0 <= j < i ==> minors@[j] == bsv[j].build.minor,
            forall|j: int| 0 <= j < i ==> patches@[j] == bsv[j].build.patch,
            forall|j: int| 0 <= j < i ==> commits@[j] == bsv[j].build.commit_dt,
        decreases n - i,
    {
        let b = &builds[i];
        let ok = wild_matches_str(&q.repository, &b.nickname) && ord_filter_matches(
            &q.major,
            b.build.major,
        ) && ord_filter_matches(&q.minor, b.build.minor) && ord_filter_matches(
            &q.patch,
            b.build.patch,
        ) && wild_matches_str(&q.branch, &b.build.branch) && wild_matches_str(
            &q.build_hash,
            &b.build.build_hash,
        );
        keep.push(ok);
        majors.push(b.build.major as i128);
        minors.push(b.build.minor as i128);
        patches.push(b.build.patch as i128);
        commits.push(b.build.commit_dt as i128);
        i = i + 1;
    }

    // Phase two: extremal narrowing, one ordered component at a time.
    let keep1 = match q.major {
        OrdPlacement::Largest => narrow_extreme(&keep, &majors, true),
        OrdPlacement::Smallest => narrow_extreme(&keep, &majors, false),
        _ => keep,
    };
    proof {
        if q.major is Largest {
            assert forall|i2: int| 0 <= i2 < n implies keep1@[i2] == sel_major(q@, bsv, i2) by {
                if keep1@[i2] {
                    assert(keep@[i2]);
                    assert forall|j: int| sel_base(q@, bsv, j) implies bsv[j].build.major
                        <= bsv[i2].build.major by {
                        assert(keep@[j]);
                        assert(majors@[j] <= majors@[i2]);
                    }
                    assert(sel_major(q@, bsv, i2));
                } else if sel_major(q@, bsv, i2) {
                    assert(keep@[i2]);
                    assert forall|j: int| 0 <= j < n && keep@[j] implies majors@[j] <= majors@[i2] by {
                        assert(sel_base(q@, bsv, j));
                        assert(bsv[j].build.major <= bsv[i2].build.major);
                    }
                    assert(keep1@[i2]);
                }
            }
        } else if q.major is Smallest {
            assert forall|i2: int| 0 <= i2 < n implies keep1@[i2] == sel_major(q@, bsv, i2) by {
                if keep1@[i2] {
                    assert(keep@[i2]);
                    assert forall|j: int| sel_base(q@, bsv, j) implies bsv[i2].build.major
                        <= bsv[j].build.major by {
                        assert(keep@[j]);
                        assert(majors@[i2] <= majors@[j]);
                    }
                    assert(sel_major(q@, bsv, i2));
                } else if sel_major(q@, bsv, i2) {
                    assert(keep@[i2]);
                    assert forall|j: int| 0 <= j < n && keep@[j] implies majors@[i2] <= majors@[j] by {
                        assert(sel_base(q@, bsv, j));
                        assert(bsv[i2].build.major <= bsv[j].build.major);
                    }
                    assert(keep1@[i2]);
                }
            }
        } else {
            assert(forall|i2: int| 0 <= i2 < n ==> keep1@[i2] == sel_major(q@, bsv, i2));
        }
    }
    let keep2 = match q.minor {
        OrdPlacement::Largest => narrow_extreme(&keep1, &minors, true),
        OrdPlacement::Smallest => narrow_extreme(&keep1, &minors, false),
        _ => keep1,
    };
    proof {
        if q.minor is Largest {
            assert forall|i2: int| 0 <= i2 < n implies keep2@[i2] == sel_minor(q@, bsv, i2) by {
                if keep2@[i2] {
                    assert(keep1@[i2]);
                    assert forall|j: int| sel_major(q@, bsv, j) implies bsv[j].build.minor
                        <= bsv[i2].build.minor by {
                        assert(keep1@[j]);
                        assert(minors@[j] <= minors@[i2]);
                    }
                    assert(sel_minor(q@, bsv, i2));
                } else if sel_minor(q@, bsv, i2) {
                    assert(keep1@[i2]);
                    assert forall|j: int| 0 <= j < n && keep1@[j] implies minors@[j] <= minors@[i2] by {
                        assert(sel_major(q@, bsv, j));
                        assert(bsv[j].build.minor <= bsv[i2].build.minor);
                    }
                    assert(keep2@[i2]);
                }
            }
        } else if q.minor is Smallest {
            assert forall|i2: int| 0 <= i2 < n implies keep2@[i2] == sel_minor(q@, bsv, i2) by {
                if keep2@[i2] {
                    assert(keep1@[i2]);
                    assert forall|j: int| sel_major(q@, bsv, j) implies bsv[i2].build.minor
                        <= bsv[j].build.minor by {
                        assert(keep1@[j]);
                        assert(minors@[i2] <= minors@[j]);
                    }
                    assert(sel_minor(q@, bsv, i2));
                } else if sel_minor(q@, bsv, i2) {
                    assert(keep1@[i2]);
                    assert forall|j: int| 0 <= j < n && keep1@[j] implies minors@[i2] <= minors@[j] by {
                        assert(sel_major(q@, bsv, j));
                        assert(bsv[i2].build.minor <= bsv[j].build.minor);
                    }
                    assert(keep2@[i2]);
                }
            }
        } else {
            assert(forall|i2: int| 0 <= i2 < n ==> keep2@[i2] == sel_minor(q@, bsv, i2));
        }
    }
    let keep3 = match q.patch {
        OrdPlacement::Largest => narrow_extreme(&keep2, &patches, true),
        OrdPlacement::Smallest => narrow_extreme(&keep2, &patches, false),
        _ => keep2,
    };
    proof {
        if q.patch is Largest {
            assert forall|i2: int| 0 <= i2 < n implies keep3@[i2] == sel_patch(q@, bsv, i2) by {
                if keep3@[i2] {
                    assert(keep2@[i2]);
                    assert forall|j: int| sel_minor(q@, bsv, j) implies bsv[j].build.patch
                        <= bsv[i2].build.patch by {
                        assert(keep2@[j]);
                        assert(patches@[j] <= patches@[i2]);
                    }
                    assert(sel_patch(q@, bsv, i2));
                } else if sel_patch(q@, bsv, i2) {
                    assert(keep2@[i2]);
                    assert forall|j: int| 0 <= j < n && keep2@[j] implies patches@[j] <= patches@[i2] by {
                        assert(sel_minor(q@, bsv, j));
                        assert(bsv[j].build.patch <= bsv[i2].build.patch);
                    }
                    assert(keep3@[i2]);
                }
            }
        } else if q.patch is Smallest {
            assert forall|i2: int| 0 <= i2 < n implies keep3@[i2] == sel_patch(q@, bsv, i2) by {
                if keep3@[i2] {
                    assert(keep2@[i2]);
                    assert forall|j: int| sel_minor(q@, bsv, j) implies bsv[i2].build.patch
                        <= bsv[j].build.patch by {
                        assert(keep2@[j]);
                        assert(patches@[i2] <= patches@[j]);
                    }
                    assert(sel_patch(q@, bsv, i2));
                } else if sel_patch(q@, bsv, i2) {
                    assert(keep2@[i2]);
                    assert forall|j: int| 0 <= j < n && keep2@[j] implies patches@[i2] <= patches@[j] by {
                        assert(sel_minor(q@, bsv, j));
                        assert(bsv[i2].build.patch <= bsv[j].build.patch);
                    }
                    assert(keep3@[i2]);
                }
            }
        } else {
            assert(forall|i2: int| 0 <= i2 < n ==> keep3@[i2] == sel_patch(q@, bsv, i2));
        }
    }
    let keep4 = match q.commit_dt {
        TimePlacement::Largest => narrow_extreme(&keep3, &commits, true),
        TimePlacement::Smallest => narrow_extreme(&keep3, &commits, false),
        TimePlacement::Any => keep3,
    };
    proof {
        if q.commit_dt is Largest {
            assert forall|i2: int| 0 <= i2 < n implies keep4@[i2] == query_selects(q@, bsv, i2) by {
                if keep4@[i2] {
                    assert(keep3@[i2]);
                    assert forall|j: int| sel_patch(q@, bsv, j) implies bsv[j].build.commit_dt
                        <= bsv[i2].build.commit_dt by {
                        assert(keep3@[j]);
                        assert(commits@[j] <= commits@[i2]);
                    }
                    assert(query_selects(q@, bsv, i2));
                } else if query_selects(q@, bsv, i2) {
                    assert(keep3@[i2]);
                    assert forall|j: int| 0 <= j < n && keep3@[j] implies commits@[j] <= commits@[i2] by {
                        assert(sel_patch(q@, bsv, j));
                        assert(bsv[j].build.commit_dt <= bsv[i2].build.commit_dt);
                    }
                    assert(keep4@[i2]);
                }
            }
        } else if q.commit_dt is Smallest {
            assert forall|i2: int| 0 <= i2 < n implies keep4@[i2] == query_selects(q@, bsv, i2) by {
                if keep4@[i2] {
                    assert(keep3@[i2]);
                    assert forall|j: int| sel_patch(q@, bsv, j) implies bsv[i2].build.commit_dt
                        <= bsv[j].build.commit_dt by {
                        assert(keep3@[j]);
                        assert(commits@[i2] <= commits@[j]);
                    }
                    assert(query_selects(q@, bsv, i2));
                } else if query_selects(q@, bsv, i2) {
                    assert(keep3@[i2]);
                    assert forall|j: int| 0 <= j < n && keep3@[j] implies commits@[i2] <= commits@[j] by {
                        assert(sel_patch(q@, bsv, j));
                        assert(bsv[i2].build.commit_dt <= bsv[j].build.commit_dt);
                    }
                    assert(keep4@[i2]);
                }
            }
        } else {
            assert(forall|i2: int| 0 <= i2 < n ==> keep4@[i2] == query_selects(q@, bsv, i2));
        }
    }

    let mut r: Vec<usize> = Vec::new();
    let mut k: usize = 0;
    while k < n
        invariant
            n == builds@.len(),
            bsv == views_of(builds@),
            k <= n,
            keep4@.len() == n,
            forall|j: int| 0 <= j < n ==> keep4@[j] == query_selects(q@, bsv, j),
            forall|m: int| 0 <= m < r@.len() ==> r@[m] < k,
            forall|m: int| 0 <= m < r@.len() ==> keep4@[r@[m] as int],
            forall|m1: int, m2: int| 0 <= m1 < m2 < r@.len() ==> r@[m1] < r@[m2],
            forall|j: int|
                0 <= j < k && keep4@[j] ==> exists|m: int| 0 <= m < r@.len() && r@[m] == j,
        decreases n - k,
    {
        if keep4[k] {
            let ghost oldr = r@;
            r.push(k);
            proof {
                assert forall|j: int| 0 <= j < k + 1 && keep4@[j] implies exists|m: int|
                    0 <= m < r@.len() && r@[m] == j by {
                    if j == k {
                        assert(r@[r@.len() - 1] == k as usize);
                    } else {
                        let m = choose|m: int| 0 <= m < oldr.len() && oldr[m] == j;
                        assert(r@[m] == j);
                    }
                }
            }
        }
        k = k + 1;
    }
    proof {
        assert forall|i: int|
            0 <= i < builds@.len() && #[trigger] query_selects(q@, views_of(builds@), i) implies exists|m: int|
            0 <= m < r@.len() && r@[m] == i by {
            assert(keep4@[i]);
        }
    }
    r
}

/// Lexicographic comparison of version triples.
pub open spec fn triple_le(a: RepoBuildV, b: RepoBuildV) -> bool {
    if a.build.major != b.build.major {
        a.build.major < b.build.major
    } else if a.build.minor != b.build.minor {
        a.build.minor < b.build.minor
    } else {
        a.build.patch <= b.build.patch
    }
}

/// Whether candidate `i` carries the lexicographically largest triple.
pub open spec fn is_triple_max(bs: Seq<RepoBuildV>, i: int) -> bool {
    0 <= i < bs.len() && forall|j: int| 0 <= j < bs.len() ==> triple_le(#[trigger] bs[j], bs[i])
}

proof fn lemma_exists_triple_max(bs: Seq<RepoBuildV>)
    requires
        bs.len() > 0,
    ensures
        exists|i: int| is_triple_max(bs, i),
    decreases bs.len(),
{
    if bs.len() == 1 {
        assert(forall|j: int| 0 <= j < bs.len() ==> triple_le(#[trigger] bs[j], bs[0]));
        assert(is_triple_max(bs, 0));
    } else {
        let head = bs[0];
        let tail = bs.drop_first();
        lemma_exists_triple_max(tail);
        let it = choose|i: int| is_triple_max(tail, i);
        assert(forall|j: int| 1 <= j < bs.len() ==> bs[j] == tail[j - 1]);
        if triple_le(head, tail[it]) {
            let w = it + 1;
            assert(bs[w] == tail[it]);
            assert forall|j: int| 0 <= j < bs.len() implies triple_le(#[trigger] bs[j], bs[w]) by {
                if j == 0 {
                    assert(triple_le(head, tail[it]));
                } else {
                    assert(triple_le(tail[j - 1], tail[it]));
                }
            }
            assert(is_triple_max(bs, w));
        } else {
            assert(triple_le(tail[it], head));
            assert forall|j: int| 0 <= j < bs.len() implies triple_le(#[trigger] bs[j], bs[0]) by {
                if j > 0 {
                    assert(triple_le(tail[j - 1], tail[it]));
                    assert(triple_le(tail[it], head));
                }
            }
            assert(is_triple_max(bs, 0));
        }
    }
}

/// The all-wildcard-largest query (`^.^.^`): on any non-empty candidate
/// list whose version triples are pairwise distinct, exactly one build is
/// selected, the one with the lexicographically largest version triple.
/// No other build matches, so the resolver never has to prompt for it.
///
/// When two candidates share the largest triple (differing only in
/// branch, hash or commit time), the narrowing keeps them both; such
/// inputs are excluded here.
pub proof fn lemma_hat_query_unique(q: QueryV, bs: Seq<RepoBuildV>)
    requires
        q.repository is None,
        q.branch is None,
        q.build_hash is None,
        q.major == OrdPlacement::Largest,
        q.minor == OrdPlacement::Largest,
        q.patch == OrdPlacement::Largest,
        q.commit_dt == TimePlacement::Any,
        bs.len() > 0,
        forall|i: int, j: int|
            0 <= i < bs.len() && 0 <= j < bs.len() && i != j ==> !(triple_le(bs[i], bs[j])
                && triple_le(bs[j], bs[i])),
    ensures
        exists|i: int| #[trigger] query_selects(q, bs, i) && 0 <= i < bs.len(),
        forall|i: int, j: int|
            0 <= i < bs.len() && 0 <= j < bs.len() && query_selects(q, bs, i) && query_selects(
                q,
                bs,
                j,
            ) ==> i == j,
        forall|i: int, j: int|
            0 <= i < bs.len() && 0 <= j < bs.len() && #[trigger] query_selects(q, bs, i)
                ==> triple_le(#[trigger] bs[j], bs[i]),
{
    lemma_exists_triple_max(bs);
    let w = choose|i: int| is_triple_max(bs, i);
    assert(is_triple_max(bs, w));
    assert(sel_base(q, bs, w));
    assert forall|j: int| sel_base(q, bs, j) implies bs[j].build.major <= bs[w].build.major by {
        assert(triple_le(bs[j], bs[w]));
    }
    assert(sel_major(q, bs, w));
    assert forall|j: int| sel_major(q, bs, j) implies bs[j].build.minor <= bs[w].build.minor by {
        assert(triple_le(bs[j], bs[w]));
        assert(bs[j].build.major == bs[w].build.major);
    }
    assert(sel_minor(q, bs, w));
    assert forall|j: int| sel_minor(q, bs, j) implies bs[j].build.patch <= bs[w].build.patch by {
        assert(triple_le(bs[j], bs[w]));
        assert(bs[j].build.major == bs[w].build.major);
        assert(bs[j].build.minor == bs[w].build.minor);
    }
    assert(sel_patch(q, bs, w));
    assert(query_selects(q, bs, w));
    assert forall|i: int, j: int|
        0 <= i < bs.len() && 0 <= j < bs.len() && query_selects(q, bs, i) && query_selects(
            q,
            bs,
            j,
        ) implies i == j by {
        assert(bs[i].build.major == bs[j].build.major);
        assert(bs[i].build.minor == bs[j].build.minor);
        assert(bs[i].build.patch == bs[j].build.patch);
        assert(triple_le(bs[i], bs[j]) && triple_le(bs[j], bs[i]));
        if i != j {
            assert(false);
        }
    }
    assert forall|i: int, j: int|
        0 <= i < bs.len() && 0 <= j < bs.len() && #[trigger] query_selects(q, bs, i) implies triple_le(
        #[trigger] bs[j],
        bs[i],
    ) by {
        assert(query_selects(q, bs, w));
        assert(i == w);
    }
}

} // verus!
