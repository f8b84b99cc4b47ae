//! The merged catalog: one entry per build identity across every
//! repository, and the platform filter that narrows variant sets to the
//! host.
//!
//! Merging walks the (repository, variant set) pairs in repository-list
//! order. A new identity starts a fresh entry; a repeated identity
//! extends the entry's variant list and records the repository as a
//! further contributor. The displayed origin of an entry is its
//! last-recorded contributor, even though the variants are the union of
//! every contributor's list — callers must not read the origin as the
//! home of every variant.

use vstd::prelude::*;

use crate::platform::Platform;
use crate::repo::{
    RepoV, RepositoryDescriptor, Variant, VariantSet, VariantSetV, VariantV, clone_variants,
    variant_matches, variant_matches_target,
};
use crate::version::{BuildId, BuildIdentity, same_identity};

verus! {

/// One (repository, variant set) pair handed to the merge.
pub struct RepoSet {
    pub repo: RepositoryDescriptor,
    pub set: VariantSet,
}

/// Mathematical model of a [`RepoSet`].
#[verifier::ext_equal]
pub ghost struct RepoSetV {
    pub repo: RepoV,
    pub set: VariantSetV,
}

impl View for RepoSet {
    type V = RepoSetV;

    open spec fn view(&self) -> RepoSetV {
        RepoSetV { repo: self.repo@, set: self.set@ }
    }
}

/// One catalog entry: a build identity, every repository that offers it
/// (in merge order), and the concatenation of their variant lists.
pub struct CatalogEntry {
    pub basic: BuildIdentity,
    pub repos: Vec<RepositoryDescriptor>,
    pub variants: Vec<Variant>,
}

/// Mathematical model of a [`CatalogEntry`].
#[verifier::ext_equal]
pub ghost struct CatalogEntryV {
    pub basic: BuildId,
    pub repos: Seq<RepoV>,
    pub variants: Seq<VariantV>,
}

impl View for CatalogEntry {
    type V = CatalogEntryV;

    open spec fn view(&self) -> CatalogEntryV {
        CatalogEntryV {
            basic: self.basic@,
            repos: self.repos@.map_values(|r: RepositoryDescriptor| r@),
            variants: self.variants@.map_values(|v: Variant| v@),
        }
    }
}

/// The models of a list of merge inputs.
pub open spec fn pair_views(pairs: Seq<RepoSet>) -> Seq<RepoSetV> {
    pairs.map_values(|p: RepoSet| p@)
}

/// The models of a catalog.
pub open spec fn entry_views(entries: Seq<CatalogEntry>) -> Seq<CatalogEntryV> {
    entries.map_values(|e: CatalogEntry| e@)
}

/// The concatenation of the variant lists that the pairs contribute to
/// identity `id`, in pair order.
pub open spec fn merged_variants(pairs: Seq<RepoSetV>, id: BuildId) -> Seq<VariantV>
    decreases pairs.len(),
{
    if pairs.len() == 0 {
        Seq::empty()
    } else {
        merged_variants(pairs.drop_last(), id) + (if pairs.last().set.basic == id {
            pairs.last().set.v
        } else {
            Seq::empty()
        })
    }
}

/// The repositories contributing to identity `id`, in pair order.
pub open spec fn merged_repos(pairs: Seq<RepoSetV>, id: BuildId) -> Seq<RepoV>
    decreases pairs.len(),
{
    if pairs.len() == 0 {
        Seq::empty()
    } else {
        merged_repos(pairs.drop_last(), id) + (if pairs.last().set.basic == id {
            seq![pairs.last().repo]
        } else {
            Seq::empty()
        })
    }
}

/// Whether some pair carries identity `id`.
pub open spec fn pairs_contain(pairs: Seq<RepoSetV>, id: BuildId) -> bool {
    exists|j: int| 0 <= j < pairs.len() && (#[trigger] pairs[j]).set.basic == id
}

/// The distinct identities of the pairs, in order of first appearance.
pub open spec fn distinct_ids(pairs: Seq<RepoSetV>) -> Seq<BuildId>
    decreases pairs.len(),
{
    if pairs.len() == 0 {
        Seq::empty()
    } else {
        distinct_ids(pairs.drop_last()) + (if pairs_contain(
            pairs.drop_last(),
            pairs.last().set.basic,
        ) {
            Seq::empty()
        } else {
            seq![pairs.last().set.basic]
        })
    }
}

/// An identity is listed exactly when some pair carries it.
proof fn lemma_distinct_ids_complete(pairs: Seq<RepoSetV>, id: BuildId)
    ensures
        (exists|k: int| 0 <= k < distinct_ids(pairs).len() && distinct_ids(pairs)[k] == id)
            <==> pairs_contain(pairs, id),
    decreases pairs.len(),
{
    if pairs.len() > 0 {
        let front = pairs.drop_last();
        lemma_distinct_ids_complete(front, id);
        let ids = distinct_ids(pairs);
        let fids = distinct_ids(front);
        assert(forall|j: int| 0 <= j < front.len() ==> front[j] == pairs[j]);
        if pairs_contain(pairs, id) {
            let j = choose|j: int| 0 <= j < pairs.len() && (#[trigger] pairs[j]).set.basic == id;
            if j < pairs.len() - 1 {
                assert(front[j].set.basic == id);
                assert(pairs_contain(front, id));
                let k = choose|k: int| 0 <= k < fids.len() && fids[k] == id;
                assert(ids[k] == id);
            } else {
                if pairs_contain(front, id) {
                    let k = choose|k: int| 0 <= k < fids.len() && fids[k] == id;
                    assert(ids[k] == id);
                } else {
                    assert(ids.last() == id);
                }
            }
        }
        if exists|k: int| 0 <= k < ids.len() && ids[k] == id {
            let k = choose|k: int| 0 <= k < ids.len() && ids[k] == id;
            if k < fids.len() {
                assert(fids[k] == id);
                let j = choose|j: int| 0 <= j < front.len() && (#[trigger] front[j]).set.basic == id;
                assert(pairs[j].set.basic == id);
            } else {
                assert(ids[k] == pairs.last().set.basic);
                assert(pairs[pairs.len() - 1].set.basic == id);
            }
        }
    }
}

/// Pairs that nowhere carry `id` contribute nothing to it.
proof fn lemma_merged_empty(pairs: Seq<RepoSetV>, id: BuildId)
    requires
        !pairs_contain(pairs, id),
    ensures
        merged_variants(pairs, id) == Seq::<VariantV>::empty(),
        merged_repos(pairs, id) == Seq::<RepoV>::empty(),
    decreases pairs.len(),
{
    if pairs.len() > 0 {
        let front = pairs.drop_last();
        assert(forall|j: int| 0 <= j < front.len() ==> front[j] == pairs[j]);
        assert(!pairs_contain(front, id)) by {
            if pairs_contain(front, id) {
                let j = choose|j: int|
                    0 <= j < front.len() && (#[trigger] front[j]).set.basic == id;
                assert(pairs[j].set.basic == id);
            }
        }
        lemma_merged_empty(front, id);
        assert(pairs.last().set.basic != id) by {
            if pairs.last().set.basic == id {
                assert(pairs[pairs.len() - 1].set.basic == id);
            }
        }
        assert(merged_variants(pairs, id) =~= Seq::<VariantV>::empty());
        assert(merged_repos(pairs, id) =~= Seq::<RepoV>::empty());
    }
}

/// Finds the entry carrying `id`, if the catalog has one.
fn find_entry(entries: &Vec<CatalogEntry>, id: &BuildIdentity) -> (r: Option<usize>)
    ensures
        match r {
            Some(k) => k < entries@.len() && entries@[k as int].basic@ == id@,
            None => forall|k: int| 0 <= k < entries@.len() ==> entries@[k].basic@ != id@,
        },
{
    let mut k: usize = 0;
    while k < entries.len()
        invariant
            k <= entries@.len(),
            forall|j: int| 0 <= j < k ==> entries@[j].basic@ != id@,
        decreases entries@.len() - k,
    {
        if same_identity(&entries[k].basic, id) {
            return Some(k);
        }
        k = k + 1;
    }
    None
}

/// Merges per-repository variant-set lists into one catalog.
///
/// The result has one entry per distinct identity, in order of first
/// appearance; each entry's variant list is the concatenation of every
/// contribution and its repository list records every contributor in
/// order. Empty input yields an empty catalog; the merge itself never
/// fails.
pub fn merge_catalog(pairs: &Vec<RepoSet>) -> (out: Vec<CatalogEntry>)
    ensures
        entry_views(out@).map_values(|e: CatalogEntryV| e.basic) == distinct_ids(pair_views(pairs@)),
        forall|k: int|
            0 <= k < out@.len() ==> (#[trigger] entry_views(out@)[k]).variants == merged_variants(
                pair_views(pairs@),
                entry_views(out@)[k].basic,
            ),
        forall|k: int|
            0 <= k < out@.len() ==> (#[trigger] entry_views(out@)[k]).repos == merged_repos(
                pair_views(pairs@),
                entry_views(out@)[k].basic,
            ),
        forall|k1: int, k2: int|
            0 <= k1 < k2 < out@.len() ==> entry_views(out@)[k1].basic != entry_views(out@)[k2].basic,
{
    let ghost pv = pair_views(pairs@);
    let mut out: Vec<CatalogEntry> = Vec::new();
    let mut i: usize = 0;
    assert(pv.subrange(0, 0) =~= Seq::<RepoSetV>::empty());
    while i < pairs.len()
        invariant
            pv == pair_views(pairs@),
            i <= pairs@.len(),
            entry_views(out@).map_values(|e: CatalogEntryV| e.basic) == distinct_ids(
                pv.subrange(0, i as int),
            ),
            forall|k: int|
                0 <= k < out@.len() ==> (#[trigger] entry_views(out@)[k]).variants
                    == merged_variants(pv.subrange(0, i as int), entry_views(out@)[k].basic),
            forall|k: int|
                0 <= k < out@.len() ==> (#[trigger] entry_views(out@)[k]).repos == merged_repos(
                    pv.subrange(0, i as int),
                    entry_views(out@)[k].basic,
                ),
            forall|k1: int, k2: int|
                0 <= k1 < k2 < out@.len() ==> entry_views(out@)[k1].basic != entry_views(
                    out@,
                )[k2].basic,
        decreases pairs@.len() - i,
    {
        let ghost pre = pv.subrange(0, i as int);
        let ghost cur = pv.subrange(0, i + 1);
        proof {
            assert(cur.drop_last() =~= pre);
            assert(cur.last() == pv[i as int]);
            lemma_distinct_ids_complete(pre, pv[i as int].set.basic);
        }
        let pair = &pairs[i];
        let found = find_entry(&out, &pair.set.basic);
        match found {
            None => {
                proof {
                    // no entry carries the identity, so no earlier pair does
                    assert(entry_views(out@).map_values(|e: CatalogEntryV| e.basic) == distinct_ids(
                        pre,
                    ));
                    if pairs_contain(pre, pv[i as int].set.basic) {
                        let k = choose|k: int|
                            0 <= k < distinct_ids(pre).len() && distinct_ids(pre)[k] == pv[i as int].set.basic;
                        assert(entry_views(out@)[k].basic == pv[i as int].set.basic);
                        assert(out@[k].basic@ == pair.set.basic@);
                    }
                }
                let ghost oldout = out@;
                let entry = CatalogEntry {
                    basic: pair.set.basic.clone(),
                    repos: {
                        let mut rs: Vec<RepositoryDescriptor> = Vec::new();
                        rs.push(pair.repo.clone());
                        rs
                    },
                    variants: clone_variants(&pair.set.v),
                };
                out.push(entry);
                proof {
                    let ev = entry_views(out@);
                    let oldev = entry_views(oldout);
                    assert(forall|k: int| 0 <= k < oldout.len() ==> ev[k] == oldev[k]);
                    assert(ev.last().basic == pv[i as int].set.basic);
                    assert(!pairs_contain(pre, pv[i as int].set.basic)) by {
                        if pairs_contain(pre, pv[i as int].set.basic) {
                            let k = choose|k: int|
                                0 <= k < distinct_ids(pre).len() && distinct_ids(pre)[k] == pv[i as int].set.basic;
                            assert(oldev[k].basic == pv[i as int].set.basic);
                            assert(oldout[k].basic@ == pair.set.basic@);
                        }
                    }
                    lemma_merged_empty(pre, pv[i as int].set.basic);
                    assert(ev.last().variants =~= merged_variants(cur, ev.last().basic));
                    assert(ev.last().repos =~= merged_repos(cur, ev.last().basic));
                    assert forall|k: int| 0 <= k < oldout.len() implies (#[trigger] ev[k]).variants
                        == merged_variants(cur, ev[k].basic) && ev[k].repos == merged_repos(
                        cur,
                        ev[k].basic,
                    ) by {
                        assert(ev[k].basic != pv[i as int].set.basic);
                        assert(merged_variants(cur, ev[k].basic) =~= merged_variants(
                            pre,
                            ev[k].basic,
                        ));
                        assert(merged_repos(cur, ev[k].basic) =~= merged_repos(pre, ev[k].basic));
                    }
                    assert(ev.map_values(|e: CatalogEntryV| e.basic) =~= distinct_ids(cur));
                }
            },
            Some(k) => {
                proof {
                    assert(entry_views(out@)[k as int].basic == pv[i as int].set.basic);
                    assert(pairs_contain(pre, pv[i as int].set.basic) || !pairs_contain(
                        pre,
                        pv[i as int].set.basic,
                    ));
                    if !pairs_contain(pre, pv[i as int].set.basic) {
                        // the identity is listed among the entries, so some
                        // earlier pair carries it
                        assert(entry_views(out@).map_values(|e: CatalogEntryV| e.basic)[k as int]
                            == pv[i as int].set.basic);
                        assert(distinct_ids(pre)[k as int] == pv[i as int].set.basic);
                    }
                }
                let ghost oldout = out@;
                let mut extra = clone_variants(&pair.set.v);
                let entry = &mut out[k];
                entry.variants.append(&mut extra);
                entry.repos.push(pair.repo.clone());
                proof {
                    let ev = entry_views(out@);
                    let oldev = entry_views(oldout);
                    assert(forall|j: int|
                        0 <= j < oldout.len() && j != k ==> out@[j] == oldout[j]);
                    assert(forall|j: int| 0 <= j < oldout.len() && j != k ==> ev[j] == oldev[j]);
                    assert(ev[k as int].basic == oldev[k as int].basic);
                    assert(ev[k as int].variants =~= oldev[k as int].variants + pv[i as int].set.v);
                    assert(ev[k as int].variants =~= merged_variants(cur, ev[k as int].basic));
                    assert(ev[k as int].repos =~= oldev[k as int].repos + seq![pv[i as int].repo]);
                    assert(ev[k as int].repos =~= merged_repos(cur, ev[k as int].basic));
                    assert forall|j: int| 0 <= j < oldout.len() && j != k implies (#[trigger] ev[j]).variants
                        == merged_variants(cur, ev[j].basic) && ev[j].repos == merged_repos(
                        cur,
                        ev[j].basic,
                    ) by {
                        assert(ev[j].basic != ev[k as int].basic);
                        assert(merged_variants(cur, ev[j].basic) =~= merged_variants(
                            pre,
                            ev[j].basic,
                        ));
                        assert(merged_repos(cur, ev[j].basic) =~= merged_repos(pre, ev[j].basic));
                    }
                    assert(ev.map_values(|e: CatalogEntryV| e.basic) =~= distinct_ids(cur));
                }
            },
        }
        i = i + 1;
        assert(pv.subrange(0, i as int) =~= cur);
    }
    assert(pv.subrange(0, pairs@.len() as int) =~= pv);
    out
}

/// Catalog Merge on two repositories offering the same build: the result
/// is exactly one entry, and its variant list length is the sum of the
/// two inputs' lengths.
pub proof fn lemma_merge_two_repos(pairs: Seq<RepoSetV>)
    requires
        pairs.len() == 2,
        pairs[0].set.basic == pairs[1].set.basic,
    ensures
        distinct_ids(pairs).len() == 1,
        merged_variants(pairs, pairs[0].set.basic).len() == pairs[0].set.v.len()
            + pairs[1].set.v.len(),
{
    let front = pairs.drop_last();
    assert(front.len() == 1);
    assert(front[0] == pairs[0]);
    assert(front.drop_last() =~= Seq::<RepoSetV>::empty());
    assert(pairs_contain(front, pairs.last().set.basic));
    assert(distinct_ids(Seq::<RepoSetV>::empty()) =~= Seq::<BuildId>::empty());
    assert(!pairs_contain(front.drop_last(), front.last().set.basic));
    assert(distinct_ids(front) =~= seq![pairs[0].set.basic]);
    assert(distinct_ids(pairs) =~= distinct_ids(front));
    let id = pairs[0].set.basic;
    assert(merged_variants(front, id) =~= merged_variants(Seq::empty(), id) + pairs[0].set.v);
    assert(merged_variants(pairs, id) =~= merged_variants(front, id) + pairs[1].set.v);
}

/// The variants of `s` compatible with the target, in order.
pub open spec fn matching_variants(s: Seq<VariantV>, target: Platform) -> Seq<VariantV>
    decreases s.len(),
{
    if s.len() == 0 {
        Seq::empty()
    } else {
        matching_variants(s.drop_last(), target) + (if variant_matches(s.last(), target) {
            seq![s.last()]
        } else {
            Seq::empty()
        })
    }
}

/// Narrows a variant set to the variants compatible with the target.
pub fn filter_variants(set: &VariantSet, target: Platform) -> (out: VariantSet)
    ensures
        out.basic@ == set.basic@,
        out@.v == matching_variants(set@.v, target),
{
    let ghost sv = set@.v;
    let mut kept: Vec<Variant> = Vec::new();
    let mut i: usize = 0;
    assert(sv.subrange(0, 0) =~= Seq::<VariantV>::empty());
    while i < set.v.len()
        invariant
            sv == set@.v,
            sv.len() == set.v@.len(),
            i <= set.v@.len(),
            kept@.map_values(|x: Variant| x@) == matching_variants(sv.subrange(0, i as int), target),
        decreases set.v@.len() - i,
    {
        let ghost pre = sv.subrange(0, i as int);
        let ghost cur = sv.subrange(0, i + 1);
        proof {
            assert(cur.drop_last() =~= pre);
            assert(cur.last() == sv[i as int]);
        }
        if variant_matches_target(&set.v[i], target) {
            kept.push(set.v[i].clone());
        }
        proof {
            assert(kept@.map_values(|x: Variant| x@) =~= matching_variants(cur, target));
        }
        i = i + 1;
        assert(sv.subrange(0, i as int) =~= cur);
    }
    proof {
        assert(sv.subrange(0, sv.len() as int) =~= sv);
    }
    VariantSet { basic: set.basic.clone(), v: kept }
}

/// The Platform Filter with its fallback policy: when no variant matches
/// the target, the original set comes back unchanged (same identity,
/// same variants), so a human can pick from the full list; otherwise
/// only the matching variants remain.
pub fn filter_with_fallback(set: &VariantSet, target: Platform) -> (out: VariantSet)
    ensures
        out.basic@ == set.basic@,
        matching_variants(set@.v, target).len() == 0 ==> out@.v == set@.v,
        matching_variants(set@.v, target).len() > 0 ==> out@.v == matching_variants(
            set@.v,
            target,
        ),
{
    let filtered = filter_variants(set, target);
    if filtered.v.len() == 0 {
        VariantSet { basic: set.basic.clone(), v: clone_variants(&set.v) }
    } else {
        filtered
    }
}

} // verus!
