//! Ordering of listing entries: by version then commit time, or by
//! commit time then version. Tree construction and coloured rendering
//! of the sorted listing are the surrounding program's work.

use vstd::prelude::*;

use crate::ls::{BuildEntry, BuildEntryV, build_entry_views};

verus! {

/// Which key the listing is sorted by.
#[derive(Debug, Clone, Copy, PartialEq, Eq, Structural)]
pub enum SortFormat {
    /// Version triple first, commit time as tie-breaker.
    Version,
    /// Commit time first, version triple as tie-breaker.
    Datetime,
}

/// A four-part lexicographic sort key.
#[verifier::ext_equal]
pub ghost struct EntryKey {
    pub k1: int,
    pub k2: int,
    pub k3: int,
    pub k4: int,
}

/// The sort key of one entry. An unreadable entry sorts with a zero
/// version; under the commit-time key it sorts by its file modification
/// time where one is known, and first otherwise.
pub open spec fn entry_key(f: SortFormat, e: BuildEntryV) -> EntryKey {
    match f {
        SortFormat::Version => match e {
            BuildEntryV::NotInstalled(vs) => EntryKey {
                k1: vs.basic.major,
                k2: vs.basic.minor,
                k3: vs.basic.patch,
                k4: vs.basic.commit_dt,
            },
            BuildEntryV::Installed { path: _, record } => EntryKey {
                k1: record.basic.major,
                k2: record.basic.minor,
                k3: record.basic.patch,
                k4: record.basic.commit_dt,
            },
            BuildEntryV::Errored { .. } => EntryKey { k1: 0, k2: 0, k3: 0, k4: 0 },
        },
        SortFormat::Datetime => match e {
            BuildEntryV::NotInstalled(vs) => EntryKey {
                k1: vs.basic.commit_dt,
                k2: vs.basic.major,
                k3: vs.basic.minor,
                k4: vs.basic.patch,
            },
            BuildEntryV::Installed { path: _, record } => EntryKey {
                k1: record.basic.commit_dt,
                k2: record.basic.major,
                k3: record.basic.minor,
                k4: record.basic.patch,
            },
            BuildEntryV::Errored { error: _, path: _, modified } => EntryKey {
                k1: match modified {
                    Some(m) => m,
                    None => 0,
                },
                k2: 0,
                k3: 0,
                k4: 0,
            },
        },
    }
}

/// Lexicographic comparison of sort keys.
pub open spec fn key_le(a: EntryKey, b: EntryKey) -> bool {
    if a.k1 != b.k1 {
        a.k1 < b.k1
    } else if a.k2 != b.k2 {
        a.k2 < b.k2
    } else if a.k3 != b.k3 {
        a.k3 < b.k3
    } else {
        a.k4 <= b.k4
    }
}

fn exec_entry_key(f: SortFormat, e: &BuildEntry) -> (r: (i128, i128, i128, i128))
    ensures
        entry_key(f, e@) == (EntryKey { k1: r.0 as int, k2: r.1 as int, k3: r.2 as int, k4: r.3 as int }),
{
    match f {
        SortFormat::Version => match e {
            BuildEntry::NotInstalled(vs) => (
                vs.basic.major as i128,
                vs.basic.minor as i128,
                vs.basic.patch as i128,
                vs.basic.commit_dt as i128,
            ),
            BuildEntry::Installed(_, record) => (
                record.basic.major as i128,
                record.basic.minor as i128,
                record.basic.patch as i128,
                record.basic.commit_dt as i128,
            ),
            BuildEntry::Errored { .. } => (0, 0, 0, 0),
        },
        SortFormat::Datetime => match e {
            BuildEntry::NotInstalled(vs) => (
                vs.basic.commit_dt as i128,
                vs.basic.major as i128,
                vs.basic.minor as i128,
                vs.basic.patch as i128,
            ),
            BuildEntry::Installed(_, record) => (
                record.basic.commit_dt as i128,
                record.basic.major as i128,
                record.basic.minor as i128,
                record.basic.patch as i128,
            ),
            BuildEntry::Errored { error: _, path: _, modified } => (
                match modified {
                    Some(m) => *m as i128,
                    None => 0,
                },
                0,
                0,
                0,
            ),
        },
    }
}

fn exec_key_le(f: SortFormat, a: &BuildEntry, b: &BuildEntry) -> (r: bool)
    ensures
        r == key_le(entry_key(f, a@), entry_key(f, b@)),
{
    let ka = exec_entry_key(f, a);
    let kb = exec_entry_key(f, b);
    if ka.0 != kb.0 {
        ka.0 < kb.0
    } else if ka.1 != kb.1 {
        ka.1 < kb.1
    } else if ka.2 != kb.2 {
        ka.2 < kb.2
    } else {
        ka.3 <= kb.3
    }
}

impl SortFormat {
    /// Sorts the entries by this key, ascending: the same entries come
    /// back, ordered.
    pub fn sort(self, v: &mut Vec<BuildEntry>)
        ensures
            final(v)@.len() == old(v)@.len(),
            forall|k1: int, k2: int|
                0 <= k1 < k2 < final(v)@.len() ==> key_le(
                    entry_key(self, final(v)@[k1]@),
                    entry_key(self, final(v)@[k2]@),
                ),
            build_entry_views(final(v)@).to_multiset() == build_entry_views(old(v)@).to_multiset(),
    {
        let ghost orig = build_entry_views(old(v)@);
        let mut out: Vec<BuildEntry> = Vec::new();
        let mut i: usize = 0;
        assert(build_entry_views(old(v)@.subrange(0, 0)) =~= Seq::<BuildEntryV>::empty());
        assert(build_entry_views(out@) =~= Seq::<BuildEntryV>::empty());
        while i < v.len()
            invariant
                v@ == old(v)@,
                orig == build_entry_views(old(v)@),
                i <= v@.len(),
                out@.len() == i,
                forall|k1: int, k2: int|
                    0 <= k1 < k2 < out@.len() ==> key_le(
                        entry_key(self, out@[k1]@),
                        entry_key(self, out@[k2]@),
                    ),
                build_entry_views(out@).to_multiset() == build_entry_views(
                    v@.subrange(0, i as int),
                ).to_multiset(),
            decreases v@.len() - i,
        {
            let x = v[i].clone();
            let mut p: usize = 0;
            while p < out.len() && exec_key_le(self, &out[p], &x)
                invariant
                    p <= out@.len(),
                    forall|j: int|
                        0 <= j < p ==> key_le(entry_key(self, out@[j]@), entry_key(self, x@)),
                decreases out@.len() - p,
            {
                p = p + 1;
            }
            let ghost oldout = out@;
            out.insert(p, x);
            proof {
                oldout.insert_ensures(p as int, x);
                assert(out@ == oldout.insert(p as int, x));
                assert forall|k1: int, k2: int|
                    0 <= k1 < k2 < out@.len() implies key_le(
                    entry_key(self, out@[k1]@),
                    entry_key(self, out@[k2]@),
                ) by {
                    if k2 < p {
                        assert(out@[k1] == oldout[k1] && out@[k2] == oldout[k2]);
                        assert(key_le(entry_key(self, out@[k1]@), entry_key(self, out@[k2]@)));
                    } else if k1 < p && k2 == p {
                        assert(out@[k1] == oldout[k1]);
                        assert(out@[k2] == x);
                        assert(key_le(entry_key(self, oldout[k1]@), entry_key(self, x@)));
                        assert(key_le(entry_key(self, out@[k1]@), entry_key(self, out@[k2]@)));
                    } else if k1 < p {
                        assert(out@[k1] == oldout[k1] && out@[k2] == oldout[k2 - 1]);
                        assert(key_le(entry_key(self, out@[k1]@), entry_key(self, out@[k2]@)));
                    } else if k1 == p {
                        assert(out@[k1] == x);
                        assert(out@[k2] == oldout[k2 - 1]);
                        assert(!key_le(entry_key(self, oldout[p as int]@), entry_key(self, x@)));
                        assert(key_le(entry_key(self, x@), entry_key(self, oldout[p as int]@)));
                        assert(key_le(entry_key(self, oldout[p as int]@), entry_key(
                            self,
                            oldout[k2 - 1]@,
                        )));
                        assert(key_le(entry_key(self, out@[k1]@), entry_key(self, out@[k2]@)));
                    } else {
                        assert(out@[k1] == oldout[k1 - 1] && out@[k2] == oldout[k2 - 1]);
                        assert(key_le(entry_key(self, out@[k1]@), entry_key(self, out@[k2]@)));
                    }
                }
                assert(build_entry_views(out@) =~= build_entry_views(oldout).insert(
                    p as int,
                    x@,
                ));
                let sub0 = v@.subrange(0, i as int);
                let sub1 = v@.subrange(0, i + 1);
                assert(build_entry_views(sub1) =~= build_entry_views(sub0).push(v@[i as int]@));
                vstd::seq_lib::to_multiset_insert(build_entry_views(oldout), p as int, x@);
                vstd::seq_lib::to_multiset_build(build_entry_views(sub0), v@[i as int]@);
                assert(build_entry_views(out@).to_multiset() == build_entry_views(
                    sub1,
                ).to_multiset());
            }
            i = i + 1;
        }
        proof {
            assert(v@.subrange(0, v@.len() as int) =~= v@);
        }
        *v = out;
    }
}

} // verus!
