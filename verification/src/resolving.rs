//! The ambiguity and variant resolvers: turning match lists into one
//! chosen build or a deterministic choice menu, and variant sets into one
//! chosen artifact or a second menu.
//!
//! The interactive step itself is not here: a resolver returns either
//! the unambiguous choice or the fully formatted, sorted menu (labels,
//! entries, default cursor) for the surrounding program to present. A
//! cancelled or failed prompt is the caller's "no choice".

use vstd::prelude::*;

use crate::catalog::matching_variants;
use crate::platform::Platform;
use crate::repo::{RepoBuild, RepoBuildV, Variant, VariantSet, VariantV, clone_variants, variant_label,
    variant_label_string};
use crate::search::views_of;
use crate::strutil::{
    append_str_chars, lemma_lex_lt_asym, lemma_lex_lt_trans, lex_lt, pad_chars, padded, spaces,
    string_from_chars,
};
use crate::version::{BuildId, BuildIdentity, append_build_label, build_label, id_le, identity_le};

verus! {

/// What an outside function returns when asked to render a commit time:
/// the text of the moment `ts` seconds after the Unix epoch, in UTC.
pub uninterp spec fn datetime_display_of(ts: int) -> Seq<char>;

/// Renders a commit timestamp for menu labels.
///
/// Relies on chrono's `Display` for `DateTime<Utc>`: the rendering is a
/// pure function of the timestamp (date and time followed by `UTC`). A
/// timestamp outside chrono's representable range renders as the empty
/// string.
#[verifier::external_body]
pub fn format_commit_time(ts: i64) -> (r: String)
    ensures
        r@ == datetime_display_of(ts as int),
{
    match chrono::TimeZone::timestamp_opt(&chrono::Utc, ts, 0) {
        chrono::LocalResult::Single(t) => t.to_string(),
        _ => String::new(),
    }
}

/// Sorts candidates by the canonical ordering: commit time, then the
/// version triple.
#[verifier::rlimit(60)]
pub fn sort_matches(v: &Vec<RepoBuild>) -> (out: Vec<RepoBuild>)
    ensures
        out@.len() == v@.len(),
        forall|k1: int, k2: int|
            0 <= k1 < k2 < out@.len() ==> id_le(out@[k1].build@, out@[k2].build@),
        out@.to_multiset() == v@.to_multiset(),
{
    broadcast use vstd::seq_lib::group_to_multiset_ensures;

    let mut out: Vec<RepoBuild> = Vec::new();
    let mut i: usize = 0;
    assert(v@.subrange(0, 0) =~= Seq::<RepoBuild>::empty());
    assert(Seq::<RepoBuild>::empty().to_multiset() =~= out@.to_multiset());
    while i < v.len()
        invariant
            i <= v@.len(),
            out@.len() == i,
            forall|k1: int, k2: int|
                0 <= k1 < k2 < out@.len() ==> id_le(out@[k1].build@, out@[k2].build@),
            out@.to_multiset() == v@.subrange(0, i as int).to_multiset(),
        decreases v@.len() - i,
    {
        let x = v[i].clone();
        let mut p: usize = 0;
        while p < out.len() && identity_le(&out[p].build, &x.build)
            invariant
                p <= out@.len(),
                forall|j: int| 0 <= j < p ==> id_le(out@[j].build@, x.build@),
            decreases out@.len() - p,
        {
            p = p + 1;
        }
        let ghost oldout = out@;
        out.insert(p, x);
        proof {
            oldout.insert_ensures(p as int, x);
            assert(out@ == oldout.insert(p as int, x));
            assert forall|k1: int, k2: int|
                0 <= k1 < k2 < out@.len() implies id_le(out@[k1].build@, out@[k2].build@) by {
                if k2 < p {
                    assert(out@[k1] == oldout[k1] && out@[k2] == oldout[k2]);
                } else if k1 < p && k2 == p {
                    assert(out@[k1] == oldout[k1]);
                    assert(id_le(oldout[k1].build@, x.build@));
                } else if k1 < p {
                    assert(out@[k1] == oldout[k1] && out@[k2] == oldout[k2 - 1]);
                } else if k1 == p {
                    assert(out@[k2] == oldout[k2 - 1]);
                    if p < oldout.len() {
                        assert(!id_le(oldout[p as int].build@, x.build@));
                        assert(id_le(x.build@, oldout[p as int].build@));
                        if k2 - 1 > p {
                            assert(id_le(oldout[p as int].build@, oldout[k2 - 1].build@));
                        }
                    }
                } else {
                    assert(out@[k1] == oldout[k1 - 1] && out@[k2] == oldout[k2 - 1]);
                }
            }
            let sub0 = v@.subrange(0, i as int);
            let sub1 = v@.subrange(0, i + 1);
            assert(sub1 =~= sub0.push(v@[i as int]));
            vstd::seq_lib::to_multiset_insert(oldout, p as int, x);
            vstd::seq_lib::to_multiset_build(sub0, v@[i as int]);
            assert(out@.to_multiset() == sub1.to_multiset());
        }
        i = i + 1;
    }
    assert(v@.subrange(0, v@.len() as int) =~= v@);
    out
}

/// The unpadded menu text of one candidate: nickname, `/`, build label.
pub open spec fn choice_core(b: RepoBuildV) -> Seq<char> {
    b.nickname + seq!['/'] + build_label(b.build)
}

/// The width every menu label is padded to: the longest core text.
pub open spec fn max_core_len(s: Seq<RepoBuildV>) -> nat
    decreases s.len(),
{
    if s.len() == 0 {
        0
    } else {
        let m = max_core_len(s.drop_last());
        if choice_core(s.last()).len() > m {
            choice_core(s.last()).len()
        } else {
            m
        }
    }
}

/// The full menu label of candidate `b` in a menu of width `w`: the core
/// text padded to `w`, two spaces, then the commit time.
pub open spec fn choice_label(b: RepoBuildV, w: nat) -> Seq<char> {
    padded(choice_core(b), w) + "  "@ + datetime_display_of(b.build.commit_dt)
}

/// A fully formatted single-choice menu over ambiguous candidates.
pub struct ChoiceMenu {
    /// One label per entry, equally padded, oldest build first.
    pub labels: Vec<String>,
    /// The candidates, sorted oldest to newest.
    pub entries: Vec<RepoBuild>,
    /// Where the cursor starts: the last (newest) entry.
    pub default_index: usize,
}

/// Whether a menu presents exactly the candidates of `matches`, sorted
/// by commit time then version, labelled with equal padding, and with
/// the cursor on the newest entry.
pub open spec fn menu_for(menu: ChoiceMenu, matches: Seq<RepoBuild>) -> bool {
    &&& menu.entries@.len() == matches.len()
    &&& menu.entries@.to_multiset() == matches.to_multiset()
    &&& forall|k1: int, k2: int|
        0 <= k1 < k2 < menu.entries@.len() ==> id_le(
            menu.entries@[k1].build@,
            menu.entries@[k2].build@,
        )
    &&& menu.labels@.len() == menu.entries@.len()
    &&& forall|k: int|
        0 <= k < menu.labels@.len() ==> (#[trigger] menu.labels@[k])@ == choice_label(
            views_of(menu.entries@)[k],
            max_core_len(views_of(menu.entries@)),
        )
    &&& menu.default_index == (if matches.len() > 0 {
        matches.len() - 1
    } else {
        0
    })
}

/// Builds the choice menu for a list of ambiguous candidates: sorted
/// oldest to newest, each label padded to the longest core text and
/// followed by the commit time, cursor on the newest entry.
pub fn get_choice_map(matches: &Vec<RepoBuild>) -> (menu: ChoiceMenu)
    ensures
        menu_for(menu, matches@),
{
    let sorted = sort_matches(matches);
    let ghost sv = views_of(sorted@);
    let n = sorted.len();

    // Longest core text.
    let mut w: usize = 0;
    let mut k: usize = 0;
    assert(sv.subrange(0, 0) =~= Seq::<RepoBuildV>::empty());
    while k < n
        invariant
            sv == views_of(sorted@),
            n == sorted@.len(),
            k <= n,
            w == max_core_len(sv.subrange(0, k as int)),
        decreases n - k,
    {
        let ghost cur = sv.subrange(0, k + 1);
        proof {
            assert(cur.drop_last() =~= sv.subrange(0, k as int));
            assert(cur.last() == sv[k as int]);
        }
        let mut core: Vec<char> = Vec::new();
        append_str_chars(&mut core, sorted[k].nickname.as_str());
        core.push('/');
        append_build_label(&mut core, &sorted[k].build);
        assert(core@ =~= choice_core(sv[k as int]));
        let cl = core.len();
        if cl > w {
            w = cl;
        }
        k = k + 1;
        assert(sv.subrange(0, k as int) =~= cur);
    }
    assert(sv.subrange(0, n as int) =~= sv);

    // Labels: padded core, two spaces, commit time.
    let mut labels: Vec<String> = Vec::new();
    let mut j: usize = 0;
    while j < n
        invariant
            sv == views_of(sorted@),
            n == sorted@.len(),
            j <= n,
            labels@.len() == j,
            w == max_core_len(sv),
            forall|m: int|
                0 <= m < j ==> (#[trigger] labels@[m])@ == choice_label(sv[m], w as nat),
        decreases n - j,
    {
        let mut label: Vec<char> = Vec::new();
        append_str_chars(&mut label, sorted[j].nickname.as_str());
        label.push('/');
        append_build_label(&mut label, &sorted[j].build);
        assert(label@ =~= choice_core(sv[j as int]));
        pad_chars(&mut label, w);
        append_str_chars(&mut label, "  ");
        let ts = format_commit_time(sorted[j].build.commit_dt);
        append_str_chars(&mut label, ts.as_str());
        assert(label@ =~= choice_label(sv[j as int], w as nat));
        labels.push(string_from_chars(&label));
        j = j + 1;
    }

    let default_index = if n > 0 {
        n - 1
    } else {
        0
    };
    ChoiceMenu { labels, entries: sorted, default_index }
}

/// The outcome of the ambiguity resolver: a single unambiguous build, or
/// a menu the human must choose from.
pub enum MatchResolution {
    Chosen(BuildIdentity),
    Menu(ChoiceMenu),
}

/// Resolves a match list. Exactly one match is returned as is, with no
/// menu and hence no prompt; anything else becomes a choice menu over
/// all candidates.
pub fn resolve_match(matches: &Vec<RepoBuild>) -> (r: MatchResolution)
    ensures
        matches@.len() == 1 ==> r is Chosen && r->Chosen_0@ == matches@[0].build@,
        matches@.len() != 1 ==> r is Menu && menu_for(r->Menu_0, matches@),
{
    if matches.len() == 1 {
        MatchResolution::Chosen(matches[0].build.clone())
    } else {
        MatchResolution::Menu(get_choice_map(matches))
    }
}

/// The models of a list of variants.
pub open spec fn variant_views(s: Seq<Variant>) -> Seq<VariantV> {
    s.map_values(|v: Variant| v@)
}

/// The candidates the variant resolver chooses from: the full set when
/// every platform is allowed, otherwise the platform filter's result
/// with its fallback to the unfiltered set.
pub open spec fn variant_candidates(vs: crate::repo::VariantSetV, all_platforms: bool, target: Platform) -> Seq<VariantV> {
    if all_platforms {
        vs.v
    } else if matching_variants(vs.v, target).len() == 0 {
        vs.v
    } else {
        matching_variants(vs.v, target)
    }
}

/// Sorts variants by their description label.
#[verifier::rlimit(60)]
fn sort_variants_by_label(v: Vec<Variant>) -> (out: Vec<Variant>)
    ensures
        out@.len() == v@.len(),
        forall|k1: int, k2: int|
            0 <= k1 < k2 < out@.len() ==> !lex_lt(
                variant_label(out@[k2]@),
                variant_label(out@[k1]@),
            ),
        variant_views(out@).to_multiset() == variant_views(v@).to_multiset(),
{
    broadcast use vstd::seq_lib::group_to_multiset_ensures;

    let mut out: Vec<Variant> = Vec::new();
    let mut i: usize = 0;
    assert(variant_views(v@.subrange(0, 0)) =~= Seq::<VariantV>::empty());
    assert(Seq::<VariantV>::empty().to_multiset() =~= variant_views(out@).to_multiset());
    while i < v.len()
        invariant
            i <= v@.len(),
            out@.len() == i,
            forall|k1: int, k2: int|
                0 <= k1 < k2 < out@.len() ==> !lex_lt(
                    variant_label(out@[k2]@),
                    variant_label(out@[k1]@),
                ),
            variant_views(out@).to_multiset() == variant_views(v@.subrange(0, i as int)).to_multiset(),
        decreases v@.len() - i,
    {
        let x = v[i].clone();
        let xl = variant_label_string(&x);
        let mut p: usize = 0;
        loop
            invariant
                p <= out@.len(),
                xl@ == variant_label(x@),
                forall|j: int| 0 <= j < p ==> !lex_lt(variant_label(x@), variant_label(out@[j]@)),
            ensures
                p <= out@.len(),
                forall|j: int| 0 <= j < p ==> !lex_lt(variant_label(x@), variant_label(out@[j]@)),
                p < out@.len() ==> lex_lt(variant_label(x@), variant_label(out@[p as int]@)),
            decreases out@.len() - p,
        {
            if p >= out.len() {
                break;
            }
            let pl = variant_label_string(&out[p]);
            if crate::strutil::str_lex_lt(xl.as_str(), pl.as_str()) {
                break;
            }
            p = p + 1;
        }
        let ghost oldout = out@;
        out.insert(p, x);
        proof {
            oldout.insert_ensures(p as int, x);
            assert(out@ == oldout.insert(p as int, x));
            assert forall|k1: int, k2: int|
                0 <= k1 < k2 < out@.len() implies !lex_lt(
                variant_label(out@[k2]@),
                variant_label(out@[k1]@),
            ) by {
                if k2 < p {
                    assert(out@[k1] == oldout[k1] && out@[k2] == oldout[k2]);
                } else if k1 < p && k2 == p {
                    assert(out@[k1] == oldout[k1]);
                    assert(!lex_lt(variant_label(x@), variant_label(oldout[k1]@)));
                } else if k1 < p {
                    assert(out@[k1] == oldout[k1] && out@[k2] == oldout[k2 - 1]);
                } else if k1 == p {
                    assert(out@[k2] == oldout[k2 - 1]);
                    assert(p < oldout.len());
                    assert(lex_lt(variant_label(x@), variant_label(oldout[p as int]@)));
                    if lex_lt(variant_label(oldout[k2 - 1]@), variant_label(x@)) {
                        lemma_lex_lt_trans(
                            variant_label(oldout[k2 - 1]@),
                            variant_label(x@),
                            variant_label(oldout[p as int]@),
                        );
                        if k2 - 1 > p {
                            assert(!lex_lt(
                                variant_label(oldout[k2 - 1]@),
                                variant_label(oldout[p as int]@),
                            ));
                        } else {
                            lemma_lex_lt_asym(
                                variant_label(oldout[p as int]@),
                                variant_label(oldout[p as int]@),
                            );
                        }
                    }
                } else {
                    assert(out@[k1] == oldout[k1 - 1] && out@[k2] == oldout[k2 - 1]);
                }
            }
            let sub0 = v@.subrange(0, i as int);
            let sub1 = v@.subrange(0, i + 1);
            assert(variant_views(out@) =~= variant_views(oldout).insert(p as int, x@));
            assert(variant_views(sub1) =~= variant_views(sub0).push(v@[i as int]@));
            vstd::seq_lib::to_multiset_insert(variant_views(oldout), p as int, x@);
            vstd::seq_lib::to_multiset_build(variant_views(sub0), v@[i as int]@);
            assert(variant_views(out@).to_multiset() == variant_views(sub1).to_multiset());
        }
        i = i + 1;
    }
    assert(v@.subrange(0, v@.len() as int) =~= v@);
    out
}

/// The outcome of the variant resolver: a single unambiguous artifact,
/// or a labelled menu the human must choose from.
pub enum VariantResolution {
    Single(Variant),
    Menu { labels: Vec<String>, variants: Vec<Variant> },
}

/// Resolves a variant set to one artifact. With `all_platforms` the full
/// set is offered unfiltered and unsorted; otherwise the platform filter
/// runs with its fallback and the candidates are sorted by description
/// for a deterministic menu. A single remaining candidate is returned
/// without any menu; anything else becomes a menu labelled by variant
/// description.
pub fn resolve_variant(set: &VariantSet, all_platforms: bool, target: Platform) -> (r:
    VariantResolution)
    ensures
        variant_candidates(set@, all_platforms, target).len() == 1 ==> r is Single
            && r->Single_0@ == variant_candidates(set@, all_platforms, target)[0],
        variant_candidates(set@, all_platforms, target).len() != 1 ==> {
            &&& r is Menu
            &&& variant_views(r->Menu_variants@).to_multiset() == variant_candidates(
                set@,
                all_platforms,
                target,
            ).to_multiset()
            &&& r->Menu_labels@.len() == r->Menu_variants@.len()
            &&& forall|k: int|
                0 <= k < r->Menu_labels@.len() ==> (#[trigger] r->Menu_labels@[k])@
                    == variant_label(r->Menu_variants@[k]@)
            &&& all_platforms ==> variant_views(r->Menu_variants@) == variant_candidates(
                set@,
                all_platforms,
                target,
            )
            &&& !all_platforms ==> forall|k1: int, k2: int|
                0 <= k1 < k2 < r->Menu_variants@.len() ==> !lex_lt(
                    variant_label(r->Menu_variants@[k2]@),
                    variant_label(r->Menu_variants@[k1]@),
                )
        },
{
    broadcast use vstd::seq_lib::group_to_multiset_ensures;

    let ghost cands = variant_candidates(set@, all_platforms, target);
    let chosen: Vec<Variant> = if all_platforms {
        clone_variants(&set.v)
    } else {
        let f = crate::catalog::filter_with_fallback(set, target);
        sort_variants_by_label(f.v)
    };
    proof {
        if all_platforms {
            assert(variant_views(chosen@) =~= cands);
        }
        assert(variant_views(chosen@).to_multiset() == cands.to_multiset());
    }
    if chosen.len() == 1 {
        proof {
            assert(variant_views(chosen@).len() == cands.to_multiset().len());
            assert(cands.len() == cands.to_multiset().len());
            let vv = variant_views(chosen@);
            assert(vv =~= seq![vv[0]]);
            assert(vv.to_multiset().contains(vv[0]));
            assert(cands.to_multiset().contains(vv[0]));
            assert(cands.contains(vv[0]));
            let w = choose|w: int| 0 <= w < cands.len() && cands[w] == vv[0];
            assert(w == 0);
            assert(cands[0] == chosen@[0]@);
        }
        VariantResolution::Single(chosen[0].clone())
    } else {
        let mut labels: Vec<String> = Vec::new();
        let mut k: usize = 0;
        while k < chosen.len()
            invariant
                k <= chosen@.len(),
                labels@.len() == k,
                forall|m: int|
                    0 <= m < k ==> (#[trigger] labels@[m])@ == variant_label(chosen@[m]@),
            decreases chosen@.len() - k,
        {
            labels.push(variant_label_string(&chosen[k]));
            k = k + 1;
        }
        VariantResolution::Menu { labels, variants: chosen }
    }
}

/// Picks the entry a prompt answer names, if the index is in range.
pub fn menu_choice(menu: &ChoiceMenu, index: usize) -> (r: Option<RepoBuild>)
    ensures
        index < menu.entries@.len() ==> r is Some && r->0 == menu.entries@[index as int],
        index >= menu.entries@.len() ==> r is None,
{
    if index < menu.entries.len() {
        Some(menu.entries[index].clone())
    } else {
        None
    }
}

} // verus!
