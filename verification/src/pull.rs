//! Batch acquisition planning: the fail-fast validation that every
//! query matched something, and the generated fallback name for an
//! artifact whose URL names no file.
//!
//! Validation is batch-level: if any query in the batch matches
//! nothing, the whole batch fails before any network traffic, and the
//! error names every unmatched query. The download, extraction and
//! materialization of each resolved artifact then run as independent
//! pipelines; an error in one never cancels its siblings.

use vstd::prelude::*;

use crate::errs::CommandError;
use crate::strutil::{join_comma, join_sep};

verus! {

/// The texts of the queries whose match lists are empty, in order.
pub open spec fn unmatched_queries(queries: Seq<Seq<char>>, counts: Seq<int>) -> Seq<Seq<char>>
    decreases queries.len(),
{
    if queries.len() == 0 {
        Seq::empty()
    } else {
        unmatched_queries(queries.drop_last(), counts.drop_last()) + (if counts.last() == 0 {
            seq![queries.last()]
        } else {
            Seq::empty()
        })
    }
}

/// The models of the query texts.
pub open spec fn query_texts(queries: Seq<String>) -> Seq<Seq<char>> {
    queries.map_values(|q: String| q@)
}

/// The match counts as mathematical integers.
pub open spec fn count_views(counts: Seq<usize>) -> Seq<int> {
    counts.map_values(|c: usize| c as int)
}

/// Validates a batch of queries against their match counts, before any
/// download begins. The batch passes exactly when every query matched
/// at least one build; otherwise the whole batch fails with one error
/// naming every unmatched query, comma-separated, even though the
/// others would have succeeded.
pub fn check_all_queries_matched(queries: &Vec<String>, match_counts: &Vec<usize>) -> (r: Result<
    (),
    CommandError,
>)
    requires
        queries@.len() == match_counts@.len(),
    ensures
        r is Ok <==> unmatched_queries(query_texts(queries@), count_views(match_counts@)).len()
            == 0,
        r is Err ==> r->Err_0 is QueryResultEmpty && r->Err_0->QueryResultEmpty_0@ == join_sep(
            unmatched_queries(query_texts(queries@), count_views(match_counts@)),
            ", "@,
        ),
{
    let ghost qv = query_texts(queries@);
    let ghost cv = count_views(match_counts@);
    let mut empty: Vec<String> = Vec::new();
    let mut i: usize = 0;
    assert(qv.subrange(0, 0) =~= Seq::<Seq<char>>::empty());
    assert(cv.subrange(0, 0) =~= Seq::<int>::empty());
    while i < queries.len()
        invariant
            qv == query_texts(queries@),
            cv == count_views(match_counts@),
            qv.len() == cv.len(),
            queries@.len() == qv.len(),
            match_counts@.len() == cv.len(),
            i <= qv.len(),
            empty@.map_values(|q: String| q@) == unmatched_queries(
                qv.subrange(0, i as int),
                cv.subrange(0, i as int),
            ),
        decreases qv.len() - i,
    {
        let ghost qcur = qv.subrange(0, i + 1);
        let ghost ccur = cv.subrange(0, i + 1);
        proof {
            assert(qcur.drop_last() =~= qv.subrange(0, i as int));
            assert(ccur.drop_last() =~= cv.subrange(0, i as int));
            assert(qcur.last() == qv[i as int]);
            assert(ccur.last() == cv[i as int]);
        }
        if match_counts[i] == 0 {
            empty.push(queries[i].clone());
        }
        proof {
            assert(empty@.map_values(|q: String| q@) =~= unmatched_queries(qcur, ccur));
        }
        i = i + 1;
        assert(qv.subrange(0, i as int) =~= qcur);
        assert(cv.subrange(0, i as int) =~= ccur);
    }
    proof {
        assert(qv.subrange(0, qv.len() as int) =~= qv);
        assert(cv.subrange(0, cv.len() as int) =~= cv);
    }
    if empty.len() == 0 {
        Ok(())
    } else {
        Err(CommandError::QueryResultEmpty(join_comma(&empty)))
    }
}

/// What an outside function returns when asked for a fresh random name:
/// an unpredictable identifier; nothing more is promised of its value.
///
/// Relies on uuid's version-4 generator and its hyphenated rendering:
/// the text is always thirty-six characters.
#[verifier::external_body]
pub fn random_fallback_stem() -> (r: String)
    ensures
        r@.len() == 36,
{
    uuid::Uuid::new_v4().to_string()
}

} // verus!
