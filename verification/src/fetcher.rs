//! The catalog-refresh decisions: in which order repositories are
//! fetched, when a sequential refresh stops early, and which single
//! error a finished refresh reports.
//!
//! A refresh runs either sequentially — stopping at the first error
//! unless told to ignore errors — or fully in parallel; either way the
//! batch's result is the first error in repository order, or the
//! deferred task of remembering the fetch time when everything
//! succeeded. The network traffic and the cache writes are the
//! surrounding program's work.

use vstd::prelude::*;

use crate::errs::OsErrorDetail;
use crate::tasks::ConfigTask;

verus! {

/// Whether a sequential refresh goes on after one repository's fetch:
/// it stops at the first error unless errors are ignored.
pub fn continue_fetching(last_ok: bool, ignore_errors: bool) -> (r: bool)
    ensures
        r == (last_ok || ignore_errors),
{
    last_ok || ignore_errors
}

/// Concludes a finished refresh: the first error in repository order,
/// or the task of updating the last-checked time when every repository
/// fetched cleanly.
pub fn fetch_conclusion(results: &Vec<Option<OsErrorDetail>>) -> (r: Result<
    ConfigTask,
    OsErrorDetail,
>)
    ensures
        r is Ok <==> forall|j: int| 0 <= j < results@.len() ==> results@[j] is None,
        r is Ok ==> r->Ok_0 == ConfigTask::UpdateLastTimeChecked,
        r is Err ==> exists|j: int|
            {
                &&& 0 <= j < results@.len()
                &&& results@[j] == Some(r->Err_0)
                &&& forall|k: int| 0 <= k < j ==> results@[k] is None
            },
{
    let mut i: usize = 0;
    while i < results.len()
        invariant
            i <= results@.len(),
            forall|k: int| 0 <= k < i ==> results@[k] is None,
        decreases results@.len() - i,
    {
        match &results[i] {
            Some(e) => {
                return Err(e.clone());
            },
            None => {},
        }
        i = i + 1;
    }
    Ok(ConfigTask::UpdateLastTimeChecked)
}

} // verus!
