//! Removing installed builds: finding the record a chosen menu entry
//! names, and reporting the first failure of a batch of deletions.
//! The multi-choice prompt and the trash or delete calls are the
//! surrounding program's work; with the trash unavailable the program
//! falls back to permanent deletion.

use vstd::prelude::*;

use crate::errs::CommandError;
use crate::install::LocalBuildRecord;
use crate::ls::InstalledBuild;
use crate::repo::RepoBuild;
use crate::strutil::str_eq;
use crate::version::same_identity;

verus! {

/// Finds the first installed build matching a chosen candidate: same
/// identity, same repository nickname.
pub fn find_record_for(builds: &Vec<InstalledBuild>, chosen: &RepoBuild) -> (r: Option<
    LocalBuildRecord,
>)
    ensures
        match r {
            Some(rec) => exists|k: int|
                {
                    &&& 0 <= k < builds@.len()
                    &&& (#[trigger] builds@[k])@.record.basic == chosen@.build
                    &&& builds@[k]@.nickname == chosen@.nickname
                    &&& rec@ == builds@[k]@.record
                },
            None => forall|k: int|
                0 <= k < builds@.len() ==> !((#[trigger] builds@[k])@.record.basic
                    == chosen@.build && builds@[k]@.nickname == chosen@.nickname),
        },
{
    let mut k: usize = 0;
    while k < builds.len()
        invariant
            k <= builds@.len(),
            forall|j: int|
                0 <= j < k ==> !((#[trigger] builds@[j])@.record.basic == chosen@.build
                    && builds@[j]@.nickname == chosen@.nickname),
        decreases builds@.len() - k,
    {
        let b = &builds[k];
        if same_identity(&b.record.basic, &chosen.build) && str_eq(
            b.nickname.as_str(),
            chosen.nickname.as_str(),
        ) {
            return Some(b.record.clone());
        }
        k = k + 1;
    }
    None
}

/// The first error of a batch of deletion results, in input order;
/// every result is produced before any is examined, so one failure
/// does not stop the sibling deletions.
pub fn first_deletion_error(results: &Vec<Option<CommandError>>) -> (r: Option<CommandError>)
    ensures
        r is None <==> forall|j: int| 0 <= j < results@.len() ==> results@[j] is None,
        r is Some ==> exists|j: int|
            {
                &&& 0 <= j < results@.len()
                &&& results@[j] == Some(r->0)
                &&& forall|k: int| 0 <= k < j ==> results@[k] is None
            },
{
    let mut i: usize = 0;
    while i < results.len()
        invariant
            i <= results@.len(),
            forall|k: int| 0 <= k < i ==> results@[k] is None,
        decreases results@.len() - i,
    {
        match &results[i] {
            Some(e) => {
                return Some(e.clone());
            },
            None => {},
        }
        i = i + 1;
    }
    None
}

} // verus!
