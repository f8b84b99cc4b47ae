//! Checking installed builds: which library folders are examined, and
//! what to do with a build whose metadata cannot be read. Walking the
//! disk, reading records and launching a build to regenerate its data
//! are the surrounding program's work.

use vstd::prelude::*;

use crate::install::last_component;
use crate::strutil::str_eq;

verus! {

/// Whether the path names a directory.
///
/// Relies on `std::path::Path::is_dir`; the answer depends on the disk,
/// so nothing is promised of it.
#[verifier::external_body]
fn path_is_dir(p: &str) -> bool {
    std::path::Path::new(p).is_dir()
}

/// The target a symbolic link points to, as text, if the path is a
/// readable link.
///
/// Relies on `std::path::Path::read_link`; the answer depends on the
/// disk, so nothing is promised of it.
#[verifier::external_body]
fn read_link_target(p: &str) -> Option<String> {
    match std::path::Path::new(p).read_link() {
        Ok(t) => Some(t.to_string_lossy().into_owned()),
        Err(_) => None,
    }
}

/// Whether the path is a directory, directly or through a symbolic
/// link. The answer depends on the disk, so nothing is stated of it.
pub fn is_dir_or_link_to_dir(p: &str) -> bool {
    if path_is_dir(p) {
        return true;
    }
    match read_link_target(p) {
        Some(t) => path_is_dir(t.as_str()),
        None => false,
    }
}

/// Whether a folder is selected by the optional repository list: with
/// no list every folder is; with a list, a folder whose final path
/// component equals one of the named repositories is. A repository is
/// named by a single path component.
pub open spec fn folder_selected(folder: Seq<char>, repos: Option<Seq<Seq<char>>>) -> bool {
    match repos {
        None => true,
        Some(rs) => exists|k: int| 0 <= k < rs.len() && #[trigger] rs[k] == last_component(folder),
    }
}

/// The texts of a string list.
pub open spec fn string_views(v: Seq<String>) -> Seq<Seq<char>> {
    v.map_values(|s: String| s@)
}

/// The selected folders, in order.
pub open spec fn selected_folders(
    folders: Seq<Seq<char>>,
    repos: Option<Seq<Seq<char>>>,
) -> Seq<Seq<char>>
    decreases folders.len(),
{
    if folders.len() == 0 {
        Seq::empty()
    } else {
        selected_folders(folders.drop_last(), repos) + (if folder_selected(
            folders.last(),
            repos,
        ) {
            seq![folders.last()]
        } else {
            Seq::empty()
        })
    }
}

fn name_matches(folder: &String, repos: &Vec<String>) -> (r: bool)
    ensures
        r == exists|k: int|
            0 <= k < string_views(repos@).len() && #[trigger] string_views(repos@)[k]
                == last_component(folder@),
{
    let n = folder.as_str().unicode_len();
    let start = match crate::install::exec_find_last(folder.as_str(), '/') {
        Some(j) => j + 1,
        None => 0,
    };
    let tail = folder.as_str().substring_char(start, n);
    assert(tail@ == last_component(folder@));
    let mut k: usize = 0;
    while k < repos.len()
        invariant
            tail@ == last_component(folder@),
            k <= repos@.len(),
            forall|j: int| 0 <= j < k ==> #[trigger] string_views(repos@)[j] != last_component(
                folder@,
            ),
        decreases repos@.len() - k,
    {
        if str_eq(repos[k].as_str(), tail) {
            assert(string_views(repos@)[k as int] == last_component(folder@));
            return true;
        }
        k = k + 1;
    }
    false
}

/// Narrows the library's folders to the repositories named, keeping
/// every folder when no names were given.
pub fn filter_folders(folders: &Vec<String>, repos: &Option<Vec<String>>) -> (out: Vec<String>)
    ensures
        string_views(out@) == selected_folders(
            string_views(folders@),
            match repos {
                Some(rs) => Some(string_views(rs@)),
                None => None,
            },
        ),
{
    let ghost fv = string_views(folders@);
    let ghost rv: Option<Seq<Seq<char>>> = match repos {
        Some(rs) => Some(string_views(rs@)),
        None => None,
    };
    let mut out: Vec<String> = Vec::new();
    let mut i: usize = 0;
    assert(fv.subrange(0, 0) =~= Seq::<Seq<char>>::empty());
    while i < folders.len()
        invariant
            fv == string_views(folders@),
            rv == (match repos {
                Some(rs) => Some(string_views(rs@)),
                None => None,
            }),
            i <= fv.len(),
            folders@.len() == fv.len(),
            string_views(out@) == selected_folders(fv.subrange(0, i as int), rv),
        decreases fv.len() - i,
    {
        let ghost cur = fv.subrange(0, i + 1);
        proof {
            assert(cur.drop_last() =~= fv.subrange(0, i as int));
            assert(cur.last() == fv[i as int]);
        }
        let keep = match repos {
            None => true,
            Some(rs) => name_matches(&folders[i], rs),
        };
        if keep {
            let ghost oldout = out@;
            out.push(folders[i].clone());
            proof {
                oldout.lemma_push_map_commute(|s: String| s@, folders@[i as int]);
            }
        }
        proof {
            match repos {
                None => {
                    assert(folder_selected(fv[i as int], rv));
                },
                Some(rs) => {
                    assert(fv[i as int] == folders@[i as int]@);
                    if keep {
                        let k0 = choose|k: int|
                            0 <= k < string_views(rs@).len() && #[trigger] string_views(rs@)[k]
                                == last_component(folders@[i as int]@);
                        assert(rv->0[k0] == last_component(fv[i as int]));
                        assert(folder_selected(fv[i as int], rv));
                    } else {
                        if folder_selected(fv[i as int], rv) {
                            let k0 = choose|k: int|
                                0 <= k < rv->0.len() && #[trigger] rv->0[k] == last_component(
                                    fv[i as int],
                                );
                            assert(string_views(rs@)[k0] == last_component(folders@[i as int]@));
                            assert(false);
                        }
                    }
                },
            }
            assert(folder_selected(fv[i as int], rv) == keep);
            assert(string_views(out@) =~= selected_folders(cur, rv));
        }
        i = i + 1;
        assert(fv.subrange(0, i as int) =~= cur);
    }
    proof {
        assert(fv.subrange(0, fv.len() as int) =~= fv);
    }
    out
}

/// What to do with one build folder whose record was read or not.
#[derive(Debug, Clone, Copy, PartialEq, Eq, Structural)]
pub enum VerifyAction {
    /// The record read cleanly: keep it.
    KeepExisting,
    /// The record is missing or unreadable: run the build's executable
    /// and regenerate the record from what it reports.
    RegenerateFromExecutable,
}

/// Decides what to do with one build folder.
pub fn verify_build_action(read_ok: bool) -> (r: VerifyAction)
    ensures
        read_ok <==> r == VerifyAction::KeepExisting,
{
    if read_ok {
        VerifyAction::KeepExisting
    } else {
        VerifyAction::RegenerateFromExecutable
    }
}

} // verus!
