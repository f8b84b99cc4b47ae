//! Build identity: the version triple, branch, hash and commit time that
//! uniquely name one build across every repository.

use vstd::prelude::*;

use crate::strutil::{dec_chars, string_from_chars, u64_chars, append_str_chars};

verus! {

/// Mathematical model of a build identity.
#[verifier::ext_equal]
pub ghost struct BuildId {
    pub major: int,
    pub minor: int,
    pub patch: int,
    pub branch: Seq<char>,
    pub build_hash: Seq<char>,
    pub commit_dt: int,
}

/// The version + branch + hash + commit-time tuple that names one build.
///
/// Used as a catalog key, so it carries a total canonical ordering:
/// by commit timestamp, tie-broken by the version triple.
#[derive(Debug, PartialEq)]
pub struct BuildIdentity {
    pub major: u64,
    pub minor: u64,
    pub patch: u64,
    pub branch: String,
    pub build_hash: String,
    /// Commit time as seconds since the Unix epoch.
    pub commit_dt: i64,
}

impl View for BuildIdentity {
    type V = BuildId;

    open spec fn view(&self) -> BuildId {
        BuildId {
            major: self.major as int,
            minor: self.minor as int,
            patch: self.patch as int,
            branch: self.branch@,
            build_hash: self.build_hash@,
            commit_dt: self.commit_dt as int,
        }
    }
}

impl Clone for BuildIdentity {
    fn clone(&self) -> (r: Self)
        ensures
            r == *self,
    {
        BuildIdentity {
            major: self.major,
            minor: self.minor,
            patch: self.patch,
            branch: self.branch.clone(),
            build_hash: self.build_hash.clone(),
            commit_dt: self.commit_dt,
        }
    }
}

/// The canonical ordering key: commit time first, then the version triple.
pub open spec fn id_le(a: BuildId, b: BuildId) -> bool {
    if a.commit_dt != b.commit_dt {
        a.commit_dt < b.commit_dt
    } else if a.major != b.major {
        a.major < b.major
    } else if a.minor != b.minor {
        a.minor < b.minor
    } else {
        a.patch <= b.patch
    }
}

/// Whether two identities are the same build.
pub fn same_identity(a: &BuildIdentity, b: &BuildIdentity) -> (r: bool)
    ensures
        r == (a@ == b@),
{
    a.major == b.major && a.minor == b.minor && a.patch == b.patch && a.branch == b.branch
        && a.build_hash == b.build_hash && a.commit_dt == b.commit_dt
}

/// Decides the canonical ordering between two identities.
pub fn identity_le(a: &BuildIdentity, b: &BuildIdentity) -> (r: bool)
    ensures
        r == id_le(a@, b@),
{
    if a.commit_dt != b.commit_dt {
        a.commit_dt < b.commit_dt
    } else if a.major != b.major {
        a.major < b.major
    } else if a.minor != b.minor {
        a.minor < b.minor
    } else {
        a.patch <= b.patch
    }
}

/// The canonical ordering is total: any two identities are comparable.
pub proof fn lemma_id_le_total(a: BuildId, b: BuildId)
    ensures
        id_le(a, b) || id_le(b, a),
        id_le(a, a),
{
}

/// The text naming a build: `major.minor.patch`, then `-branch` when the
/// branch is non-empty, then `+hash` when the hash is non-empty.
pub open spec fn build_label(b: BuildId) -> Seq<char> {
    dec_chars(b.major as nat) + seq!['.'] + dec_chars(b.minor as nat) + seq!['.'] + dec_chars(
        b.patch as nat,
    ) + (if b.branch.len() > 0 {
        seq!['-'] + b.branch
    } else {
        Seq::empty()
    }) + (if b.build_hash.len() > 0 {
        seq!['+'] + b.build_hash
    } else {
        Seq::empty()
    })
}

/// Appends the label of `b` to `out`.
pub fn append_build_label(out: &mut Vec<char>, b: &BuildIdentity)
    ensures
        final(out)@ == old(out)@ + build_label(b@),
{
    let mut maj = u64_chars(b.major);
    out.append(&mut maj);
    out.push('.');
    let mut min = u64_chars(b.minor);
    out.append(&mut min);
    out.push('.');
    let mut pat = u64_chars(b.patch);
    out.append(&mut pat);
    if b.branch.as_str().unicode_len() > 0 {
        out.push('-');
        append_str_chars(out, b.branch.as_str());
    }
    if b.build_hash.as_str().unicode_len() > 0 {
        out.push('+');
        append_str_chars(out, b.build_hash.as_str());
    }
    assert(out@ =~= old(out)@ + build_label(b@));
}

/// The label of a build as a `String`.
pub fn build_label_string(b: &BuildIdentity) -> (s: String)
    ensures
        s@ == build_label(b@),
{
    let mut out: Vec<char> = Vec::new();
    append_build_label(&mut out, b);
    string_from_chars(&out)
}

} // verus!
