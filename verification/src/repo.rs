//! Repositories, variants and variant sets: the catalog's raw material.

use vstd::prelude::*;

use crate::platform::{Arch, FileKind, Os, Platform, arch_chars, kind_chars, os_chars};
use crate::strutil::string_from_chars;
use crate::version::{BuildId, BuildIdentity};

verus! {

/// Kind of a configured repository.
#[derive(Debug, Clone, Copy, PartialEq, Eq, Structural)]
pub enum RepoKind {
    Remote,
    Local,
}

/// Mathematical model of a repository descriptor.
#[verifier::ext_equal]
pub ghost struct RepoV {
    pub repo_id: Seq<char>,
    pub nickname: Seq<char>,
    pub url: Seq<char>,
    pub kind: RepoKind,
}

/// A configured repository: identifier, display nickname, base URL, kind.
#[derive(Debug, PartialEq)]
pub struct RepositoryDescriptor {
    pub repo_id: String,
    pub nickname: String,
    pub url: String,
    pub kind: RepoKind,
}

impl View for RepositoryDescriptor {
    type V = RepoV;

    open spec fn view(&self) -> RepoV {
        RepoV {
            repo_id: self.repo_id@,
            nickname: self.nickname@,
            url: self.url@,
            kind: self.kind,
        }
    }
}

impl Clone for RepositoryDescriptor {
    fn clone(&self) -> (r: Self)
        ensures
            r == *self,
    {
        RepositoryDescriptor {
            repo_id: self.repo_id.clone(),
            nickname: self.nickname.clone(),
            url: self.url.clone(),
            kind: self.kind,
        }
    }
}

/// Mathematical model of one platform variant of a build.
#[verifier::ext_equal]
pub ghost struct VariantV {
    pub os: Os,
    pub arch: Arch,
    pub kind: FileKind,
    pub url: Seq<char>,
    pub file_extension: Option<Seq<char>>,
}

/// One platform-specific downloadable artifact of a build.
#[derive(Debug, PartialEq)]
pub struct Variant {
    pub os: Os,
    pub arch: Arch,
    pub kind: FileKind,
    /// Remote location of the artifact.
    pub url: String,
    /// File extension of the artifact, when the remote names one.
    pub file_extension: Option<String>,
}

impl View for Variant {
    type V = VariantV;

    open spec fn view(&self) -> VariantV {
        VariantV {
            os: self.os,
            arch: self.arch,
            kind: self.kind,
            url: self.url@,
            file_extension: match self.file_extension {
                Some(e) => Some(e@),
                None => None,
            },
        }
    }
}

impl Clone for Variant {
    fn clone(&self) -> (r: Self)
        ensures
            r == *self,
    {
        Variant {
            os: self.os,
            arch: self.arch,
            kind: self.kind,
            url: self.url.clone(),
            file_extension: match &self.file_extension {
                Some(e) => Some(e.clone()),
                None => None,
            },
        }
    }
}

/// Whether a variant is compatible with the target platform.
pub open spec fn variant_matches(v: VariantV, target: Platform) -> bool {
    v.os == target.os && v.arch == target.arch
}

/// Decides compatibility of a variant with the target platform.
pub fn variant_matches_target(v: &Variant, target: Platform) -> (r: bool)
    ensures
        r == variant_matches(v@, target),
{
    v.os == target.os && v.arch == target.arch
}

/// Human-readable description of a variant: platform plus packaging kind.
pub open spec fn variant_label(v: VariantV) -> Seq<char> {
    os_chars(v.os) + seq!['-'] + arch_chars(v.arch) + seq!['-'] + kind_chars(v.kind)
}

/// The description of a variant as a `String`.
pub fn variant_label_string(v: &Variant) -> (s: String)
    ensures
        s@ == variant_label(v@),
{
    let mut out: Vec<char> = Vec::new();
    crate::platform::append_os_chars(&mut out, v.os);
    out.push('-');
    crate::platform::append_arch_chars(&mut out, v.arch);
    out.push('-');
    crate::platform::append_kind_chars(&mut out, v.kind);
    assert(out@ =~= variant_label(v@));
    string_from_chars(&out)
}

/// Mathematical model of a variant set.
#[verifier::ext_equal]
pub ghost struct VariantSetV {
    pub basic: BuildId,
    pub v: Seq<VariantV>,
}

/// One build identity together with its ordered platform variants.
#[derive(Debug, PartialEq)]
pub struct VariantSet {
    pub basic: BuildIdentity,
    pub v: Vec<Variant>,
}

impl View for VariantSet {
    type V = VariantSetV;

    open spec fn view(&self) -> VariantSetV {
        VariantSetV { basic: self.basic@, v: self.v@.map_values(|x: Variant| x@) }
    }
}

/// Clones a vector of variants, keeping every element.
pub fn clone_variants(v: &Vec<Variant>) -> (r: Vec<Variant>)
    ensures
        r@ == v@,
{
    let mut out: Vec<Variant> = Vec::new();
    let mut i: usize = 0;
    while i < v.len()
        invariant
            i <= v@.len(),
            out@ == v@.subrange(0, i as int),
        decreases v@.len() - i,
    {
        out.push(v[i].clone());
        assert(out@ =~= v@.subrange(0, i + 1));
        i = i + 1;
    }
    assert(out@ =~= v@);
    out
}

impl Clone for VariantSet {
    fn clone(&self) -> (r: Self)
        ensures
            r.basic == self.basic,
            r.v@ == self.v@,
    {
        VariantSet { basic: self.basic.clone(), v: clone_variants(&self.v) }
    }
}

/// A build identity paired with the nickname of the repository that
/// presents it; what the matcher and the resolvers work on.
#[derive(Debug, PartialEq)]
pub struct RepoBuild {
    pub build: BuildIdentity,
    pub nickname: String,
}

impl Clone for RepoBuild {
    fn clone(&self) -> (r: Self)
        ensures
            r == *self,
    {
        RepoBuild { build: self.build.clone(), nickname: self.nickname.clone() }
    }
}

/// Mathematical model of a [`RepoBuild`].
#[verifier::ext_equal]
pub ghost struct RepoBuildV {
    pub build: BuildId,
    pub nickname: Seq<char>,
}

impl View for RepoBuild {
    type V = RepoBuildV;

    open spec fn view(&self) -> RepoBuildV {
        RepoBuildV { build: self.build@, nickname: self.nickname@ }
    }
}

} // verus!
