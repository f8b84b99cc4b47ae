//! Platform descriptors: operating system, architecture and packaging
//! kind of a build variant, and the compatibility test against the host.

use vstd::prelude::*;

verus! {

/// Operating system of a build variant or of the running host.
#[derive(Debug, Clone, Copy, PartialEq, Eq, Structural)]
pub enum Os {
    Linux,
    Windows,
    MacOs,
}

/// Processor architecture of a build variant or of the running host.
#[derive(Debug, Clone, Copy, PartialEq, Eq, Structural)]
pub enum Arch {
    X64,
    Arm64,
    X86,
}

/// Packaging kind of a build variant.
#[derive(Debug, Clone, Copy, PartialEq, Eq, Structural)]
pub enum FileKind {
    Archive,
    Installer,
}

/// The host platform a variant must match: OS plus architecture.
///
/// Derived from the running host by the surrounding program; the library
/// only consumes it.
#[derive(Debug, Clone, Copy, PartialEq, Eq, Structural)]
pub struct Platform {
    pub os: Os,
    pub arch: Arch,
}

/// Label text of an operating system.
pub open spec fn os_chars(o: Os) -> Seq<char> {
    match o {
        Os::Linux => "linux"@,
        Os::Windows => "windows"@,
        Os::MacOs => "macos"@,
    }
}

/// Label text of an architecture.
pub open spec fn arch_chars(a: Arch) -> Seq<char> {
    match a {
        Arch::X64 => "x64"@,
        Arch::Arm64 => "arm64"@,
        Arch::X86 => "x86"@,
    }
}

/// Label text of a packaging kind.
pub open spec fn kind_chars(k: FileKind) -> Seq<char> {
    match k {
        FileKind::Archive => "archive"@,
        FileKind::Installer => "installer"@,
    }
}

/// Appends the label of an operating system to `out`.
pub fn append_os_chars(out: &mut Vec<char>, o: Os)
    ensures
        final(out)@ == old(out)@ + os_chars(o),
{
    match o {
        Os::Linux => crate::strutil::append_str_chars(out, "linux"),
        Os::Windows => crate::strutil::append_str_chars(out, "windows"),
        Os::MacOs => crate::strutil::append_str_chars(out, "macos"),
    }
}

/// Appends the label of an architecture to `out`.
pub fn append_arch_chars(out: &mut Vec<char>, a: Arch)
    ensures
        final(out)@ == old(out)@ + arch_chars(a),
{
    match a {
        Arch::X64 => crate::strutil::append_str_chars(out, "x64"),
        Arch::Arm64 => crate::strutil::append_str_chars(out, "arm64"),
        Arch::X86 => crate::strutil::append_str_chars(out, "x86"),
    }
}

/// Appends the label of a packaging kind to `out`.
pub fn append_kind_chars(out: &mut Vec<char>, k: FileKind)
    ensures
        final(out)@ == old(out)@ + kind_chars(k),
{
    match k {
        FileKind::Archive => crate::strutil::append_str_chars(out, "archive"),
        FileKind::Installer => crate::strutil::append_str_chars(out, "installer"),
    }
}

} // verus!
