//! The archive extractor's decisions: format dispatch by file extension
//! and per-entry destination paths.
//!
//! Dispatch is a closed choice over the supported formats, with an
//! explicit unsupported case for every other extension; an unsupported
//! extension stops that artifact alone and writes nothing. Every entry
//! of a supported archive has its first path component (the archive's
//! own top-level wrapper directory) stripped before it is joined onto
//! the destination directory. The streaming itself — decompressing,
//! reading entries, creating directories, writing files, advancing the
//! progress indicator and checking the cancellation flag after every
//! entry — is the surrounding program's work, driven by these decisions.
//! Partial extraction after an error or a cancellation is not rolled
//! back; the cleanup prompter deals with what is left.

use vstd::prelude::*;

use crate::query::find_from;
use crate::strutil::{append_str_chars, index_of_char, string_from_chars};

verus! {

/// The supported archive formats, and the explicit unsupported case.
#[derive(Debug, Clone, Copy, PartialEq, Eq, Structural)]
pub enum ArchiveFormat {
    /// An xz-compressed tar archive (extension `xz`).
    TarXz,
    /// A zip archive (extension `zip`).
    Zip,
    /// Anything else, including recognized-but-unimplemented disk
    /// images: a hard stop for this artifact only.
    Unsupported,
}

/// Dispatches on a file extension. Only `xz` and `zip` are supported;
/// every other extension — `dmg` among them — is unsupported, and the
/// caller reports it without touching the filesystem.
pub fn classify_extension(ext: &str) -> (r: ArchiveFormat)
    ensures
        (r == ArchiveFormat::TarXz) <==> ext@ == "xz"@,
        (r == ArchiveFormat::Zip) <==> ext@ == "zip"@,
{
    proof {
        reveal_strlit("xz");
        reveal_strlit("zip");
    }
    let n = ext.unicode_len();
    if n == 2 && ext.get_char(0) == 'x' && ext.get_char(1) == 'z' {
        assert(ext@ =~= "xz"@);
        ArchiveFormat::TarXz
    } else if n == 3 && ext.get_char(0) == 'z' && ext.get_char(1) == 'i' && ext.get_char(2)
        == 'p' {
        assert(ext@ =~= "zip"@);
        ArchiveFormat::Zip
    } else {
        proof {
            if ext@ == "xz"@ {
                assert(ext@.len() == 2 && ext@[0] == 'x' && ext@[1] == 'z');
            }
            if ext@ == "zip"@ {
                assert(ext@.len() == 3 && ext@[0] == 'z' && ext@[1] == 'i' && ext@[2] == 'p');
            }
        }
        ArchiveFormat::Unsupported
    }
}

/// An entry path with its first component stripped: everything after
/// the first separator, or nothing when the path is a bare top-level
/// name.
pub open spec fn stripped_entry(path: Seq<char>) -> Seq<char> {
    if find_from(path, 0, '/') < path.len() {
        path.subrange(find_from(path, 0, '/') + 1, path.len() as int)
    } else {
        Seq::empty()
    }
}

/// Where an archive entry lands: the destination directory joined with
/// the entry path minus its first component. An entry that was only the
/// top-level wrapper maps to the destination itself.
pub open spec fn entry_destination_spec(dest: Seq<char>, entry: Seq<char>) -> Seq<char> {
    if stripped_entry(entry).len() == 0 {
        dest
    } else {
        dest + seq!['/'] + stripped_entry(entry)
    }
}

proof fn lemma_find_from_first(s: Seq<char>, c: char, i: int)
    requires
        0 <= i <= s.len(),
        forall|j: int| 0 <= j < i ==> s[j] != c,
        i < s.len() ==> s[i] == c,
        i == s.len() ==> forall|j: int| 0 <= j < s.len() ==> s[j] != c,
    ensures
        find_from(s, 0, c) == if i < s.len() {
            i
        } else {
            s.len() as int
        },
    decreases s.len(),
{
    lemma_find_from_step(s, c, 0, i);
}

proof fn lemma_find_from_step(s: Seq<char>, c: char, p: int, i: int)
    requires
        0 <= p <= i <= s.len(),
        forall|j: int| p <= j < i ==> s[j] != c,
        i < s.len() ==> s[i] == c,
    ensures
        find_from(s, p, c) == if i < s.len() {
            i
        } else {
            s.len() as int
        },
    decreases i - p,
{
    if p < i {
        lemma_find_from_step(s, c, p + 1, i);
    }
}

/// Computes the destination path of one archive entry, stripping
/// exactly one leading path component: an entry at `root/sub/file.txt`
/// lands at `destination/sub/file.txt`.
pub fn entry_destination(dest: &str, entry: &str) -> (r: String)
    ensures
        r@ == entry_destination_spec(dest@, entry@),
{
    match index_of_char(entry, '/') {
        Some(i) => {
            proof {
                lemma_find_from_first(entry@, '/', i as int);
            }
            let n = entry.unicode_len();
            let rest = entry.substring_char(i + 1, n);
            if rest.unicode_len() == 0 {
                dest.to_owned()
            } else {
                let mut out: Vec<char> = Vec::new();
                append_str_chars(&mut out, dest);
                out.push('/');
                append_str_chars(&mut out, rest);
                assert(out@ =~= entry_destination_spec(dest@, entry@));
                string_from_chars(&out)
            }
        },
        None => {
            proof {
                lemma_find_from_first(entry@, '/', entry@.len() as int);
            }
            dest.to_owned()
        },
    }
}

/// Computes every entry's destination for a whole archive listing, in
/// order.
pub fn extraction_targets(dest: &str, entries: &Vec<String>) -> (r: Vec<String>)
    ensures
        r@.len() == entries@.len(),
        forall|k: int|
            0 <= k < r@.len() ==> (#[trigger] r@[k])@ == entry_destination_spec(
                dest@,
                entries@[k]@,
            ),
{
    let mut out: Vec<String> = Vec::new();
    let mut i: usize = 0;
    while i < entries.len()
        invariant
            i <= entries@.len(),
            out@.len() == i,
            forall|k: int|
                0 <= k < i ==> (#[trigger] out@[k])@ == entry_destination_spec(
                    dest@,
                    entries@[k]@,
                ),
        decreases entries@.len() - i,
    {
        out.push(entry_destination(dest, entries[i].as_str()));
        i = i + 1;
    }
    out
}

/// The total size a progress indicator is set to before a zip
/// extraction: the declared decompressed size, or the compressed file's
/// size when the format does not report one.
pub fn progress_total(decompressed: Option<u64>, file_size: u64) -> (r: u64)
    ensures
        decompressed is Some ==> r == decompressed->0,
        decompressed is None ==> r == file_size,
{
    match decompressed {
        Some(n) => n,
        None => file_size,
    }
}

} // verus!
