//! Materialization of an installed build, and the paths and ordering of
//! one acquisition pipeline.
//!
//! One acquisition owns five paths and values fixed up front; it is
//! consumed by exactly one download run and then one extraction run, in
//! that order, never concurrently re-entered. The installed-build
//! metadata record is written only after extraction has completed: a
//! destination holding the record but no payload would read as a valid
//! install to other tooling.

use vstd::prelude::*;

use crate::strutil::{append_str_chars, dec_chars, string_from_chars, u64_chars};
use crate::version::{BuildId, BuildIdentity};

verus! {

/// Mathematical model of an installed-build record.
#[verifier::ext_equal]
pub ghost struct LocalBuildRecordV {
    pub folder: Seq<char>,
    pub basic: BuildId,
    pub is_favorited: bool,
    pub custom_name: Option<Seq<char>>,
    pub custom_exe: Option<Seq<char>>,
    pub custom_env: Option<Seq<char>>,
}

/// The metadata record that marks a destination folder as an installed
/// build. Persisted inside the install folder by the surrounding
/// program once extraction is done.
#[derive(Debug, PartialEq)]
pub struct LocalBuildRecord {
    pub folder: String,
    pub basic: BuildIdentity,
    pub is_favorited: bool,
    pub custom_name: Option<String>,
    pub custom_exe: Option<String>,
    pub custom_env: Option<String>,
}

impl View for LocalBuildRecord {
    type V = LocalBuildRecordV;

    open spec fn view(&self) -> LocalBuildRecordV {
        LocalBuildRecordV {
            folder: self.folder@,
            basic: self.basic@,
            is_favorited: self.is_favorited,
            custom_name: match self.custom_name {
                Some(s) => Some(s@),
                None => None,
            },
            custom_exe: match self.custom_exe {
                Some(s) => Some(s@),
                None => None,
            },
            custom_env: match self.custom_env {
                Some(s) => Some(s@),
                None => None,
            },
        }
    }
}

impl Clone for LocalBuildRecord {
    fn clone(&self) -> (r: Self)
        ensures
            r == *self,
    {
        LocalBuildRecord {
            folder: self.folder.clone(),
            basic: self.basic.clone(),
            is_favorited: self.is_favorited,
            custom_name: match &self.custom_name {
                Some(s) => Some(s.clone()),
                None => None,
            },
            custom_exe: match &self.custom_exe {
                Some(s) => Some(s.clone()),
                None => None,
            },
            custom_env: match &self.custom_env {
                Some(s) => Some(s.clone()),
                None => None,
            },
        }
    }
}

/// Builds the record for a freshly extracted build: the resolved
/// identity, the destination folder, and default metadata — not
/// favorited, no custom name, executable or environment.
pub fn materialize_record(basic: &BuildIdentity, destination: &str) -> (r: LocalBuildRecord)
    ensures
        r@.basic == basic@,
        r@.folder == destination@,
        !r@.is_favorited,
        r@.custom_name is None,
        r@.custom_exe is None,
        r@.custom_env is None,
{
    LocalBuildRecord {
        folder: destination.to_owned(),
        basic: basic.clone(),
        is_favorited: false,
        custom_name: None,
        custom_exe: None,
        custom_env: None,
    }
}

/// The index of the last separator in a path, or `-1` when none occurs.
pub open spec fn find_last(s: Seq<char>, c: char) -> int
    decreases s.len(),
{
    if s.len() == 0 {
        -1
    } else if s.last() == c {
        s.len() - 1
    } else {
        find_last(s.drop_last(), c)
    }
}

/// Everything after the last separator: the file name of a URL path.
pub open spec fn last_component(p: Seq<char>) -> Seq<char> {
    p.subrange(find_last(p, '/') + 1, p.len() as int)
}

pub(crate) fn exec_find_last(s: &str, c: char) -> (r: Option<usize>)
    ensures
        match r {
            Some(j) => find_last(s@, c) == j && j < s@.len(),
            None => find_last(s@, c) == -1,
        },
{
    let n = s.unicode_len();
    let mut last: Option<usize> = None;
    let mut i: usize = 0;
    assert(s@.subrange(0, 0) =~= Seq::<char>::empty());
    while i < n
        invariant
            n == s@.len(),
            i <= n,
            match last {
                Some(j) => find_last(s@.subrange(0, i as int), c) == j && j < i,
                None => find_last(s@.subrange(0, i as int), c) == -1,
            },
        decreases n - i,
    {
        let ghost cur = s@.subrange(0, i + 1);
        proof {
            assert(cur.drop_last() =~= s@.subrange(0, i as int));
            assert(cur.last() == s@[i as int]);
        }
        if s.get_char(i) == c {
            last = Some(i);
        }
        i = i + 1;
        assert(s@.subrange(0, i as int) =~= cur);
    }
    assert(s@.subrange(0, n as int) =~= s@);
    last
}

/// The version triple of a build as text: `major.minor.patch`.
pub open spec fn version_chars(b: BuildId) -> Seq<char> {
    dec_chars(b.major as nat) + seq!['.'] + dec_chars(b.minor as nat) + seq!['.'] + dec_chars(
        b.patch as nat,
    )
}

/// The version triple of a build as a `String`.
pub fn version_string(b: &BuildIdentity) -> (s: String)
    ensures
        s@ == version_chars(b@),
{
    let mut out: Vec<char> = Vec::new();
    let mut maj = u64_chars(b.major);
    out.append(&mut maj);
    out.push('.');
    let mut min = u64_chars(b.minor);
    out.append(&mut min);
    out.push('.');
    let mut pat = u64_chars(b.patch);
    out.append(&mut pat);
    assert(out@ =~= version_chars(b@));
    string_from_chars(&out)
}

/// The directory one repository's artifacts and installs live under.
pub open spec fn repo_dir_chars(library: Seq<char>, repo_id: Seq<char>) -> Seq<char> {
    library + seq!['/'] + repo_id
}

/// Joins the library directory with a repository identifier.
pub fn path_to_repo(library: &str, repo_id: &str) -> (r: String)
    ensures
        r@ == repo_dir_chars(library@, repo_id@),
{
    let mut out: Vec<char> = Vec::new();
    append_str_chars(&mut out, library);
    out.push('/');
    append_str_chars(&mut out, repo_id);
    assert(out@ =~= repo_dir_chars(library@, repo_id@));
    string_from_chars(&out)
}

/// The archive file name of a resolved artifact: the file-name
/// component of its URL path, or, when the URL path ends in a
/// separator, a generated fallback stem carrying the artifact's
/// extension.
pub open spec fn archive_filename_chars(
    url_path: Seq<char>,
    fallback_stem: Seq<char>,
    extension: Seq<char>,
) -> Seq<char> {
    if last_component(url_path).len() > 0 {
        last_component(url_path)
    } else if extension.len() > 0 {
        fallback_stem + seq!['.'] + extension
    } else {
        fallback_stem
    }
}

/// Computes the archive file name for a resolved artifact.
pub fn archive_filename(url_path: &str, fallback_stem: &str, extension: &str) -> (r: String)
    ensures
        r@ == archive_filename_chars(url_path@, fallback_stem@, extension@),
{
    let n = url_path.unicode_len();
    let start = match exec_find_last(url_path, '/') {
        Some(j) => j + 1,
        None => 0,
    };
    if start < n {
        url_path.substring_char(start, n).to_owned()
    } else {
        assert(last_component(url_path@).len() == 0);
        if extension.unicode_len() > 0 {
            let mut out: Vec<char> = Vec::new();
            append_str_chars(&mut out, fallback_stem);
            out.push('.');
            append_str_chars(&mut out, extension);
            assert(out@ =~= archive_filename_chars(url_path@, fallback_stem@, extension@));
            string_from_chars(&out)
        } else {
            fallback_stem.to_owned()
        }
    }
}

/// Mathematical model of an acquisition target.
#[verifier::ext_equal]
pub ghost struct AcquisitionTargetV {
    pub url: Seq<char>,
    pub basic: BuildId,
    pub temporary_filepath: Seq<char>,
    pub completed_filepath: Seq<char>,
    pub destination: Seq<char>,
}

/// Everything one acquisition pipeline needs, fixed before it starts:
/// the remote URL, the build identity, the temporary and final archive
/// paths, and the install destination.
#[derive(Debug, Clone, PartialEq)]
pub struct AcquisitionTarget {
    pub url: String,
    pub basic: BuildIdentity,
    pub temporary_filepath: String,
    pub completed_filepath: String,
    pub destination: String,
}

impl View for AcquisitionTarget {
    type V = AcquisitionTargetV;

    open spec fn view(&self) -> AcquisitionTargetV {
        AcquisitionTargetV {
            url: self.url@,
            basic: self.basic@,
            temporary_filepath: self.temporary_filepath@,
            completed_filepath: self.completed_filepath@,
            destination: self.destination@,
        }
    }
}

/// Lays out one acquisition: the completed archive sits in the
/// repository's directory under the archive file name, the temporary
/// file is the completed path with `.part` appended, and the install
/// destination is the repository's directory joined with the version
/// triple.
pub fn acquisition_target(
    library: &str,
    repo_id: &str,
    url: &String,
    url_path: &str,
    fallback_stem: &str,
    extension: &str,
    basic: &BuildIdentity,
) -> (t: AcquisitionTarget)
    ensures
        t@.url == url@,
        t@.basic == basic@,
        t@.completed_filepath == repo_dir_chars(library@, repo_id@) + seq!['/']
            + archive_filename_chars(url_path@, fallback_stem@, extension@),
        t@.temporary_filepath == t@.completed_filepath + ".part"@,
        t@.destination == repo_dir_chars(library@, repo_id@) + seq!['/'] + version_chars(basic@),
{
    let repo_dir = path_to_repo(library, repo_id);
    let filename = archive_filename(url_path, fallback_stem, extension);

    let mut completed: Vec<char> = Vec::new();
    append_str_chars(&mut completed, repo_dir.as_str());
    completed.push('/');
    append_str_chars(&mut completed, filename.as_str());

    let mut temporary: Vec<char> = Vec::new();
    append_str_chars(&mut temporary, string_from_chars(&completed).as_str());
    append_str_chars(&mut temporary, ".part");

    let version = version_string(basic);
    let mut destination: Vec<char> = Vec::new();
    append_str_chars(&mut destination, repo_dir.as_str());
    destination.push('/');
    append_str_chars(&mut destination, version.as_str());

    let t = AcquisitionTarget {
        url: url.clone(),
        basic: basic.clone(),
        temporary_filepath: string_from_chars(&temporary),
        completed_filepath: string_from_chars(&completed),
        destination: string_from_chars(&destination),
    };
    proof {
        assert(t@.completed_filepath =~= repo_dir_chars(library@, repo_id@) + seq!['/']
            + archive_filename_chars(url_path@, fallback_stem@, extension@));
        assert(t@.temporary_filepath =~= t@.completed_filepath + ".part"@);
        assert(t@.destination =~= repo_dir_chars(library@, repo_id@) + seq!['/'] + version_chars(
            basic@,
        ));
    }
    t
}

/// The stages of one acquisition pipeline, in their only admissible
/// order: download, extract, write the record, dispose of the archive.
#[derive(Debug, Clone, Copy, PartialEq, Eq, Structural)]
pub enum AcquisitionStage {
    /// Nothing done yet; the archive must be downloaded (or found
    /// already complete).
    Pending,
    /// The completed archive exists; it must be extracted.
    Downloaded,
    /// The payload is in place; the record may now be written.
    Extracted,
    /// The record is written; the archive is redundant and is disposed
    /// of — into the trash when possible, deleted outright otherwise.
    Recorded,
    /// The pipeline is finished.
    Done,
}

/// The position of a stage in the pipeline's order.
pub open spec fn stage_rank(s: AcquisitionStage) -> int {
    match s {
        AcquisitionStage::Pending => 0,
        AcquisitionStage::Downloaded => 1,
        AcquisitionStage::Extracted => 2,
        AcquisitionStage::Recorded => 3,
        AcquisitionStage::Done => 4,
    }
}

/// Advances the pipeline by one stage. The order is fixed: the record
/// is written only from the Extracted stage, never before extraction
/// has completed, and disposal of the archive follows the record.
pub fn advance_stage(s: AcquisitionStage) -> (r: AcquisitionStage)
    requires
        s != AcquisitionStage::Done,
    ensures
        stage_rank(r) == stage_rank(s) + 1,
{
    match s {
        AcquisitionStage::Pending => AcquisitionStage::Downloaded,
        AcquisitionStage::Downloaded => AcquisitionStage::Extracted,
        AcquisitionStage::Extracted => AcquisitionStage::Recorded,
        AcquisitionStage::Recorded => AcquisitionStage::Done,
        AcquisitionStage::Done => AcquisitionStage::Done,
    }
}

} // verus!
