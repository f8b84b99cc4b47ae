//! The error taxonomy of the pipeline and its mapping to process exit
//! codes.
//!
//! Input and catalog errors exit with the usage code; transport and
//! format errors with the generic failure code; filesystem errors carry
//! the operating system's own code when it gave one; a cancellation
//! exits with the POSIX interrupt convention.

use vstd::prelude::*;

verus! {

/// Which activity an I/O error interrupted, with the paths involved.
#[derive(Debug, PartialEq)]
pub enum IoErrorOrigin {
    Fetching,
    ReadingRepos,
    CommandExecution,
    RenamingObject(String, String),
    ReadingObject(String),
    WritingObject(String),
    DeletingObject(String),
}

/// An operating-system error as the surrounding program hands it in:
/// the raw OS code when one exists, and the rendered message.
#[derive(Debug, PartialEq)]
pub struct OsErrorDetail {
    pub raw_os_error: Option<i32>,
    pub message: String,
}

/// Everything a pipeline command can fail with.
#[derive(Debug, PartialEq)]
pub enum CommandError {
    /// The query text fails the grammar.
    CouldNotParseQuery(String),
    /// Launch parameters could not be generated for an installed build.
    CouldNotGenerateParams(String),
    /// Too little command input.
    NotEnoughInput,
    /// Contradictory or unusable command input.
    InvalidInput,
    /// One or more queries matched nothing; the payload lists them,
    /// comma-separated.
    QueryResultEmpty(String),
    /// A query was required and none was given.
    MissingQuery,
    /// Too little time has passed since the last catalog fetch.
    FetchingTooFast { remaining: i64 },
    /// The transport failed; the payload is the rendered error.
    ReqwestError(String),
    /// The server answered with a non-success status.
    ReturnCode(u16),
    /// The downloaded artifact has an extension no extractor supports.
    UnsupportedFileFormat(String),
    /// The operator cancelled the operation.
    Cancelled,
    /// Sending a path to the trash failed; the payload carries the
    /// path and the OS code when the trash reported one.
    TrashError(String, Option<i32>),
    /// A filesystem or network I/O operation failed.
    IoError(IoErrorOrigin, OsErrorDetail),
}

impl Clone for IoErrorOrigin {
    fn clone(&self) -> (r: Self)
        ensures
            r == *self,
    {
        match self {
            IoErrorOrigin::Fetching => IoErrorOrigin::Fetching,
            IoErrorOrigin::ReadingRepos => IoErrorOrigin::ReadingRepos,
            IoErrorOrigin::CommandExecution => IoErrorOrigin::CommandExecution,
            IoErrorOrigin::RenamingObject(a, b) => IoErrorOrigin::RenamingObject(
                a.clone(),
                b.clone(),
            ),
            IoErrorOrigin::ReadingObject(p) => IoErrorOrigin::ReadingObject(p.clone()),
            IoErrorOrigin::WritingObject(p) => IoErrorOrigin::WritingObject(p.clone()),
            IoErrorOrigin::DeletingObject(p) => IoErrorOrigin::DeletingObject(p.clone()),
        }
    }
}

impl Clone for OsErrorDetail {
    fn clone(&self) -> (r: Self)
        ensures
            r == *self,
    {
        OsErrorDetail { raw_os_error: self.raw_os_error, message: self.message.clone() }
    }
}

impl Clone for CommandError {
    fn clone(&self) -> (r: Self)
        ensures
            r == *self,
    {
        match self {
            CommandError::CouldNotParseQuery(s) => CommandError::CouldNotParseQuery(s.clone()),
            CommandError::CouldNotGenerateParams(s) => CommandError::CouldNotGenerateParams(
                s.clone(),
            ),
            CommandError::NotEnoughInput => CommandError::NotEnoughInput,
            CommandError::InvalidInput => CommandError::InvalidInput,
            CommandError::QueryResultEmpty(s) => CommandError::QueryResultEmpty(s.clone()),
            CommandError::MissingQuery => CommandError::MissingQuery,
            CommandError::FetchingTooFast { remaining } => CommandError::FetchingTooFast {
                remaining: *remaining,
            },
            CommandError::ReqwestError(s) => CommandError::ReqwestError(s.clone()),
            CommandError::ReturnCode(c) => CommandError::ReturnCode(*c),
            CommandError::UnsupportedFileFormat(s) => CommandError::UnsupportedFileFormat(
                s.clone(),
            ),
            CommandError::Cancelled => CommandError::Cancelled,
            CommandError::TrashError(p, c) => CommandError::TrashError(p.clone(), *c),
            CommandError::IoError(o, d) => CommandError::IoError(o.clone(), d.clone()),
        }
    }
}

/// The exit code each error maps to: usage errors exit 2, operational
/// failures exit 1 or the OS's own code, a cancellation exits 130.
pub open spec fn exit_code_spec(e: CommandError) -> int {
    match e {
        CommandError::CouldNotParseQuery(_) => 2,
        CommandError::MissingQuery => 2,
        CommandError::NotEnoughInput => 2,
        CommandError::InvalidInput => 2,
        CommandError::QueryResultEmpty(_) => 2,
        CommandError::FetchingTooFast { .. } => 2,
        CommandError::ReturnCode(_) => 1,
        CommandError::UnsupportedFileFormat(_) => 1,
        CommandError::CouldNotGenerateParams(_) => 1,
        CommandError::ReqwestError(_) => 1,
        CommandError::IoError(_, detail) => match detail.raw_os_error {
            Some(code) => code as int,
            None => 1,
        },
        CommandError::TrashError(_, code) => match code {
            Some(c) => c as int,
            None => 1,
        },
        CommandError::Cancelled => 130,
    }
}

impl CommandError {
    /// The process exit code this error deserves.
    pub fn exit_code(&self) -> (r: i32)
        ensures
            r == exit_code_spec(*self),
    {
        match self {
            CommandError::CouldNotParseQuery(_)
            | CommandError::MissingQuery
            | CommandError::NotEnoughInput
            | CommandError::InvalidInput
            | CommandError::QueryResultEmpty(_)
            | CommandError::FetchingTooFast { .. } => 2,
            CommandError::ReturnCode(_)
            | CommandError::UnsupportedFileFormat(_)
            | CommandError::CouldNotGenerateParams(_)
            | CommandError::ReqwestError(_) => 1,
            CommandError::IoError(_, detail) => match detail.raw_os_error {
                Some(code) => code,
                None => 1,
            },
            CommandError::TrashError(_, code) => match code {
                Some(c) => *c,
                None => 1,
            },
            CommandError::Cancelled => 130,
        }
    }
}

/// Wraps a failure to read from a path.
pub fn error_reading(p: String, detail: OsErrorDetail) -> (r: CommandError)
    ensures
        r == CommandError::IoError(IoErrorOrigin::ReadingObject(p), detail),
{
    CommandError::IoError(IoErrorOrigin::ReadingObject(p), detail)
}

/// Wraps a failure to write to a path.
pub fn error_writing(p: String, detail: OsErrorDetail) -> (r: CommandError)
    ensures
        r == CommandError::IoError(IoErrorOrigin::WritingObject(p), detail),
{
    CommandError::IoError(IoErrorOrigin::WritingObject(p), detail)
}

/// Wraps a failure to rename one path to another.
pub fn error_renaming(p: String, p2: String, detail: OsErrorDetail) -> (r: CommandError)
    ensures
        r == CommandError::IoError(IoErrorOrigin::RenamingObject(p, p2), detail),
{
    CommandError::IoError(IoErrorOrigin::RenamingObject(p, p2), detail)
}

} // verus!
