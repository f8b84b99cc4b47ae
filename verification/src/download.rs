//! The download engine: an explicit state machine over one HTTP
//! transfer, advanced by the surrounding program as transport events
//! arrive.
//!
//! The engine decides; the surrounding program performs. It opens the
//! request when told to, appends each chunk to the temporary file,
//! checks the shared cancellation flag after every chunk, and renames
//! the temporary file to its final name only on a fully successful
//! receipt. A pre-existing completed file short-circuits the whole
//! transfer: no request is issued. The state advances strictly forward
//! (Ready, then Downloading, then Finished or Failed) and never revisits
//! an earlier state; there are no retries inside the machine.

use vstd::prelude::*;

verus! {

/// State of one transfer.
#[derive(Debug, Clone, Copy, PartialEq, Eq, Structural)]
pub enum DownloadState {
    /// No request issued yet.
    Ready,
    /// The response stream is open; `received` bytes are in the
    /// temporary file; `total` is the declared content length, if the
    /// response carried one.
    Downloading { received: u64, total: Option<u64> },
    /// The stream ended with a success status.
    Finished { status: u16 },
    /// The stream ended with a failure status, or the transport failed,
    /// or the operator cancelled.
    Failed,
}

/// How far along the lifecycle a state is; transitions never decrease it.
pub open spec fn stage(s: DownloadState) -> int {
    match s {
        DownloadState::Ready => 0,
        DownloadState::Downloading { .. } => 1,
        DownloadState::Finished { .. } => 2,
        DownloadState::Failed => 2,
    }
}

/// Whether an HTTP status code is in the success class.
pub open spec fn success_status(status: u16) -> bool {
    200 <= status < 300
}

/// Decides the status-class test for the surrounding program.
pub fn is_success_status(status: u16) -> (r: bool)
    ensures
        r == success_status(status),
{
    200 <= status && status < 300
}

/// What to do before any transfer work.
#[derive(Debug, Clone, Copy, PartialEq, Eq, Structural)]
pub enum StartDecision {
    /// The completed file already exists: skip the transfer entirely,
    /// issuing no request.
    AlreadyComplete,
    /// Open the HTTP request.
    OpenRequest,
}

/// Decides whether a transfer is needed: a pre-existing completed file
/// short-circuits the download, and no request is issued for it.
pub fn start_decision(completed_exists: bool) -> (r: StartDecision)
    ensures
        completed_exists <==> r == StartDecision::AlreadyComplete,
{
    if completed_exists {
        StartDecision::AlreadyComplete
    } else {
        StartDecision::OpenRequest
    }
}

/// The request was opened: the transfer starts with nothing received
/// and the content length the response declared, if any.
pub fn on_open(s: DownloadState, content_length: Option<u64>) -> (r: DownloadState)
    requires
        s is Ready,
    ensures
        r == (DownloadState::Downloading { received: 0u64, total: content_length }),
        stage(r) > stage(s),
{
    DownloadState::Downloading { received: 0, total: content_length }
}

/// A chunk arrived: it is appended to the temporary file and the
/// received count grows by its length (saturating at the counter's
/// limit). The state stays Downloading; cancellation is checked only
/// after the write, by [`cancel_check`].
pub fn on_chunk(s: DownloadState, len: u64) -> (r: DownloadState)
    requires
        s is Downloading,
    ensures
        r is Downloading,
        r->Downloading_total == s->Downloading_total,
        s->Downloading_received + len <= u64::MAX ==> r->Downloading_received
            == s->Downloading_received + len,
        s->Downloading_received + len > u64::MAX ==> r->Downloading_received == u64::MAX,
        stage(r) == stage(s),
{
    match s {
        DownloadState::Downloading { received, total } => DownloadState::Downloading {
            received: if received <= u64::MAX - len {
                received + len
            } else {
                u64::MAX
            },
            total,
        },
        _ => s,
    }
}

/// What the cooperative cancellation check decides.
#[derive(Debug, Clone, Copy, PartialEq, Eq, Structural)]
pub enum CancelDecision {
    Continue,
    /// Close and drop the temporary file and report cancellation. The
    /// partial file is left on disk for the cleanup prompter.
    Abort,
}

/// The cooperative cancellation check after a chunk: a set flag aborts
/// the transfer, terminally.
pub fn cancel_check(s: DownloadState, cancelled: bool) -> (r: (DownloadState, CancelDecision))
    requires
        s is Downloading,
    ensures
        cancelled ==> r.0 is Failed && r.1 == CancelDecision::Abort,
        !cancelled ==> r.0 == s && r.1 == CancelDecision::Continue,
        stage(r.0) >= stage(s),
{
    if cancelled {
        (DownloadState::Failed, CancelDecision::Abort)
    } else {
        (s, CancelDecision::Continue)
    }
}

/// What to do when the response stream ends.
#[derive(Debug, Clone, Copy, PartialEq, Eq, Structural)]
pub enum EndAction {
    /// Flush and close the temporary file, then atomically rename it to
    /// the completed path; only after that rename is the artifact
    /// considered present.
    CommitRename,
    /// Surface the response status and reason; the temporary file is
    /// not renamed.
    FailStatus,
}

/// The stream ended. A success status finishes the transfer and commits
/// the file; anything else is an error, never a silent finish.
pub fn on_end(s: DownloadState, status: u16) -> (r: (DownloadState, EndAction))
    requires
        s is Downloading,
    ensures
        success_status(status) ==> r.0 == (DownloadState::Finished { status }) && r.1
            == EndAction::CommitRename,
        !success_status(status) ==> r.0 is Failed && r.1 == EndAction::FailStatus,
        stage(r.0) > stage(s),
{
    if is_success_status(status) {
        (DownloadState::Finished { status }, EndAction::CommitRename)
    } else {
        (DownloadState::Failed, EndAction::FailStatus)
    }
}

/// The transport failed: terminal, the error is surfaced to the caller.
pub fn on_transport_error(s: DownloadState) -> (r: DownloadState)
    requires
        s is Downloading,
    ensures
        r is Failed,
        stage(r) > stage(s),
{
    DownloadState::Failed
}

/// How a scripted transfer ends once every chunk has arrived.
#[derive(Debug, Clone, Copy, PartialEq, Eq, Structural)]
pub enum TransferEnd {
    /// The stream ended with this HTTP status.
    Ended(u16),
    /// The transport failed before the stream could end.
    TransportFailure,
}

/// The overall result of one transfer.
#[derive(Debug, Clone, Copy, PartialEq, Eq, Structural)]
pub enum TransferResult {
    /// The completed file already existed; nothing was done.
    Skipped,
    /// Fully received and committed.
    Completed,
    /// The operator cancelled mid-transfer.
    Cancelled,
    /// The stream ended with this non-success status.
    HttpError(u16),
    /// The transport failed.
    TransportError,
}

/// What one transfer leaves behind.
pub struct TransferOutcome {
    /// Whether an HTTP request was issued at all.
    pub requested: bool,
    /// The bytes of the temporary file.
    pub temp: Vec<u8>,
    /// Whether the temporary file was renamed to the completed path.
    pub committed: bool,
    /// The terminal state of the engine.
    pub state: DownloadState,
    /// The overall result.
    pub result: TransferResult,
}

/// The concatenation of the first `n` chunks.
pub open spec fn flat_prefix(chunks: Seq<Seq<u8>>, n: int) -> Seq<u8>
    decreases n,
{
    if n <= 0 {
        Seq::empty()
    } else {
        flat_prefix(chunks, n - 1) + chunks[n - 1]
    }
}

/// The chunk index after which a cancellation set at `n` is first seen:
/// the flag is checked only after a chunk is written, so a flag set
/// before the first chunk is seen after it.
pub open spec fn cancel_seen_at(n: int) -> int {
    if n < 1 {
        1
    } else {
        n
    }
}

/// Drives one whole transfer over a scripted transport: `chunks` arrive
/// in order, then `end` happens; the cancellation flag is set from the
/// moment `cancel_after` chunks have arrived (when given).
///
/// A pre-existing completed file means no request is issued and nothing
/// is written. A cancellation seen after `n` chunks leaves exactly the
/// bytes of the first `n` chunks in the temporary file, and the
/// completed file does not come into being (no commit). A full run
/// commits exactly when the end status is a success.
pub fn run_transfer(
    completed_exists: bool,
    content_length: Option<u64>,
    chunks: &Vec<Vec<u8>>,
    cancel_after: Option<usize>,
    end: TransferEnd,
) -> (o: TransferOutcome)
    ensures
        completed_exists ==> !o.requested && o.result == TransferResult::Skipped && o.temp@.len()
            == 0 && !o.committed && o.state is Ready,
        !completed_exists ==> o.requested,
        !completed_exists && (match cancel_after {
            Some(n) => chunks@.len() >= 1 && cancel_seen_at(n as int) <= chunks@.len(),
            None => false,
        }) ==> {
            let n = cancel_seen_at(cancel_after->0 as int);
            &&& o.temp@ == flat_prefix(chunks@.map_values(|c: Vec<u8>| c@), n)
            &&& !o.committed
            &&& o.result == TransferResult::Cancelled
            &&& o.state is Failed
        },
        !completed_exists && (match cancel_after {
            Some(n) => !(chunks@.len() >= 1 && cancel_seen_at(n as int) <= chunks@.len()),
            None => true,
        }) ==> {
            &&& o.temp@ == flat_prefix(chunks@.map_values(|c: Vec<u8>| c@), chunks@.len() as int)
            &&& match end {
                TransferEnd::Ended(status) => {
                    &&& (success_status(status) ==> o.committed && o.result
                        == TransferResult::Completed && o.state == (DownloadState::Finished {
                        status,
                    }))
                    &&& (!success_status(status) ==> !o.committed && o.result
                        == TransferResult::HttpError(status) && o.state is Failed)
                },
                TransferEnd::TransportFailure => !o.committed && o.result
                    == TransferResult::TransportError && o.state is Failed,
            }
        },
{
    let ghost cv = chunks@.map_values(|c: Vec<u8>| c@);
    match start_decision(completed_exists) {
        StartDecision::AlreadyComplete => TransferOutcome {
            requested: false,
            temp: Vec::new(),
            committed: false,
            state: DownloadState::Ready,
            result: TransferResult::Skipped,
        },
        StartDecision::OpenRequest => {
            let mut state = on_open(DownloadState::Ready, content_length);
            let mut temp: Vec<u8> = Vec::new();
            let mut i: usize = 0;
            assert(temp@ =~= flat_prefix(cv, 0));
            while i < chunks.len()
                invariant
                    !completed_exists,
                    cv == chunks@.map_values(|c: Vec<u8>| c@),
                    i <= chunks@.len(),
                    state is Downloading,
                    temp@ == flat_prefix(cv, i as int),
                    match cancel_after {
                        Some(n) => i < cancel_seen_at(n as int),
                        None => true,
                    },
                decreases chunks@.len() - i,
            {
                let chunk = &chunks[i];
                state = on_chunk(state, chunk.len() as u64);
                let mut b: usize = 0;
                while b < chunk.len()
                    invariant
                        0 <= i < chunks@.len(),
                        cv == chunks@.map_values(|c: Vec<u8>| c@),
                        b <= chunk@.len(),
                        chunk@ == cv[i as int],
                        temp@ == flat_prefix(cv, i as int) + chunk@.subrange(0, b as int),
                    decreases chunk@.len() - b,
                {
                    temp.push(chunk[b]);
                    assert(temp@ =~= flat_prefix(cv, i as int) + chunk@.subrange(0, b + 1));
                    b = b + 1;
                }
                assert(temp@ =~= flat_prefix(cv, i + 1));
                i = i + 1;
                let flag_set = match cancel_after {
                    Some(n) => i >= n || n == 0,
                    None => false,
                };
                let (s2, decision) = cancel_check(state, flag_set);
                if decision == CancelDecision::Abort {
                    return TransferOutcome {
                        requested: true,
                        temp,
                        committed: false,
                        state: s2,
                        result: TransferResult::Cancelled,
                    };
                }
                state = s2;
            }
            match end {
                TransferEnd::Ended(status) => {
                    let (s2, action) = on_end(state, status);
                    match action {
                        EndAction::CommitRename => TransferOutcome {
                            requested: true,
                            temp,
                            committed: true,
                            state: s2,
                            result: TransferResult::Completed,
                        },
                        EndAction::FailStatus => TransferOutcome {
                            requested: true,
                            temp,
                            committed: false,
                            state: s2,
                            result: TransferResult::HttpError(status),
                        },
                    }
                },
                TransferEnd::TransportFailure => {
                    let s2 = on_transport_error(state);
                    TransferOutcome {
                        requested: true,
                        temp,
                        committed: false,
                        state: s2,
                        result: TransferResult::TransportError,
                    }
                },
            }
        },
    }
}

} // verus!
