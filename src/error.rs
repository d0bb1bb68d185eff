use vstd::prelude::*;

verus! {

/// Every way an acquisition run can fail. Each one is fatal for the run.
#[derive(Clone, Copy, Debug, PartialEq, Eq, Structural)]
pub enum AcqError {
    /// The input is neither a workshop address nor a bare decimal id.
    Input,
    /// The service session could not be started.
    Auth,
    /// The item query failed, or returned no entry with a title.
    Query,
    /// The service refused to enqueue the download.
    DownloadRequest,
    /// The completion notification carried an error code.
    DownloadFailed { code: i64 },
    /// Success was signalled but the item has no install location.
    InstallInfoMissing,
    /// The overall deadline passed before a terminal outcome.
    TimedOut,
}

} // verus!
