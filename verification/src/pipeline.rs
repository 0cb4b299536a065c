//! How a run of the whole pipeline ends: the code with which the process
//! exits, and where the user is sent after a successful upload.

use vstd::prelude::*;
use vstd::string::*;
use crate::ongoing_session::CatchSessionError;

verus! {

/// The stage at which a run failed.
#[derive(Debug, Clone, Copy, PartialEq, Eq, Structural)]
pub enum PipelineFailure {
    /// No session is in progress on this device.
    NoSessionFound,
    /// Several sessions were found, and removed.
    MultipleSessionsFound,
    /// A local file operation failed.
    LocalIo,
    /// The session is claimed already.
    SessionClaimed,
    /// The state of the session could not be had, or the registration of
    /// this invocation failed.
    HandshakeFailed,
    /// Scanning, encrypting or asking for candidates failed.
    ScanFailed,
    /// The upload failed.
    UploadFailed,
}

/// How a run ended. A cancellation is no failure.
#[derive(Debug, Clone, Copy, PartialEq, Eq, Structural)]
pub enum PipelineEnd {
    Completed,
    Canceled,
    Failed(PipelineFailure),
}

/// The exit code of each failure: negative, and different for each.
pub open spec fn failure_code(failure: PipelineFailure) -> int {
    match failure {
        PipelineFailure::NoSessionFound => -1,
        PipelineFailure::MultipleSessionsFound => -2,
        PipelineFailure::LocalIo => -3,
        PipelineFailure::SessionClaimed => -4,
        PipelineFailure::HandshakeFailed => -5,
        PipelineFailure::ScanFailed => -6,
        PipelineFailure::UploadFailed => -7,
    }
}

/// The exit code of a run.
pub open spec fn end_code(end: PipelineEnd) -> int {
    match end {
        PipelineEnd::Completed => 0,
        PipelineEnd::Canceled => 0,
        PipelineEnd::Failed(failure) => failure_code(failure),
    }
}

/// The code with which the process exits.
pub fn exit_code(end: PipelineEnd) -> (code: i32)
    ensures
        code == end_code(end),
{
    match end {
        PipelineEnd::Completed => 0,
        PipelineEnd::Canceled => 0,
        PipelineEnd::Failed(failure) => match failure {
            PipelineFailure::NoSessionFound => -1,
            PipelineFailure::MultipleSessionsFound => -2,
            PipelineFailure::LocalIo => -3,
            PipelineFailure::SessionClaimed => -4,
            PipelineFailure::HandshakeFailed => -5,
            PipelineFailure::ScanFailed => -6,
            PipelineFailure::UploadFailed => -7,
        },
    }
}

/// The failure that an error of session discovery is.
pub fn session_failure(error: &CatchSessionError) -> (failure: PipelineFailure)
    ensures
        failure == match *error {
            CatchSessionError::NoSessionFound => PipelineFailure::NoSessionFound,
            CatchSessionError::MultipleSessionsFound => PipelineFailure::MultipleSessionsFound,
            CatchSessionError::IoError(_) => PipelineFailure::LocalIo,
        },
{
    match error {
        CatchSessionError::NoSessionFound => PipelineFailure::NoSessionFound,
        CatchSessionError::MultipleSessionsFound => PipelineFailure::MultipleSessionsFound,
        CatchSessionError::IoError(_) => PipelineFailure::LocalIo,
    }
}

/// The failure, if any, that the validity of the session is.
pub fn validity_failure(valid: bool) -> (failure: Option<PipelineFailure>)
    ensures
        failure == if valid {
            None
        } else {
            Some(PipelineFailure::SessionClaimed)
        },
{
    if valid {
        None
    } else {
        Some(PipelineFailure::SessionClaimed)
    }
}

/// Every failure has a negative code of its own, so the code tells the
/// caller the stage; only a run that did not fail exits with zero.
pub proof fn exit_codes_are_distinct(a: PipelineFailure, b: PipelineFailure)
    ensures
        failure_code(a) < 0,
        failure_code(a) == failure_code(b) ==> a == b,
        end_code(PipelineEnd::Failed(a)) != end_code(PipelineEnd::Completed),
        end_code(PipelineEnd::Canceled) == end_code(PipelineEnd::Completed),
{
}

/// The page on which the user follows the session after the upload.
pub fn onboarding_url(session_id: &str) -> (url: String)
    ensures
        url@ == "https://trycatch.ai/onboarding/"@ + session_id@ + "?step=3-generating"@,
{
    String::from_str("https://trycatch.ai/onboarding/").concat(session_id).concat(
        "?step=3-generating",
    )
}

} // verus!
