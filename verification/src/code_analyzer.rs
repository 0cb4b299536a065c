//! Asking the service which of the scanned files are candidates for the
//! upload.

use vstd::prelude::*;
use vstd::string::*;
use crate::api_client::request_entity::CatchCLIRcpRequest;
use crate::api_client::session_status_entity::{
    CatchSessionExtractingCandidatesResult, CatchSessionStatusResponse,
};
use crate::api_client::{CatchApiError, CatchApiResponse};
use crate::code_reader::{file_views, CatchCLICodeFile, CodeFileView};
use crate::text::texts;

verus! {

/// The line that is shown while the service looks at the paths.
pub const ANALYZING_MESSAGE: &'static str = "Analyzing your code structure...";

/// The status with which the service reports that its list is final.
pub const COMPLETED_STATUS: &'static str = "completed";

/// Why no list of candidates was had.
#[derive(Debug, Clone, PartialEq, Eq)]
pub enum CandidatesError {
    /// The state of the session could not be read.
    StatusCheckFailed(CatchApiError),
    /// The service has not finished its list.
    NotCompleted,
}

/// The paths of a list of files, in order.
pub open spec fn paths_of(files: Seq<CodeFileView>) -> Seq<Seq<char>> {
    files.map_values(|f: CodeFileView| f.path)
}

/// The body that asks for candidates: the session, and the path of every
/// scanned file in the order of the scan. No content leaves the machine
/// with this request.
pub fn rcp_request(session_id: String, code_files: &Vec<CatchCLICodeFile>) -> (request:
    CatchCLIRcpRequest)
    ensures
        request.session_id == session_id,
        texts(request.files@) == paths_of(file_views(code_files@)),
{
    let mut files: Vec<String> = Vec::new();
    let mut i: usize = 0;
    while i < code_files.len()
        invariant
            i <= code_files.len(),
            texts(files@) == paths_of(file_views(code_files@)).take(i as int),
        decreases code_files.len() - i,
    {
        let ghost before = files@;
        let path = code_files[i].path.clone();
        files.push(path);
        i += 1;
        proof {
            let all = paths_of(file_views(code_files@));
            assert(texts(files@) =~= texts(before).push(path@));
            assert(all.take(i as int) =~= all.take(i - 1).push(code_files@[i - 1].path@));
        }
    }
    assert(paths_of(file_views(code_files@)).take(code_files.len() as int) =~= paths_of(
        file_views(code_files@),
    ));
    CatchCLIRcpRequest { files, session_id }
}

/// What the answer to the request for candidates amounts to: success is
/// an answer without content and nothing else.
pub open spec fn rcp_result(response: Result<CatchApiResponse<()>, CatchApiError>) -> Result<
    CatchApiResponse<()>,
    CatchApiError,
> {
    match response {
        Ok(CatchApiResponse::NoContent) => Ok(CatchApiResponse::NoContent),
        Ok(CatchApiResponse::Success(_)) => Err(CatchApiError::InvalidResponse),
        Err(error) => Err(error),
    }
}

/// Judges the answer to the request for candidates. The endpoint answers
/// success without content; a body is unexpected and counts as an error.
pub fn request_rcp(response: Result<CatchApiResponse<()>, CatchApiError>) -> (out: Result<
    CatchApiResponse<()>,
    CatchApiError,
>)
    ensures
        out == rcp_result(response),
{
    match response {
        Ok(CatchApiResponse::NoContent) => Ok(CatchApiResponse::NoContent),
        Ok(CatchApiResponse::Success(_)) => Err(CatchApiError::InvalidResponse),
        Err(error) => Err(error),
    }
}

/// The candidates in an answer on the state of the session: those of its
/// output, which must be there.
pub open spec fn rcp_status(
    response: Result<CatchApiResponse<CatchSessionStatusResponse>, CatchApiError>,
) -> Result<CatchSessionExtractingCandidatesResult, CatchApiError> {
    match response {
        Ok(CatchApiResponse::Success(status)) => match status.process.output {
            Some(output) => Ok(output.extracting_candidates),
            None => Err(CatchApiError::InvalidResponse),
        },
        Ok(CatchApiResponse::NoContent) => Err(CatchApiError::InvalidResponse),
        Err(error) => Err(error),
    }
}

/// Reads the state of the candidate extraction from the answer of the
/// status endpoint.
pub fn check_rcp_status(
    response: Result<CatchApiResponse<CatchSessionStatusResponse>, CatchApiError>,
) -> (out: Result<CatchSessionExtractingCandidatesResult, CatchApiError>)
    ensures
        out == rcp_status(response),
{
    match response {
        Ok(CatchApiResponse::Success(status)) => match status.process.output {
            Some(output) => Ok(output.extracting_candidates),
            None => Err(CatchApiError::InvalidResponse),
        },
        Ok(CatchApiResponse::NoContent) => Err(CatchApiError::InvalidResponse),
        Err(error) => Err(error),
    }
}

/// What the run has of the extraction once the request went through.
pub open spec fn candidates_result(
    status: Result<CatchSessionExtractingCandidatesResult, CatchApiError>,
) -> Result<CatchSessionExtractingCandidatesResult, CandidatesError> {
    match status {
        Ok(result) => if result.status@ == COMPLETED_STATUS@ {
            Ok(result)
        } else {
            Err(CandidatesError::NotCompleted)
        },
        Err(error) => Err(CandidatesError::StatusCheckFailed(error)),
    }
}

/// Concludes the request for candidates from the state of the extraction,
/// which is read after the request went through: the list counts only
/// when the service reports it as completed.
pub fn request_code_candidates(
    status: Result<CatchSessionExtractingCandidatesResult, CatchApiError>,
) -> (out: Result<CatchSessionExtractingCandidatesResult, CandidatesError>)
    ensures
        out == candidates_result(status),
{
    match status {
        Ok(result) => {
            let completed = String::from_str(COMPLETED_STATUS);
            if result.status == completed {
                Ok(result)
            } else {
                Err(CandidatesError::NotCompleted)
            }
        },
        Err(error) => Err(CandidatesError::StatusCheckFailed(error)),
    }
}

} // verus!
