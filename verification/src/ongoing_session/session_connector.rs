//! The handshake that binds this invocation to the session.

use vstd::prelude::*;
use vstd::string::*;
use crate::api_client::cli_entity::CatchConnectCLIResponse;
use crate::api_client::request_entity::CatchConnectCLIRequest;
use crate::api_client::{CatchApiError, CatchApiResponse};

verus! {

/// The body of the registration request.
pub fn connect_request(session_id: String, org_name: String, repo_name: String) -> (request:
    CatchConnectCLIRequest)
    ensures
        request.session_id == session_id,
        request.repo_owner == org_name,
        request.repo_name == repo_name,
{
    CatchConnectCLIRequest { session_id, repo_owner: org_name, repo_name }
}

/// The line that is shown while the handshake is under way.
pub fn connect_message(session_id: &str, org_name: &str, repo_name: &str) -> (message: String)
    ensures
        message@ == "Setting repoKey("@ + org_name@ + "/"@ + repo_name@
            + ") and attaching cli to onboarding session(id="@ + session_id@ + ")..."@,
{
    String::from_str("Setting repoKey(").concat(org_name).concat("/").concat(repo_name).concat(
        ") and attaching cli to onboarding session(id=",
    ).concat(session_id).concat(")...")
}

/// What the answer to the registration request gives the run.
pub open spec fn handshake_result(
    response: Result<CatchApiResponse<CatchConnectCLIResponse>, CatchApiError>,
) -> Result<CatchConnectCLIResponse, CatchApiError> {
    match response {
        Ok(CatchApiResponse::Success(handle)) => Ok(handle),
        Ok(CatchApiResponse::NoContent) => Err(CatchApiError::InvalidResponse),
        Err(error) => Err(error),
    }
}

/// Judges the answer to the registration request. The endpoint must
/// answer with a body, which holds the integration id and the public key;
/// an answer without content is a violation of the protocol, not success.
pub fn connect_cli_to_session(
    response: Result<CatchApiResponse<CatchConnectCLIResponse>, CatchApiError>,
) -> (out: Result<CatchConnectCLIResponse, CatchApiError>)
    ensures
        out == handshake_result(response),
{
    match response {
        Ok(CatchApiResponse::Success(handle)) => Ok(handle),
        Ok(CatchApiResponse::NoContent) => Err(CatchApiError::InvalidResponse),
        Err(error) => Err(error),
    }
}

} // verus!
