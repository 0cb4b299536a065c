//! The upload of the selected files with the wrapped key material.

use vstd::prelude::*;
use crate::api_client::request_entity::CatchCLIUploadFilesRequest;
use crate::api_client::{CatchApiError, CatchApiResponse};
use crate::code_reader::CatchCLICodeFile;
use crate::cryptography::{is_wrapped_value, key_verdict, CryptographyError, EncryptionContext};
use crate::orchestrator::UploadOrchestrator;

verus! {

/// The run of the upload: started once, it waits for the first of tick,
/// cancellation and completion, and ends on either of the latter two.
pub type CodeUploader = UploadOrchestrator;

/// The line that is shown while the upload is under way.
pub const UPLOADING_MESSAGE: &'static str = "Uploading your code with E2EE encryption...";

/// The body of the upload: the files as they were encrypted, with the key
/// and the initialisation vector of the run, each wrapped under the
/// service's public key. Under a 4096-bit key the body is always built. A
/// key that does not parse or is not a 4096-bit key gives its error and no
/// body: nothing is sent half encrypted.
pub fn upload_request(
    session_id: String,
    code_files: Vec<CatchCLICodeFile>,
    key: [u8; 32],
    iv: [u8; 16],
    public_key_pem: &str,
) -> (out: Result<CatchCLIUploadFilesRequest, CryptographyError>)
    ensures
        match out {
            Ok(request) => request.session_id == session_id && request.files == code_files
                && is_wrapped_value(request.client_encrypted_key@) && is_wrapped_value(
                request.client_encrypted_iv@,
            ),
            Err(error) => key_verdict(public_key_pem@) == Err::<(), CryptographyError>(error),
        },
        out is Ok <==> key_verdict(public_key_pem@) is Ok,
{
    let context = EncryptionContext { symmetric_key: key, iv };
    match context.wrap(public_key_pem) {
        Ok(wrapped) => Ok(
            CatchCLIUploadFilesRequest {
                session_id,
                files: code_files,
                client_encrypted_key: wrapped.client_encrypted_key,
                client_encrypted_iv: wrapped.client_encrypted_iv,
            },
        ),
        Err(error) => Err(error),
    }
}

/// What the answer to the upload amounts to: success is an answer without
/// content and nothing else.
pub open spec fn upload_result(response: Result<CatchApiResponse<()>, CatchApiError>) -> Result<
    (),
    CatchApiError,
> {
    match response {
        Ok(CatchApiResponse::NoContent) => Ok(()),
        Ok(CatchApiResponse::Success(_)) => Err(CatchApiError::InvalidResponse),
        Err(error) => Err(error),
    }
}

/// Judges the answer to the upload. The endpoint answers success without
/// content; a body is unexpected and counts as an error.
pub fn upload_codes(response: Result<CatchApiResponse<()>, CatchApiError>) -> (out: Result<
    (),
    CatchApiError,
>)
    ensures
        out == upload_result(response),
{
    match response {
        Ok(CatchApiResponse::NoContent) => Ok(()),
        Ok(CatchApiResponse::Success(_)) => Err(CatchApiError::InvalidResponse),
        Err(error) => Err(error),
    }
}

} // verus!
