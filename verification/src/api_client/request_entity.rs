//! The bodies of the requests that the agent sends.

use vstd::prelude::*;
use crate::code_reader::CatchCLICodeFile;

verus! {

/// Body of the handshake request.
#[derive(Debug, Clone)]
pub struct CatchConnectCLIRequest {
    pub repo_name: String,
    pub repo_owner: String,
    pub session_id: String,
}

/// Body of the request that asks the service for candidate files.
#[derive(Debug, Clone)]
pub struct CatchCLIRcpRequest {
    pub files: Vec<String>,
    pub session_id: String,
}

/// Body of the upload: the encrypted files and the wrapped key material.
#[derive(Debug, Clone)]
pub struct CatchCLIUploadFilesRequest {
    pub session_id: String,
    pub files: Vec<CatchCLICodeFile>,
    pub client_encrypted_key: String,
    pub client_encrypted_iv: String,
}

} // verus!
