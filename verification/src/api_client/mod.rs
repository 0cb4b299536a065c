//! The REST surface that the agent consumes: where each call goes, and how
//! an answer is classified.

use vstd::prelude::*;
use vstd::string::*;

pub mod cli_entity;
pub mod request_entity;
pub mod session_status_entity;

verus! {

/// Base address of the service when no other is configured.
pub const BASE_CATCH_API_URL: &'static str = "https://api.dev.trycatch.ai";

/// Why a call to the service gave no usable answer.
#[derive(Debug, Clone, PartialEq, Eq)]
pub enum CatchApiError {
    /// The service answered with a status that is no success, which is
    /// kept, or the request did not get through at all (no status).
    RequestFailed(Option<u16>),
    /// A body came that does not have the expected shape.
    ResponseParseError(String),
    /// The answer has the wrong shape for its endpoint: a body where none
    /// is expected, or none where one is required.
    InvalidResponse,
}

/// A successful answer: with a decoded body, or without content.
#[derive(Debug, Clone, PartialEq, Eq)]
pub enum CatchApiResponse<T> {
    Success(T),
    NoContent,
}

/// What a status code says of an answer before its body is looked at.
#[derive(Debug, Clone, Copy, PartialEq, Eq, Structural)]
pub enum ResponseShape {
    /// Not a success: the request failed.
    Rejected,
    /// Success without content.
    Empty,
    /// Any other success: a body is to be decoded.
    Body,
}

/// The status is a success: one of the 2xx codes.
pub open spec fn is_success_status(status: u16) -> bool {
    200 <= status < 300
}

/// The status fails the request: it is anything but a success.
pub open spec fn is_error_status(status: u16) -> bool {
    !is_success_status(status)
}

/// The shape of an answer with this status.
pub open spec fn shape_of(status: u16) -> ResponseShape {
    if is_error_status(status) {
        ResponseShape::Rejected
    } else if status == 204 {
        ResponseShape::Empty
    } else {
        ResponseShape::Body
    }
}

/// The classification of an answer: from its status code and, where a body
/// was decoded, the result of decoding it.
pub open spec fn classified<T>(status: u16, body: Option<Result<T, String>>) -> Result<
    CatchApiResponse<T>,
    CatchApiError,
> {
    match shape_of(status) {
        ResponseShape::Rejected => Err(CatchApiError::RequestFailed(Some(status))),
        ResponseShape::Empty => Ok(CatchApiResponse::NoContent),
        ResponseShape::Body => match body {
            Some(Ok(value)) => Ok(CatchApiResponse::Success(value)),
            Some(Err(message)) => Err(CatchApiError::ResponseParseError(message)),
            None => Err(CatchApiError::InvalidResponse),
        },
    }
}

/// Whether the body of an answer with this status is to be read.
pub fn response_shape(status: u16) -> (shape: ResponseShape)
    ensures
        shape == shape_of(status),
{
    if status < 200 || status >= 300 {
        ResponseShape::Rejected
    } else if status == 204 {
        ResponseShape::Empty
    } else {
        ResponseShape::Body
    }
}

/// The address and the rules for one service.
#[derive(Debug, Clone)]
pub struct CatchApiClient {
    pub base_url: String,
}

impl CatchApiClient {
    /// A client for the configured address, or for the default one where
    /// none is configured.
    pub fn new(configured: Option<String>) -> (client: Self)
        ensures
            client.base_url@ == match configured {
                Some(url) => url@,
                None => BASE_CATCH_API_URL@,
            },
    {
        match configured {
            Some(url) => CatchApiClient { base_url: url },
            None => CatchApiClient { base_url: String::from_str(BASE_CATCH_API_URL) },
        }
    }

    /// The full address of an endpoint.
    pub fn url(&self, endpoint: &str) -> (url: String)
        ensures
            url@ == self.base_url@ + endpoint@,
    {
        self.base_url.clone().concat(endpoint)
    }

    /// Classifies an answer. A status that is no success fails the request
    /// and is kept; 204 is success without content, whatever else came; any
    /// other success asks for a body, which either decodes or is a parse
    /// error.
    pub fn handle_response<T>(status: u16, body: Option<Result<T, String>>) -> (out: Result<
        CatchApiResponse<T>,
        CatchApiError,
    >)
        ensures
            out == classified(status, body),
    {
        match response_shape(status) {
            ResponseShape::Rejected => Err(CatchApiError::RequestFailed(Some(status))),
            ResponseShape::Empty => Ok(CatchApiResponse::NoContent),
            ResponseShape::Body => match body {
                Some(Ok(value)) => Ok(CatchApiResponse::Success(value)),
                Some(Err(message)) => Err(CatchApiError::ResponseParseError(message)),
                None => Err(CatchApiError::InvalidResponse),
            },
        }
    }
}

/// `prefix`, then `middle`, then `suffix`.
pub fn join3(prefix: &str, middle: &str, suffix: &str) -> (out: String)
    ensures
        out@ == prefix@ + middle@ + suffix@,
{
    String::from_str(prefix).concat(middle).concat(suffix)
}

/// Endpoint that reports the state of a session.
pub fn session_process_endpoint(session_id: &str) -> (endpoint: String)
    ensures
        endpoint@ == "/session/"@ + session_id@ + "/process"@,
{
    join3("/session/", session_id, "/process")
}

/// Endpoint of the handshake.
pub fn connect_endpoint() -> (endpoint: String)
    ensures
        endpoint@ == "/cli"@,
{
    String::from_str("/cli")
}

/// Endpoint that takes the list of scanned paths.
pub fn rcp_endpoint(integration_id: &str) -> (endpoint: String)
    ensures
        endpoint@ == "/cli/"@ + integration_id@ + "/rcp"@,
{
    join3("/cli/", integration_id, "/rcp")
}

/// Endpoint that takes the encrypted files.
pub fn files_endpoint(integration_id: &str) -> (endpoint: String)
    ensures
        endpoint@ == "/cli/"@ + integration_id@ + "/files"@,
{
    join3("/cli/", integration_id, "/files")
}

} // verus!
