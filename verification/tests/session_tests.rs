use catch_cli::api_client::session_status_entity::{
    CatchDiffFile, CatchPlatformInfo, CatchSessionAnalyzePlatformResult,
    CatchSessionAnalyzingModuleStructureResult, CatchSessionExtractingCandidatesResult,
    CatchSessionGeneratingDiffResult, CatchSessionOutput, CatchSessionProcessInfo,
    CatchSessionResult, CatchSessionStatusResponse,
};
use catch_cli::api_client::{CatchApiClient, CatchApiError, CatchApiResponse};
use catch_cli::ongoing_session::active_session_checker::{
    handle_sessions, is_not_found, is_session_valid, markers_to_purge, CatchSessionError,
};
use catch_cli::ongoing_session::folders_to_purge;

fn names(list: &[&str]) -> Vec<String> {
    list.iter().map(|n| n.to_string()).collect()
}

fn status_answer(
    id: Option<&str>,
    status: Option<&str>,
    output: Option<CatchSessionOutput>,
) -> CatchSessionStatusResponse {
    CatchSessionStatusResponse {
        process: CatchSessionProcessInfo {
            id: id.map(|s| s.to_string()),
            status: status.map(|s| s.to_string()),
            output,
        },
    }
}

fn step(status: &str) -> CatchSessionResult {
    CatchSessionResult { step: "0/0".to_string(), status: status.to_string() }
}

fn some_output() -> CatchSessionOutput {
    CatchSessionOutput {
        docs: vec![],
        fetching_code: step("in-progress"),
        indexing_code: step("not-yet"),
        generating_diff: CatchSessionGeneratingDiffResult {
            files: vec![CatchDiffFile {
                file_path: "a".to_string(),
                patch_content: "b".to_string(),
                modified_content: "c".to_string(),
                original_content: "d".to_string(),
            }],
            status: "not-yet".to_string(),
        },
        generating_docs: step("not-yet"),
        analyzing_platform: CatchSessionAnalyzePlatformResult {
            status: "not-yet".to_string(),
            platform_info: CatchPlatformInfo {
                platform: "".to_string(),
                architecture_description: "".to_string(),
            },
        },
        extracting_candidates: CatchSessionExtractingCandidatesResult {
            status: "not-yet".to_string(),
            candidates: vec![],
        },
        analyzing_module_structure: CatchSessionAnalyzingModuleStructureResult {
            status: "not-yet".to_string(),
            structure: "".to_string(),
        },
    }
}

#[test]
fn session_tests_test_no_sessions() {
    let listing: Vec<String> = vec![];
    let result = handle_sessions(&listing);
    assert!(matches!(result, Err(CatchSessionError::NoSessionFound)));
    assert!(folders_to_purge(&listing).is_empty());
}

#[test]
fn session_tests_test_single_session() {
    let listing = names(&["catch_session_123"]);
    let result = handle_sessions(&listing);
    assert!(matches!(result, Ok(session_id) if session_id == "123"));
    assert!(folders_to_purge(&listing).is_empty());
}

#[test]
fn session_tests_test_multiple_sessions() {
    let listing = names(&["catch_session_123", "catch_session_456"]);
    let result = handle_sessions(&listing);
    assert!(matches!(
        result,
        Err(CatchSessionError::MultipleSessionsFound)
    ));

    // Both session folders are named for removal
    assert_eq!(
        folders_to_purge(&listing),
        names(&["catch_session_123", "catch_session_456"])
    );
}

#[test]
fn session_tests_test_ignore_non_session_folders() {
    let listing = names(&["catch_session_123", "not_a_session"]);
    let result = handle_sessions(&listing);
    assert!(matches!(result, Ok(session_id) if session_id == "123"));

    // The other folder is never named for removal
    assert!(!folders_to_purge(&listing).contains(&"not_a_session".to_string()));
    assert!(!markers_to_purge(false, &listing).contains(&"not_a_session".to_string()));
}

#[test]
fn test_valid_session() {
    let client = CatchApiClient::new(Some("http://127.0.0.1:1234".to_string()));
    assert_eq!(
        client.url(&catch_cli::api_client::session_process_endpoint("valid_session")),
        "http://127.0.0.1:1234/session/valid_session/process"
    );
    let answer = CatchApiClient::handle_response(200, Some(Ok(status_answer(None, None, None))));
    let result = is_session_valid(answer);
    assert!(result.is_ok());
    assert!(result.unwrap());
}

#[test]
fn test_invalid_session() {
    let answer = CatchApiClient::handle_response(
        200,
        Some(Ok(status_answer(Some("123"), Some("completed"), None))),
    );
    let result = is_session_valid(answer);
    println!("{:?}", result);
    assert!(result.is_ok());
    assert!(!result.unwrap());
}

#[test]
fn test_request_failed_404() {
    let answer =
        CatchApiClient::handle_response::<CatchSessionStatusResponse>(404, None);
    let result = is_session_valid(answer);
    assert!(result.is_err());
    let error = result.unwrap_err();
    assert_eq!(error, CatchApiError::RequestFailed(Some(404)));
    assert!(is_not_found(&error));
}

#[test]
fn test_request_failed_other() {
    let answer =
        CatchApiClient::handle_response::<CatchSessionStatusResponse>(500, None);
    let result = is_session_valid(answer);
    assert!(result.is_err());
    let error = result.unwrap_err();
    assert_eq!(error, CatchApiError::RequestFailed(Some(500)));
    assert!(!is_not_found(&error));
}

#[test]
fn test_response_parse_error() {
    let answer = CatchApiClient::handle_response::<CatchSessionStatusResponse>(
        200,
        Some(Err("Invalid JSON".to_string())),
    );
    let result = is_session_valid(answer);
    assert!(result.is_err());
    assert_eq!(
        result.unwrap_err(),
        CatchApiError::ResponseParseError("Invalid JSON".to_string())
    );
}

#[test]
fn any_one_field_claims_the_session() {
    for (id, status, output) in [
        (Some("x"), None, None),
        (None, Some("queued"), None),
        (None, None, Some(some_output())),
        (Some("x"), Some("done"), Some(some_output())),
    ] {
        let result = is_session_valid(Ok(CatchApiResponse::Success(status_answer(id, status, output))));
        assert_eq!(result.unwrap(), false);
    }
}

#[test]
fn status_without_content_is_a_protocol_error() {
    let answer = CatchApiClient::handle_response::<CatchSessionStatusResponse>(204, None);
    assert_eq!(is_session_valid(answer), Err(CatchApiError::InvalidResponse));
}

#[test]
fn transport_failure_is_never_a_verdict() {
    assert_eq!(
        is_session_valid(Err(CatchApiError::RequestFailed(None))),
        Err(CatchApiError::RequestFailed(None))
    );
    assert!(!is_not_found(&CatchApiError::RequestFailed(None)));
    assert!(!is_not_found(&CatchApiError::InvalidResponse));
}

#[test]
fn claimed_session_purges_every_marker() {
    let listing = names(&["tmp1", "catch_session_abc", "other", "catch_session_b c", "catch_session_"]);
    assert_eq!(
        markers_to_purge(false, &listing),
        names(&["catch_session_abc", "catch_session_b c"])
    );
    assert!(markers_to_purge(true, &listing).is_empty());
}

#[test]
fn end_to_end_session_is_found_and_valid() {
    let listing = names(&["catch_session_abc"]);
    let session_id = handle_sessions(&listing).unwrap();
    assert_eq!(session_id, "abc");
    let answer = CatchApiClient::handle_response(200, Some(Ok(status_answer(None, None, None))));
    assert_eq!(is_session_valid(answer), Ok(true));
    assert!(markers_to_purge(true, &listing).is_empty());
}

#[test]
fn redirect_with_a_body_is_a_failed_request() {
    let answer = CatchApiClient::handle_response(302, Some(Ok(status_answer(None, None, None))));
    assert_eq!(
        is_session_valid(answer),
        Err(CatchApiError::RequestFailed(Some(302)))
    );
    let informational =
        CatchApiClient::handle_response(101, Some(Ok(status_answer(None, None, None))));
    assert_eq!(
        is_session_valid(informational),
        Err(CatchApiError::RequestFailed(Some(101)))
    );
}
