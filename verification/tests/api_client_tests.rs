use catch_cli::api_client::{
    connect_endpoint, files_endpoint, rcp_endpoint, response_shape, session_process_endpoint,
    CatchApiClient, CatchApiError, CatchApiResponse, ResponseShape, BASE_CATCH_API_URL,
};

#[derive(Debug, PartialEq, Clone)]
struct TestUser {
    id: u64,
    name: String,
}

#[test]
fn test_get_request() {
    let mock_response = TestUser {
        id: 1,
        name: "Dora Lee".to_string(),
    };
    let client = CatchApiClient::new(Some("http://localhost:8080".to_string()));
    assert_eq!(client.url("/users/1"), "http://localhost:8080/users/1");

    let response =
        CatchApiClient::handle_response(200, Some(Ok(mock_response.clone()))).unwrap();

    match response {
        CatchApiResponse::Success(user) => assert_eq!(user, mock_response),
        _ => panic!("Expected Success response"),
    }
}

#[test]
fn test_post_request() {
    let created_user = TestUser {
        id: 2,
        name: "Dora Dora Lee".to_string(),
    };
    let client = CatchApiClient::new(Some("http://localhost:8080".to_string()));
    assert_eq!(client.url("/users"), "http://localhost:8080/users");

    let response =
        CatchApiClient::handle_response(201, Some(Ok(created_user.clone()))).unwrap();

    match response {
        CatchApiResponse::Success(user) => assert_eq!(user, created_user),
        _ => panic!("Expected Success response"),
    }
}

#[test]
fn test_put_request() {
    let update_user = TestUser {
        id: 1,
        name: "Dora Updated".to_string(),
    };

    let response =
        CatchApiClient::handle_response(200, Some(Ok(update_user.clone()))).unwrap();

    match response {
        CatchApiResponse::Success(user) => assert_eq!(user, update_user),
        _ => panic!("Expected Success response"),
    }
}

#[test]
fn test_delete_request() {
    let response = CatchApiClient::handle_response::<()>(204, None).unwrap();

    match response {
        CatchApiResponse::NoContent => {}
        _ => panic!("Expected NoContent response"),
    }
}

#[test]
fn test_no_content_response() {
    let response = CatchApiClient::handle_response::<()>(204, Some(Ok(()))).unwrap();

    match response {
        CatchApiResponse::NoContent => {}
        _ => panic!("Expected NoContent response"),
    }
}

#[test]
fn every_status_but_2xx_fails_the_request_and_keeps_the_status() {
    for status in [
        0u16, 99, 100, 101, 199, 300, 301, 302, 304, 399, 400, 401, 404, 499, 500, 503, 599, 600,
        65535,
    ] {
        assert_eq!(response_shape(status), ResponseShape::Rejected);
        assert_eq!(
            CatchApiClient::handle_response(status, Some(Ok(1u8))),
            Err(CatchApiError::RequestFailed(Some(status)))
        );
        assert_eq!(
            CatchApiClient::handle_response::<u8>(status, Some(Err("bad".to_string()))),
            Err(CatchApiError::RequestFailed(Some(status)))
        );
        assert_eq!(
            CatchApiClient::handle_response::<u8>(status, None),
            Err(CatchApiError::RequestFailed(Some(status)))
        );
    }
}

#[test]
fn other_successes_ask_for_a_body() {
    for status in [200u16, 201, 202, 203, 205, 206, 299] {
        assert_eq!(response_shape(status), ResponseShape::Body);
        assert_eq!(
            CatchApiClient::handle_response(status, Some(Ok(7u8))),
            Ok(CatchApiResponse::Success(7u8))
        );
        assert_eq!(
            CatchApiClient::handle_response::<u8>(status, Some(Err("bad".to_string()))),
            Err(CatchApiError::ResponseParseError("bad".to_string()))
        );
        assert_eq!(
            CatchApiClient::handle_response::<u8>(status, None),
            Err(CatchApiError::InvalidResponse)
        );
    }
    assert_eq!(response_shape(204), ResponseShape::Empty);
    assert_eq!(
        CatchApiClient::handle_response(204, Some(Ok(7u8))),
        Ok(CatchApiResponse::NoContent)
    );
}

#[test]
fn default_address_and_endpoints() {
    let client = CatchApiClient::new(None);
    assert_eq!(client.base_url, "https://api.dev.trycatch.ai");
    assert_eq!(BASE_CATCH_API_URL, "https://api.dev.trycatch.ai");
    assert_eq!(session_process_endpoint("abc"), "/session/abc/process");
    assert_eq!(connect_endpoint(), "/cli");
    assert_eq!(rcp_endpoint("int-1"), "/cli/int-1/rcp");
    assert_eq!(files_endpoint("int-1"), "/cli/int-1/files");
    assert_eq!(
        client.url(&files_endpoint("i")),
        "https://api.dev.trycatch.ai/cli/i/files"
    );
}
