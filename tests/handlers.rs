use gateway::handlers::{
    parse_user_id, storage_query_from_params, storage_response, user_query_from_param,
    user_response, EMPTY_BUCKET_MESSAGE, EMPTY_OBJECT_MESSAGE, INTERNAL_ERROR_MESSAGE,
    INVALID_USER_ID_MESSAGE,
};
use gateway::{ApiResponse, StorageService, StoreError, User};

fn backend_error(message: &str) -> StoreError {
    StoreError { message: message.to_string() }
}

#[test]
fn parse_accepts_decimal_integers() {
    assert_eq!(parse_user_id("10000"), Some(10000));
    assert_eq!(parse_user_id("0"), Some(0));
    assert_eq!(parse_user_id("007"), Some(7));
    assert_eq!(parse_user_id("-15"), Some(-15));
    assert_eq!(parse_user_id("+15"), Some(15));
    assert_eq!(parse_user_id("9223372036854775807"), Some(i64::MAX));
    assert_eq!(parse_user_id("-9223372036854775808"), Some(i64::MIN));
}

#[test]
fn parse_refuses_other_text() {
    assert_eq!(parse_user_id(""), None);
    assert_eq!(parse_user_id("-"), None);
    assert_eq!(parse_user_id("+"), None);
    assert_eq!(parse_user_id("12a"), None);
    assert_eq!(parse_user_id("abc"), None);
    assert_eq!(parse_user_id(" 1"), None);
    assert_eq!(parse_user_id("1.5"), None);
    assert_eq!(parse_user_id("--1"), None);
    assert_eq!(parse_user_id("9223372036854775808"), None);
    assert_eq!(parse_user_id("-9223372036854775809"), None);
    assert_eq!(parse_user_id("99999999999999999999999"), None);
}

#[test]
fn user_query_from_valid_param() {
    let query = user_query_from_param("424242").ok().unwrap();
    assert_eq!(query.user_id, 424242);
}

#[test]
fn user_query_from_invalid_param_is_bad_request() {
    match user_query_from_param("ten") {
        Err(ApiResponse::InvalidRequest(message)) => {
            assert_eq!(message, INVALID_USER_ID_MESSAGE);
        }
        _ => panic!("expected a validation error"),
    }
    let refused = user_query_from_param("").err().unwrap();
    assert_eq!(refused.status_code(), 400);
}

#[test]
fn found_user_passes_through() {
    let row = User {
        user_id: 10000,
        email_address: Some("marc@example.com".to_string()),
        created_at: Some(0),
        deleted: Some(1),
        settings: Some(String::new()),
    };
    let response = user_response(Ok(Some(row)));
    assert_eq!(response.status_code(), 200);
    assert_eq!(
        response.body(),
        "{\"user_id\":10000,\"email_address\":\"marc@example.com\",\"created_at\":0,\"deleted\":1,\"settings\":\"\"}"
    );
}

#[test]
fn absent_user_is_null_with_ok() {
    let response = user_response(Ok(None));
    assert!(matches!(response, ApiResponse::UserResponse(None)));
    assert_eq!(response.status_code(), 200);
    assert_eq!(response.body(), "null");
}

#[test]
fn user_backend_failure_is_server_error() {
    let response = user_response(Err(backend_error("connection refused")));
    assert_eq!(response.status_code(), 500);
    match &response {
        ApiResponse::ErrorResponse(message) => assert_eq!(message, INTERNAL_ERROR_MESSAGE),
        _ => panic!("expected an error envelope"),
    }
    assert_eq!(response.body(), "\"Internal Server Error\"");
}

#[test]
fn storage_query_with_both_keys() {
    let query = storage_query_from_params("b1".to_string(), "a.txt".to_string()).ok().unwrap();
    assert_eq!(query.bucket, "b1");
    assert_eq!(query.object, "a.txt");
}

#[test]
fn empty_bucket_is_refused() {
    let refused = storage_query_from_params(String::new(), "x".to_string()).err().unwrap();
    assert_eq!(refused.status_code(), 400);
    match refused {
        ApiResponse::InvalidRequest(message) => assert_eq!(message, EMPTY_BUCKET_MESSAGE),
        _ => panic!("expected a validation error"),
    }
}

#[test]
fn empty_object_is_refused() {
    let refused = storage_query_from_params("b1".to_string(), String::new()).err().unwrap();
    assert_eq!(refused.status_code(), 400);
    match refused {
        ApiResponse::InvalidRequest(message) => assert_eq!(message, EMPTY_OBJECT_MESSAGE),
        _ => panic!("expected a validation error"),
    }
    assert!(storage_query_from_params(String::new(), String::new()).is_err());
}

#[test]
fn fetched_bytes_become_text() {
    let response = storage_response(Ok(b"hello".to_vec()));
    assert_eq!(response.status_code(), 200);
    match &response {
        ApiResponse::StorageResponse(fetched) => assert_eq!(fetched.content, "hello"),
        _ => panic!("expected content"),
    }
    assert_eq!(response.body(), "{\"content\":\"hello\"}");
}

#[test]
fn invalid_utf8_is_replaced() {
    let response = storage_response(Ok(vec![0x61, 0xff, 0x62]));
    match response {
        ApiResponse::StorageResponse(fetched) => assert_eq!(fetched.content, "a\u{FFFD}b"),
        _ => panic!("expected content"),
    }
}

#[test]
fn missing_object_is_server_error_with_backend_message() {
    let response = storage_response(Err(backend_error("No such object: b1/missing.txt")));
    assert_eq!(response.status_code(), 500);
    match &response {
        ApiResponse::ErrorResponse(message) => assert!(message.contains("No such object")),
        _ => panic!("expected an error envelope"),
    }
}

#[test]
fn repeated_queries_give_identical_envelopes() {
    let first = user_response(Ok(None));
    let second = user_response(Ok(None));
    assert_eq!(first.status_code(), second.status_code());
    assert_eq!(first.body(), second.body());
    let a = storage_response(Ok(b"same".to_vec()));
    let b = storage_response(Ok(b"same".to_vec()));
    assert_eq!(a.body(), b.body());
    assert_eq!(parse_user_id("77"), parse_user_id("77"));
}

#[test]
fn storage_service_new() {
    let _service = StorageService::new();
}
