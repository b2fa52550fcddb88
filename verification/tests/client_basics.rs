use letta::auth::AuthConfig;
use letta::environment::LettaEnvironment;
use letta::streaming::SseEvent;
use letta::types::common::{ListParams, PaginatedResponse, PaginationParams, SortOrder};
use reqwest::header::{HeaderMap, AUTHORIZATION};

#[test]
fn test_auth_config_creation() {
    let auth = AuthConfig::bearer("test-token");
    assert!(auth.is_authenticated());
    assert_eq!(auth.auth_type(), "bearer");

    let auth = AuthConfig::none();
    assert!(!auth.is_authenticated());
    assert_eq!(auth.auth_type(), "none");
}

#[test]
fn test_apply_to_headers() {
    let mut headers = HeaderMap::new();

    let auth = AuthConfig::bearer("test-token");
    auth.apply_to_headers(&mut headers).unwrap();

    let auth_header = headers.get(AUTHORIZATION).unwrap();
    assert_eq!(auth_header.to_str().unwrap(), "Bearer test-token");

    let mut headers = HeaderMap::new();
    let auth = AuthConfig::none();
    auth.apply_to_headers(&mut headers).unwrap();

    assert!(!headers.contains_key(AUTHORIZATION));
}

#[test]
fn test_validation() {
    let auth = AuthConfig::bearer("valid-token");
    assert!(auth.validate().is_ok());

    let auth = AuthConfig::bearer("");
    assert!(auth.validate().is_err());

    let auth = AuthConfig::bearer("token\nwith\nnewlines");
    assert!(auth.validate().is_err());

    let long_token = "a".repeat(1025);
    let auth = AuthConfig::bearer(&long_token);
    assert!(auth.validate().is_err());

    let auth = AuthConfig::none();
    assert!(auth.validate().is_ok());
}

#[test]
fn test_display() {
    let auth = AuthConfig::bearer("token");
    assert_eq!(auth.to_string(), "Bearer token authentication");

    let auth = AuthConfig::none();
    assert_eq!(auth.to_string(), "No authentication");
}

#[test]
fn test_environment_defaults() {
    assert_eq!(LettaEnvironment::default(), LettaEnvironment::Cloud);
}

#[test]
fn test_environment_urls() {
    assert_eq!(LettaEnvironment::Cloud.base_url(), "https://api.letta.com");
    assert_eq!(
        LettaEnvironment::SelfHosted.base_url(),
        "http://localhost:8283"
    );
}

#[test]
fn test_environment_auth_requirements() {
    assert!(LettaEnvironment::Cloud.requires_auth());
    assert!(!LettaEnvironment::SelfHosted.requires_auth());
}

#[test]
fn test_sse_event_creation() {
    let event = SseEvent {
        event_type: Some("message".to_string()),
        data: "test data".to_string(),
        id: Some("123".to_string()),
    };

    assert_eq!(event.event_type.as_deref(), Some("message"));
    assert_eq!(event.data, "test data");
    assert_eq!(event.id.as_deref(), Some("123"));
}

#[test]
fn test_pagination_params() {
    let params = PaginationParams::new()
        .limit(10)
        .after("cursor123")
        .ascending(true);

    assert_eq!(params.limit, Some(10));
    assert_eq!(params.after.as_deref(), Some("cursor123"));
    assert_eq!(params.ascending, Some(true));
}

#[test]
fn test_paginated_response() {
    let items = vec![1, 2, 3];
    let response = PaginatedResponse::new(items);

    assert_eq!(response.len(), 3);
    assert!(!response.is_empty());
    assert!(!response.has_more);
}

#[test]
fn test_list_params() {
    let params = ListParams::new()
        .query("search term")
        .sort_by("created_at")
        .sort_order(SortOrder::Asc)
        .limit(20);

    assert_eq!(params.query.as_deref(), Some("search term"));
    assert_eq!(params.sort_by.as_deref(), Some("created_at"));
    assert!(matches!(params.sort_order, Some(SortOrder::Asc)));
    assert_eq!(params.pagination.limit, Some(20));
}
