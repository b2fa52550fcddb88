use letta::error::{ErrorBody, LettaError};
use letta::json::JsonDoc;

#[test]
fn test_error_creation() {
    let err = LettaError::auth("Invalid token");
    assert!(matches!(err, LettaError::Auth { .. }));
    assert_eq!(err.to_string(), "Authentication failed: Invalid token");
}

#[test]
fn test_api_error() {
    let err = LettaError::api(404, "Not found");
    assert!(matches!(err, LettaError::Api { .. }));
    assert_eq!(err.status_code(), Some(404));
}

#[test]
fn test_retryable_errors() {
    assert!(LettaError::request_timeout(30).is_retryable());
    assert!(LettaError::rate_limit(Some(60)).is_retryable());
    assert!(LettaError::api(500, "Server error").is_retryable());
    assert!(!LettaError::auth("Invalid token").is_retryable());
}

#[test]
fn test_diagnostic_codes() {
    let err = LettaError::auth("test");
    assert!(!err.diagnostic_code().is_empty());

    let err = LettaError::api_with_code(400, "Bad request", "invalid_params");
    let code = err.diagnostic_code();
    assert_eq!(code, "letta::api::invalid_params");
}

#[test]
fn test_error_body_parsing() {
    // Test unauthorized error pattern
    let unauthorized_json = r#"{"message": "Unauthorized", "details": "You are attempting to access a resource...", "ownership": "This is api.letta.com..."}"#;
    let body = ErrorBody::from_response(unauthorized_json);

    assert!(matches!(body, ErrorBody::Unauthorized(_)));
    assert_eq!(body.message(), Some("Unauthorized".to_string()));

    // Test simple detail pattern
    let detail_json = r#"{"detail": "Not Found"}"#;
    let body = ErrorBody::from_response(detail_json);

    assert!(matches!(body, ErrorBody::Detail(_)));
    assert_eq!(body.message(), Some("Not Found".to_string()));

    // Test validation error pattern
    let validation_json = r#"{"detail": "1 validation error for Tool..."}"#;
    let body = ErrorBody::from_response(validation_json);

    assert!(matches!(body, ErrorBody::Detail(_)));
    assert!(body.is_validation_error());

    // Test message pattern
    let message_json = r#"{"message": "Simple error"}"#;
    let body = ErrorBody::from_response(message_json);

    assert!(matches!(body, ErrorBody::Message(_)));
    assert_eq!(body.message(), Some("Simple error".to_string()));

    // Test plain text
    let body = ErrorBody::from_response("Server error");
    assert!(matches!(body, ErrorBody::Text(_)));
    assert_eq!(body.message(), Some("Server error".to_string()));
}

#[test]
fn test_api_error_from_responses() {
    // Test unauthorized error
    let unauthorized_json = r#"{"message": "Unauthorized", "details": "You are attempting to access a resource...", "ownership": "This is api.letta.com..."}"#;
    let err = LettaError::from_response(401, unauthorized_json.to_string());

    assert_eq!(err.status_code(), Some(401));
    assert!(err.is_unauthorized());
    assert_eq!(err.to_string(), "API error 401: Unauthorized");

    let (message, details, ownership) = err.unauthorized_details().unwrap();
    assert_eq!(message, "Unauthorized");
    assert!(details.contains("You are attempting to access"));
    assert!(ownership.contains("api.letta.com"));

    // Test validation error
    let validation_json = r#"{"detail": "1 validation error for Tool"}"#;
    let err = LettaError::from_response(422, validation_json.to_string());

    assert!(err.is_validation_error());
    assert_eq!(
        err.to_string(),
        "Validation error: 1 validation error for Tool"
    );

    // Test plain text error
    let err = LettaError::from_response(500, "Internal Server Error".to_string());
    assert_eq!(err.to_string(), "API error 500: Internal Server Error");
}

#[test]
fn test_default_status_messages() {
    let err = LettaError::from_response(404, "".to_string());
    assert_eq!(err.to_string(), "API error 404: Not Found");

    let err = LettaError::from_response(999, "".to_string());
    assert_eq!(err.to_string(), "API error 999: HTTP 999");
}

#[test]
fn test_real_letta_api_responses() {
    // Test actual 401 unauthorized response from Letta API
    let unauthorized_response = r#"{"message":"Unauthorized","details":"You are attempting to access a resource that you don't have permission to access, this could be because you have not provided an appropriate API key or are connecting to the wrong server","ownership":"This is api.letta.com, which is used to access Letta Cloud resources. If you are self hosting, you should connect to your own server, usually http://localhost:8283"}"#;

    let err = LettaError::from_response(401, unauthorized_response.to_string());
    assert!(err.is_unauthorized());
    assert_eq!(err.to_string(), "API error 401: Unauthorized");

    let (message, details, ownership) = err.unauthorized_details().unwrap();
    assert_eq!(message, "Unauthorized");
    assert!(details.contains("you don't have permission"));
    assert!(ownership.contains("api.letta.com"));

    // Test actual 404 HTML response
    let html_404 = r#"<!DOCTYPE html>
<html lang="en">
<head>
<meta charset="utf-8">
<title>Error</title>
</head>
<body>
<pre>Not Found</pre>
</body>
</html>"#;

    let err = LettaError::from_response(404, html_404.to_string());
    assert_eq!(err.to_string(), "API error 404: Not Found");
    assert!(matches!(err.response_body(), Some(ErrorBody::Text(_))));

    // Test actual 404 JSON response
    let json_404 = r#"{"detail":"Not Found"}"#;
    let err = LettaError::from_response(404, json_404.to_string());
    assert_eq!(err.to_string(), "API error 404: Not Found");
    assert!(matches!(err.response_body(), Some(ErrorBody::Detail(_))));

    // Test actual 400 HTML response
    let html_400 = r#"<!DOCTYPE html>
<html lang="en">
<head>
<meta charset="utf-8">
<title>Error</title>
</head>
<body>
<pre>Bad Request</pre>
</body>
</html>"#;

    let err = LettaError::from_response(400, html_400.to_string());
    assert_eq!(err.to_string(), "API error 400: Bad Request");

    // Test actual validation error response
    let validation_error = r#"{"detail":"1 validation error for Tool\n  Value error, 'close_file' is not a user-defined function in module 'letta.functions.function_sets.files' [type=value_error, input_value=<letta.orm.tool.Tool object at 0x7ac389d9c860>, input_type=Tool]\n    For further information visit https://errors.pydantic.dev/2.11/v/value_error"}"#;

    let err = LettaError::from_response(500, validation_error.to_string());
    // This is a 500 error that contains validation error details in the body
    assert!(matches!(err, LettaError::Api { .. }));
    assert!(err.is_validation_error());
    assert!(err.to_string().contains("validation error"));
}

#[test]
fn test_status_specific_error_mapping() {
    // Test 401 -> Auth error
    let err = LettaError::from_response(401, "Invalid API key".to_string());
    assert!(matches!(err, LettaError::Auth { .. }));

    // Test 404 -> NotFound error with resource extraction
    let err = LettaError::from_response(404, "Agent with ID agent-123 not found".to_string());
    match err {
        LettaError::NotFound { resource_type, id } => {
            assert_eq!(resource_type, "Agent");
            assert_eq!(id, "agent-123");
        }
        _ => panic!("Expected NotFound error"),
    }

    // Test 404 with quotes
    let err = LettaError::from_response(404, "Tool 'calculator' not found".to_string());
    match err {
        LettaError::NotFound { resource_type, id } => {
            assert_eq!(resource_type, "Tool");
            assert_eq!(id, "calculator");
        }
        _ => panic!("Expected NotFound error"),
    }

    // Test 422 -> Validation error
    let err = LettaError::from_response(422, "Field 'name' is required".to_string());
    match err {
        LettaError::Validation { message, field } => {
            assert!(message.contains("Field 'name' is required"));
            assert_eq!(field, Some("name".to_string()));
        }
        _ => panic!("Expected Validation error"),
    }

    // Test 429 -> RateLimit error
    let err = LettaError::from_response(429, r#"{"retry_after": 60}"#.to_string());
    match err {
        LettaError::RateLimit { retry_after } => {
            assert_eq!(retry_after, Some(60));
        }
        _ => panic!("Expected RateLimit error"),
    }

    // Test 408/504 -> RequestTimeout
    let err = LettaError::from_response(408, "Request timeout".to_string());
    assert!(matches!(err, LettaError::RequestTimeout { .. }));

    let err = LettaError::from_response(504, "Gateway timeout".to_string());
    assert!(matches!(err, LettaError::RequestTimeout { .. }));
}

#[test]
fn test_extract_resource_info() {
    // Test various patterns
    let cases = vec![
        ("Agent not found", Some(("Agent", ""))),
        (
            "Agent with ID agent-123 not found",
            Some(("Agent", "agent-123")),
        ),
        ("Tool 'my_tool' not found", Some(("Tool", "my_tool"))),
        (
            "No source found with ID: source-456",
            Some(("source", "source-456")),
        ),
        ("Something else entirely", None),
    ];

    for (message, expected) in cases {
        let result = LettaError::extract_resource_info(message);
        match (result.as_ref(), expected) {
            (Some((res_type, id)), Some((exp_type, exp_id))) => {
                assert_eq!(
                    res_type, exp_type,
                    "Resource type mismatch for: {}",
                    message
                );
                assert_eq!(id, exp_id, "ID mismatch for: {}", message);
            }
            (None, None) => {}
            _ => {
                println!("Result: {:?}, Expected: {:?}", result, expected);
                panic!("Mismatch for message: {}", message);
            }
        }
    }
}

#[test]
fn test_extract_validation_field() {
    let body = ErrorBody::Text("".to_string());
    assert_eq!(
        LettaError::extract_validation_field("Field 'name' is required", &body),
        Some("name".to_string())
    );

    // Test JSON body with field
    let json_body = ErrorBody::Json(
        JsonDoc::parse(r#"{"field": "email", "message": "Invalid email format"}"#).unwrap(),
    );
    assert_eq!(
        LettaError::extract_validation_field("Invalid email format", &json_body),
        Some("email".to_string())
    );

    // Test validation_errors structure
    let json_body = ErrorBody::Json(
        JsonDoc::parse(
            r#"{"validation_errors": {"password": ["Too short"], "username": ["Already taken"]}}"#,
        )
        .unwrap(),
    );
    let field = LettaError::extract_validation_field("Validation failed", &json_body);
    assert!(field.is_some());
    assert!(field == Some("password".to_string()) || field == Some("username".to_string()));
}
