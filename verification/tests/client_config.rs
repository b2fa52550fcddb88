use letta::auth::AuthConfig;
use letta::client::{ClientBuilder, ClientConfig};
use letta::environment::LettaEnvironment;
use letta::error::LettaError;
use reqwest::header::{HeaderMap, HeaderName, HeaderValue, AUTHORIZATION};
use std::time::Duration;

#[test]
fn test_client_config() {
    let config = ClientConfig::new("http://localhost:8283").unwrap();
    assert_eq!(config.base_url.as_str(), "http://localhost:8283/");
    assert_eq!(config.timeout, Duration::from_secs(30));
}

#[test]
fn test_client_builder() {
    let config = ClientBuilder::new()
        .base_url("http://localhost:8283")
        .timeout(Duration::from_secs(60))
        .build_config()
        .unwrap();

    assert_eq!(config.base_url.as_str(), "http://localhost:8283/");
}

#[test]
fn test_environment_based_client() {
    let config = ClientBuilder::new()
        .environment(LettaEnvironment::Cloud)
        .auth(AuthConfig::bearer("test-token"))
        .build_config()
        .unwrap();
    assert_eq!(config.base_url.as_str(), "https://api.letta.com/");

    let config = ClientBuilder::new()
        .environment(LettaEnvironment::SelfHosted)
        .build_config()
        .unwrap();
    assert_eq!(config.base_url.as_str(), "http://localhost:8283/");
}

#[test]
fn test_base_url_overrides_environment() {
    let config = ClientBuilder::new()
        .environment(LettaEnvironment::Cloud)
        .base_url("http://custom.example.com")
        .build_config()
        .unwrap();
    assert_eq!(config.base_url.as_str(), "http://custom.example.com/");
}

#[test]
fn test_header_configuration() -> Result<(), LettaError> {
    let _config = ClientBuilder::new()
        .base_url("http://localhost:8283")
        .header("user-id", "test-user-123")?
        .header("x-custom-header", "custom-value")?
        .build_config()?;

    let mut config = ClientConfig::new("http://localhost:8283")?;
    config = config.header("user-id", "test-user-456")?;
    assert_eq!(config.headers.get("user-id").unwrap(), "test-user-456");

    Ok(())
}

#[test]
fn test_header_helpers() -> Result<(), LettaError> {
    let _config = ClientBuilder::new()
        .base_url("http://localhost:8283")
        .project("my-project-123")?
        .build_config()?;

    let _config = ClientBuilder::new()
        .base_url("http://localhost:8283")
        .user_id("user-456")?
        .build_config()?;

    let _config = ClientBuilder::new()
        .base_url("http://localhost:8283")
        .project("project-789")?
        .user_id("user-789")?
        .build_config()?;

    let config = ClientConfig::new("http://localhost:8283")?
        .project("config-project")?
        .user_id("config-user")?;
    assert_eq!(config.headers.get("x-project").unwrap(), "config-project");
    assert_eq!(config.headers.get("user-id").unwrap(), "config-user");

    Ok(())
}

#[test]
fn client_config_defaults() {
    let config = ClientConfig::new("https://api.letta.com").unwrap();
    assert_eq!(config.base_url.as_str(), "https://api.letta.com/");
    assert!(matches!(config.auth, AuthConfig::Unauthenticated));
    assert!(config.headers.is_empty());
    assert_eq!(config.header_count(), 0);
}

#[test]
fn client_config_refuses_a_text_that_is_no_url() {
    let err = ClientConfig::new("not a url").unwrap_err();
    match err {
        LettaError::Url { message } => assert_eq!(message, "relative URL without a base"),
        other => panic!("unexpected error: {:?}", other),
    }
}

#[test]
fn client_config_setters_keep_the_rest() {
    let config = ClientConfig::new("http://localhost:8283")
        .unwrap()
        .auth(AuthConfig::bearer("tok"))
        .timeout(Duration::from_secs(5));
    assert_eq!(config.timeout, Duration::from_secs(5));
    assert!(config.auth.is_authenticated());
    assert_eq!(config.base_url.as_str(), "http://localhost:8283/");

    let mut extra = HeaderMap::new();
    extra.insert(HeaderName::from_static("x-a"), HeaderValue::from_static("1"));
    let config = config.headers(extra);
    assert_eq!(config.header_count(), 1);
    assert_eq!(config.timeout, Duration::from_secs(5));
}

#[test]
fn client_config_header_replaces_and_lowers_the_name() {
    let config = ClientConfig::new("http://localhost:8283")
        .unwrap()
        .header("X-Thing", "one")
        .unwrap()
        .header("x-thing", "two")
        .unwrap();
    assert_eq!(config.header_count(), 1);
    assert_eq!(config.headers.get("x-thing").unwrap(), "two");
}

#[test]
fn client_config_header_errors() {
    let config = ClientConfig::new("http://localhost:8283").unwrap();
    match config.header("bad name", "v").unwrap_err() {
        LettaError::Validation { message, field } => {
            assert_eq!(message, "Invalid header name: bad name");
            assert_eq!(field, None);
        }
        other => panic!("unexpected error: {:?}", other),
    }
    let config = ClientConfig::new("http://localhost:8283").unwrap();
    match config.project("a\nb").unwrap_err() {
        LettaError::Validation { message, .. } => {
            assert_eq!(message, "Invalid header value for X-Project: a\nb")
        }
        other => panic!("unexpected error: {:?}", other),
    }
}

#[test]
fn builder_defaults_and_warning() {
    let builder = ClientBuilder::new();
    assert!(builder.warns_missing_auth());
    assert_eq!(builder.header_count(), 0);
    let config = builder.build_config().unwrap();
    assert_eq!(config.base_url.as_str(), "https://api.letta.com/");
    assert_eq!(config.timeout, Duration::from_secs(30));
    assert!(matches!(config.auth, AuthConfig::Unauthenticated));

    assert!(!ClientBuilder::new().auth(AuthConfig::bearer("t")).warns_missing_auth());
    assert!(!ClientBuilder::new().base_url("https://api.letta.com").warns_missing_auth());
    assert!(!ClientBuilder::new().environment(LettaEnvironment::SelfHosted).warns_missing_auth());
}

#[test]
fn builder_carries_settings_into_the_config() {
    let config = ClientBuilder::new()
        .base_url("http://localhost:8283")
        .auth(AuthConfig::bearer("tok"))
        .timeout(Duration::from_secs(60))
        .user_id("u1")
        .unwrap()
        .build_config()
        .unwrap();
    assert_eq!(config.timeout, Duration::from_secs(60));
    assert!(config.auth.is_authenticated());
    assert_eq!(config.headers.get("user-id").unwrap(), "u1");
}

#[test]
fn builder_refuses_a_bad_url() {
    let err = ClientBuilder::new().base_url("::").build_config().unwrap_err();
    assert!(matches!(err, LettaError::Url { .. }));
}

#[test]
fn try_apply_to_headers_refuses_a_full_map() {
    let mut headers = HeaderMap::new();
    for i in 0..6554 {
        let name = HeaderName::from_bytes(format!("x-h{}", i).as_bytes()).unwrap();
        headers.insert(name, HeaderValue::from_static("v"));
    }
    assert_eq!(headers.keys_len(), 6554);
    assert!(AuthConfig::bearer("tok").try_apply_to_headers(&mut headers).is_none());
    assert!(!headers.contains_key(AUTHORIZATION));

    // No header to insert: nothing is refused.
    assert!(matches!(AuthConfig::none().try_apply_to_headers(&mut headers), Some(Ok(()))));
    // An invalid value is refused before any insertion.
    assert!(matches!(
        AuthConfig::bearer("a\u{1}b").try_apply_to_headers(&mut headers),
        Some(Err(LettaError::Auth { .. }))
    ));
}

#[test]
fn try_apply_to_headers_inserts_where_there_is_room() {
    let mut headers = HeaderMap::new();
    let r = AuthConfig::bearer("tok").try_apply_to_headers(&mut headers);
    assert!(matches!(r, Some(Ok(()))));
    assert_eq!(headers.get(AUTHORIZATION).unwrap(), "Bearer tok");
}
