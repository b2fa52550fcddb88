use letta::auth::{auth_from_env_values, AuthConfig};
use letta::cli::{answer_confirms, content_type_for_extension, draft_tool, message_role_for, validate_python_docstring, validate_tool_schema};
use letta::client::{check_header, client_base_url, warns_missing_auth};
use letta::environment::LettaEnvironment;
use letta::error::{ErrorBody, LettaError, Severity};
use letta::json::JsonDoc;
use letta::pagination::{first_page_params, next_page_params, page_limit, DEFAULT_PAGE_LIMIT};
use letta::retry::{next_retry_action, RetryAction};
use letta::streaming::{carries_payload, stream_error_message};
use letta::types::agent::{import_agent_path, AgentType, ImportAgentRequest, ResponseFormat, ResponseFormatType, ToolRule};
use letta::types::common::{LettaId, PaginationParams, StringMap};
use letta::types::message::{MessageCreateContent, MessageRole};
use letta::types::tags::TagSchema;
use letta::query::{active_jobs_query, i32_text, jobs_query, models_query, providers_query, runs_query, tags_query, templates_query};
use letta::types::models::{ListModelsParams, ProviderCategory};
use letta::types::provider::{ListProvidersParams, ProviderType};
use letta::types::runs::JobStatus;
use letta::types::tags::ListTagsParams;
use reqwest::header::{HeaderMap, AUTHORIZATION};

fn doc(text: &str) -> JsonDoc {
    JsonDoc::parse(text).unwrap()
}

// Identifiers.

#[test]
fn printed_identifier_parses_back() {
    let id = LettaId::new_prefixed("memory_block", 0x550e8400e29b41d4a716446655440000);
    let text = id.as_str();
    assert_eq!(text, "memory_block-550e8400-e29b-41d4-a716-446655440000");
    let back = LettaId::from_str(&text).unwrap();
    assert_eq!(back.prefix(), Some("memory_block"));
    assert_eq!(back.uuid(), 0x550e8400e29b41d4a716446655440000);

    let bare = LettaId::new_bare(1);
    assert_eq!(bare.as_str(), "00000000-0000-0000-0000-000000000001");
    assert!(LettaId::from_str(&bare.as_str()).unwrap().is_bare());
}

#[test]
fn identifier_parse_edge_cases() {
    // Upper-case hex is accepted, and printed back in lower case.
    let id = LettaId::from_str("agent-550E8400-E29B-41D4-A716-446655440000").unwrap();
    assert_eq!(id.as_str(), "agent-550e8400-e29b-41d4-a716-446655440000");
    // A prefix may hold non-ASCII letters only where the character before the UUID is
    // found at the byte offset: here it is not, so the text is refused.
    assert!(LettaId::from_str("café-550e8400-e29b-41d4-a716-446655440000").is_err());
    // Spaces are not allowed in a prefix.
    assert!(LettaId::from_str("a b-550e8400-e29b-41d4-a716-446655440000").is_err());
    // A prefix needs an alphanumeric character.
    assert!(LettaId::from_str("__-550e8400-e29b-41d4-a716-446655440000").is_err());
    let err = LettaId::from_str("nope").unwrap_err();
    assert_eq!(err.to_string(), "Invalid LettaId format: nope");
    assert!(LettaId::parse("nope").unwrap().is_err());
}

// Keyed maps.

#[test]
fn map_insert_then_lookup() {
    let mut m = StringMap::new();
    m.insert("a".to_string(), "1".to_string());
    m.insert("b".to_string(), "2".to_string());
    m.insert("a".to_string(), "3".to_string());
    assert_eq!(m.len(), 2);
    assert_eq!(m.get("a").map(|s| s.as_str()), Some("3"));
    assert_eq!(m.get("b").map(|s| s.as_str()), Some("2"));
    assert_eq!(m.get("c"), None);
}

// Tool rules.

#[test]
fn prompt_template_replaces_the_previous_one() {
    let rule = ToolRule::child("search", "answer")
        .with_prompt_template("first")
        .with_prompt_template("second");
    assert_eq!(rule.tool_name(), "search");
    match rule {
        ToolRule::Child { prompt_template, child_tool_name, .. } => {
            assert_eq!(prompt_template.as_deref(), Some("second"));
            assert_eq!(child_tool_name, "answer");
        }
        _ => panic!("expected a child rule"),
    }
}

// Provider names.

#[test]
fn provider_names_parse_back() {
    for p in [ProviderType::Anthropic, ProviderType::GoogleAi, ProviderType::LmStudio, ProviderType::Other] {
        assert_eq!(ProviderType::from_str(p.as_str()), Ok(p));
    }
    assert_eq!(
        ProviderType::from_str("nobody"),
        Err("Unknown provider type: nobody".to_string())
    );
}

// Environments and client settings.

#[test]
fn environment_kinds_are_exclusive() {
    for e in [LettaEnvironment::Cloud, LettaEnvironment::SelfHosted] {
        assert_ne!(e.is_cloud(), e.is_self_hosted());
    }
}

#[test]
fn explicit_base_url_overrides_environment() {
    assert_eq!(
        client_base_url(Some(LettaEnvironment::SelfHosted), Some("http://x:1".to_string())),
        "http://x:1"
    );
    assert_eq!(client_base_url(Some(LettaEnvironment::SelfHosted), None), "http://localhost:8283");
    assert_eq!(client_base_url(None, None), "https://api.letta.com");
    assert!(warns_missing_auth(None, false, false));
    assert!(!warns_missing_auth(None, true, false));
    assert!(!warns_missing_auth(Some(LettaEnvironment::SelfHosted), false, false));
    assert!(!warns_missing_auth(Some(LettaEnvironment::Cloud), false, true));
}

#[test]
fn custom_headers_are_checked() {
    let (name, value) = check_header("X-Project", "proj-1").unwrap();
    assert_eq!(name.as_str(), "x-project");
    assert_eq!(value.to_str().unwrap(), "proj-1");
    let err = check_header("bad name", "v").unwrap_err();
    assert_eq!(err.to_string(), "Validation error: Invalid header name: bad name");
    let err = check_header("user-id", "a\nb").unwrap_err();
    assert_eq!(err.to_string(), "Validation error: Invalid header value for user-id: a\nb");
}

// Authentication.

#[test]
fn token_length_limit_is_inclusive() {
    assert!(AuthConfig::bearer(&"a".repeat(1024)).validate().is_ok());
    let err = AuthConfig::bearer(&"a".repeat(1025)).validate().unwrap_err();
    assert_eq!(err.to_string(), "Authentication failed: Bearer token is too long (max 1024 characters)");
    let err = AuthConfig::bearer("  ").validate().unwrap_err();
    assert_eq!(err.to_string(), "Authentication failed: Bearer token cannot be empty");
}

#[test]
fn unusable_token_is_refused_by_headers() {
    let mut headers = HeaderMap::new();
    let err = AuthConfig::bearer("a\u{1}b").apply_to_headers(&mut headers).unwrap_err();
    assert_eq!(err.to_string(), "Authentication failed: Invalid bearer token format");
    assert!(!headers.contains_key(AUTHORIZATION));
}

// Errors.

#[test]
fn status_mapping_covers_every_kind() {
    assert!(matches!(LettaError::from_response(401, "nope".to_string()), LettaError::Auth { .. }));
    let e = LettaError::from_response(404, "plain".to_string());
    assert!(matches!(e, LettaError::Api { status: 404, .. }));
    assert_eq!(e.to_string(), "API error 404: plain");
    let e = LettaError::from_response_with_headers(429, "".to_string(), Some("7".to_string()));
    assert!(matches!(e, LettaError::RateLimit { retry_after: Some(7) }));
    assert_eq!(e.to_string(), "Rate limit exceeded. Retry after Some(7) seconds");
    let e = LettaError::from_response(429, "".to_string());
    assert_eq!(e.to_string(), "Rate limit exceeded. Retry after None seconds");
    let e = LettaError::from_response(408, "".to_string());
    assert_eq!(e.to_string(), "Request timed out after 60 seconds");
    let e = LettaError::from_response(418, "".to_string());
    assert_eq!(e.to_string(), "API error 418: HTTP 418");
    let e = LettaError::from_response(422, r#"{"field": "age", "errors": 1}"#.to_string());
    assert!(matches!(&e, LettaError::Validation { field: Some(f), .. } if f == "age"));
}

#[test]
fn default_status_messages() {
    assert_eq!(LettaError::default_message_for_status(400), "Bad Request");
    assert_eq!(LettaError::default_message_for_status(503), "Service Unavailable");
    assert_eq!(LettaError::default_message_for_status(777), "HTTP 777");
}

#[test]
fn display_and_codes_of_constructed_errors() {
    let e = LettaError::not_found("Agent", "agent-1");
    assert_eq!(e.to_string(), "Resource not found: Agent with ID agent-1");
    assert_eq!(e.diagnostic_code(), "letta::not_found");
    let e = LettaError::streaming("broken");
    assert_eq!(e.to_string(), "Streaming error: broken");
    assert_eq!(e.diagnostic_code(), "letta::streaming");
    let e = LettaError::config("no url");
    assert_eq!(e.to_string(), "Configuration error: no url");
    assert_eq!(e.diagnostic_code(), "letta::config");
    let e = LettaError::validation_field("bad", "name");
    assert_eq!(
        e.help().as_deref(),
        Some("Check the 'name' field value and ensure it meets the API requirements.")
    );
    assert_eq!(LettaError::rate_limit(Some(3)).help().as_deref(), Some("Wait 3 seconds before making another request."));
    assert!(matches!(LettaError::auth("x").severity(), Some(Severity::Error)));
}

#[test]
fn resource_info_patterns() {
    assert_eq!(
        LettaError::extract_resource_info("Block 'human' not found"),
        Some(("Block".to_string(), "human".to_string()))
    );
    assert_eq!(LettaError::extract_resource_info("found nothing"), None);
}

#[test]
fn error_body_text_is_reduced_to_pre() {
    let body = ErrorBody::from_response("<html><pre>Oops</pre></html>");
    assert_eq!(body.message(), Some("Oops".to_string()));
    assert!(!body.is_validation_error());
}

#[test]
fn json_error_bodies_are_classified() {
    let body = ErrorBody::from_response(r#"{"error": "x"}"#);
    assert!(matches!(body, ErrorBody::Json(_)));
    let body = ErrorBody::from_response(r#"{"detail": "He said \"hi\""}"#);
    assert_eq!(body.as_str(), r#"{"detail":"He said \"hi\""}"#);
}

// Retries.

#[test]
fn retries_stop_at_the_attempt_limit() {
    let timeout = LettaError::request_timeout(5);
    assert_eq!(next_retry_action(3, 0, &timeout), RetryAction::Backoff(0));
    assert_eq!(next_retry_action(3, 2, &timeout), RetryAction::GiveUp);
    let limited = LettaError::rate_limit(Some(9));
    assert_eq!(next_retry_action(3, 1, &limited), RetryAction::WaitSeconds(9));
    assert_eq!(next_retry_action(3, 0, &LettaError::auth("x")), RetryAction::GiveUp);
}

// Pagination.

#[test]
fn next_page_follows_the_last_cursor() {
    let params = PaginationParams::new().limit(2).before("z");
    let next = next_page_params(params, 2, 2, Some("c2".to_string())).unwrap();
    assert_eq!(next.after.as_deref(), Some("c2"));
    assert_eq!(next.before, None);
    assert_eq!(next.limit, Some(2));
    assert!(next_page_params(PaginationParams::new(), 2, 1, Some("c".to_string())).is_none());
    assert!(next_page_params(PaginationParams::new(), 2, 2, None).is_none());
    assert_eq!(page_limit(&None), DEFAULT_PAGE_LIMIT);
    assert_eq!(page_limit(&Some(PaginationParams::new().limit(5))), 5);
    assert_eq!(first_page_params(None).limit, None);
}

// Streaming.

#[test]
fn stream_payloads() {
    assert!(carries_payload("{}"));
    assert!(!carries_payload(""));
    assert!(!carries_payload("[DONE]"));
    assert_eq!(stream_error_message("eof"), "SSE stream error: eof");
}

// Command-line decisions.

const GOOD_SOURCE: &str = "def f(x):\n    \"\"\"Do it.\n\n    Args:\n        x: thing\n\n    Returns:\n        y\n    \"\"\"\n";

#[test]
fn tool_schema_problems_are_reported_in_order() {
    assert_eq!(
        validate_tool_schema(&doc("[1]")),
        Err("Schema must be a JSON object".to_string())
    );
    assert!(validate_tool_schema(&doc("{}")).unwrap_err().starts_with("Schema missing required field 'name'."));
    assert_eq!(
        validate_tool_schema(&doc(r#"{"name": 3}"#)),
        Err("Field 'name' must be a string".to_string())
    );
    assert_eq!(
        validate_tool_schema(&doc(r#"{"name": "t", "parameters": {"type": "array", "properties": {}}}"#)),
        Err("Parameters 'type' should be \"object\", got: \"array\"".to_string())
    );
    assert_eq!(
        validate_tool_schema(&doc(r#"{"name": "t", "parameters": {"type": "object", "properties": {"a": 1}}}"#)),
        Err("Property 'a' must be an object with 'type' and 'description' fields".to_string())
    );
    assert!(validate_tool_schema(&doc(
        r#"{"name": "t", "parameters": {"type": "object", "properties": {"a": {"type": "string"}}}}"#
    ))
    .unwrap_err()
    .starts_with("Property 'a' missing 'description' field."));
    assert_eq!(
        validate_tool_schema(&doc(r#"{"name": "t", "parameters": {"type": "object", "properties": {}}}"#)),
        Ok(Some(
            "Warning: Schema missing 'description' field. It's recommended to include a tool description."
                .to_string()
        ))
    );
}

#[test]
fn docstring_problems_are_reported() {
    assert!(validate_python_docstring("def f(): pass", "f").unwrap_err().starts_with("Function 'f' missing docstring."));
    assert_eq!(
        validate_python_docstring("def f():\n    '''open", "f"),
        Err("Malformed docstring - missing closing triple quotes".to_string())
    );
    assert!(validate_python_docstring("def f():\n    \"\"\"Nothing.\"\"\"", "f")
        .unwrap_err()
        .starts_with("Docstring missing 'Args:' section."));
    assert_eq!(
        validate_python_docstring("'''Parameters: x'''", "f"),
        Ok(Some(
            "Warning: Docstring missing 'Returns:' section. It's recommended to document return values."
                .to_string()
        ))
    );
    assert_eq!(validate_python_docstring(GOOD_SOURCE, "f"), Ok(None));
}

#[test]
fn tool_draft_takes_defaults_from_the_schema() {
    let schema = doc(r#"{"name": "f", "description": "does f", "parameters": {"type": "object", "properties": {"x": {"type": "string", "description": "thing"}}}}"#);
    let draft = draft_tool(GOOD_SOURCE.to_string(), schema, None, None, vec![], Some(100)).unwrap();
    assert_eq!(draft.name, "f");
    assert_eq!(draft.request.description.as_deref(), Some("does f"));
    assert!(draft.request.tags.is_none());
    assert_eq!(draft.request.return_char_limit, Some(100));
    assert_eq!(
        draft.request.args_json_schema.unwrap().as_text(),
        r#"{"properties":{"x":{"description":"thing","type":"string"}},"type":"object"}"#
    );
    assert!(draft.warnings.is_empty());
    let bad = draft_tool("no doc".to_string(), doc(r#"{"name": "f", "parameters": {"type": "object", "properties": {}}}"#), None, None, vec!["t".to_string()], None);
    assert!(bad.unwrap_err().starts_with("Function 'f' missing docstring."));
}

#[test]
fn roles_and_confirmations() {
    assert_eq!(message_role_for("System"), (MessageRole::System, None));
    assert_eq!(
        message_role_for("robot"),
        (MessageRole::User, Some("Invalid role: robot. Using 'user'.".to_string()))
    );
    assert!(answer_confirms(" Y\n"));
    assert!(!answer_confirms("yes"));
}

#[test]
fn upload_content_types() {
    assert_eq!(content_type_for_extension("pdf"), Some("application/pdf"));
    assert_eq!(content_type_for_extension("docx"), Some("application/msword"));
    assert_eq!(content_type_for_extension("PDF"), None);
    assert_eq!(content_type_for_extension("exe"), None);
}

#[test]
fn import_path_carries_the_set_options() {
    assert_eq!(import_agent_path(&ImportAgentRequest::default()), "v1/agents/import");
    let request = ImportAgentRequest {
        append_copy_suffix: Some(true),
        override_existing_tools: None,
        project_id: Some(LettaId::new_prefixed("project", 10)),
        strip_messages: Some(false),
    };
    assert_eq!(
        import_agent_path(&request),
        "v1/agents/import?append_copy_suffix=true&project_id=project-00000000-0000-0000-0000-00000000000a&strip_messages=false"
    );
}

#[test]
fn agent_type_and_role_names() {
    assert_eq!(AgentType::from_name(AgentType::VoiceSleeptime.as_str()), AgentType::VoiceSleeptime);
    assert_eq!(AgentType::MemGPTv2.as_str(), "memgpt_v2_agent");
    assert_eq!(AgentType::from_name("something_new"), AgentType::Other);
    assert_eq!(MessageRole::from_name("function"), Some(MessageRole::Function));
    assert_eq!(MessageRole::from_name("User"), None);
    assert_eq!(MessageRole::Assistant.as_str(), "assistant");
}

#[test]
fn conversions_into_library_types() {
    let c: MessageCreateContent = "hi".into();
    assert!(matches!(c, MessageCreateContent::String(ref s) if s == "hi"));
    let c: MessageCreateContent = String::from("yo").into();
    assert!(matches!(c, MessageCreateContent::String(ref s) if s == "yo"));
    let t: TagSchema = "prod".into();
    assert_eq!(t.to_string(), "prod");
    let id = LettaId::new_prefixed("agent", 1);
    let text: String = (&id).into();
    assert_eq!(text, "agent-00000000-0000-0000-0000-000000000001");
    let text: String = id.into();
    assert_eq!(text, "agent-00000000-0000-0000-0000-000000000001");
}

#[test]
fn message_request_from_the_command_line() {
    let (request, warning) = letta::cli::message_request("hello", "ASSISTANT", Some(3));
    assert_eq!(warning, None);
    assert_eq!(request.messages.len(), 1);
    assert_eq!(request.messages[0].role, MessageRole::Assistant);
    assert!(matches!(&request.messages[0].content, MessageCreateContent::String(s) if s == "hello"));
    assert_eq!(request.max_steps, Some(3));
    let (request, warning) = letta::cli::message_request("x", "bot", None);
    assert_eq!(request.messages[0].role, MessageRole::User);
    assert_eq!(warning.as_deref(), Some("Invalid role: bot. Using 'user'."));
}

#[test]
fn environment_tokens_pick_the_first_usable_one() {
    let picked = auth_from_env_values(&[None, Some("   ".to_string()), Some(" tok \n".to_string())]);
    assert_eq!(picked.map(|a| a.to_string()), Some("Bearer token authentication".to_string()));
    assert!(matches!(
        auth_from_env_values(&[Some("a".to_string()), Some("b".to_string())]),
        Some(AuthConfig::Bearer { ref token }) if token == "a"
    ));
    assert!(auth_from_env_values(&[None, None, None]).is_none());
}

fn pair(k: &str, v: &str) -> (String, String) {
    (k.to_string(), v.to_string())
}

#[test]
fn listing_queries() {
    assert_eq!(i32_text(-42), "-42");
    assert_eq!(i32_text(i32::MIN), "-2147483648");
    let q = models_query(Some(ListModelsParams {
        provider_category: Some(vec![ProviderCategory::Base, ProviderCategory::Byok]),
        provider_name: None,
        provider_type: Some("openai".to_string()),
    }));
    assert_eq!(
        q,
        vec![pair("provider_category", "base"), pair("provider_category", "byok"), pair("provider_type", "openai")]
    );
    assert!(models_query(None).is_empty());
    let q = providers_query(Some(ListProvidersParams {
        provider_category: None,
        provider_type: Some(ProviderType::GoogleAi),
        after: None,
        limit: Some(5),
    }));
    assert_eq!(q, vec![pair("provider_type", "google_ai"), pair("limit", "5")]);
    let q = tags_query(Some(ListTagsParams { after: None, limit: None, query_text: Some("x".to_string()) }));
    assert_eq!(q, vec![pair("queryText", "x")]);
    assert_eq!(
        templates_query(None, Some("3".to_string()), None, Some("p".to_string())),
        vec![pair("limit", "3"), pair("project_id", "p")]
    );
    assert_eq!(
        active_jobs_query(Some(JobStatus::Completed), Some(2)),
        vec![pair("status", "\"completed\""), pair("limit", "2")]
    );
    let id = LettaId::new_prefixed("source", 2);
    assert_eq!(
        jobs_query(None, None, Some(&id)),
        vec![pair("source_id", "source-00000000-0000-0000-0000-000000000002")]
    );
    let ids = vec![LettaId::new_prefixed("agent", 1), LettaId::new_bare(2)];
    assert_eq!(
        runs_query(&ids),
        vec![pair(
            "agent_ids",
            "agent-00000000-0000-0000-0000-000000000001,00000000-0000-0000-0000-000000000002"
        )]
    );
    assert_eq!(runs_query(&[]), vec![pair("agent_ids", "")]);
}

#[test]
fn response_format_from_schema_text() {
    let f = ResponseFormat::json_with_schema(r#"{"type": "object"}"#).unwrap();
    assert_eq!(f.format_type, ResponseFormatType::JsonObject);
    assert_eq!(f.json_schema.unwrap().as_text(), r#"{"type":"object"}"#);
    let e = ResponseFormat::json_with_schema("{nope").unwrap_err();
    assert!(matches!(e, LettaError::Serde { .. }));
    assert_eq!(e.to_string(), "Serialization error");
}

#[test]
fn responses_are_retried_by_status() {
    for (status, retried) in [(408u16, true), (429, true), (500, true), (501, true), (504, true), (400, false), (401, false), (404, false), (422, false), (499, false)] {
        let e = LettaError::from_response(status, "".to_string());
        assert_eq!(e.is_retryable(), retried, "status {}", status);
    }
}
