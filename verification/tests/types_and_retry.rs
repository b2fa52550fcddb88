use letta::error::{ErrorBody, LettaError};
use letta::json::JsonDoc;
use letta::retry::Retryable;
use letta::types::agent::{AgentType, CreateAgentRequest, ListAgentsParams, ResponseFormat};
use letta::types::common::{LettaId, Metadata};
use letta::types::memory::Block;
use std::time::Duration;

#[test]
fn test_error_retryability() {
    let error = LettaError::RateLimit {
        retry_after: Some(60),
    };
    assert!(error.is_retryable());
    assert_eq!(error.retry_after(), Some(Duration::from_secs(60)));

    let error = LettaError::Api {
        status: 503,
        message: "Service unavailable".to_string(),
        code: None,
        body: ErrorBody::Text(String::new()),
        url: Some("http://example.com/path".to_string()),
        method: Some("GET".to_string()),
    };
    assert!(error.is_retryable());

    let error = LettaError::NotFound {
        resource_type: "agent".to_string(),
        id: "123".to_string(),
    };
    assert!(!error.is_retryable());
}

#[test]
fn test_metadata() {
    let mut metadata = Metadata::new();
    assert!(metadata.is_empty());

    metadata.insert("key".to_string(), JsonDoc::parse("\"value\"").unwrap());
    assert!(!metadata.is_empty());
    assert!(metadata.get("key").is_some());
}

#[test]
fn test_letta_id_bare_uuid() {
    let uuid_str = "550e8400-e29b-41d4-a716-446655440000";
    let id = LettaId::from_str(uuid_str).unwrap();

    assert!(id.is_bare());
    assert_eq!(id.prefix(), None);
    assert_eq!(id.as_str(), uuid_str);
}

#[test]
fn test_letta_id_prefixed() {
    let prefixed_str = "agent-550e8400-e29b-41d4-a716-446655440000";
    let id = LettaId::from_str(prefixed_str).unwrap();

    assert!(!id.is_bare());
    assert_eq!(id.prefix(), Some("agent"));
    assert_eq!(id.as_str(), prefixed_str);
}

#[test]
fn test_letta_id_various_prefixes() {
    let test_cases = vec![
        "run-550e8400-e29b-41d4-a716-446655440000",
        "tool-550e8400-e29b-41d4-a716-446655440000",
        "source-550e8400-e29b-41d4-a716-446655440000",
        "block-550e8400-e29b-41d4-a716-446655440000",
        "memory_block-550e8400-e29b-41d4-a716-446655440000",
    ];

    for case in test_cases {
        let id = LettaId::from_str(case).unwrap();
        assert_eq!(id.as_str(), case);
    }
}

#[test]
fn test_letta_id_invalid() {
    let invalid_cases = vec![
        "not-a-uuid",
        "agent-not-a-uuid",
        "-550e8400-e29b-41d4-a716-446655440000",
        "agent--550e8400-e29b-41d4-a716-446655440000",
    ];

    for case in invalid_cases {
        assert!(LettaId::from_str(case).is_err());
    }
}

fn block(label: &str, value: &str) -> Block {
    Block {
        id: None,
        label: label.to_string(),
        value: value.to_string(),
        limit: Some(5000),
        is_template: false,
        preserve_on_migration: false,
        read_only: false,
        description: None,
        metadata: None,
        name: None,
        organization_id: None,
        created_by_id: None,
        last_updated_by_id: None,
        created_at: None,
        updated_at: None,
    }
}

#[test]
fn test_create_agent_request_builder() {
    let request = CreateAgentRequest::builder()
        .name("My Agent")
        .system("You are helpful")
        .agent_type(AgentType::MemGPTv2)
        .memory_block(block("human", "The human's name is Bob."))
        .memory_block(block("persona", "I am Sam, a helpful assistant."))
        .tags(vec!["test".to_string(), "demo".to_string()])
        .build();

    assert_eq!(request.name.as_deref(), Some("My Agent"));
    assert_eq!(request.memory_blocks.as_ref().unwrap().len(), 2);
    assert_eq!(request.tags.as_ref().unwrap().len(), 2);
}

#[test]
fn test_create_agent_request_builder_extended() {
    let request = CreateAgentRequest::builder()
        .name("Advanced Agent")
        .model("gpt-4")
        .embedding("text-embedding-ada-002")
        .include_base_tools(true)
        .include_multi_agent_tools(true)
        .enable_sleeptime(true)
        .enable_reasoner(true)
        .context_window_limit(8192)
        .max_tokens(2048)
        .max_reasoning_tokens(4096)
        .template(true)
        .tag("production")
        .tag("multiagent")
        .tool("send_message")
        .tool("archival_memory_search")
        .memory_variable("user_name", "Alice")
        .memory_variable("agent_role", "assistant")
        .tool_exec_env_var("API_KEY", "secret123")
        .response_format(ResponseFormat::json(None))
        .build();

    assert_eq!(request.name.as_deref(), Some("Advanced Agent"));
    assert_eq!(request.model.as_deref(), Some("gpt-4"));
    assert_eq!(request.enable_sleeptime, Some(true));
    assert_eq!(request.enable_reasoner, Some(true));
    assert_eq!(request.context_window_limit, Some(8192));
    assert_eq!(request.template, Some(true));
    assert_eq!(request.tags.as_ref().unwrap().len(), 2);
    assert_eq!(request.tools.as_ref().unwrap().len(), 2);
    assert_eq!(request.memory_variables.as_ref().unwrap().len(), 2);
    assert_eq!(
        request
            .tool_exec_environment_variables
            .as_ref()
            .unwrap()
            .len(),
        1
    );
}

#[test]
fn test_list_agents_params_builder() {
    let params = ListAgentsParams::builder()
        .name("test")
        .tags(vec!["production".to_string()])
        .limit(50)
        .query_text("search term")
        .build();

    assert_eq!(params.name.as_deref(), Some("test"));
    assert_eq!(params.limit, Some(50));
}
