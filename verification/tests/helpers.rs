use letta::json::JsonDoc;
use letta::types::agent::{AgentType, CreateAgentRequest};
use letta::types::memory::Block;
use letta::types::message::{MessageCreate, MessageCreateContent, MessageRole};
use letta::types::tool::CreateToolRequest;

fn test_agent(name: &str) -> CreateAgentRequest {
    CreateAgentRequest {
        name: Some(name.to_string()),
        agent_type: Some(AgentType::MemGPT),
        model: Some("letta/letta-free".to_string()),
        embedding: Some("letta/letta-free".to_string()),
        ..Default::default()
    }
}

fn test_human_block(name: &str) -> Block {
    Block::human(&format!("The human's name is {}", name)).with_limit(2000)
}

fn test_echo_tool(name: &str) -> CreateToolRequest {
    let schema = format!(
        r#"{{"name": "{}", "description": "Echoes back the input message", "parameters": {{"type": "object", "properties": {{"message": {{"type": "string", "description": "The message to echo"}}}}, "required": ["message"]}}}}"#,
        name
    );
    let args = r#"{"type": "object", "properties": {"message": {"type": "string", "description": "The message to echo"}}, "required": ["message"]}"#;
    CreateToolRequest {
        description: Some("Echoes back the input message".to_string()),
        source_code: format!(
            r#"
def {}(message: str) -> str:
    """
    Echo the input message.
    
    Args:
        message: The message to echo
    
    Returns:
        str: The echoed message
    """
    return message
"#,
            name
        ),
        json_schema: JsonDoc::parse(&schema),
        args_json_schema: JsonDoc::parse(args),
        ..Default::default()
    }
}

fn test_user_message(content: &str) -> MessageCreate {
    MessageCreate::user(content)
}

#[test]
fn test_agent_helpers() {
    let agent = test_agent("TestBot");
    assert_eq!(agent.name.as_ref().unwrap(), "TestBot");
    assert_eq!(agent.agent_type, Some(AgentType::MemGPT));
}

#[test]
fn test_memory_helpers() {
    let human = test_human_block("Alice");
    assert!(human.value.contains("Alice"));
    assert_eq!(human.label, "human");
}

#[test]
fn test_tool_helpers() {
    let echo = test_echo_tool("my_echo");
    assert!(echo.source_code.contains("my_echo"));
    assert!(echo.source_code.contains("Echo the input message"));
}

#[test]
fn test_message_helpers() {
    let msg = test_user_message("Hello");
    assert_eq!(msg.role, MessageRole::User);

    if let MessageCreateContent::String(content) = &msg.content {
        assert_eq!(content, "Hello");
    } else {
        panic!("Expected string content");
    }
}

#[test]
fn echo_tool_passes_the_cli_checks() {
    let echo = test_echo_tool("my_echo");
    let schema = echo.json_schema.unwrap();
    assert_eq!(letta::cli::validate_tool_schema(&schema), Ok(None));
    assert_eq!(
        letta::cli::validate_python_docstring(&echo.source_code, "my_echo"),
        Ok(None)
    );
}
