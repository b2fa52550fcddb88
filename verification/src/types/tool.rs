//! Tool-related types.

use vstd::prelude::*;
use crate::json::JsonDoc;
use crate::types::common::{LettaId, Metadata, StringMap};

verus! {

/// Tool type enum.
#[derive(PartialEq, Eq, Structural, Clone, Copy, Debug)]
pub enum ToolType {
    /// Core Letta tools.
    LettaCore,
    /// Memory core tools.
    LettaMemoryCore,
    /// Multi-agent core tools.
    LettaMultiAgentCore,
    /// Sleeptime core tools.
    LettaSleeptimeCore,
    /// Voice sleeptime core tools.
    LettaVoiceSleeptimeCore,
    /// Built-in tools.
    LettaBuiltin,
    /// Files core tools.
    LettaFilesCore,
    /// External Composio tools.
    ExternalComposio,
    /// External LangChain tools.
    ExternalLangchain,
    /// External MCP tools.
    ExternalMcp,
    /// Custom tools.
    Custom,
    /// Other tool types.
    Other,
}

/// Source type enum.
#[derive(PartialEq, Eq, Structural, Clone, Copy, Debug)]
pub enum SourceType {
    /// Python source code.
    Python,
    /// JavaScript source code.
    JavaScript,
    /// Other source types.
    Other,
}

/// Pip requirement for a tool.
#[derive(Debug)]
pub struct PipRequirement {
    /// Package name.
    pub package: String,
    /// Version constraint.
    pub version: Option<String>,
}

/// Tool definition.
#[derive(Debug)]
pub struct Tool {
    /// Tool ID.
    pub id: Option<LettaId>,
    /// Tool type.
    pub tool_type: Option<ToolType>,
    /// Tool description.
    pub description: Option<String>,
    /// Source type.
    pub source_type: Option<SourceType>,
    /// Organization ID.
    pub organization_id: Option<LettaId>,
    /// Tool name.
    pub name: String,
    /// Tags.
    pub tags: Option<Vec<String>>,
    /// Source code.
    pub source_code: Option<String>,
    /// JSON schema.
    pub json_schema: Option<JsonDoc>,
    /// Args JSON schema.
    pub args_json_schema: Option<JsonDoc>,
    /// Return character limit.
    pub return_char_limit: Option<u32>,
    /// Pip requirements.
    pub pip_requirements: Option<Vec<PipRequirement>>,
    /// Created by user ID.
    pub created_by_id: Option<LettaId>,
    /// Last updated by user ID.
    pub last_updated_by_id: Option<LettaId>,
    /// Tool metadata.
    pub metadata: Option<Metadata>,
    /// When the tool was created.
    pub created_at: Option<String>,
    /// When the tool was last updated.
    pub updated_at: Option<String>,
}

/// Tool creation request.
///
/// # Important Requirements
///
/// Letta has strict validation requirements for tool creation:
///
/// 1. **Docstring is MANDATORY**: The Python function in `source_code` MUST have a docstring,
///    even if you provide `json_schema` and `args_json_schema`.
///
/// 2. **Parameter Documentation**: The docstring MUST include an `Args:` section that documents
///    each parameter. Without this, you'll get errors like:
///    `"Parameter 'param_name' in function 'function_name' lacks a description in the docstring"`
///
/// 3. **Returns Documentation**: The docstring should include a `Returns:` section.
///
/// 4. **Schema Requirements**: For best results, provide both:
///    - `json_schema`: The full OpenAI-style function schema
///    - `args_json_schema`: Just the parameters/arguments schema
///
/// # Example
///
/// ```python
/// def my_tool(message: str) -> str:
///     """
///     Process the given message.
///     
///     Args:
///         message: The message to process
///     
///     Returns:
///         str: The processed message
///     """
///     return f"Processed: {message}"
/// ```
#[derive(Debug)]
pub struct CreateToolRequest {
    /// Tool description.
    pub description: Option<String>,
    /// Tags.
    pub tags: Option<Vec<String>>,
    /// Source code.
    ///
    /// The Python function code. MUST include a properly formatted docstring with Args and Returns sections.
    pub source_code: String,
    /// Source type.
    pub source_type: Option<SourceType>,
    /// JSON schema.
    ///
    /// Full OpenAI-style function schema including name, description, and parameters.
    pub json_schema: Option<JsonDoc>,
    /// Args JSON schema.
    ///
    /// Schema for just the function arguments/parameters. Should match the parameters
    /// section of json_schema. Required for proper validation even if json_schema is provided.
    pub args_json_schema: Option<JsonDoc>,
    /// Return character limit.
    pub return_char_limit: Option<u32>,
    /// Pip requirements.
    pub pip_requirements: Option<Vec<PipRequirement>>,
}

impl Default for CreateToolRequest {
    /// Every field empty.
    fn default() -> (r: Self)
        ensures
            r.description is None,
            r.tags is None,
            r.source_code@.len() == 0,
            r.source_type is None,
            r.json_schema is None,
            r.args_json_schema is None,
            r.return_char_limit is None,
            r.pip_requirements is None,
    {
        CreateToolRequest {
            description: None,
            tags: None,
            source_code: String::new(),
            source_type: None,
            json_schema: None,
            args_json_schema: None,
            return_char_limit: None,
            pip_requirements: None,
        }
    }
}

/// Query parameters for listing tools.
#[derive(Debug)]
pub struct ListToolsParams {
    /// Limit number of results.
    pub limit: Option<u32>,
    /// Pagination cursor (before).
    pub before: Option<String>,
    /// Pagination cursor (after).
    pub after: Option<String>,
    /// Filter by tool name.
    pub name: Option<String>,
}

impl Default for ListToolsParams {
    /// Every field empty.
    fn default() -> (r: Self)
        ensures
            r.limit is None,
            r.before is None,
            r.after is None,
            r.name is None,
    {
        ListToolsParams {
            limit: None,
            before: None,
            after: None,
            name: None,
        }
    }
}

/// Tool update request.
#[derive(Debug)]
pub struct UpdateToolRequest {
    /// Tool description.
    pub description: Option<String>,
    /// Source code.
    pub source_code: Option<String>,
    /// Tags.
    pub tags: Option<Vec<String>>,
    /// Return character limit.
    pub return_char_limit: Option<u32>,
    /// Pip requirements.
    pub pip_requirements: Option<Vec<PipRequirement>>,
    /// Tool metadata.
    pub metadata: Option<Metadata>,
}

impl Default for UpdateToolRequest {
    /// Every field empty.
    fn default() -> (r: Self)
        ensures
            r.description is None,
            r.source_code is None,
            r.tags is None,
            r.return_char_limit is None,
            r.pip_requirements is None,
            r.metadata is None,
    {
        UpdateToolRequest {
            description: None,
            source_code: None,
            tags: None,
            return_char_limit: None,
            pip_requirements: None,
            metadata: None,
        }
    }
}

/// MCP server type enum.
#[derive(PartialEq, Eq, Structural, Clone, Copy, Debug)]
pub enum McpServerType {
    /// Server-sent events.
    Sse,
    /// Standard I/O.
    Stdio,
    /// Streamable HTTP.
    StreamableHttp,
}

/// Configuration for an MCP server using SSE.
#[derive(Debug)]
pub struct SseServerConfig {
    /// The name of the server.
    pub server_name: String,
    /// Server type.
    pub server_type: Option<McpServerType>,
    /// The URL of the server (MCP SSE client will connect to this URL).
    pub server_url: String,
    /// The name of the authentication header (e.g., 'Authorization').
    pub auth_header: Option<String>,
    /// The authentication token or API key value.
    pub auth_token: Option<String>,
    /// Custom HTTP headers to include with SSE requests.
    pub custom_headers: Option<StringMap>,
}

/// Configuration for an MCP server using STDIO.
#[derive(Debug)]
pub struct StdioServerConfig {
    /// The name of the server.
    pub server_name: String,
    /// Server type.
    pub server_type: Option<McpServerType>,
    /// The command to run (MCP 'local' client will run this command).
    pub command: String,
    /// The arguments to pass to the command.
    pub args: Vec<String>,
    /// Environment variables to set.
    pub env: Option<StringMap>,
}

/// Configuration for an MCP server using Streamable HTTP.
#[derive(Debug)]
pub struct StreamableHttpServerConfig {
    /// The name of the server.
    pub server_name: String,
    /// Server type.
    pub server_type: Option<McpServerType>,
    /// The URL path for the streamable HTTP server (e.g., 'example/mcp').
    pub server_url: String,
    /// The name of the authentication header (e.g., 'Authorization').
    pub auth_header: Option<String>,
    /// The authentication token or API key value.
    pub auth_token: Option<String>,
    /// Custom HTTP headers to include with streamable HTTP requests.
    pub custom_headers: Option<StringMap>,
}

/// MCP server configuration (union type).
#[derive(Debug)]
pub enum McpServerConfig {
    /// SSE server configuration.
    Sse(SseServerConfig),
    /// STDIO server configuration.
    Stdio(StdioServerConfig),
    /// Streamable HTTP server configuration.
    StreamableHttp(StreamableHttpServerConfig),
}

/// Update request for SSE MCP server.
#[derive(Debug)]
pub struct UpdateSseMcpServer {
    /// The name of the server.
    pub server_name: Option<String>,
    /// The URL of the server (MCP SSE client will connect to this URL).
    pub server_url: Option<String>,
    /// The access token or API key for the MCP server (used for SSE authentication).
    pub token: Option<String>,
}

impl Default for UpdateSseMcpServer {
    /// Every field empty.
    fn default() -> (r: Self)
        ensures
            r.server_name is None,
            r.server_url is None,
            r.token is None,
    {
        UpdateSseMcpServer {
            server_name: None,
            server_url: None,
            token: None,
        }
    }
}

/// Update request for Streamable HTTP MCP server.
#[derive(Debug)]
pub struct UpdateStreamableHttpMcpServer {
    /// The name of the server.
    pub server_name: Option<String>,
    /// The URL of the server.
    pub server_url: Option<String>,
    /// The access token or API key for the MCP server.
    pub token: Option<String>,
}

impl Default for UpdateStreamableHttpMcpServer {
    /// Every field empty.
    fn default() -> (r: Self)
        ensures
            r.server_name is None,
            r.server_url is None,
            r.token is None,
    {
        UpdateStreamableHttpMcpServer {
            server_name: None,
            server_url: None,
            token: None,
        }
    }
}

/// Update MCP server request (union type).
#[derive(Debug)]
pub enum UpdateMcpServerRequest {
    /// Update SSE server.
    Sse(UpdateSseMcpServer),
    /// Update Streamable HTTP server.
    StreamableHttp(UpdateStreamableHttpMcpServer),
}

/// MCP tool definition.
#[derive(Debug)]
pub struct McpTool {
    /// Tool name.
    pub name: String,
    /// Tool description.
    pub description: Option<String>,
    /// Input schema.
    pub input_schema: JsonDoc,
    /// Tool annotations.
    pub annotations: Option<ToolAnnotations>,
}

/// Tool annotations.
#[derive(Debug)]
pub struct ToolAnnotations {
    /// Additional annotations.
    pub additional_properties: Metadata,
}

/// Request to test an MCP server.
#[derive(Debug)]
pub struct TestMcpServerRequest {
    /// Server configuration to test.
    pub config: McpServerConfig,
}

/// Request to run a tool from source code.
#[derive(Debug)]
pub struct RunToolFromSourceRequest {
    /// Source code of the function to run.
    pub source_code: String,
    /// Arguments to pass to the tool.
    pub args: JsonDoc,
    /// Environment variables.
    pub env_vars: Option<StringMap>,
    /// Tool name.
    pub name: Option<String>,
    /// Source type (e.g., "python").
    pub source_type: Option<SourceType>,
    /// Args JSON schema for validation.
    pub args_json_schema: Option<JsonDoc>,
    /// Full JSON schema.
    pub json_schema: Option<JsonDoc>,
    /// Pip requirements.
    pub pip_requirements: Option<Vec<PipRequirement>>,
}

impl Default for RunToolFromSourceRequest {
    /// No source, `null` arguments, every other field empty.
    fn default() -> (r: Self)
        ensures
            r.source_code@.len() == 0,
            r.args@.value == crate::json::JsonValueView::Null,
            r.args@.text == "null"@,
            r.env_vars is None,
            r.name is None,
            r.source_type is None,
            r.args_json_schema is None,
            r.json_schema is None,
            r.pip_requirements is None,
    {
        RunToolFromSourceRequest {
            source_code: String::new(),
            args: JsonDoc { value: crate::json::JsonValue::Null, text: String::from_str("null") },
            env_vars: None,
            name: None,
            source_type: None,
            args_json_schema: None,
            json_schema: None,
            pip_requirements: None,
        }
    }
}

/// Response from running a tool from source.
#[derive(Debug)]
pub struct RunToolFromSourceResponse {
    /// Response ID (may be "null" string from API).
    pub id: String,
    /// Date of execution.
    pub date: String,
    /// Tool return value.
    pub tool_return: String,
    /// Execution status.
    pub status: ToolExecutionStatus,
    /// Tool call ID (may be "null" string from API).
    pub tool_call_id: String,
    /// Tool name.
    pub name: Option<String>,
    /// Message type.
    pub message_type: String,
    /// Optional trace ID.
    pub otid: Option<String>,
    /// Sender ID.
    pub sender_id: Option<String>,
    /// Step ID.
    pub step_id: Option<String>,
    /// Standard output.
    pub stdout: Option<Vec<String>>,
    /// Standard error.
    pub stderr: Option<Vec<String>>,
}

/// Tool execution status.
#[derive(PartialEq, Eq, Structural, Clone, Copy, Debug)]
pub enum ToolExecutionStatus {
    /// Tool executed successfully.
    Success,
    /// Tool execution failed.
    Error,
}

/// Authentication mode for Composio apps.
#[derive(PartialEq, Eq, Structural, Clone, Copy, Debug)]
pub enum AppAuthSchemeAuthMode {
    /// OAuth 2.0 authentication.
    Oauth2,
    /// API key authentication.
    ApiKey,
    /// Basic authentication.
    Basic,
    /// No authentication required.
    NoAuth,
}

/// Field type for authentication scheme fields.
#[derive(PartialEq, Eq, Structural, Clone, Copy, Debug)]
pub enum AuthSchemeFieldType {
    /// Text field.
    Text,
    /// Password field.
    Password,
    /// Select field.
    Select,
}

/// Authentication scheme field configuration.
#[derive(Debug)]
pub struct AuthSchemeField {
    /// Field name.
    pub name: String,
    /// Display name.
    pub display_name: Option<String>,
    /// Field description.
    pub description: Option<String>,
    /// Field type.
    pub field_type: AuthSchemeFieldType,
    /// Whether the field is required.
    pub required: Option<bool>,
    /// Field options (for select type).
    pub options: Option<Vec<String>>,
    /// Default value.
    pub default: Option<String>,
}

/// Authentication scheme for a Composio app.
#[derive(Debug)]
pub struct AppAuthScheme {
    /// Scheme identifier.
    pub scheme_name: String,
    /// Authentication mode.
    pub auth_mode: AppAuthSchemeAuthMode,
    /// Authentication fields.
    pub fields: Vec<AuthSchemeField>,
    /// Proxy configuration.
    pub proxy: Option<JsonDoc>,
}

/// Composio app model.
#[derive(Debug)]
pub struct AppModel {
    /// App name.
    pub name: String,
    /// App key.
    pub key: String,
    /// App ID.
    pub app_id: String,
    /// App description.
    pub description: String,
    /// App categories.
    pub categories: Vec<String>,
    /// App metadata.
    pub meta: JsonDoc,
    /// App logo URL.
    pub logo: Option<String>,
    /// Documentation URL.
    pub docs: Option<String>,
    /// App group.
    pub group: Option<String>,
    /// App status.
    pub status: Option<String>,
    /// Whether the app is enabled.
    pub enabled: Option<bool>,
    /// Whether the app requires no authentication.
    pub no_auth: Option<bool>,
    /// Authentication schemes.
    pub auth_schemes: Option<Vec<AppAuthScheme>>,
    /// Test connectors.
    pub test_connectors: Option<Vec<JsonDoc>>,
    /// Triggers.
    pub triggers: Option<Vec<JsonDoc>>,
    /// Documentation sections.
    pub docs_sections: Option<JsonDoc>,
}

/// Action parameters/response model.
#[derive(Debug)]
pub struct ActionParametersModel {
    /// Schema properties.
    pub properties: Metadata,
    /// Schema title.
    pub title: String,
    /// Schema type.
    pub schema_type: String,
    /// Required fields.
    pub required: Option<Vec<String>>,
    /// Schema examples.
    pub examples: Option<Vec<JsonDoc>>,
}

/// Composio action model.
#[derive(Debug)]
pub struct ActionModel {
    /// Action name.
    pub name: String,
    /// Action description.
    pub description: String,
    /// Action parameters schema.
    pub parameters: ActionParametersModel,
    /// Action response schema.
    pub response: ActionParametersModel,
    /// Parent app name.
    pub app_name: String,
    /// Parent app ID.
    pub app_id: String,
    /// Action version.
    pub version: String,
    /// Available versions.
    pub available_versions: Vec<String>,
    /// Action tags.
    pub tags: Vec<String>,
    /// App logo URL.
    pub logo: Option<String>,
    /// Display name.
    pub display_name: Option<String>,
    /// Whether the action is enabled.
    pub enabled: Option<bool>,
}

} // verus!
