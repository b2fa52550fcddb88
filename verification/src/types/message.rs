//! Message-related types for the Letta API.

use vstd::prelude::*;
use crate::json::JsonDoc;
use crate::types::common::{LettaId, Metadata, StringMap};

verus! {

/// Message role.
#[derive(PartialEq, Eq, Structural, Clone, Copy, Debug)]
pub enum MessageRole {
    /// User message.
    User,
    /// Assistant message.
    Assistant,
    /// System message.
    System,
    /// Tool call result.
    Tool,
    /// Function call result (legacy).
    Function,
}

/// The name the API uses for a MessageRole.
pub open spec fn message_role_name(t: MessageRole) -> Seq<char> {
    match t {
        MessageRole::User => "user"@,
        MessageRole::Assistant => "assistant"@,
        MessageRole::System => "system"@,
        MessageRole::Tool => "tool"@,
        MessageRole::Function => "function"@,
    }
}

/// The message role a name denotes (`None` for other names).
pub open spec fn message_role_from_name(s: Seq<char>) -> Option<MessageRole> {
    if s == "user"@ {
        Some(MessageRole::User)
    } else if s == "assistant"@ {
        Some(MessageRole::Assistant)
    } else if s == "system"@ {
        Some(MessageRole::System)
    } else if s == "tool"@ {
        Some(MessageRole::Tool)
    } else if s == "function"@ {
        Some(MessageRole::Function)
    } else {
        None
    }
}

impl MessageRole {
    /// The name the API uses for this value.
    pub fn as_str(&self) -> (r: &'static str)
        ensures
            r@ == message_role_name(*self),
    {
        match self {
            MessageRole::User => "user",
            MessageRole::Assistant => "assistant",
            MessageRole::System => "system",
            MessageRole::Tool => "tool",
            MessageRole::Function => "function",
        }
    }

    /// Reads a value from its name (`None` for other names).
    pub fn from_name(name: &str) -> (r: Option<MessageRole>)
        ensures
            r == message_role_from_name(name@),
    {
        let c = crate::text::chars_of(name);
        if crate::text::chars_eq(&c, &crate::text::chars_of("user")) {
            return Some(MessageRole::User);
        }
        if crate::text::chars_eq(&c, &crate::text::chars_of("assistant")) {
            return Some(MessageRole::Assistant);
        }
        if crate::text::chars_eq(&c, &crate::text::chars_of("system")) {
            return Some(MessageRole::System);
        }
        if crate::text::chars_eq(&c, &crate::text::chars_of("tool")) {
            return Some(MessageRole::Tool);
        }
        if crate::text::chars_eq(&c, &crate::text::chars_of("function")) {
            return Some(MessageRole::Function);
        }
        None
    }
}

/// Law: every message role's name reads back as it.
pub proof fn law_message_role_name_roundtrip(t: MessageRole)
    ensures
        message_role_from_name(message_role_name(t)) == Some(t),
{
    reveal_strlit("user");
    reveal_strlit("assistant");
    reveal_strlit("system");
    reveal_strlit("tool");
    reveal_strlit("function");
    // Any two names differ in length or in one of their first two letters.
    assert("user"@.len() == 4 && "user"@[0] == 'u' && "user"@[1] == 's');
    assert("assistant"@.len() == 9 && "assistant"@[0] == 'a' && "assistant"@[1] == 's');
    assert("system"@.len() == 6 && "system"@[0] == 's' && "system"@[1] == 'y');
    assert("tool"@.len() == 4 && "tool"@[0] == 't' && "tool"@[1] == 'o');
    assert("function"@.len() == 8 && "function"@[0] == 'f' && "function"@[1] == 'u');
    match t {
        MessageRole::User => {},
        MessageRole::Assistant => {},
        MessageRole::System => {},
        MessageRole::Tool => {},
        MessageRole::Function => {},
    }
}

/// Message content variant - can be string or array.
#[derive(Debug)]
pub enum MessageContentVariant {
    /// Simple string content.
    String(String),
    /// Structured content items.
    Items(Vec<MessageContent>),
}

/// Message content item types.
#[derive(Debug)]
pub enum MessageContentItem {
    /// Text content.
    Text {
        /// The text content.
        text: String,
    },
    /// Image content.
    Image {
        /// The source of the image.
        source: ImageContentSource,
    },
    /// Tool call content.
    ToolCall {
        /// Tool call information.
        tool_call: ToolCall,
    },
    /// Tool return content.
    ToolReturn {
        /// Tool return information.
        tool_return: ToolReturn,
    },
    /// Reasoning content.
    Reasoning {
        /// Reasoning text.
        reasoning: String,
    },
    /// Omitted reasoning content.
    OmittedReasoning {
        /// Message indicating reasoning was omitted.
        message: String,
    },
    /// Redacted reasoning content.
    RedactedReasoning {
        /// Number of characters redacted.
        redacted_chars: u32,
    },
}

/// Message content types (legacy, keeping for compatibility).
#[derive(Debug)]
pub enum MessageContent {
    /// Text content.
    Text {
        /// The text content.
        text: String,
    },
    /// Image content.
    Image {
        /// The source of the image.
        source: ImageContentSource,
    },
    /// Tool call content.
    ToolCall {
        /// Tool call information.
        tool_call: ToolCall,
    },
    /// Tool return content.
    ToolReturn {
        /// Tool return information.
        tool_return: ToolReturn,
    },
    /// Reasoning content.
    Reasoning {
        /// Reasoning text.
        reasoning: String,
    },
    /// Omitted reasoning content.
    OmittedReasoning {
        /// Message indicating reasoning was omitted.
        message: String,
    },
    /// Redacted reasoning content.
    RedactedReasoning {
        /// Number of characters redacted.
        redacted_chars: u32,
    },
}

/// Image URL data.
#[derive(Debug)]
pub struct ImageUrl {
    /// URL or base64 data.
    pub url: String,
    /// Image detail level.
    pub detail: Option<String>,
}

/// Image content source variants.
#[derive(Debug)]
pub enum ImageContentSource {
    /// Base64 encoded image.
    Base64 {
        /// The media type for the image.
        media_type: String,
        /// The base64 encoded image data.
        data: String,
        /// What level of detail to use when processing and understanding the image.
        detail: Option<String>,
    },
    /// Letta-hosted image (placeholder for future use).
    Letta {
        /// Image ID or reference in Letta's system.
        id: String,
    },
    /// URL-based image.
    Url {
        /// The URL of the image.
        url: String,
    },
}

/// Tool call information.
#[derive(Debug)]
pub struct ToolCall {
    /// Tool/function name.
    pub name: String,
    /// Function arguments as JSON string.
    pub arguments: String,
    /// Tool call ID.
    pub tool_call_id: String,
}

/// Message tool call (OpenAI format).
#[derive(Debug)]
pub struct MessageToolCall {
    /// Tool call ID.
    pub id: String,
    /// Function details.
    pub function: MessageToolCallFunction,
    /// Tool type (always "function").
    pub tool_type: String,
}

/// Message tool call function.
#[derive(Debug)]
pub struct MessageToolCallFunction {
    /// Function name.
    pub name: String,
    /// Function arguments as JSON string.
    pub arguments: String,
}

/// Message tool return.
#[derive(Debug)]
pub struct MessageToolReturn {
    /// Return status.
    pub status: String,
    /// Stdout output.
    pub stdout: Option<Vec<String>>,
    /// Stderr output.
    pub stderr: Option<Vec<String>>,
}

/// Tool call function (for OpenAI-style messages).
#[derive(Debug)]
pub struct ToolCallFunction {
    /// Function name.
    pub name: String,
    /// Function arguments as JSON string.
    pub arguments: String,
}

/// Tool return information.
#[derive(Debug)]
pub struct ToolReturn {
    /// Return status.
    pub status: ToolReturnStatus,
    /// Captured stdout from tool invocation.
    pub stdout: Option<Vec<String>>,
    /// Captured stderr from tool invocation.
    pub stderr: Option<Vec<String>>,
}

/// Tool return status.
#[derive(PartialEq, Eq, Structural, Clone, Copy, Debug)]
pub enum ToolReturnStatus {
    /// Tool executed successfully.
    Success,
    /// Tool execution failed.
    Error,
}

/// Reasoning message source.
#[derive(PartialEq, Eq, Structural, Clone, Copy, Debug)]
pub enum ReasoningMessageSource {
    /// Reasoning from a model with native reasoning capabilities.
    ReasonerModel,
    /// Reasoning derived via prompting.
    NonReasonerModel,
}

/// Hidden reasoning message state.
#[derive(PartialEq, Eq, Structural, Clone, Copy, Debug)]
pub enum HiddenReasoningMessageState {
    /// Content was redacted by the provider.
    Redacted,
    /// Content was omitted by the API.
    Omitted,
}

/// Full message representation.
#[derive(Debug)]
pub struct Message {
    /// Message ID.
    pub id: Option<LettaId>,
    /// Organization ID.
    pub organization_id: Option<LettaId>,
    /// Agent ID.
    pub agent_id: Option<LettaId>,
    /// Model used.
    pub model: Option<String>,
    /// Message role (required).
    pub role: MessageRole,
    /// Message content as array of content items.
    pub content: Option<Vec<MessageContentItem>>,
    /// For user/assistant: participant name. For tool/function: function name.
    pub name: Option<String>,
    /// Tool calls (for assistant messages).
    pub tool_calls: Option<Vec<MessageToolCall>>,
    /// Tool call ID (for tool messages).
    pub tool_call_id: Option<String>,
    /// Step ID.
    pub step_id: Option<LettaId>,
    /// Offline threading ID.
    pub otid: Option<String>,
    /// Tool returns.
    pub tool_returns: Option<Vec<MessageToolReturn>>,
    /// Group ID for multi-agent.
    pub group_id: Option<LettaId>,
    /// Sender ID.
    pub sender_id: Option<LettaId>,
    /// Batch item ID.
    pub batch_item_id: Option<LettaId>,
    /// Created by user ID.
    pub created_by_id: Option<LettaId>,
    /// Last updated by user ID.
    pub last_updated_by_id: Option<LettaId>,
    /// When the message was created.
    pub created_at: Option<String>,
    /// When the message was last updated.
    pub updated_at: Option<String>,
}

/// Request to create a message.
#[derive(Debug)]
pub struct CreateMessageRequest {
    /// Message role.
    pub role: MessageRole,
    /// Message content.
    pub content: String,
    /// Optional name.
    pub name: Option<String>,
    /// Tool calls (for assistant role).
    pub tool_calls: Option<Vec<ToolCall>>,
    /// Tool call ID (for tool role).
    pub tool_call_id: Option<String>,
}

/// Query parameters for listing messages.
#[derive(Debug)]
pub struct ListMessagesParams {
    /// Limit number of results.
    pub limit: Option<u32>,
    /// Pagination cursor (before).
    pub before: Option<String>,
    /// Pagination cursor (after).
    pub after: Option<String>,
    /// Include tool calls in response.
    pub include_tool_calls: Option<bool>,
}

impl Default for ListMessagesParams {
    /// Every field empty.
    fn default() -> (r: Self)
        ensures
            r.limit is None,
            r.before is None,
            r.after is None,
            r.include_tool_calls is None,
    {
        ListMessagesParams {
            limit: None,
            before: None,
            after: None,
            include_tool_calls: None,
        }
    }
}

/// Message type values used by Letta.
#[derive(PartialEq, Eq, Structural, Clone, Copy, Debug)]
pub enum MessageType {
    /// System message.
    SystemMessage,
    /// User message.
    UserMessage,
    /// Assistant response message.
    AssistantMessage,
    /// Reasoning/thinking message.
    ReasoningMessage,
    /// Hidden/redacted reasoning message.
    HiddenReasoningMessage,
    /// Tool call invocation message.
    ToolCallMessage,
    /// Tool execution result message.
    ToolReturnMessage,
    /// Stop reason indicator.
    StopReason,
    /// Usage statistics.
    UsageStatistics,
    /// Any other message type.
    Other,
}

/// Union type for all Letta message types.
#[derive(Debug)]
pub enum LettaMessageUnion {
    /// System message from Letta.
    SystemMessage(SystemMessage),
    /// User message to Letta.
    UserMessage(UserMessage),
    /// Assistant response from Letta.
    AssistantMessage(AssistantMessage),
    /// Internal reasoning/thinking message.
    ReasoningMessage(ReasoningMessage),
    /// Hidden or redacted reasoning message.
    HiddenReasoningMessage(HiddenReasoningMessage),
    /// Tool call invocation message.
    ToolCallMessage(ToolCallMessage),
    /// Tool execution result message.
    ToolReturnMessage(ToolReturnMessage),
}

/// System message from Letta.
#[derive(Debug)]
pub struct SystemMessage {
    /// Message ID.
    pub id: LettaId,
    /// Message timestamp.
    pub date: String,
    /// Optional participant name.
    pub name: Option<String>,
    /// Offline threading ID.
    pub otid: Option<String>,
    /// Sender ID.
    pub sender_id: Option<LettaId>,
    /// Step ID.
    pub step_id: Option<LettaId>,
    /// System message content.
    pub content: String,
}

/// User message to Letta.
#[derive(Debug)]
pub struct UserMessage {
    /// Message ID.
    pub id: LettaId,
    /// Message timestamp.
    pub date: String,
    /// Optional participant name.
    pub name: Option<String>,
    /// Offline threading ID.
    pub otid: Option<String>,
    /// Sender ID.
    pub sender_id: Option<LettaId>,
    /// Step ID.
    pub step_id: Option<LettaId>,
    /// User message content.
    pub content: String,
}

/// Assistant message from Letta.
#[derive(Debug)]
pub struct AssistantMessage {
    /// Message ID.
    pub id: LettaId,
    /// Message timestamp.
    pub date: String,
    /// Optional participant name.
    pub name: Option<String>,
    /// Offline threading ID.
    pub otid: Option<String>,
    /// Sender ID.
    pub sender_id: Option<LettaId>,
    /// Step ID.
    pub step_id: Option<LettaId>,
    /// Assistant response content.
    pub content: String,
}

/// Reasoning message (internal thoughts).
#[derive(Debug)]
pub struct ReasoningMessage {
    /// Message ID.
    pub id: LettaId,
    /// Message timestamp.
    pub date: String,
    /// Optional participant name.
    pub name: Option<String>,
    /// Offline threading ID.
    pub otid: Option<String>,
    /// Sender ID.
    pub sender_id: Option<LettaId>,
    /// Step ID.
    pub step_id: Option<LettaId>,
    /// Source of reasoning.
    pub source: Option<ReasoningMessageSource>,
    /// Reasoning content (internal thoughts).
    pub reasoning: String,
    /// Model-generated signature.
    pub signature: Option<String>,
}

/// Hidden reasoning message (redacted thoughts).
#[derive(Debug)]
pub struct HiddenReasoningMessage {
    /// Message ID.
    pub id: LettaId,
    /// Message timestamp.
    pub date: String,
    /// Optional participant name.
    pub name: Option<String>,
    /// Offline threading ID.
    pub otid: Option<String>,
    /// Sender ID.
    pub sender_id: Option<LettaId>,
    /// Step ID.
    pub step_id: Option<LettaId>,
    /// State of hidden reasoning.
    pub state: HiddenReasoningMessageState,
    /// Hidden reasoning content (redacted).
    pub hidden_reasoning: Option<String>,
}

/// Tool call message.
#[derive(Debug)]
pub struct ToolCallMessage {
    /// Message ID.
    pub id: LettaId,
    /// Message timestamp.
    pub date: String,
    /// Optional participant name.
    pub name: Option<String>,
    /// Offline threading ID.
    pub otid: Option<String>,
    /// Sender ID.
    pub sender_id: Option<LettaId>,
    /// Step ID.
    pub step_id: Option<LettaId>,
    /// Tool call information.
    pub tool_call: ToolCall,
}

/// Tool return message.
#[derive(Debug)]
pub struct ToolReturnMessage {
    /// Message ID.
    pub id: LettaId,
    /// Message timestamp.
    pub date: String,
    /// Optional participant name.
    pub name: Option<String>,
    /// Offline threading ID.
    pub otid: Option<String>,
    /// Sender ID.
    pub sender_id: Option<LettaId>,
    /// Step ID.
    pub step_id: Option<LettaId>,
    /// Tool return value as string.
    pub tool_return: String,
    /// Status of the tool call.
    pub status: ToolReturnStatus,
    /// Tool call ID this is responding to.
    pub tool_call_id: String,
    /// Captured stdout from tool invocation.
    pub stdout: Option<Vec<String>>,
    /// Captured stderr from tool invocation.
    pub stderr: Option<Vec<String>>,
}

/// Request to create a message for Letta agents.
#[derive(Debug)]
pub struct MessageCreate {
    /// Message role.
    pub role: MessageRole,
    /// Message content (can be string or complex content).
    pub content: MessageCreateContent,
    /// Optional participant name.
    pub name: Option<String>,
    /// Offline threading ID.
    pub otid: Option<String>,
    /// Sender ID.
    pub sender_id: Option<LettaId>,
    /// Batch item ID.
    pub batch_item_id: Option<LettaId>,
    /// Group ID for multi-agent conversations.
    pub group_id: Option<LettaId>,
}

/// Content for message creation (can be simple string or complex types).
#[derive(Debug)]
pub enum MessageCreateContent {
    /// Simple text string.
    String(String),
    /// Complex content parts for multi-modal messages.
    ContentParts(Vec<ContentPart>),
}

/// Individual content part for multi-modal messages.
#[derive(Debug)]
pub enum ContentPart {
    /// Text content part.
    Text(TextContent),
    /// Image content part.
    Image(ImageContent),
}

/// Text content part.
#[derive(Debug)]
pub struct TextContent {
    /// The text content.
    pub text: String,
}

/// Image content part.
#[derive(Debug)]
pub struct ImageContent {
    /// Image URL information.
    pub image_url: ImageUrl,
}

/// Response from creating/sending messages to Letta.
#[derive(Debug)]
pub struct LettaResponse {
    /// Messages in the conversation.
    pub messages: Vec<LettaMessageUnion>,
    /// Reason processing stopped.
    pub stop_reason: LettaStopReason,
    /// Token usage statistics.
    pub usage: LettaUsageStatistics,
}

/// Stop reason types supported by Letta.
#[derive(PartialEq, Eq, Structural, Clone, Copy, Debug)]
pub enum StopReasonType {
    /// End of conversation turn.
    EndTurn,
    /// Error occurred.
    Error,
    /// Invalid tool call.
    InvalidToolCall,
    /// Maximum steps reached.
    MaxSteps,
    /// No tool call made.
    NoToolCall,
    /// Tool rule triggered.
    ToolRule,
}

/// Reason why message processing stopped.
#[derive(Debug)]
pub struct LettaStopReason {
    /// The reason processing stopped.
    pub stop_reason: StopReasonType,
}

/// Token usage statistics.
#[derive(Debug)]
pub struct LettaUsageStatistics {
    /// Tokens used for completion.
    pub completion_tokens: Option<i32>,
    /// Tokens used for prompt.
    pub prompt_tokens: Option<i32>,
    /// Total tokens used.
    pub total_tokens: Option<i32>,
    /// Step count.
    pub step_count: Option<i32>,
    /// Messages generated per step.
    pub steps_messages: Option<Vec<Vec<Message>>>,
    /// Background task run IDs.
    pub run_ids: Option<Vec<LettaId>>,
}

/// Parameters for creating messages.
#[derive(Debug)]
pub struct CreateMessagesRequest {
    /// Messages to send.
    pub messages: Vec<MessageCreate>,
    /// Maximum processing steps.
    pub max_steps: Option<i32>,
    /// Use assistant message format.
    pub use_assistant_message: Option<bool>,
    /// Assistant message tool name.
    pub assistant_message_tool_name: Option<String>,
    /// Assistant message tool kwargs.
    pub assistant_message_tool_kwarg: Option<String>,
    /// Filter response message types.
    pub include_return_message_types: Option<Vec<MessageType>>,
}

impl Default for CreateMessagesRequest {
    /// Every field empty.
    fn default() -> (r: Self)
        ensures
            r.messages@.len() == 0,
            r.max_steps is None,
            r.use_assistant_message is None,
            r.assistant_message_tool_name is None,
            r.assistant_message_tool_kwarg is None,
            r.include_return_message_types is None,
    {
        CreateMessagesRequest {
            messages: Vec::new(),
            max_steps: None,
            use_assistant_message: None,
            assistant_message_tool_name: None,
            assistant_message_tool_kwarg: None,
            include_return_message_types: None,
        }
    }
}

/// Parameters for listing messages.
#[derive(Debug)]
pub struct ListMessagesRequest {
    /// Pagination cursor (after).
    pub after: Option<String>,
    /// Pagination cursor (before).
    pub before: Option<String>,
    /// Maximum number of messages.
    pub limit: Option<i32>,
    /// Filter by group ID.
    pub group_id: Option<LettaId>,
    /// Use assistant message format.
    pub use_assistant_message: Option<bool>,
    /// Assistant message tool name.
    pub assistant_message_tool_name: Option<String>,
    /// Assistant message tool kwargs.
    pub assistant_message_tool_kwarg: Option<String>,
}

impl Default for ListMessagesRequest {
    /// Every field empty.
    fn default() -> (r: Self)
        ensures
            r.after is None,
            r.before is None,
            r.limit is None,
            r.group_id is None,
            r.use_assistant_message is None,
            r.assistant_message_tool_name is None,
            r.assistant_message_tool_kwarg is None,
    {
        ListMessagesRequest {
            after: None,
            before: None,
            limit: None,
            group_id: None,
            use_assistant_message: None,
            assistant_message_tool_name: None,
            assistant_message_tool_kwarg: None,
        }
    }
}

/// Request to modify/update a message.
#[derive(Debug)]
pub enum UpdateMessageRequest {
    /// Update a system message.
    SystemMessage(UpdateSystemMessage),
    /// Update a user message.
    UserMessage(UpdateUserMessage),
    /// Update a reasoning message.
    ReasoningMessage(UpdateReasoningMessage),
    /// Update an assistant message.
    AssistantMessage(UpdateAssistantMessage),
}

/// Update system message request.
#[derive(Debug)]
pub struct UpdateSystemMessage {
    /// Updated message content.
    pub content: String,
}

/// Update user message request.
#[derive(Debug)]
pub struct UpdateUserMessage {
    /// Updated message content.
    pub content: UpdateUserMessageContent,
}

/// Content for updating user messages.
#[derive(Debug)]
pub enum UpdateUserMessageContent {
    /// Simple text content.
    String(String),
    /// Complex content parts.
    ContentParts(Vec<ContentPart>),
}

/// Update reasoning message request.
#[derive(Debug)]
pub struct UpdateReasoningMessage {
    /// Updated reasoning content.
    pub reasoning: String,
}

/// Update assistant message request.
#[derive(Debug)]
pub struct UpdateAssistantMessage {
    /// Updated message content.
    pub content: UpdateAssistantMessageContent,
}

/// Content for updating assistant messages.
#[derive(Debug)]
pub enum UpdateAssistantMessageContent {
    /// Simple text content.
    String(String),
    /// Complex content parts.
    ContentParts(Vec<ContentPart>),
}

/// Status of a job/run.
#[derive(PartialEq, Eq, Structural, Clone, Copy, Debug)]
pub enum JobStatus {
    /// Job was created.
    Created,
    /// Job is running.
    Running,
    /// Job completed successfully.
    Completed,
    /// Job failed.
    Failed,
    /// Job is pending.
    Pending,
    /// Job was cancelled.
    Cancelled,
    /// Job expired.
    Expired,
}

/// Type of job.
#[derive(PartialEq, Eq, Structural, Clone, Copy, Debug)]
pub enum JobType {
    /// Regular job.
    Job,
    /// Run (message processing).
    Run,
    /// Batch job.
    Batch,
}

/// Representation of a run for async message processing.
#[derive(Debug)]
pub struct Run {
    /// The unique identifier of the run.
    pub id: LettaId,
    /// The status of the run.
    pub status: Option<JobStatus>,
    /// The type of job.
    pub job_type: Option<JobType>,
    /// When the job was created.
    pub created_at: Option<String>,
    /// When the job was completed.
    pub completed_at: Option<String>,
    /// Created by user ID.
    pub created_by_id: Option<LettaId>,
    /// Last updated by user ID.
    pub last_updated_by_id: Option<LettaId>,
    /// When the run was last updated.
    pub updated_at: Option<String>,
    /// Job metadata.
    pub metadata: Option<JsonDoc>,
    /// Callback URL for completion notification.
    pub callback_url: Option<String>,
    /// When callback was last attempted.
    pub callback_sent_at: Option<String>,
    /// HTTP status code from callback.
    pub callback_status_code: Option<i32>,
    /// Error message from callback attempt.
    pub callback_error: Option<String>,
    /// Request configuration for the run.
    pub request_config: Option<JsonDoc>,
}

} // verus!

verus! {

impl Default for MessageCreate {
    fn default() -> (r: Self)
        ensures
            r.role == MessageRole::User,
            r.content matches MessageCreateContent::String(s) && s@.len() == 0,
            r.name is None,
            r.otid is None,
            r.sender_id is None,
            r.batch_item_id is None,
            r.group_id is None,
    {
        MessageCreate {
            role: MessageRole::User,
            content: MessageCreateContent::String(String::new()),
            name: None,
            otid: None,
            sender_id: None,
            batch_item_id: None,
            group_id: None,
        }
    }
}

impl MessageCreate {
    /// A user message holding `content` as plain text.
    pub fn user(content: &str) -> (r: Self)
        ensures
            r.role == MessageRole::User,
            r.content matches MessageCreateContent::String(s) && s@ == content@,
            r.name is None,
            r.otid is None,
            r.sender_id is None,
            r.batch_item_id is None,
            r.group_id is None,
    {
        MessageCreate {
            role: MessageRole::User,
            content: MessageCreateContent::String(content.to_string()),
            name: None,
            otid: None,
            sender_id: None,
            batch_item_id: None,
            group_id: None,
        }
    }
}

impl MessageCreateContent {
    /// Plain text content.
    pub fn text(s: &str) -> (r: Self)
        ensures
            r matches MessageCreateContent::String(t) && t@ == s@,
    {
        MessageCreateContent::String(s.to_string())
    }
}

impl From<String> for MessageCreateContent {
    fn from(s: String) -> (r: Self)
        ensures
            r == MessageCreateContent::String(s),
    {
        MessageCreateContent::String(s)
    }
}

impl vstd::std_specs::convert::FromSpecImpl<String> for MessageCreateContent {
    open spec fn obeys_from_spec() -> bool {
        true
    }

    open spec fn from_spec(s: String) -> Self {
        MessageCreateContent::String(s)
    }
}

impl From<&str> for MessageCreateContent {
    fn from(s: &str) -> (r: Self)
        ensures
            r matches MessageCreateContent::String(t) && t@ == s@,
    {
        MessageCreateContent::String(String::from_str(s))
    }
}

impl vstd::std_specs::convert::FromSpecImpl<&str> for MessageCreateContent {
    open spec fn obeys_from_spec() -> bool {
        false
    }

    open spec fn from_spec(s: &str) -> Self {
        arbitrary()
    }
}

} // verus!
