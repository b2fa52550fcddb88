//! Run and Job management types for the Letta API.

use vstd::prelude::*;
use crate::json::JsonDoc;
use crate::types::common::{LettaId, Metadata, StringMap};

verus! {

/// Status of a job/run.
#[derive(PartialEq, Eq, Structural, Clone, Copy, Debug)]
pub enum JobStatus {
    /// Job was created.
    Created,
    /// Job is running.
    Running,
    /// Job completed successfully.
    Completed,
    /// Job failed.
    Failed,
    /// Job is pending.
    Pending,
    /// Job was cancelled.
    Cancelled,
    /// Job expired.
    Expired,
}

/// The name the API uses for a job status.
pub open spec fn job_status_name(x: JobStatus) -> Seq<char> {
    match x {
        JobStatus::Created => "created"@,
        JobStatus::Running => "running"@,
        JobStatus::Completed => "completed"@,
        JobStatus::Failed => "failed"@,
        JobStatus::Pending => "pending"@,
        JobStatus::Cancelled => "cancelled"@,
        JobStatus::Expired => "expired"@,
    }
}

impl JobStatus {
    /// The name the API uses for this status.
    pub fn as_str(&self) -> (r: &'static str)
        ensures
            r@ == job_status_name(*self),
    {
        match self {
            JobStatus::Created => "created",
            JobStatus::Running => "running",
            JobStatus::Completed => "completed",
            JobStatus::Failed => "failed",
            JobStatus::Pending => "pending",
            JobStatus::Cancelled => "cancelled",
            JobStatus::Expired => "expired",
        }
    }
}

/// Type of job.
#[derive(PartialEq, Eq, Structural, Clone, Copy, Debug)]
pub enum JobType {
    /// Regular job.
    Job,
    /// Run (message processing).
    Run,
    /// Batch job.
    Batch,
}

/// Base job representation.
#[derive(Debug)]
pub struct Job {
    /// The unique identifier of the job.
    pub id: Option<LettaId>,
    /// The status of the job.
    pub status: Option<JobStatus>,
    /// The type of job.
    pub job_type: Option<JobType>,
    /// When the job was created.
    pub created_at: Option<String>,
    /// When the job was completed.
    pub completed_at: Option<String>,
    /// Created by user ID.
    pub created_by_id: Option<LettaId>,
    /// Last updated by user ID.
    pub last_updated_by_id: Option<LettaId>,
    /// When the job was last updated.
    pub updated_at: Option<String>,
    /// Job metadata.
    pub metadata: Option<JsonDoc>,
    /// Callback URL for completion notification.
    pub callback_url: Option<String>,
    /// When callback was last attempted.
    pub callback_sent_at: Option<String>,
    /// HTTP status code from callback.
    pub callback_status_code: Option<i32>,
    /// Error message from callback attempt.
    pub callback_error: Option<String>,
}

/// Representation of a run for async message processing.
/// Extends Job with request configuration.
#[derive(Debug)]
pub struct Run {
    /// The unique identifier of the run.
    pub id: LettaId,
    /// The status of the run.
    pub status: Option<JobStatus>,
    /// The type of job.
    pub job_type: Option<JobType>,
    /// When the job was created.
    pub created_at: Option<String>,
    /// When the job was completed.
    pub completed_at: Option<String>,
    /// Created by user ID.
    pub created_by_id: Option<LettaId>,
    /// Last updated by user ID.
    pub last_updated_by_id: Option<LettaId>,
    /// When the run was last updated.
    pub updated_at: Option<String>,
    /// Job metadata.
    pub metadata: Option<JsonDoc>,
    /// Callback URL for completion notification.
    pub callback_url: Option<String>,
    /// When callback was last attempted.
    pub callback_sent_at: Option<String>,
    /// HTTP status code from callback.
    pub callback_status_code: Option<i32>,
    /// Error message from callback attempt.
    pub callback_error: Option<String>,
    /// Request configuration for the run.
    pub request_config: Option<RunRequestConfig>,
}

/// Configuration for a run request.
#[derive(Debug)]
pub struct RunRequestConfig {
    /// Agent ID for the run.
    pub agent_id: Option<LettaId>,
    /// Messages to process.
    pub messages: Option<Vec<crate::types::message::MessageCreate>>,
    /// Maximum number of steps.
    pub max_steps: Option<i32>,
    /// Whether to use assistant message format.
    pub use_assistant_message: Option<bool>,
    /// Assistant message tool name.
    pub assistant_message_tool_name: Option<String>,
    /// Assistant message tool kwargs.
    pub assistant_message_tool_kwarg: Option<String>,
    /// Message types to include in response.
    pub include_return_message_types: Option<Vec<crate::types::message::MessageType>>,
}

impl Default for RunRequestConfig {
    /// Every field empty.
    fn default() -> (r: Self)
        ensures
            r.agent_id is None,
            r.messages is None,
            r.max_steps is None,
            r.use_assistant_message is None,
            r.assistant_message_tool_name is None,
            r.assistant_message_tool_kwarg is None,
            r.include_return_message_types is None,
    {
        RunRequestConfig {
            agent_id: None,
            messages: None,
            max_steps: None,
            use_assistant_message: None,
            assistant_message_tool_name: None,
            assistant_message_tool_kwarg: None,
            include_return_message_types: None,
        }
    }
}

/// Query parameters for listing runs.
#[derive(Debug)]
pub struct ListRunsParams {
    /// Pagination cursor (after).
    pub after: Option<String>,
    /// Pagination cursor (before).
    pub before: Option<String>,
    /// Maximum number of runs to return.
    pub limit: Option<i32>,
    /// Filter by status.
    pub status: Option<JobStatus>,
    /// Filter by agent ID.
    pub agent_id: Option<LettaId>,
}

impl Default for ListRunsParams {
    /// Every field empty.
    fn default() -> (r: Self)
        ensures
            r.after is None,
            r.before is None,
            r.limit is None,
            r.status is None,
            r.agent_id is None,
    {
        ListRunsParams {
            after: None,
            before: None,
            limit: None,
            status: None,
            agent_id: None,
        }
    }
}

/// Run status update request.
#[derive(Debug)]
pub struct UpdateRunStatus {
    /// New status for the run.
    pub status: JobStatus,
}

/// Query parameters for listing steps.
#[derive(Debug)]
pub struct ListStepsParams {
    /// Filter by run ID.
    pub run_id: Option<LettaId>,
    /// Filter by agent ID.
    pub agent_id: Option<LettaId>,
    /// Pagination cursor (before).
    pub before: Option<String>,
    /// Pagination cursor (after).
    pub after: Option<String>,
    /// Maximum number of steps to return.
    pub limit: Option<i32>,
    /// Filter by tags.
    pub tags: Option<Vec<String>>,
}

impl Default for ListStepsParams {
    /// Every field empty.
    fn default() -> (r: Self)
        ensures
            r.run_id is None,
            r.agent_id is None,
            r.before is None,
            r.after is None,
            r.limit is None,
            r.tags is None,
    {
        ListStepsParams {
            run_id: None,
            agent_id: None,
            before: None,
            after: None,
            limit: None,
            tags: None,
        }
    }
}

/// Step in a run execution.
#[derive(Debug)]
pub struct Step {
    /// Step ID.
    pub id: LettaId,
    /// Run ID this step belongs to.
    pub run_id: LettaId,
    /// Step execution order.
    pub step_number: i32,
    /// Step name or type.
    pub name: Option<String>,
    /// Messages produced in this step.
    pub messages: Option<Vec<crate::types::message::LettaMessageUnion>>,
    /// Tool calls in this step.
    pub tool_calls: Option<Vec<crate::types::message::ToolCall>>,
    /// Token usage for this step.
    pub usage: Option<StepUsage>,
    /// When the step was created.
    pub created_at: Option<String>,
    /// Provider trace information.
    pub provider_trace: Option<ProviderTrace>,
}

/// Token usage for a step.
#[derive(Debug)]
pub struct StepUsage {
    /// Completion tokens used.
    pub completion_tokens: Option<i32>,
    /// Prompt tokens used.
    pub prompt_tokens: Option<i32>,
    /// Total tokens used.
    pub total_tokens: Option<i32>,
}

/// Provider execution trace information.
#[derive(Debug)]
pub struct ProviderTrace {
    /// Provider name.
    pub provider: Option<String>,
    /// Model used.
    pub model: Option<String>,
    /// Execution duration in milliseconds.
    pub duration_ms: Option<i64>,
    /// Raw provider response.
    pub raw_response: Option<JsonDoc>,
}

/// Step feedback.
#[derive(PartialEq, Eq, Structural, Clone, Copy, Debug)]
pub enum StepFeedback {
    /// Positive feedback.
    Positive,
    /// Negative feedback.
    Negative,
}

/// Batch job for processing multiple requests.
#[derive(Debug)]
pub struct BatchJob {
    /// Base job fields.
    pub job: Job,
    /// Number of requests in the batch.
    pub request_count: Option<i32>,
    /// Number of completed requests.
    pub completed_count: Option<i32>,
    /// Number of failed requests.
    pub failed_count: Option<i32>,
}

/// Batch request for processing multiple agent messages.
#[derive(Debug)]
pub struct LettaBatchRequest {
    /// The messages to be sent to the agent.
    pub messages: Vec<crate::types::message::MessageCreate>,
    /// Maximum number of steps the agent should take to process the request.
    pub max_steps: Option<i32>,
    /// Whether the server should parse specific tool call arguments as AssistantMessage.
    pub use_assistant_message: Option<bool>,
    /// The name of the designated message tool.
    pub assistant_message_tool_name: Option<String>,
    /// The name of the message argument in the designated message tool.
    pub assistant_message_tool_kwarg: Option<String>,
    /// Only return specified message types in the response.
    pub include_return_message_types: Option<Vec<crate::types::message::MessageType>>,
    /// The ID of the agent to send this batch request for.
    pub agent_id: LettaId,
}

/// Request to create a batch job.
#[derive(Debug)]
pub struct CreateBatch {
    /// List of requests to be processed in batch.
    pub requests: Vec<LettaBatchRequest>,
    /// Optional URL to call via POST when the batch completes.
    pub callback_url: Option<String>,
}

} // verus!

verus! {

/// The name of a step feedback.
pub open spec fn step_feedback_name(x: StepFeedback) -> Seq<char> {
    match x {
        StepFeedback::Positive => "positive"@,
        StepFeedback::Negative => "negative"@,
    }
}

impl StepFeedback {
    /// The name the API uses for this value (its display text).
    pub fn as_str(&self) -> (r: &'static str)
        ensures
            r@ == step_feedback_name(*self),
    {
        match self {
            StepFeedback::Positive => "positive",
            StepFeedback::Negative => "negative",
        }
    }

    /// The display text.
    pub fn to_string(&self) -> (r: String)
        ensures
            r@ == step_feedback_name(*self),
    {
        self.as_str().to_string()
    }
}

} // verus!
