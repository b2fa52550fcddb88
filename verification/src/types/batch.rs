//! Batch-related types.

use vstd::prelude::*;
use crate::json::JsonDoc;
use crate::types::common::{LettaId, Metadata, StringMap};
use crate::types::message::{Message, MessageCreateContent};

verus! {

/// Batch run status.
#[derive(PartialEq, Eq, Structural, Clone, Copy, Debug)]
pub enum BatchStatus {
    /// Batch has been created.
    Created,
    /// Batch is running.
    Running,
    /// Batch completed successfully.
    Completed,
    /// Batch failed.
    Failed,
    /// Batch was cancelled.
    Cancelled,
}

/// Batch job type.
#[derive(PartialEq, Eq, Structural, Clone, Copy, Debug)]
pub enum BatchJobType {
    /// Regular job.
    Job,
    /// Batch job.
    Batch,
}

/// Batch run information.
#[derive(Debug)]
pub struct BatchRun {
    /// ID of the user who created this batch.
    pub created_by_id: Option<String>,
    /// ID of the user who last updated this batch.
    pub last_updated_by_id: Option<String>,
    /// Creation timestamp.
    pub created_at: Option<String>,
    /// Last update timestamp.
    pub updated_at: Option<String>,
    /// Batch status.
    pub status: BatchStatus,
    /// Completion timestamp.
    pub completed_at: Option<String>,
    /// Batch metadata.
    pub metadata: JsonDoc,
    /// Job type.
    pub job_type: BatchJobType,
    /// Batch ID (prefixed with "job-" or "batch-").
    pub id: LettaId,
    /// Callback URL for webhook notifications.
    pub callback_url: Option<String>,
    /// String when callback was sent.
    pub callback_sent_at: Option<String>,
    /// HTTP status code from callback response.
    pub callback_status_code: Option<u16>,
    /// Error message from callback if any.
    pub callback_error: Option<String>,
}

/// Message request for batch creation.
#[derive(Debug)]
pub struct BatchMessageRequest {
    /// Messages to send.
    pub messages: Vec<BatchMessageCreate>,
    /// Agent ID to send messages to.
    pub agent_id: LettaId,
}

/// Message to create in a batch.
#[derive(Debug)]
pub struct BatchMessageCreate {
    /// Message role (user, assistant, system, tool).
    pub role: String,
    /// Message content.
    pub content: MessageCreateContent,
}

/// Request to create a batch of messages.
#[derive(Debug)]
pub struct CreateBatchRequest {
    /// List of message requests.
    pub requests: Vec<BatchMessageRequest>,
    /// Optional callback URL for webhook notifications.
    pub callback_url: Option<String>,
}

/// Parameters for listing batch messages.
#[derive(Debug)]
pub struct ListBatchMessagesParams {
    /// Maximum number of messages to return.
    pub limit: Option<i32>,
    /// Cursor for pagination (message ID).
    pub cursor: Option<String>,
    /// Filter by agent ID.
    pub agent_id: Option<LettaId>,
    /// Sort in descending order (default true).
    pub sort_descending: Option<bool>,
}

impl Default for ListBatchMessagesParams {
    /// Every field empty.
    fn default() -> (r: Self)
        ensures
            r.limit is None,
            r.cursor is None,
            r.agent_id is None,
            r.sort_descending is None,
    {
        ListBatchMessagesParams {
            limit: None,
            cursor: None,
            agent_id: None,
            sort_descending: None,
        }
    }
}

/// Response containing batch messages.
#[derive(Debug)]
pub struct BatchMessagesResponse {
    /// List of messages.
    pub messages: Vec<Message>,
}

} // verus!

verus! {

/// The name of a batch status.
pub open spec fn batch_status_name(x: BatchStatus) -> Seq<char> {
    match x {
        BatchStatus::Created => "created"@,
        BatchStatus::Running => "running"@,
        BatchStatus::Completed => "completed"@,
        BatchStatus::Failed => "failed"@,
        BatchStatus::Cancelled => "cancelled"@,
    }
}

impl BatchStatus {
    /// The name the API uses for this value (its display text).
    pub fn as_str(&self) -> (r: &'static str)
        ensures
            r@ == batch_status_name(*self),
    {
        match self {
            BatchStatus::Created => "created",
            BatchStatus::Running => "running",
            BatchStatus::Completed => "completed",
            BatchStatus::Failed => "failed",
            BatchStatus::Cancelled => "cancelled",
        }
    }

    /// The display text.
    pub fn to_string(&self) -> (r: String)
        ensures
            r@ == batch_status_name(*self),
    {
        self.as_str().to_string()
    }
}

} // verus!
