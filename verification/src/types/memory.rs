//! Memory-related types: memory blocks and archival memory requests.

use vstd::prelude::*;
use crate::types::common::{LettaId, Metadata, StringMap};
use crate::types::agent::EmbeddingConfig;
use crate::json::JsonDoc;

verus! {

/// A memory block.
#[derive(Debug)]
pub struct Block {
    /// Block ID.
    pub id: Option<LettaId>,
    /// Block label (e.g., "human", "persona").
    pub label: String,
    /// Block value/content.
    pub value: String,
    /// Character limit for the block.
    pub limit: Option<u32>,
    /// Whether this is a template block.
    pub is_template: bool,
    /// Whether to preserve on migration.
    pub preserve_on_migration: bool,
    /// Whether this block is read-only.
    pub read_only: bool,
    /// Block description.
    pub description: Option<String>,
    /// Block metadata.
    pub metadata: Option<Metadata>,
    /// Block name.
    pub name: Option<String>,
    /// Organization ID.
    pub organization_id: Option<LettaId>,
    /// Created by user ID.
    pub created_by_id: Option<LettaId>,
    /// Last updated by user ID.
    pub last_updated_by_id: Option<LettaId>,
    /// Creation time, as RFC 3339 text.
    pub created_at: Option<String>,
    /// Last update time, as RFC 3339 text.
    pub updated_at: Option<String>,
}

/// A new block with the given label and value, and everything else unset.
pub open spec fn fresh_block(b: Block, label: Seq<char>, value: Seq<char>) -> bool {
    &&& b.label@ == label
    &&& b.value@ == value
    &&& b.id is None
    &&& b.limit is None
    &&& !b.is_template
    &&& !b.preserve_on_migration
    &&& !b.read_only
    &&& b.description is None
    &&& b.metadata is None
    &&& b.name is None
    &&& b.organization_id is None
    &&& b.created_by_id is None
    &&& b.last_updated_by_id is None
    &&& b.created_at is None
    &&& b.updated_at is None
}

impl Block {
    /// A new block with `label` and `value`.
    pub fn new(label: &str, value: &str) -> (r: Self)
        ensures
            fresh_block(r, label@, value@),
    {
        Block {
            id: None,
            label: label.to_string(),
            value: value.to_string(),
            limit: None,
            is_template: false,
            preserve_on_migration: false,
            read_only: false,
            description: None,
            metadata: None,
            name: None,
            organization_id: None,
            created_by_id: None,
            last_updated_by_id: None,
            created_at: None,
            updated_at: None,
        }
    }

    /// A new `human` block holding `value`.
    pub fn human(value: &str) -> (r: Self)
        ensures
            fresh_block(r, "human"@, value@),
    {
        Self::new("human", value)
    }

    /// A new `persona` block holding `value`.
    pub fn persona(value: &str) -> (r: Self)
        ensures
            fresh_block(r, "persona"@, value@),
    {
        Self::new("persona", value)
    }

    /// Set the character limit.
    pub fn with_limit(self, limit: u32) -> (r: Self)
        ensures
            r == (Block { limit: Some(limit), ..self }),
    {
        Block { limit: Some(limit), ..self }
    }
}

/// Request to create an archival memory passage.
#[derive(Debug)]
pub struct CreateArchivalMemoryRequest {
    /// Text content of the passage.
    pub text: String,
}

} // verus!

verus! {

/// Request to create a new memory block.
#[derive(Debug)]
pub struct CreateBlockRequest {
    /// Block value/content (required).
    pub value: String,
    /// Block label (required).
    pub label: String,
    /// Character limit for the block.
    pub limit: Option<u32>,
    /// Block name.
    pub name: Option<String>,
    /// Whether this is a template.
    pub is_template: Option<bool>,
    /// Whether to preserve on migration.
    pub preserve_on_migration: Option<bool>,
    /// Whether the block is read-only.
    pub read_only: Option<bool>,
    /// Block description.
    pub description: Option<String>,
    /// Block metadata.
    pub metadata: Option<Metadata>,
}

impl Default for CreateBlockRequest {
    /// Every field empty.
    fn default() -> (r: Self)
        ensures
            r.value@.len() == 0,
            r.label@.len() == 0,
            r.limit is None,
            r.name is None,
            r.is_template is None,
            r.preserve_on_migration is None,
            r.read_only is None,
            r.description is None,
            r.metadata is None,
    {
        CreateBlockRequest {
            value: String::new(),
            label: String::new(),
            limit: None,
            name: None,
            is_template: None,
            preserve_on_migration: None,
            read_only: None,
            description: None,
            metadata: None,
        }
    }
}

/// Request to update a memory block.
#[derive(Debug)]
pub struct UpdateBlockRequest {
    /// Updated block value/content.
    pub value: Option<String>,
    /// Updated block label.
    pub label: Option<String>,
    /// Updated character limit.
    pub limit: Option<u32>,
    /// Updated block name.
    pub name: Option<String>,
    /// Updated template flag.
    pub is_template: Option<bool>,
    /// Updated preserve on migration flag.
    pub preserve_on_migration: Option<bool>,
    /// Updated read-only flag.
    pub read_only: Option<bool>,
    /// Updated description.
    pub description: Option<String>,
    /// Updated metadata.
    pub metadata: Option<Metadata>,
}

impl Default for UpdateBlockRequest {
    /// Every field empty.
    fn default() -> (r: Self)
        ensures
            r.value is None,
            r.label is None,
            r.limit is None,
            r.name is None,
            r.is_template is None,
            r.preserve_on_migration is None,
            r.read_only is None,
            r.description is None,
            r.metadata is None,
    {
        UpdateBlockRequest {
            value: None,
            label: None,
            limit: None,
            name: None,
            is_template: None,
            preserve_on_migration: None,
            read_only: None,
            description: None,
            metadata: None,
        }
    }
}

/// Parameters for listing memory blocks.
#[derive(Debug)]
pub struct ListBlocksParams {
    /// Filter by label.
    pub label: Option<String>,
    /// Only return templates.
    pub templates_only: Option<bool>,
    /// Filter by name.
    pub name: Option<String>,
    /// Filter by identity ID.
    pub identity_id: Option<LettaId>,
    /// Filter by identifier keys.
    pub identifier_keys: Option<Vec<String>>,
    /// Maximum number of blocks to return.
    pub limit: Option<u32>,
}

impl Default for ListBlocksParams {
    /// Every field empty.
    fn default() -> (r: Self)
        ensures
            r.label is None,
            r.templates_only is None,
            r.name is None,
            r.identity_id is None,
            r.identifier_keys is None,
            r.limit is None,
    {
        ListBlocksParams {
            label: None,
            templates_only: None,
            name: None,
            identity_id: None,
            identifier_keys: None,
            limit: None,
        }
    }
}

/// Archival memory passage.
#[derive(Debug)]
pub struct Passage {
    /// Passage ID.
    pub id: LettaId,
    /// Passage text content.
    pub text: String,
    /// Agent ID this passage belongs to.
    pub agent_id: LettaId,
    /// Optional embedding vector (IEEE 754 single-precision bits).
    pub embedding: Option<Vec<u32>>,
    /// Optional embedding configuration.
    pub embedding_config: Option<EmbeddingConfig>,
    /// Optional source ID.
    pub source_id: Option<LettaId>,
    /// Optional file ID.
    pub file_id: Option<LettaId>,
    /// Optional file name.
    pub file_name: Option<String>,
    /// Metadata.
    pub metadata: Option<Metadata>,
    /// Organization ID.
    pub organization_id: Option<LettaId>,
    /// Created by user ID.
    pub created_by_id: Option<LettaId>,
    /// Last updated by user ID.
    pub last_updated_by_id: Option<LettaId>,
    /// When the passage was created.
    pub created_at: Option<String>,
    /// When the passage was last updated.
    pub updated_at: Option<String>,
    /// Whether the passage is deleted.
    pub is_deleted: Option<bool>,
}

/// Request to update archival memory.
#[derive(Debug)]
pub struct UpdateArchivalMemoryRequest {
    /// Passage ID (required).
    pub id: LettaId,
    /// Created by ID.
    pub created_by_id: Option<LettaId>,
    /// Last updated by ID.
    pub last_updated_by_id: Option<LettaId>,
    /// Created at timestamp.
    pub created_at: Option<String>,
    /// Updated at timestamp.
    pub updated_at: Option<String>,
    /// Is deleted flag.
    pub is_deleted: Option<bool>,
    /// Updated agent ID.
    pub agent_id: Option<LettaId>,
    /// Updated source ID.
    pub source_id: Option<LettaId>,
    /// Updated file ID.
    pub file_id: Option<LettaId>,
    /// Updated file name.
    pub file_name: Option<String>,
    /// Updated metadata.
    pub metadata: Option<Metadata>,
    /// Organization ID.
    pub organization_id: Option<LettaId>,
    /// Updated text content.
    pub text: String,
    /// Updated embedding (IEEE 754 single-precision bits).
    pub embedding: Vec<u32>,
    /// Updated embedding config.
    pub embedding_config: EmbeddingConfig,
}

/// Query parameters for listing archival memory.
#[derive(Debug)]
pub struct ArchivalMemoryQueryParams {
    /// Search text for semantic search.
    pub search: Option<String>,
    /// Limit number of results.
    pub limit: Option<u32>,
    /// Pagination cursor (before).
    pub before: Option<String>,
    /// Pagination cursor (after).
    pub after: Option<String>,
    /// Sort order (true for ascending/oldest first).
    pub ascending: Option<bool>,
}

impl Default for ArchivalMemoryQueryParams {
    /// Every field empty.
    fn default() -> (r: Self)
        ensures
            r.search is None,
            r.limit is None,
            r.before is None,
            r.after is None,
            r.ascending is None,
    {
        ArchivalMemoryQueryParams {
            search: None,
            limit: None,
            before: None,
            after: None,
            ascending: None,
        }
    }
}

/// Memory response from GET /v1/agents/{id}/core-memory.
#[derive(Debug)]
pub struct Memory {
    /// Memory blocks contained in the agent's in-context memory.
    pub blocks: Vec<Block>,
    /// Blocks representing the agent's in-context memory of an attached file.
    pub file_blocks: Option<Vec<Block>>,
    /// Jinja2 template for compiling memory blocks into a prompt string.
    pub prompt_template: Option<String>,
}

/// Core memory update request.
#[derive(Debug)]
pub struct UpdateCoreMemoryRequest {
    /// New value for the memory block.
    pub value: String,
}

/// Request to update a memory block.
#[derive(Debug)]
pub struct UpdateMemoryBlockRequest {
    /// Block label.
    pub label: Option<String>,
    /// Block value/content.
    pub value: Option<String>,
    /// Character limit for the block.
    pub limit: Option<u32>,
    /// Block name.
    pub name: Option<String>,
    /// Whether to preserve on migration.
    pub preserve_on_migration: Option<bool>,
    /// Whether the block is read-only.
    pub read_only: Option<bool>,
    /// Block description.
    pub description: Option<String>,
    /// Block metadata.
    pub metadata: Option<Metadata>,
}

/// Request to create a memory block.
#[derive(Debug)]
pub struct CreateMemoryBlockRequest {
    /// Block label.
    pub label: String,
    /// Block value/content.
    pub value: String,
    /// Character limit for the block.
    pub limit: Option<u32>,
    /// Block name.
    pub name: Option<String>,
    /// Whether this is a template.
    pub is_template: bool,
    /// Whether to preserve on migration.
    pub preserve_on_migration: bool,
    /// Whether the block is read-only.
    pub read_only: bool,
    /// Block description.
    pub description: Option<String>,
    /// Block metadata.
    pub metadata: Option<Metadata>,
}

/// Memory query parameters.
#[derive(Debug)]
pub struct MemoryQueryParams {
    /// Query text for semantic search.
    pub query: Option<String>,
    /// Limit number of results.
    pub limit: Option<u32>,
    /// Pagination cursor (before).
    pub before: Option<String>,
    /// Pagination cursor (after).
    pub after: Option<String>,
}

impl Default for MemoryQueryParams {
    /// Every field empty.
    fn default() -> (r: Self)
        ensures
            r.query is None,
            r.limit is None,
            r.before is None,
            r.after is None,
    {
        MemoryQueryParams {
            query: None,
            limit: None,
            before: None,
            after: None,
        }
    }
}

/// Request to summarize agent messages.
#[derive(Debug)]
pub struct SummarizeMessagesRequest {
    /// Force a summarization (by default will only trigger when context is near limit).
    pub force: bool,
}

/// Response from message summarization.
#[derive(Debug)]
pub struct SummarizeMessagesResponse {
    /// The generated summary.
    pub summary: String,
    /// Number of messages summarized.
    pub messages_summarized: u32,
}

/// Recall memory summary containing all memory types.
#[derive(Debug)]
pub struct RecallMemorySummary {
    /// Core memory blocks.
    pub core_memory: Option<Memory>,
    /// Archival memory entries.
    pub archival_memory: Vec<Passage>,
    /// Recall memory entries.
    pub recall_memory: Vec<RecallMemoryEntry>,
}

/// Recall memory entry (message history).
#[derive(Debug)]
pub struct RecallMemoryEntry {
    /// Message ID.
    pub id: LettaId,
    /// Agent ID.
    pub agent_id: LettaId,
    /// Message role.
    pub role: String,
    /// Message content.
    pub content: String,
    /// When the message was created.
    pub created_at: String,
}

} // verus!
