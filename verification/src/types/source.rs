//! Source-related types.

use vstd::prelude::*;
use crate::json::JsonDoc;
use crate::types::common::{LettaId, Metadata, StringMap};
use crate::types::agent::EmbeddingConfig;

verus! {

/// File processing status.
#[derive(PartialEq, Eq, Structural, Clone, Copy, Debug)]
pub enum FileProcessingStatus {
    /// File is pending processing.
    Pending,
    /// File is being parsed.
    Parsing,
    /// File is being embedded.
    Embedding,
    /// File processing completed.
    Completed,
    /// File processing failed.
    Error,
}

impl Default for FileProcessingStatus {
    fn default() -> (r: Self)
        ensures
            r == FileProcessingStatus::Pending,
    {
        FileProcessingStatus::Pending
    }
}

/// File metadata.
#[derive(Debug)]
pub struct FileMetadata {
    /// File ID.
    pub id: Option<LettaId>,
    /// Organization ID.
    pub organization_id: Option<LettaId>,
    /// Source ID this file belongs to.
    pub source_id: LettaId,
    /// File name.
    pub file_name: Option<String>,
    /// File path.
    pub file_path: Option<String>,
    /// File type (MIME type).
    pub file_type: Option<String>,
    /// File size in bytes.
    pub file_size: Option<i64>,
    /// File creation date.
    pub file_creation_date: Option<String>,
    /// File last modified date.
    pub file_last_modified_date: Option<String>,
    /// Processing status.
    pub processing_status: Option<FileProcessingStatus>,
    /// Error message if processing failed.
    pub error_message: Option<String>,
    /// When the file was created in the database.
    pub created_at: Option<String>,
    /// When the file was last updated in the database.
    pub updated_at: Option<String>,
    /// Whether the file is deleted.
    pub is_deleted: Option<bool>,
    /// Full file content (optional, large).
    pub content: Option<String>,
}

/// Data source.
#[derive(Debug)]
pub struct Source {
    /// Source ID.
    pub id: Option<LettaId>,
    /// Source name.
    pub name: String,
    /// Source description.
    pub description: Option<String>,
    /// Instructions for how to use the source.
    pub instructions: Option<String>,
    /// Embedding configuration.
    pub embedding_config: EmbeddingConfig,
    /// Source metadata.
    pub metadata: Option<Metadata>,
    /// Created by user ID.
    pub created_by_id: Option<LettaId>,
    /// Last updated by user ID.
    pub last_updated_by_id: Option<LettaId>,
    /// When the source was created.
    pub created_at: Option<String>,
    /// When the source was last updated.
    pub updated_at: Option<String>,
}

/// Source count response.
#[derive(Debug)]
pub struct SourceCounts {
    /// Number of sources.
    pub count: i32,
}

/// File upload response.
/// Can be either a job (local server) or file metadata (cloud).
#[derive(Debug)]
pub enum FileUploadResponse {
    /// Job response (local server).
    Job(FileUploadJob),
    /// Direct file metadata (cloud API).
    FileMetadata(FileMetadata),
}

/// File upload job response.
#[derive(Debug)]
pub struct FileUploadJob {
    /// Job ID.
    pub id: LettaId,
    /// Job status.
    pub status: String,
    /// Job metadata.
    pub metadata: Option<FileUploadMetadata>,
    /// Created at timestamp.
    pub created_at: Option<String>,
    /// Updated at timestamp.
    pub updated_at: Option<String>,
}

/// Metadata for file upload job.
#[derive(Debug)]
pub struct FileUploadMetadata {
    /// Upload type.
    pub upload_type: String,
    /// File name.
    pub filename: String,
    /// Source ID.
    pub source_id: LettaId,
}

/// Create source request.
#[derive(Debug)]
pub struct CreateSourceRequest {
    /// Source name.
    pub name: String,
    /// Embedding handle (e.g., "openai/text-embedding-ada-002").
    pub embedding: Option<String>,
    /// Embedding chunk size.
    pub embedding_chunk_size: Option<i32>,
    /// Embedding configuration (legacy, prefer using `embedding`).
    pub embedding_config: Option<EmbeddingConfig>,
    /// Source description.
    pub description: Option<String>,
    /// Instructions for how to use the source.
    pub instructions: Option<String>,
    /// Source metadata.
    pub metadata: Option<Metadata>,
}

/// Update source request.
#[derive(Debug)]
pub struct UpdateSourceRequest {
    /// Source name.
    pub name: Option<String>,
    /// Source description.
    pub description: Option<String>,
    /// Instructions for how to use the source.
    pub instructions: Option<String>,
    /// Source metadata.
    pub metadata: Option<Metadata>,
    /// Embedding configuration.
    pub embedding_config: Option<EmbeddingConfig>,
}

impl Default for UpdateSourceRequest {
    /// Every field empty.
    fn default() -> (r: Self)
        ensures
            r.name is None,
            r.description is None,
            r.instructions is None,
            r.metadata is None,
            r.embedding_config is None,
    {
        UpdateSourceRequest {
            name: None,
            description: None,
            instructions: None,
            metadata: None,
            embedding_config: None,
        }
    }
}

/// Query parameters for listing files.
#[derive(Debug)]
pub struct ListFilesParams {
    /// Limit number of results.
    pub limit: Option<i32>,
    /// Pagination cursor (after).
    pub after: Option<String>,
    /// Include file content.
    pub include_content: Option<bool>,
}

impl Default for ListFilesParams {
    /// Every field empty.
    fn default() -> (r: Self)
        ensures
            r.limit is None,
            r.after is None,
            r.include_content is None,
    {
        ListFilesParams {
            limit: None,
            after: None,
            include_content: None,
        }
    }
}

/// Query parameters for getting file metadata.
#[derive(Debug)]
pub struct GetFileParams {
    /// Include file content.
    pub include_content: Option<bool>,
}

impl Default for GetFileParams {
    /// Every field empty.
    fn default() -> (r: Self)
        ensures
            r.include_content is None,
    {
        GetFileParams {
            include_content: None,
        }
    }
}

/// List passages parameters.
#[derive(Debug)]
pub struct ListPassagesParams {
    /// Limit number of results.
    pub limit: Option<i32>,
    /// Pagination cursor (before).
    pub before: Option<String>,
    /// Pagination cursor (after).
    pub after: Option<String>,
}

impl Default for ListPassagesParams {
    /// Every field empty.
    fn default() -> (r: Self)
        ensures
            r.limit is None,
            r.before is None,
            r.after is None,
    {
        ListPassagesParams {
            limit: None,
            before: None,
            after: None,
        }
    }
}

} // verus!
