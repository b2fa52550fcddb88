//! Model-related types.

use vstd::prelude::*;
use crate::json::JsonDoc;
use crate::types::common::{LettaId, Metadata, StringMap};
use crate::types::agent::ModelEndpointType;

verus! {

/// LLM configuration with model details.
#[derive(Debug)]
pub struct LlmConfig {
    /// Model name/identifier.
    pub model: String,
    /// Model endpoint type.
    pub model_endpoint_type: ModelEndpointType,
    /// Context window size.
    pub context_window: u32,
    /// Provider details.
    pub provider: Option<String>,
    /// Provider type.
    pub provider_type: Option<String>,
    /// Provider category.
    pub provider_category: Option<String>,
    /// Model wrapper.
    pub model_wrapper: Option<String>,
    /// Maximum tokens to generate.
    pub max_tokens: Option<u32>,
    /// Temperature for sampling (IEEE 754 single-precision bits).
    pub temperature: Option<u32>,
    /// Top-p sampling parameter (IEEE 754 single-precision bits).
    pub top_p: Option<u32>,
    /// Frequency penalty (IEEE 754 single-precision bits).
    pub frequency_penalty: Option<u32>,
    /// Presence penalty (IEEE 754 single-precision bits).
    pub presence_penalty: Option<u32>,
    /// Number of output sequences.
    pub n: Option<u32>,
    /// Random seed.
    pub seed: Option<i64>,
    /// Maximum number of retries.
    pub max_retries: Option<u32>,
    /// Request timeout in seconds.
    pub request_timeout: Option<u32>,
    /// Whether reasoning is supported.
    pub supports_reasoning: Option<bool>,
    /// Reasoning effort level.
    pub reasoning_effort: Option<ReasoningEffort>,
    /// Top-k sampling parameter.
    pub top_k: Option<u32>,
    /// Repetition penalty (IEEE 754 single-precision bits).
    pub repetition_penalty: Option<u32>,
    /// Endpoint URL.
    pub endpoint_url: Option<String>,
}

/// Reasoning effort levels.
#[derive(PartialEq, Eq, Structural, Clone, Copy, Debug)]
pub enum ReasoningEffort {
    /// Low reasoning effort.
    Low,
    /// Medium reasoning effort.
    Medium,
    /// High reasoning effort.
    High,
}

/// Embedding model configuration.
#[derive(Debug)]
pub struct EmbeddingModel {
    /// Embedding endpoint type.
    pub embedding_endpoint_type: String,
    /// Embedding endpoint URL.
    pub embedding_endpoint: Option<String>,
    /// Embedding model name/identifier.
    pub embedding_model: String,
    /// Embedding dimension.
    pub embedding_dim: u32,
    /// Maximum chunk size.
    pub embedding_chunk_size: u32,
    /// Model handle.
    pub handle: Option<String>,
    /// Azure endpoint.
    pub azure_endpoint: Option<String>,
    /// Azure version.
    pub azure_version: Option<String>,
    /// Azure deployment.
    pub azure_deployment: Option<String>,
}

/// Query parameters for listing models.
#[derive(Debug)]
pub struct ListModelsParams {
    /// Filter by provider category.
    pub provider_category: Option<Vec<ProviderCategory>>,
    /// Filter by provider name.
    pub provider_name: Option<String>,
    /// Filter by provider type.
    pub provider_type: Option<String>,
}

impl Default for ListModelsParams {
    /// Every field empty.
    fn default() -> (r: Self)
        ensures
            r.provider_category is None,
            r.provider_name is None,
            r.provider_type is None,
    {
        ListModelsParams {
            provider_category: None,
            provider_name: None,
            provider_type: None,
        }
    }
}

/// Provider category for embedding modules
#[derive(PartialEq, Eq, Structural, Clone, Copy, Debug)]
pub enum ProviderCategory {
    /// base
    Base,
    /// byok
    Byok,
}

/// Query parameters for listing embedding models.
#[derive(Debug)]
pub struct ListEmbeddingModelsParams {
    /// Filter by provider category.
    pub provider_category: Option<Vec<ProviderCategory>>,
}

impl Default for ListEmbeddingModelsParams {
    /// Every field empty.
    fn default() -> (r: Self)
        ensures
            r.provider_category is None,
    {
        ListEmbeddingModelsParams {
            provider_category: None,
        }
    }
}

} // verus!

verus! {

/// The name of a provider category.
pub open spec fn provider_category_name(x: ProviderCategory) -> Seq<char> {
    match x {
        ProviderCategory::Base => "base"@,
        ProviderCategory::Byok => "byok"@,
    }
}

impl ProviderCategory {
    /// The name the API uses for this value (its display text).
    pub fn as_str(&self) -> (r: &'static str)
        ensures
            r@ == provider_category_name(*self),
    {
        match self {
            ProviderCategory::Base => "base",
            ProviderCategory::Byok => "byok",
        }
    }

    /// The display text.
    pub fn to_string(&self) -> (r: String)
        ensures
            r@ == provider_category_name(*self),
    {
        self.as_str().to_string()
    }
}

} // verus!
