//! Voice-related types.

use vstd::prelude::*;
use crate::json::JsonDoc;

verus! {

/// Request for voice chat completions.
///
/// Note: The exact structure is not well-documented in the API.
/// This uses a generic JSON value to accommodate any request format.
#[derive(Debug)]
pub struct VoiceChatCompletionRequest {
    /// Request data as JSON.
    pub data: JsonDoc,
}

/// Response from voice chat completions.
///
/// Note: The exact structure is not well-documented in the API.
/// This uses a generic JSON value to accommodate any response format.
#[derive(Debug)]
pub struct VoiceChatCompletionResponse {
    /// Response data as JSON.
    pub data: JsonDoc,
}


} // verus!
