//! Health types.

use vstd::prelude::*;
use crate::json::JsonDoc;
use crate::types::common::{LettaId, Metadata, StringMap};

verus! {

/// Health check response from the Letta server.
#[derive(Debug)]
pub struct Health {
    /// Server version (e.g., "0.8.8").
    pub version: String,

    /// Health status (e.g., "ok").
    pub status: String,
}

} // verus!
