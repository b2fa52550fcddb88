//! Client-side logic for the Letta REST API: error classification, identifiers,
//! pagination and retry decisions, authentication, client settings, request and
//! response types, and the decisions of the command-line tool (tool schema and
//! docstring checks, request building).
//!
//! Sending requests, reading files and printing are left to the caller: every
//! function here takes and returns plain values.

pub mod auth;
pub mod cli;
pub mod client;
pub mod environment;
pub mod error;
pub mod json;
pub mod pagination;
pub mod query;
pub mod retry;
pub mod streaming;
pub mod text;
pub mod types;

use vstd::prelude::*;

verus! {

/// Maximum number of retries for API calls.
pub const MAX_RETRIES: u32 = 3;

} // verus!
