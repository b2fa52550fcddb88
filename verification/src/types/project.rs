//! Project-related types for the Letta API.

use vstd::prelude::*;
use crate::json::JsonDoc;
use crate::types::common::{LettaId, Metadata, StringMap};

verus! {

/// Project item in list response.
#[derive(Debug)]
pub struct ProjectItem {
    /// Project name.
    pub name: String,
    /// Project slug (used in URLs).
    pub slug: String,
    /// Project ID.
    pub id: String,
}

/// Response from listing projects.
#[derive(Debug)]
pub struct ProjectsListResponse {
    /// List of projects.
    pub projects: Vec<ProjectItem>,
    /// Whether there are more pages.
    pub has_next_page: bool,
}

} // verus!
