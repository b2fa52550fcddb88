//! Template-related types for the Letta API.

use vstd::prelude::*;
use crate::json::JsonDoc;
use crate::types::common::{LettaId, Metadata, StringMap};

verus! {

/// Template item in list response.
#[derive(Debug)]
pub struct TemplateItem {
    /// Template name.
    pub name: String,
    /// Template ID.
    pub id: String,
}

/// Response from listing templates.
#[derive(Debug)]
pub struct TemplatesListResponse {
    /// List of templates.
    pub templates: Vec<TemplateItem>,
    /// Whether there are more pages.
    pub has_next_page: bool,
}

/// Request to create a template from an agent.
#[derive(Debug)]
pub struct CreateTemplateRequest {
    /// Project to create the template in.
    pub project: Option<String>,
}

impl Default for CreateTemplateRequest {
    /// Every field empty.
    fn default() -> (r: Self)
        ensures
            r.project is None,
    {
        CreateTemplateRequest {
            project: None,
        }
    }
}

/// Response from creating a template.
#[derive(Debug)]
pub struct TemplatesCreateResponse {
    /// Name of the created template.
    pub template_name: String,
    /// ID of the created template.
    pub template_id: String,
}

/// Request to create a new version of a template.
#[derive(Debug)]
pub struct VersionTemplateRequest {
    /// Whether to migrate deployed agents to the new version.
    pub migrate_deployed_agents: Option<bool>,
    /// Version message.
    pub message: Option<String>,
}

impl Default for VersionTemplateRequest {
    /// Every field empty.
    fn default() -> (r: Self)
        ensures
            r.migrate_deployed_agents is None,
            r.message is None,
    {
        VersionTemplateRequest {
            migrate_deployed_agents: None,
            message: None,
        }
    }
}

/// Request to migrate an agent to a new template version.
#[derive(Debug)]
pub struct MigrateAgentRequest {
    /// Template to migrate to (format: "template-name:version" or "template-name:latest").
    pub to_template: String,
    /// Whether to preserve core memories.
    pub preserve_core_memories: bool,
    /// Variables to set if not preserving core memories.
    pub variables: Option<StringMap>,
}

/// Response from migrating an agent.
#[derive(Debug)]
pub struct TemplatesMigrateResponse {
    /// The migrated agent state.
    pub agent: crate::types::agent::AgentState,
}

/// Request to create agents from a template.
#[derive(Debug)]
pub struct CreateAgentsFromTemplateRequest {
    /// Tags to apply to created agents.
    pub tags: Option<Vec<String>>,
    /// Name for the agent.
    pub agent_name: Option<String>,
    /// Memory variables to set.
    pub memory_variables: Option<StringMap>,
    /// Tool variables to set.
    pub tool_variables: Option<StringMap>,
    /// Identity IDs to use.
    pub identity_ids: Option<Vec<LettaId>>,
}

impl Default for CreateAgentsFromTemplateRequest {
    /// Every field empty.
    fn default() -> (r: Self)
        ensures
            r.tags is None,
            r.agent_name is None,
            r.memory_variables is None,
            r.tool_variables is None,
            r.identity_ids is None,
    {
        CreateAgentsFromTemplateRequest {
            tags: None,
            agent_name: None,
            memory_variables: None,
            tool_variables: None,
            identity_ids: None,
        }
    }
}

/// Response from creating agents from a template.
#[derive(Debug)]
pub struct AgentsCreateResponse {
    /// Created agents.
    pub agents: Vec<crate::types::agent::AgentState>,
}

/// Response from getting agent memory variables.
#[derive(Debug)]
pub struct MemoryVariablesListResponse {
    /// Memory variables as key-value pairs.
    pub variables: StringMap,
}

} // verus!
