//! Group and multi-agent management types for the Letta API.

use vstd::prelude::*;
use crate::json::JsonDoc;
use crate::types::common::{LettaId, Metadata, StringMap};

verus! {

/// Manager type for multi-agent groups.
#[derive(PartialEq, Eq, Structural, Clone, Copy, Debug)]
pub enum ManagerType {
    /// Round-robin message routing.
    RoundRobin,
    /// Supervisor-based coordination.
    Supervisor,
    /// Dynamic routing.
    Dynamic,
    /// Sleep-time based scheduling.
    Sleeptime,
    /// Voice-optimized sleep-time scheduling.
    VoiceSleeptime,
    /// Swarm-based coordination.
    Swarm,
}

/// Group representation for multi-agent conversations.
#[derive(Debug)]
pub struct Group {
    /// Group ID.
    pub id: LettaId,
    /// Manager type for the group.
    pub manager_type: ManagerType,
    /// IDs of agents in the group.
    pub agent_ids: Vec<LettaId>,
    /// Group description.
    pub description: String,
    /// Shared memory block IDs.
    pub shared_block_ids: Option<Vec<LettaId>>,
    /// Manager agent ID (for supervisor/dynamic/sleeptime managers).
    pub manager_agent_id: Option<LettaId>,
    /// Termination token (for dynamic manager).
    pub termination_token: Option<String>,
    /// Maximum turns per conversation.
    pub max_turns: Option<i32>,
    /// Sleep-time agent frequency.
    pub sleeptime_agent_frequency: Option<i32>,
    /// Turn counter.
    pub turns_counter: Option<i32>,
    /// Last processed message ID.
    pub last_processed_message_id: Option<LettaId>,
    /// Maximum message buffer length (voice).
    pub max_message_buffer_length: Option<i32>,
    /// Minimum message buffer length (voice).
    pub min_message_buffer_length: Option<i32>,
    /// Created by user ID.
    pub created_by_id: Option<LettaId>,
    /// Last updated by user ID.
    pub last_updated_by_id: Option<LettaId>,
    /// When the group was created.
    pub created_at: Option<String>,
    /// When the group was last updated.
    pub updated_at: Option<String>,
}

/// Manager configuration for group creation.
#[derive(Debug)]
pub enum GroupCreateManagerConfig {
    /// Round-robin manager configuration.
    RoundRobin(RoundRobinManager),
    /// Supervisor manager configuration.
    Supervisor(SupervisorManager),
    /// Dynamic manager configuration.
    Dynamic(DynamicManager),
    /// Sleep-time manager configuration.
    Sleeptime(SleeptimeManager),
    /// Voice sleep-time manager configuration.
    VoiceSleeptime(VoiceSleeptimeManager),
}

/// Manager configuration for group updates.
#[derive(Debug)]
pub enum GroupUpdateManagerConfig {
    /// Round-robin manager update.
    RoundRobin(RoundRobinManagerUpdate),
    /// Supervisor manager update.
    Supervisor(SupervisorManagerUpdate),
    /// Dynamic manager update.
    Dynamic(DynamicManagerUpdate),
    /// Sleep-time manager update.
    Sleeptime(SleeptimeManagerUpdate),
    /// Voice sleep-time manager update.
    VoiceSleeptime(VoiceSleeptimeManagerUpdate),
}

/// Round-robin manager configuration.
#[derive(Debug)]
pub struct RoundRobinManager {
    /// Maximum turns per conversation.
    pub max_turns: Option<i32>,
}

/// Round-robin manager update.
#[derive(Debug)]
pub struct RoundRobinManagerUpdate {
    /// Maximum turns per conversation.
    pub max_turns: Option<i32>,
}

/// Supervisor manager configuration.
#[derive(Debug)]
pub struct SupervisorManager {
    /// The agent ID that acts as supervisor.
    pub manager_agent_id: LettaId,
}

/// Supervisor manager update.
#[derive(Debug)]
pub struct SupervisorManagerUpdate {
    /// The agent ID that acts as supervisor.
    pub manager_agent_id: Option<LettaId>,
}

/// Dynamic manager configuration.
#[derive(Debug)]
pub struct DynamicManager {
    /// The agent ID that manages dynamic routing.
    pub manager_agent_id: LettaId,
    /// Token that signals conversation termination.
    pub termination_token: Option<String>,
    /// Maximum turns per conversation.
    pub max_turns: Option<i32>,
}

/// Dynamic manager update.
#[derive(Debug)]
pub struct DynamicManagerUpdate {
    /// The agent ID that manages dynamic routing.
    pub manager_agent_id: Option<LettaId>,
    /// Token that signals conversation termination.
    pub termination_token: Option<String>,
    /// Maximum turns per conversation.
    pub max_turns: Option<i32>,
}

/// Sleep-time manager configuration.
#[derive(Debug)]
pub struct SleeptimeManager {
    /// The agent ID that manages sleep-time scheduling.
    pub manager_agent_id: LettaId,
    /// Frequency of sleep-time agent activation.
    pub sleeptime_agent_frequency: Option<i32>,
}

/// Sleep-time manager update.
#[derive(Debug)]
pub struct SleeptimeManagerUpdate {
    /// The agent ID that manages sleep-time scheduling.
    pub manager_agent_id: Option<LettaId>,
    /// Frequency of sleep-time agent activation.
    pub sleeptime_agent_frequency: Option<i32>,
}

/// Voice sleep-time manager configuration.
#[derive(Debug)]
pub struct VoiceSleeptimeManager {
    /// The agent ID that manages voice sleep-time.
    pub manager_agent_id: LettaId,
    /// Maximum message buffer length.
    pub max_message_buffer_length: Option<i32>,
    /// Minimum message buffer length.
    pub min_message_buffer_length: Option<i32>,
}

/// Voice sleep-time manager update.
#[derive(Debug)]
pub struct VoiceSleeptimeManagerUpdate {
    /// The agent ID that manages voice sleep-time.
    pub manager_agent_id: Option<LettaId>,
    /// Maximum message buffer length.
    pub max_message_buffer_length: Option<i32>,
    /// Minimum message buffer length.
    pub min_message_buffer_length: Option<i32>,
}

/// Request to create a group.
#[derive(Debug)]
pub struct GroupCreate {
    /// Agent IDs to include in the group.
    pub agent_ids: Vec<LettaId>,
    /// Group description.
    pub description: String,
    /// Manager configuration.
    pub manager_config: Option<GroupCreateManagerConfig>,
    /// Shared memory block IDs.
    pub shared_block_ids: Option<Vec<LettaId>>,
}

/// Request to update a group.
#[derive(Debug)]
pub struct GroupUpdate {
    /// Agent IDs to include in the group.
    pub agent_ids: Option<Vec<LettaId>>,
    /// Group description.
    pub description: Option<String>,
    /// Manager configuration.
    pub manager_config: Option<GroupUpdateManagerConfig>,
    /// Shared memory block IDs.
    pub shared_block_ids: Option<Vec<LettaId>>,
}

/// Query parameters for listing groups.
#[derive(Debug)]
pub struct GroupsListRequest {
    /// Filter by manager type.
    pub manager_type: Option<ManagerType>,
    /// Pagination cursor (before).
    pub before: Option<String>,
    /// Pagination cursor (after).
    pub after: Option<String>,
    /// Maximum number of groups to return.
    pub limit: Option<i32>,
    /// Project ID filter.
    pub project_id: Option<String>,
}

impl Default for GroupsListRequest {
    /// Every field empty.
    fn default() -> (r: Self)
        ensures
            r.manager_type is None,
            r.before is None,
            r.after is None,
            r.limit is None,
            r.project_id is None,
    {
        GroupsListRequest {
            manager_type: None,
            before: None,
            after: None,
            limit: None,
            project_id: None,
        }
    }
}

} // verus!
