//! Identity-related types.

use vstd::prelude::*;
use crate::json::JsonDoc;
use crate::types::common::{LettaId, Metadata, StringMap};

verus! {

/// Identity type enum.
#[derive(PartialEq, Eq, Structural, Clone, Copy, Debug)]
pub enum IdentityType {
    /// Organization identity.
    Org,
    /// User identity.
    User,
    /// Other identity type.
    Other,
}

/// Property value in an identity.
#[derive(Debug)]
pub struct IdentityProperty {
    /// Property key.
    pub key: String,
    /// Property value (any JSON value).
    pub value: JsonDoc,
    /// Property type.
    pub property_type: String,
}

/// Identity represents a user, organization, or other entity in Letta.
#[derive(Debug)]
pub struct Identity {
    /// Identity ID (prefixed with "identity-").
    pub id: LettaId,
    /// Unique identifier key.
    pub identifier_key: String,
    /// Identity name.
    pub name: String,
    /// Identity type.
    pub identity_type: IdentityType,
    /// Agent IDs associated with this identity.
    pub agent_ids: Option<Vec<LettaId>>,
    /// Block IDs associated with this identity.
    pub block_ids: Option<Vec<LettaId>>,
    /// Project ID this identity belongs to.
    pub project_id: Option<LettaId>,
    /// Identity properties.
    pub properties: Option<Vec<IdentityProperty>>,
}

/// Request to create a new identity.
#[derive(Debug)]
pub struct CreateIdentityRequest {
    /// Unique identifier key.
    pub identifier_key: String,
    /// Identity name.
    pub name: String,
    /// Identity type.
    pub identity_type: IdentityType,
    /// Project ID this identity belongs to.
    pub project_id: Option<String>,
    /// Agent IDs to associate with this identity.
    pub agent_ids: Option<Vec<String>>,
    /// Block IDs to associate with this identity.
    pub block_ids: Option<Vec<String>>,
    /// Identity properties.
    pub properties: Option<Vec<IdentityProperty>>,
}

/// Request to update an identity.
#[derive(Debug)]
pub struct UpdateIdentityRequest {
    /// Unique identifier key.
    pub identifier_key: Option<String>,
    /// Identity name.
    pub name: Option<String>,
    /// Identity type.
    pub identity_type: Option<IdentityType>,
    /// Agent IDs to associate with this identity.
    pub agent_ids: Option<Vec<String>>,
    /// Block IDs to associate with this identity.
    pub block_ids: Option<Vec<String>>,
    /// Identity properties.
    pub properties: Option<Vec<IdentityProperty>>,
}

impl Default for UpdateIdentityRequest {
    /// Every field empty.
    fn default() -> (r: Self)
        ensures
            r.identifier_key is None,
            r.name is None,
            r.identity_type is None,
            r.agent_ids is None,
            r.block_ids is None,
            r.properties is None,
    {
        UpdateIdentityRequest {
            identifier_key: None,
            name: None,
            identity_type: None,
            agent_ids: None,
            block_ids: None,
            properties: None,
        }
    }
}

/// Query parameters for listing identities.
#[derive(Debug)]
pub struct ListIdentitiesParams {
    /// Filter by name.
    pub name: Option<String>,
    /// Filter by project ID.
    pub project_id: Option<String>,
    /// Filter by identifier key.
    pub identifier_key: Option<String>,
    /// Filter by identity type.
    pub identity_type: Option<IdentityType>,
    /// Cursor for pagination (before).
    pub before: Option<String>,
    /// Cursor for pagination (after).
    pub after: Option<String>,
    /// Maximum number of results to return.
    pub limit: Option<i32>,
}

impl Default for ListIdentitiesParams {
    /// Every field empty.
    fn default() -> (r: Self)
        ensures
            r.name is None,
            r.project_id is None,
            r.identifier_key is None,
            r.identity_type is None,
            r.before is None,
            r.after is None,
            r.limit is None,
    {
        ListIdentitiesParams {
            name: None,
            project_id: None,
            identifier_key: None,
            identity_type: None,
            before: None,
            after: None,
            limit: None,
        }
    }
}

} // verus!

verus! {

/// The name of an identity type.
pub open spec fn identity_type_name(x: IdentityType) -> Seq<char> {
    match x {
        IdentityType::Org => "org"@,
        IdentityType::User => "user"@,
        IdentityType::Other => "other"@,
    }
}

impl IdentityType {
    /// The name the API uses for this value (its display text).
    pub fn as_str(&self) -> (r: &'static str)
        ensures
            r@ == identity_type_name(*self),
    {
        match self {
            IdentityType::Org => "org",
            IdentityType::User => "user",
            IdentityType::Other => "other",
        }
    }

    /// The display text.
    pub fn to_string(&self) -> (r: String)
        ensures
            r@ == identity_type_name(*self),
    {
        self.as_str().to_string()
    }
}

} // verus!
