//! Environment configuration for Letta API.

use vstd::prelude::*;

verus! {

/// Letta API environment configuration.
#[derive(PartialEq, Eq, Structural, Clone, Copy, Debug)]
pub enum LettaEnvironment {
    /// Letta Cloud API (<https://api.letta.com>).
    /// Requires API authentication.
    Cloud,
    /// Self-hosted or local Letta server (<http://localhost:8283>).
    /// Typically doesn't require authentication.
    SelfHosted,
}

impl Default for LettaEnvironment {
    fn default() -> (r: Self)
        ensures
            r == LettaEnvironment::Cloud,
    {
        LettaEnvironment::Cloud
    }
}

/// The base URL of an environment.
pub open spec fn environment_url(e: LettaEnvironment) -> Seq<char> {
    match e {
        LettaEnvironment::Cloud => "https://api.letta.com"@,
        LettaEnvironment::SelfHosted => "http://localhost:8283"@,
    }
}

impl LettaEnvironment {
    /// Get the base URL for this environment.
    pub fn base_url(&self) -> (r: &'static str)
        ensures
            r@ == environment_url(*self),
    {
        match self {
            LettaEnvironment::Cloud => "https://api.letta.com",
            LettaEnvironment::SelfHosted => "http://localhost:8283",
        }
    }

    /// Check if this environment typically requires authentication (only the cloud does).
    pub fn requires_auth(&self) -> (r: bool)
        ensures
            r == (*self == LettaEnvironment::Cloud),
    {
        match self {
            LettaEnvironment::Cloud => true,
            LettaEnvironment::SelfHosted => false,
        }
    }

    /// Check if this is a cloud environment.
    pub fn is_cloud(&self) -> (r: bool)
        ensures
            r == (*self == LettaEnvironment::Cloud),
    {
        match self {
            LettaEnvironment::Cloud => true,
            LettaEnvironment::SelfHosted => false,
        }
    }

    /// Check if this is a self-hosted/local environment.
    pub fn is_self_hosted(&self) -> (r: bool)
        ensures
            r == (*self == LettaEnvironment::SelfHosted),
    {
        match self {
            LettaEnvironment::Cloud => false,
            LettaEnvironment::SelfHosted => true,
        }
    }

    /// The name of the environment as the API spells it (`cloud`, `self_hosted`).
    pub fn as_str(&self) -> (r: &'static str)
        ensures
            r@ == match *self {
                LettaEnvironment::Cloud => "cloud"@,
                LettaEnvironment::SelfHosted => "self_hosted"@,
            },
    {
        match self {
            LettaEnvironment::Cloud => "cloud",
            LettaEnvironment::SelfHosted => "self_hosted",
        }
    }
}

/// Law: an environment requires authentication exactly when it is the cloud, and it
/// is either the cloud or self-hosted, never both.
pub proof fn law_environment_kinds(e: LettaEnvironment)
    ensures
        (e == LettaEnvironment::Cloud) != (e == LettaEnvironment::SelfHosted),
{
}

} // verus!
