//! Authorization settings: an optional Open Policy Agent backend.

use vstd::prelude::*;

verus! {

/// Reference to an Open Policy Agent instance and package.
#[derive(Debug, PartialEq)]
pub struct OpaConfig {
    /// Discovery config map of the agent.
    pub config_map_name: String,
    /// Policy package to query; a default is derived when absent.
    pub package: Option<String>,
}

/// Cluster-wide authorization settings.
#[derive(Debug, PartialEq)]
pub struct KafkaAuthorization {
    /// The agent to consult, if authorization is wanted.
    pub opa: Option<OpaConfig>,
}

} // verus!
