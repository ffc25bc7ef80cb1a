//! The configuration that the discovery loop reads.

use std::time::Duration;
use vstd::prelude::*;

verus! {

/// The options of network discovery.
#[derive(Debug, Clone, Copy, PartialEq, Eq)]
pub struct NetworkDiscoveryConfig {
    /// Whether discovery runs at all.
    pub enabled: bool,
    /// How long to wait after a decision that no round is due.
    pub idle_period: Duration,
    /// How long to back off after a failure or a round without success.
    pub on_failure_idle_period: Duration,
}

/// The configuration of the overlay, as far as discovery reads it.
#[derive(Debug, Clone, Copy, PartialEq, Eq)]
pub struct DhtConfig {
    pub network_discovery: NetworkDiscoveryConfig,
}

} // verus!
