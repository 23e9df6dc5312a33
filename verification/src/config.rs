//! Configuration of the relayer service.

use vstd::prelude::*;

verus! {

/// Configuration settings recognized by the service. All durations are in
/// milliseconds; heights and depths are remote block heights.
#[derive(Debug)]
pub struct Config {
    /// Remote endpoint URL. Required to start in production mode: its
    /// absence is a startup error, not a runtime one.
    pub eth_client: Option<String>,
    /// Contract addresses (as numeric values) whose logs are bridge-relevant.
    pub eth_v2_listening_contracts: Vec<u64>,
    /// Height the bridge contracts were deployed at: the watermark is raised
    /// to at least this once at startup.
    pub da_deploy_height: u64,
    /// Finality depth of the remote chain.
    pub da_finalization: u64,
    /// Maximum number of blocks covered by one log request page.
    pub log_page_size: u64,
    /// How often to re-poll the remote syncing status while gated.
    pub syncing_call_frequency: u64,
    /// How often to emit a progress indication while gated; coarser than the
    /// poll frequency so log volume stays low under long syncs.
    pub syncing_log_frequency: u64,
    /// Minimum wall-clock duration of one cycle: the fixed floor of the
    /// rate limiter.
    pub sync_minimum_duration: u64,
}

impl Config {
    /// A configuration the cycle can run with: pagination needs pages of at
    /// least one block.
    pub open spec fn valid(&self) -> bool {
        self.log_page_size >= 1
    }
}

} // verus!
