//! The settings of the relayer.

use crate::message::ContractAddress;
use vstd::prelude::*;

verus! {

/// The settings of the relayer. Durations are in nanoseconds.
#[derive(Clone, Debug)]
pub struct Config {
    /// The remote height below which the relayer never looks.
    pub da_deploy_height: u64,
    /// Where the remote node is reached.
    pub relayer: Option<String>,
    /// The contracts whose events are retrieved.
    pub eth_v2_listening_contracts: Vec<ContractAddress>,
    /// The greatest number of heights asked for in one request.
    pub log_page_size: u64,
    /// The least time from the start of one iteration to the start of the
    /// next, after an iteration that failed or found nothing to do.
    pub sync_minimum_duration: u128,
    /// The time between two calls for the remote node's syncing status.
    pub syncing_call_frequency: u128,
    /// The time between two logs of the remote node's syncing status.
    pub syncing_log_frequency: u128,
}

} // verus!
