//! Wire shapes of the net observe/admin surface: parameter records and the
//! views they return, with their empty (no session) values.

use vstd::prelude::*;

verus! {

/// Default width of the redundant-input window, in ticks.
pub const REDUNDANT_INPUT_DEFAULT_WINDOW: u8 = 3;

/// Parameters of the session-transport observation.
#[derive(Debug, Clone)]
pub struct ObserveNetSessionTransportParams {
    pub schema_version: u32,
}

/// Currently negotiated transport mode and NAT traversal outcome.
#[derive(Debug, Clone)]
pub struct NetSessionTransportView {
    pub schema_version: u32,
    pub session_id: String,
    pub transport_mode: String,
    pub traversal_method: String,
    pub traversal_path: String,
    pub elapsed_ms: u32,
    pub session_semver_packed: u16,
}

impl NetSessionTransportView {
    /// The view when no session is active: schema version 1, every string
    /// empty and every number zero.
    pub fn empty() -> (r: Self)
        ensures
            r.schema_version == 1,
            r.session_id@.len() == 0,
            r.transport_mode@.len() == 0,
            r.traversal_method@.len() == 0,
            r.traversal_path@.len() == 0,
            r.elapsed_ms == 0,
            r.session_semver_packed == 0,
    {
        NetSessionTransportView {
            schema_version: 1,
            session_id: String::new(),
            transport_mode: String::new(),
            traversal_method: String::new(),
            traversal_path: String::new(),
            elapsed_ms: 0,
            session_semver_packed: 0,
        }
    }
}

/// Parameters of the rollback-statistics observation.
#[derive(Debug, Clone)]
pub struct ObserveNetRollbackStatsParams {
    pub schema_version: u32,
}

/// One rollback window's re-simulation telemetry.
#[derive(Debug, Clone)]
pub struct NetRollbackWindowSample {
    pub from_tick: u64,
    pub to_tick: u64,
    pub resim_us: u32,
    pub within_budget: bool,
}

/// Telemetry of the most recent rollback windows.
#[derive(Debug, Clone)]
pub struct NetRollbackStatsView {
    pub schema_version: u32,
    /// Last rollback windows recorded, oldest first.
    pub recent_windows: Vec<NetRollbackWindowSample>,
    pub windows_within_budget: u64,
    pub windows_over_budget: u64,
    pub p99_resim_us: u32,
    pub max_resim_us: u32,
}

impl NetRollbackStatsView {
    /// The view before any rollback: schema version 1, no windows, all counters zero.
    pub fn empty() -> (r: Self)
        ensures
            r.schema_version == 1,
            r.recent_windows@.len() == 0,
            r.windows_within_budget == 0,
            r.windows_over_budget == 0,
            r.p99_resim_us == 0,
            r.max_resim_us == 0,
    {
        NetRollbackStatsView {
            schema_version: 1,
            recent_windows: Vec::new(),
            windows_within_budget: 0,
            windows_over_budget: 0,
            p99_resim_us: 0,
            max_resim_us: 0,
        }
    }
}

/// Parameters of the loss-recovery observation.
#[derive(Debug, Clone)]
pub struct ObserveNetLossRecoveryParams {
    pub schema_version: u32,
}

/// Loss-recovery telemetry: redundant-input and FEC recoveries.
#[derive(Debug, Clone)]
pub struct NetLossRecoveryView {
    pub schema_version: u32,
    pub redundant_input_window_ticks: u8,
    pub recovered_input_ticks_total: u64,
    pub fec_shards_recovered_total: u64,
    pub fec_groups_total: u64,
    pub fec_groups_within_budget: u64,
}

impl NetLossRecoveryView {
    /// The view before any recovery: schema version 1, the default
    /// redundant-input window, all totals zero.
    pub fn empty() -> (r: Self)
        ensures
            r.schema_version == 1,
            r.redundant_input_window_ticks == REDUNDANT_INPUT_DEFAULT_WINDOW,
            r.recovered_input_ticks_total == 0,
            r.fec_shards_recovered_total == 0,
            r.fec_groups_total == 0,
            r.fec_groups_within_budget == 0,
    {
        NetLossRecoveryView {
            schema_version: 1,
            redundant_input_window_ticks: REDUNDANT_INPUT_DEFAULT_WINDOW,
            recovered_input_ticks_total: 0,
            fec_shards_recovered_total: 0,
            fec_groups_total: 0,
            fec_groups_within_budget: 0,
        }
    }
}

/// Parameters of the force-relay admin command: when enabled, the next join
/// engages the relay regardless of the traversal outcome.
#[derive(Debug, Clone)]
pub struct AdminNetForceRelayParams {
    pub schema_version: u32,
    pub enabled: bool,
}

} // verus!

verus! {

/// Loss recovery re-sends each input over a default window of 3 ticks, and a
/// freshly reset recovery view reports that window.
pub proof fn default_redundancy_window()
    ensures
        REDUNDANT_INPUT_DEFAULT_WINDOW == 3,
{
}

} // verus!
