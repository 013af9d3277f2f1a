//! Assembly of a run's engine configuration from the scenario manifest,
//! command-line overrides and build metadata, so that every production run
//! bundle carries the same real metadata.

use vstd::prelude::*;
use vstd::string::StringExecFns;

use crate::worktree::GitWorktreeInfo;

verus! {

/// Pinned Bevy version.
pub fn bevy_version() -> (r: &'static str)
    ensures
        r@ == "0.18.1"@,
{
    "0.18.1"
}

/// The commit id recorded for a run: a non-empty override wins; without
/// one, a failed HEAD lookup records "uncommitted", and a dirty worktree
/// marks the HEAD id with "-dirty".
pub open spec fn commit_sha_of(override_sha: Option<Seq<char>>, head_sha: Option<Seq<char>>, dirty: bool) -> Seq<char> {
    if override_sha matches Some(s) && s.len() > 0 {
        override_sha->0
    } else {
        match head_sha {
            None => "uncommitted"@,
            Some(h) => if dirty {
                h + "-dirty"@
            } else {
                h
            },
        }
    }
}

/// The character contents of an optional string.
pub open spec fn opt_text(s: Option<String>) -> Option<Seq<char>> {
    match s {
        Some(x) => Some(x@),
        None => None,
    }
}

/// Composes the commit id recorded in a run bundle from the override
/// variable, the HEAD id (`None` when it could not be read) and whether the
/// worktree has uncommitted changes.
pub fn compose_commit_sha(override_sha: Option<String>, head_sha: Option<String>, dirty: bool) -> (r: String)
    ensures
        r@ == commit_sha_of(opt_text(override_sha), opt_text(head_sha), dirty),
{
    if let Some(s) = override_sha {
        if !s.as_str().is_empty() {
            return s;
        }
    }
    match head_sha {
        None => "uncommitted".to_owned(),
        Some(h) => {
            if dirty {
                let mut r = h;
                r.append("-dirty");
                r
            } else {
                h
            }
        },
    }
}

/// Inputs a production binary hands the configuration builder: scenario,
/// run-bundle options and command-line overrides.
#[derive(Debug, Clone)]
pub struct ConfigInputs {
    pub scenario_id: String,
    pub scenario_path: String,
    pub run_mode: String,
    pub run_bundle_root: String,
    pub write_run_bundle: bool,
    pub control_api_enabled: bool,
    pub debug_capabilities: Vec<String>,
    pub tick_rate_hz: u32,
    /// Whether grid captures are written, so the run manifest reflects them.
    pub capture_grid_enabled: bool,
    pub paced: bool,
    /// Seed override; `None` keeps the scenario manifest's seed.
    pub seed_override: Option<u64>,
    /// Duration override in ticks; `None` or 0 keeps the manifest's duration.
    pub duration_ticks_override: Option<u64>,
    /// Debug only: the tick at which to inject a panic.
    pub debug_inject_panic_at_tick: Option<u64>,
}

/// What the configuration takes from the loaded scenario manifest.
pub struct ScenarioManifest {
    pub seed: u64,
    /// 0 means "run until shutdown".
    pub duration_ticks: u64,
}

/// Build metadata stamped on every run.
pub struct BuildMetadata {
    pub commit_sha: String,
    pub worktree: GitWorktreeInfo,
    pub rust_version: String,
}

/// The run configuration the engine is started with.
pub struct EngineRunConfig {
    pub scenario_id: String,
    pub scenario_path: String,
    pub seed: u64,
    pub duration_ticks: u64,
    pub tick_rate_hz: u32,
    pub run_mode: String,
    pub run_bundle_root: String,
    pub write_run_bundle: bool,
    pub control_api_enabled: bool,
    pub debug_capabilities: Vec<String>,
    pub paced: bool,
    pub capture_grid_enabled: bool,
    pub debug_inject_panic_at_tick: Option<u64>,
    pub commit_sha: String,
    pub worktree_dirty: bool,
    pub worktree_fingerprint: Option<String>,
    pub worktree_dirty_files: Vec<String>,
    pub rust_version: String,
    pub bevy_version: String,
}

/// Why a configuration could not be built.
#[derive(Debug)]
pub enum ConfigBuildError {
    /// The scenario manifest failed to load; carries the load error's message.
    Scenario(String),
}

impl ConfigBuildError {
    /// Human-readable description of the error.
    pub fn message(&self) -> (r: String)
        ensures
            match self {
                ConfigBuildError::Scenario(m) => r@ == "scenario load failed: "@ + m@,
            },
    {
        match self {
            ConfigBuildError::Scenario(m) => {
                let mut r = "scenario load failed: ".to_owned();
                r.append(m.as_str());
                r
            },
        }
    }
}

/// The configuration built from `inputs`, manifest `scenario` and `build`:
/// seed and duration come from the manifest unless overridden (a zero
/// duration override is ignored), a zero tick rate counts as 1, the remaining
/// run options are taken from the inputs, and the build metadata is stamped.
pub open spec fn is_config_for(
    c: EngineRunConfig,
    inputs: ConfigInputs,
    scenario: ScenarioManifest,
    build: BuildMetadata,
) -> bool {
    &&& c.scenario_id == inputs.scenario_id
    &&& c.scenario_path == inputs.scenario_path
    &&& c.seed == (match inputs.seed_override {
        Some(s) => s,
        None => scenario.seed,
    })
    &&& c.duration_ticks == (match inputs.duration_ticks_override {
        Some(t) => if t > 0 { t } else { scenario.duration_ticks },
        None => scenario.duration_ticks,
    })
    &&& c.tick_rate_hz == (if inputs.tick_rate_hz == 0 { 1 } else { inputs.tick_rate_hz })
    &&& c.run_mode == inputs.run_mode
    &&& c.run_bundle_root == inputs.run_bundle_root
    &&& c.write_run_bundle == inputs.write_run_bundle
    &&& c.control_api_enabled == inputs.control_api_enabled
    &&& c.debug_capabilities == inputs.debug_capabilities
    &&& c.paced == inputs.paced
    &&& c.capture_grid_enabled == inputs.capture_grid_enabled
    &&& c.debug_inject_panic_at_tick == inputs.debug_inject_panic_at_tick
    &&& c.commit_sha == build.commit_sha
    &&& c.worktree_dirty == build.worktree.dirty
    &&& c.worktree_fingerprint == build.worktree.fingerprint
    &&& c.worktree_dirty_files == build.worktree.dirty_files
    &&& c.rust_version == build.rust_version
    &&& c.bevy_version@ == "bevy "@ + "0.18.1"@
}

/// Production configuration builder: fails exactly when the scenario
/// manifest failed to load, with that error; otherwise the configuration
/// built from the manifest, the inputs and the build metadata.
pub fn build_engine_config(
    inputs: ConfigInputs,
    scenario: Result<ScenarioManifest, String>,
    build: BuildMetadata,
) -> (r: Result<EngineRunConfig, ConfigBuildError>)
    ensures
        match scenario {
            Err(m) => r matches Err(ConfigBuildError::Scenario(e)) && e == m,
            Ok(s) => r matches Ok(c) && is_config_for(c, inputs, s, build),
        },
{
    let manifest = match scenario {
        Ok(s) => s,
        Err(m) => {
            return Err(ConfigBuildError::Scenario(m));
        },
    };
    let seed = match inputs.seed_override {
        Some(s) => s,
        None => manifest.seed,
    };
    let duration_ticks = match inputs.duration_ticks_override {
        Some(t) => if t > 0 {
            t
        } else {
            manifest.duration_ticks
        },
        None => manifest.duration_ticks,
    };
    let tick_rate_hz: u32 = if inputs.tick_rate_hz == 0 { 1 } else { inputs.tick_rate_hz };
    let mut bevy = "bevy ".to_owned();
    bevy.append(bevy_version());
    Ok(EngineRunConfig {
        scenario_id: inputs.scenario_id,
        scenario_path: inputs.scenario_path,
        seed,
        duration_ticks,
        tick_rate_hz,
        run_mode: inputs.run_mode,
        run_bundle_root: inputs.run_bundle_root,
        write_run_bundle: inputs.write_run_bundle,
        control_api_enabled: inputs.control_api_enabled,
        debug_capabilities: inputs.debug_capabilities,
        paced: inputs.paced,
        capture_grid_enabled: inputs.capture_grid_enabled,
        debug_inject_panic_at_tick: inputs.debug_inject_panic_at_tick,
        commit_sha: build.commit_sha,
        worktree_dirty: build.worktree.dirty,
        worktree_fingerprint: build.worktree.fingerprint,
        worktree_dirty_files: build.worktree.dirty_files,
        rust_version: build.rust_version,
        bevy_version: bevy,
    })
}

} // verus!

verus! {

/// Overrides only override: without a duration override, or with a zero
/// one, a run lasts as long as the scenario manifest says; a positive
/// override sets the duration. Without a seed override the manifest's seed
/// is kept; an override replaces it. The tick rate is never zero and is the
/// requested one when that is not zero.
pub proof fn config_overrides_only_override(
    c: EngineRunConfig,
    inputs: ConfigInputs,
    scenario: ScenarioManifest,
    build: BuildMetadata,
)
    requires
        is_config_for(c, inputs, scenario, build),
    ensures
        (inputs.duration_ticks_override is None || inputs.duration_ticks_override == Some(0u64))
            ==> c.duration_ticks == scenario.duration_ticks,
        forall|t: u64| t > 0 && inputs.duration_ticks_override == Some(t) ==> c.duration_ticks == t,
        inputs.seed_override is None ==> c.seed == scenario.seed,
        forall|s: u64| inputs.seed_override == Some(s) ==> c.seed == s,
        c.tick_rate_hz >= 1,
        inputs.tick_rate_hz > 0 ==> c.tick_rate_hz == inputs.tick_rate_hz,
{
}

/// The recorded commit id: a non-empty override is recorded as it is;
/// otherwise a clean HEAD id is recorded as it is, a dirty one gains the
/// "-dirty" suffix, and no HEAD id gives "uncommitted".
pub proof fn commit_sha_rules(override_sha: Option<Seq<char>>, head_sha: Option<Seq<char>>, dirty: bool)
    ensures
        forall|o: Seq<char>| override_sha == Some(o) && o.len() > 0 ==> commit_sha_of(override_sha, head_sha, dirty)
            == o,
        (override_sha is None || override_sha == Some(Seq::<char>::empty())) ==> (match head_sha {
            None => commit_sha_of(override_sha, head_sha, dirty) == seq!['u', 'n', 'c', 'o', 'm', 'm', 'i', 't', 't', 'e', 'd'],
            Some(h) => if dirty {
                commit_sha_of(override_sha, head_sha, dirty) == h + seq!['-', 'd', 'i', 'r', 't', 'y']
            } else {
                commit_sha_of(override_sha, head_sha, dirty) == h
            },
        }),
{
    reveal_strlit("uncommitted");
    reveal_strlit("-dirty");
}

} // verus!
