//! Save bookkeeping: the last-save projection and the autosave timer.

use vstd::prelude::*;

verus! {

/// Autosave interval in seconds of engine clock (not wall clock).
pub const AUTOSAVE_INTERVAL_SECONDS: u64 = 60;

/// Autosave interval in ticks at the default 60 Hz tick rate.
pub const AUTOSAVE_INTERVAL_TICKS: u64 = AUTOSAVE_INTERVAL_SECONDS * 60;

/// The tick rate actually used: a rate of zero counts as one tick per second.
pub open spec fn effective_tick_rate(tick_rate_hz: u32) -> nat {
    if tick_rate_hz == 0 { 1 } else { tick_rate_hz as nat }
}

/// Number of ticks in one autosave interval at the given tick rate.
pub open spec fn interval_ticks(tick_rate_hz: u32) -> nat {
    AUTOSAVE_INTERVAL_SECONDS as nat * effective_tick_rate(tick_rate_hz)
}

/// The tick at which the autosave after `last` falls due (saturating at `u64::MAX`).
pub open spec fn due_tick(last: u64, tick_rate_hz: u32) -> int {
    let t = last + interval_ticks(tick_rate_hz);
    if t > u64::MAX { u64::MAX as int } else { t }
}

/// Converts the 60-second autosave interval into ticks at `tick_rate_hz`.
pub fn autosave_interval_ticks(tick_rate_hz: u32) -> (r: u64)
    ensures
        r == interval_ticks(tick_rate_hz),
{
    let rate: u32 = if tick_rate_hz == 0 { 1 } else { tick_rate_hz };
    AUTOSAVE_INTERVAL_SECONDS * (rate as u64)
}

/// True when the autosave timer has elapsed under the supplied tick rate.
pub fn autosave_due_at_rate(last_autosave_tick: u64, current_tick: u64, tick_rate_hz: u32) -> (r: bool)
    ensures
        r == (current_tick >= due_tick(last_autosave_tick, tick_rate_hz)),
{
    current_tick >= last_autosave_tick.saturating_add(autosave_interval_ticks(tick_rate_hz))
}

/// Autosave check at the default 60 Hz tick rate.
pub fn autosave_due(last_autosave_tick: u64, current_tick: u64) -> (r: bool)
    ensures
        r == (current_tick >= due_tick(last_autosave_tick, 60)),
{
    autosave_due_at_rate(last_autosave_tick, current_tick, 60)
}

} // verus!

verus! {

/// Snapshot of the last completed save operation, as returned by the
/// last-save observation surface.
#[derive(Debug, Clone)]
pub struct LastSaveMetadata {
    pub schema_version: u32,
    /// Absolute path to the last quicksave on disk.
    pub path: Option<String>,
    /// Save schema version of the last save, as `[major, minor, patch]`.
    pub save_schema_version: Option<[u16; 3]>,
    /// Canonical-JSON BLAKE3 of the last save.
    pub blake3: Option<String>,
    /// On-disk size in bytes.
    pub size_bytes: Option<u64>,
    /// Wall-clock duration of the last save operation, in milliseconds.
    pub wall_clock_ms: Option<u32>,
    /// Operation kind: "save" / "load" / "migrate".
    pub last_operation: Option<String>,
}

/// The metadata of a cache that has seen no save yet: schema version 1,
/// every other field empty.
pub open spec fn is_fresh(m: LastSaveMetadata) -> bool {
    &&& m.schema_version == 1
    &&& m.path is None
    &&& m.save_schema_version is None
    &&& m.blake3 is None
    &&& m.size_bytes is None
    &&& m.wall_clock_ms is None
    &&& m.last_operation is None
}

impl Default for LastSaveMetadata {
    /// Every field zero or empty (schema version 0).
    fn default() -> (r: Self)
        ensures
            r.schema_version == 0,
            r.path is None,
            r.save_schema_version is None,
            r.blake3 is None,
            r.size_bytes is None,
            r.wall_clock_ms is None,
            r.last_operation is None,
    {
        LastSaveMetadata {
            schema_version: 0,
            path: None,
            save_schema_version: None,
            blake3: None,
            size_bytes: None,
            wall_clock_ms: None,
            last_operation: None,
        }
    }
}

fn copy_opt_string(o: &Option<String>) -> (r: Option<String>)
    ensures
        r == *o,
{
    match o {
        Some(s) => Some(s.clone()),
        None => None,
    }
}

impl LastSaveMetadata {
    /// Metadata before any save: schema version 1, no fields set.
    pub fn fresh() -> (r: Self)
        ensures
            is_fresh(r),
    {
        LastSaveMetadata {
            schema_version: 1,
            path: None,
            save_schema_version: None,
            blake3: None,
            size_bytes: None,
            wall_clock_ms: None,
            last_operation: None,
        }
    }

    /// A field-by-field copy.
    pub fn copy(&self) -> (r: Self)
        ensures
            r == *self,
    {
        LastSaveMetadata {
            schema_version: self.schema_version,
            path: copy_opt_string(&self.path),
            save_schema_version: self.save_schema_version,
            blake3: copy_opt_string(&self.blake3),
            size_bytes: self.size_bytes,
            wall_clock_ms: self.wall_clock_ms,
            last_operation: copy_opt_string(&self.last_operation),
        }
    }
}

/// In-memory cache of the last save operation, shared between the engine
/// and the observation surface.
#[derive(Debug)]
pub struct LastSaveCache {
    last: LastSaveMetadata,
}

impl LastSaveCache {
    /// The metadata the cache currently holds.
    pub closed spec fn metadata(&self) -> LastSaveMetadata {
        self.last
    }

    /// A cache holding fresh metadata.
    pub fn new() -> (r: Self)
        ensures
            is_fresh(r.metadata()),
    {
        LastSaveCache { last: LastSaveMetadata::fresh() }
    }

    /// A copy of the metadata the cache holds.
    pub fn snapshot(&self) -> (r: LastSaveMetadata)
        ensures
            r == self.metadata(),
    {
        self.last.copy()
    }

    /// Records a completed save: the written path, checksum, size and
    /// duration from the save's outcome, the schema version the save was
    /// written under; the operation is "save".
    pub fn record_save(&mut self, outcome: &QuicksaveOutcome, save_version: &SaveSchemaVersion)
        ensures
            final(self).metadata().schema_version == old(self).metadata().schema_version,
            final(self).metadata().path == Some(outcome.path),
            final(self).metadata().save_schema_version == Some(version_array(*save_version)),
            final(self).metadata().blake3 == Some(outcome.checksum_hex),
            final(self).metadata().size_bytes == Some(outcome.bytes_written),
            final(self).metadata().wall_clock_ms == Some(outcome.wall_clock_ms),
            final(self).metadata().last_operation matches Some(op) && op@ == "save"@,
    {
        self.last.path = Some(outcome.path.clone());
        self.last.save_schema_version = Some(version_tuple(save_version));
        self.last.blake3 = Some(outcome.checksum_hex.clone());
        self.last.size_bytes = Some(outcome.bytes_written);
        self.last.wall_clock_ms = Some(outcome.wall_clock_ms);
        self.last.last_operation = Some("save".to_owned());
    }

    /// Records a completed load from `path`: the loaded save's schema
    /// version, checksum and duration; size is recorded as 0; the operation
    /// is "migrate" when the load migrated the save, else "load".
    pub fn record_load(&mut self, path: String, outcome: &QuickloadOutcome)
        ensures
            final(self).metadata().schema_version == old(self).metadata().schema_version,
            final(self).metadata().path == Some(path),
            final(self).metadata().save_schema_version == Some(version_array(outcome.save_version)),
            final(self).metadata().blake3 == Some(outcome.checksum_hex),
            final(self).metadata().size_bytes == Some(0u64),
            final(self).metadata().wall_clock_ms == Some(outcome.wall_clock_ms),
            final(self).metadata().last_operation matches Some(op)
                && op@ == (if outcome.migrated_from is Some { "migrate"@ } else { "load"@ }),
    {
        self.last.path = Some(path);
        self.last.save_schema_version = Some(version_tuple(&outcome.save_version));
        self.last.blake3 = Some(outcome.checksum_hex.clone());
        self.last.size_bytes = Some(0);
        self.last.wall_clock_ms = Some(outcome.wall_clock_ms);
        let op = if outcome.migrated_from.is_some() {
            "migrate".to_owned()
        } else {
            "load".to_owned()
        };
        self.last.last_operation = Some(op);
    }
}

/// Version of the save schema a save was written under.
#[derive(Clone, Copy, Debug, PartialEq, Eq, Structural)]
pub struct SaveSchemaVersion {
    pub major: u16,
    pub minor: u16,
    pub patch: u16,
}

/// What a completed quicksave reports.
pub struct QuicksaveOutcome {
    /// Path of the written save.
    pub path: String,
    /// Canonical-JSON BLAKE3 of the save, in hex.
    pub checksum_hex: String,
    pub bytes_written: u64,
    pub wall_clock_ms: u32,
}

/// What a completed quickload reports.
pub struct QuickloadOutcome {
    /// Schema version of the loaded (possibly migrated) save.
    pub save_version: SaveSchemaVersion,
    pub checksum_hex: String,
    pub wall_clock_ms: u32,
    /// Schema version the save was migrated from, when the load migrated it.
    pub migrated_from: Option<SaveSchemaVersion>,
    /// Schema version the save was migrated to, when the load migrated it.
    pub migrated_to: Option<SaveSchemaVersion>,
}

/// A schema version as `[major, minor, patch]`.
pub open spec fn version_array(v: SaveSchemaVersion) -> [u16; 3] {
    [v.major, v.minor, v.patch]
}

/// Formats a schema version as `[major, minor, patch]`.
pub fn version_tuple(v: &SaveSchemaVersion) -> (r: [u16; 3])
    ensures
        r == version_array(*v),
{
    [v.major, v.minor, v.patch]
}

} // verus!

verus! {

/// Autosaves fall due every 60 seconds of engine clock: 60 ticks per tick of
/// rate per second (a zero rate counting as one), 3600 ticks at the default
/// 60 Hz, counted from the last autosave and capped at the last tick.
pub proof fn autosave_every_sixty_seconds(last: u64, rate: u32)
    ensures
        rate > 0 ==> interval_ticks(rate) == 60 * rate,
        rate == 0 ==> interval_ticks(rate) == 60,
        interval_ticks(60) == 3600,
        AUTOSAVE_INTERVAL_TICKS == 3600,
        last + interval_ticks(rate) <= u64::MAX ==> due_tick(last, rate) == last + interval_ticks(rate),
        last + interval_ticks(rate) > u64::MAX ==> due_tick(last, rate) == u64::MAX,
        last < u64::MAX ==> due_tick(last, rate) > last,
{
}

/// Once an autosave is due it stays due as ticks go on, and a faster tick
/// rate never makes it due sooner in ticks.
pub proof fn autosave_due_is_monotone(last: u64, now: u64, later: u64, rate: u32, faster: u32)
    ensures
        now >= due_tick(last, rate) && later >= now ==> later >= due_tick(last, rate),
        effective_tick_rate(rate) <= effective_tick_rate(faster) ==> due_tick(last, rate) <= due_tick(last, faster),
{
}

} // verus!

verus! {

/// A schema version is recorded major first, then minor, then patch, so
/// two versions are recorded alike exactly when they are the same version.
pub proof fn version_array_order(v: SaveSchemaVersion, w: SaveSchemaVersion)
    ensures
        version_array(v)@ == seq![v.major, v.minor, v.patch],
        version_array(v) == version_array(w) <==> (v.major == w.major && v.minor == w.minor && v.patch == w.patch),
{
    assert(version_array(v)@ =~= seq![v.major, v.minor, v.patch]);
    if version_array(v) == version_array(w) {
        assert(version_array(v)@ == version_array(w)@);
        assert(version_array(w)@ =~= seq![w.major, w.minor, w.patch]);
        assert(version_array(v)@[1] == version_array(w)@[1]);
        assert(version_array(v)@[2] == version_array(w)@[2]);
    }
}

} // verus!
