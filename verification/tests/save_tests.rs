use cf_control::save::{
    autosave_due, autosave_due_at_rate, autosave_interval_ticks, version_tuple, LastSaveCache, LastSaveMetadata,
    QuickloadOutcome, QuicksaveOutcome, SaveSchemaVersion, AUTOSAVE_INTERVAL_SECONDS, AUTOSAVE_INTERVAL_TICKS,
};

fn v140() -> SaveSchemaVersion {
    SaveSchemaVersion { major: 1, minor: 4, patch: 0 }
}

fn load_outcome(migrated: bool) -> QuickloadOutcome {
    QuickloadOutcome {
        save_version: v140(),
        checksum_hex: "abc123".to_string(),
        wall_clock_ms: 9,
        migrated_from: if migrated { Some(SaveSchemaVersion { major: 1, minor: 3, patch: 2 }) } else { None },
        migrated_to: if migrated { Some(v140()) } else { None },
    }
}

#[test]
fn autosave_due_fires_after_one_minute_interval_at_60hz() {
    assert!(!autosave_due(0, 60 * 60 - 1));
    assert!(autosave_due(0, 60 * 60));
    assert!(autosave_due(0, 60 * 60 + 1));
}

#[test]
fn autosave_due_honors_tick_rate_hz() {
    // 60 Hz path.
    assert!(autosave_due_at_rate(0, 3600, 60));
    assert!(!autosave_due_at_rate(0, 3599, 60));
    // 120 Hz path.
    assert!(autosave_due_at_rate(0, 7200, 120));
    assert!(!autosave_due_at_rate(0, 7199, 120));
    // 30 Hz path.
    assert!(autosave_due_at_rate(0, 1800, 30));
    assert!(!autosave_due_at_rate(0, 1799, 30));
}

#[test]
fn autosave_interval_ticks_clamps_zero_tick_rate_to_one() {
    assert_eq!(autosave_interval_ticks(0), AUTOSAVE_INTERVAL_SECONDS);
    assert_eq!(autosave_interval_ticks(60), AUTOSAVE_INTERVAL_SECONDS * 60);
}

#[test]
fn last_save_cache_starts_fresh_with_schema_version_1() {
    let c = LastSaveCache::new();
    let s = c.snapshot();
    assert_eq!(s.schema_version, 1);
    assert!(s.path.is_none());
    assert!(s.blake3.is_none());
}

#[test]
fn default_rate_interval_is_3600_ticks() {
    assert_eq!(AUTOSAVE_INTERVAL_TICKS, 3600);
    assert_eq!(autosave_interval_ticks(60), AUTOSAVE_INTERVAL_TICKS);
    assert_eq!(autosave_interval_ticks(u32::MAX), 60 * u32::MAX as u64);
}

#[test]
fn autosave_due_is_relative_to_last_autosave() {
    assert!(!autosave_due(1000, 4599));
    assert!(autosave_due(1000, 4600));
    assert!(!autosave_due_at_rate(500, 500 + 60 - 1, 0));
    assert!(autosave_due_at_rate(500, 500 + 60, 0));
}

#[test]
fn autosave_due_saturates_near_the_end_of_time() {
    // The due tick saturates at u64::MAX instead of wrapping around.
    assert!(!autosave_due(u64::MAX - 10, 5));
    assert!(!autosave_due(u64::MAX - 10, u64::MAX - 1));
    assert!(autosave_due(u64::MAX - 10, u64::MAX));
}

#[test]
fn fresh_metadata_has_every_field_empty() {
    let m = LastSaveMetadata::fresh();
    assert_eq!(m.schema_version, 1);
    assert!(m.path.is_none());
    assert!(m.save_schema_version.is_none());
    assert!(m.blake3.is_none());
    assert!(m.size_bytes.is_none());
    assert!(m.wall_clock_ms.is_none());
    assert!(m.last_operation.is_none());
}

#[test]
fn save_then_load_round_trips_through_cache() {
    let mut cache = LastSaveCache::new();
    let outcome = QuicksaveOutcome {
        path: "/tmp/q/quicksave.cfsave".to_string(),
        checksum_hex: "abc123".to_string(),
        bytes_written: 120,
        wall_clock_ms: 16,
    };
    cache.record_save(&outcome, &v140());
    let snapshot = cache.snapshot();
    assert_eq!(snapshot.last_operation.as_deref(), Some("save"));
    assert_eq!(snapshot.blake3.as_deref(), Some("abc123"));
    assert_eq!(snapshot.size_bytes, Some(120));
    assert_eq!(snapshot.wall_clock_ms, Some(16));
    assert_eq!(snapshot.save_schema_version, Some([1, 4, 0]));
    assert_eq!(snapshot.path.as_deref(), Some("/tmp/q/quicksave.cfsave"));
    assert_eq!(snapshot.schema_version, 1);

    cache.record_load("/tmp/q/quicksave.cfsave".to_string(), &load_outcome(false));
    let snapshot = cache.snapshot();
    assert_eq!(snapshot.last_operation.as_deref(), Some("load"));
    assert_eq!(snapshot.size_bytes, Some(0));
    assert_eq!(snapshot.wall_clock_ms, Some(9));
}

#[test]
fn migrating_load_is_recorded_as_migrate() {
    let mut cache = LastSaveCache::new();
    cache.record_load("/s/quicksave.cfsave".to_string(), &load_outcome(true));
    let snapshot = cache.snapshot();
    assert_eq!(snapshot.last_operation.as_deref(), Some("migrate"));
    assert_eq!(snapshot.save_schema_version, Some([1, 4, 0]));
    assert_eq!(snapshot.path.as_deref(), Some("/s/quicksave.cfsave"));
}

#[test]
fn version_tuple_lists_major_minor_patch() {
    assert_eq!(version_tuple(&SaveSchemaVersion { major: 3, minor: 2, patch: 1 }), [3, 2, 1]);
}

#[test]
fn default_metadata_has_schema_version_0() {
    let m = LastSaveMetadata::default();
    assert_eq!(m.schema_version, 0);
    assert!(m.last_operation.is_none());
}
