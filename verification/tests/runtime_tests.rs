use cf_control::runtime::{
    bevy_version, build_engine_config, compose_commit_sha, BuildMetadata, ConfigBuildError, ConfigInputs,
    ScenarioManifest,
};
use cf_control::worktree::{
    dirty_files_from_status, split_nul_fields, to_hex, untracked_paths, worktree_fingerprint,
    worktree_info_from_override, worktree_info_from_probe, GitWorktreeInfo,
};

fn inputs() -> ConfigInputs {
    ConfigInputs {
        scenario_id: "m0_blank".to_string(),
        scenario_path: "content/scenarios/m0_blank.ron".to_string(),
        run_mode: "headless".to_string(),
        run_bundle_root: "prototype_runs/native".to_string(),
        write_run_bundle: true,
        control_api_enabled: false,
        debug_capabilities: vec!["overlay".to_string()],
        tick_rate_hz: 0,
        capture_grid_enabled: true,
        paced: false,
        seed_override: None,
        duration_ticks_override: Some(0),
        debug_inject_panic_at_tick: None,
    }
}

fn build() -> BuildMetadata {
    BuildMetadata {
        commit_sha: "0123456789ab".to_string(),
        worktree: GitWorktreeInfo::default(),
        rust_version: "rustc 1.90.0".to_string(),
    }
}

#[test]
fn bevy_version_is_pinned() {
    assert_eq!(bevy_version(), "0.18.1");
}

#[test]
fn manifest_values_hold_without_overrides() {
    let cfg = build_engine_config(inputs(), Ok(ScenarioManifest { seed: 42, duration_ticks: 600 }), build())
        .ok()
        .unwrap();
    assert_eq!(cfg.seed, 42);
    // A zero duration override keeps the manifest duration.
    assert_eq!(cfg.duration_ticks, 600);
    // A zero tick rate is clamped to one.
    assert_eq!(cfg.tick_rate_hz, 1);
    assert_eq!(cfg.scenario_id, "m0_blank");
    assert_eq!(cfg.scenario_path, "content/scenarios/m0_blank.ron");
    assert_eq!(cfg.debug_capabilities, vec!["overlay".to_string()]);
    assert!(cfg.capture_grid_enabled);
    assert_eq!(cfg.commit_sha, "0123456789ab");
    assert_eq!(cfg.rust_version, "rustc 1.90.0");
    assert_eq!(cfg.bevy_version, "bevy 0.18.1");
    assert!(!cfg.worktree_dirty);
    assert!(cfg.worktree_fingerprint.is_none());
}

#[test]
fn overrides_replace_manifest_values() {
    let mut i = inputs();
    i.seed_override = Some(7);
    i.duration_ticks_override = Some(120);
    i.tick_rate_hz = 30;
    let cfg = build_engine_config(i, Ok(ScenarioManifest { seed: 42, duration_ticks: 600 }), build())
        .ok()
        .unwrap();
    assert_eq!(cfg.seed, 7);
    assert_eq!(cfg.duration_ticks, 120);
    assert_eq!(cfg.tick_rate_hz, 30);
}

#[test]
fn scenario_load_failure_is_reported() {
    let r = build_engine_config(inputs(), Err("no such file".to_string()), build());
    match r {
        Err(e) => {
            let ConfigBuildError::Scenario(m) = &e;
            assert_eq!(m, "no such file");
            assert_eq!(e.message(), "scenario load failed: no such file");
        }
        Ok(_) => panic!("expected an error"),
    }
}

#[test]
fn commit_sha_honors_override_and_dirty_marker() {
    assert_eq!(compose_commit_sha(Some("ci-sha".to_string()), Some("abc".to_string()), true), "ci-sha");
    assert_eq!(compose_commit_sha(Some(String::new()), Some("abc".to_string()), true), "abc-dirty");
    assert_eq!(compose_commit_sha(None, Some("abc".to_string()), false), "abc");
    assert_eq!(compose_commit_sha(None, None, true), "uncommitted");
}

#[test]
fn nul_fields_skip_empty_entries() {
    let f = split_nul_fields(b"\0ab\0\0c\0");
    assert_eq!(f, vec![b"ab".to_vec(), b"c".to_vec()]);
    assert!(split_nul_fields(b"").is_empty());
    assert_eq!(split_nul_fields(b"xyz"), vec![b"xyz".to_vec()]);
}

#[test]
fn dirty_files_are_sorted_and_deduplicated() {
    let status = b" M src/z.rs\0?? a.txt\0M  src/z.rs\0AM\0 D b/c.rs\0";
    let files = dirty_files_from_status(status).unwrap();
    assert_eq!(files, vec!["a.txt".to_string(), "b/c.rs".to_string(), "src/z.rs".to_string()]);
}

#[test]
fn status_entry_splitting_a_character_is_refused() {
    // "ab" followed by a two-byte character: byte 3 falls inside it.
    let status = "ab\u{e9}x\0".as_bytes();
    assert!(dirty_files_from_status(status).is_none());
}

#[test]
fn untracked_paths_are_sorted_in_path_order() {
    let paths = untracked_paths(b"z.txt\0a/b.txt\0\0m.txt\0");
    assert_eq!(paths, vec!["a/b.txt".to_string(), "m.txt".to_string(), "z.txt".to_string()]);
}

#[test]
fn hex_is_lower_case_two_digits_per_byte() {
    assert_eq!(to_hex(&[0x00, 0x0f, 0xa5, 0xff]), "000fa5ff");
    assert_eq!(to_hex(&[]), "");
}

#[test]
fn fingerprint_hashes_status_diff_and_untracked_contents() {
    let status = b"?? new.txt\0";
    let diff = b"diff --git";
    let paths = vec!["new.txt".to_string(), "gone.txt".to_string()];
    let contents = vec![Some(b"hello".to_vec()), None];
    let fp = worktree_fingerprint(status, diff, &paths, &contents);

    let mut msg: Vec<u8> = Vec::new();
    msg.extend_from_slice(b"cf-worktree-fingerprint-v1\0status\0");
    msg.extend_from_slice(status);
    msg.extend_from_slice(b"\0diff\0");
    msg.extend_from_slice(diff);
    msg.extend_from_slice(b"\0untracked\0");
    msg.extend_from_slice(b"new.txt\0");
    msg.extend_from_slice(blake3::hash(b"hello").as_bytes());
    msg.extend_from_slice(b"\0");
    msg.extend_from_slice(b"gone.txt\0\0");
    let expected = blake3::hash(&msg).to_hex().to_string();
    assert_eq!(fp, expected);
    assert_eq!(fp.len(), 64);
}

#[test]
fn fingerprint_changes_with_untracked_contents() {
    let paths = vec!["f".to_string()];
    let a = worktree_fingerprint(b"?? f\0", b"", &paths, &vec![Some(b"1".to_vec())]);
    let b = worktree_fingerprint(b"?? f\0", b"", &paths, &vec![Some(b"2".to_vec())]);
    assert_ne!(a, b);
}

#[test]
fn override_fingerprint_settles_the_worktree() {
    let info = worktree_info_from_override(Some("fp-from-ci".to_string())).unwrap();
    assert!(info.dirty);
    assert_eq!(info.fingerprint.as_deref(), Some("fp-from-ci"));
    assert!(info.dirty_files.is_empty());
    assert!(worktree_info_from_override(Some(String::new())).is_none());
    assert!(worktree_info_from_override(None).is_none());
}

#[test]
fn probe_of_clean_or_unreadable_status_is_clean() {
    let none: Vec<String> = Vec::new();
    let no_contents: Vec<Option<Vec<u8>>> = Vec::new();
    let info = worktree_info_from_probe(None, b"", &none, &no_contents).unwrap();
    assert!(!info.dirty && info.fingerprint.is_none() && info.dirty_files.is_empty());
    let info = worktree_info_from_probe(Some(Vec::new()), b"ignored", &none, &no_contents).unwrap();
    assert!(!info.dirty && info.fingerprint.is_none() && info.dirty_files.is_empty());
}

#[test]
fn probe_of_dirty_status_fingerprints_and_lists_files() {
    let status = b" M b.rs\0 M a.rs\0".to_vec();
    let none: Vec<String> = Vec::new();
    let no_contents: Vec<Option<Vec<u8>>> = Vec::new();
    let info = worktree_info_from_probe(Some(status.clone()), b"d", &none, &no_contents).unwrap();
    assert!(info.dirty);
    assert_eq!(info.dirty_files, vec!["a.rs".to_string(), "b.rs".to_string()]);
    assert_eq!(info.fingerprint, Some(worktree_fingerprint(&status, b"d", &none, &no_contents)));
}

#[test]
fn invalid_utf8_entries_are_decoded_lossily() {
    let paths = untracked_paths(b"b\xffc\0a.txt\0");
    assert_eq!(paths, vec!["a.txt".to_string(), "b\u{FFFD}c".to_string()]);
    let files = dirty_files_from_status(b"?? x\xff\0").unwrap();
    assert_eq!(files, vec!["x\u{FFFD}".to_string()]);
}
