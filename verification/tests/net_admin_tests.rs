use cf_control::net_admin::{
    NetLossRecoveryView, NetRollbackStatsView, NetSessionTransportView, REDUNDANT_INPUT_DEFAULT_WINDOW,
};

#[test]
fn empty_session_transport_view_has_blank_fields() {
    let v = NetSessionTransportView::empty();
    assert_eq!(v.schema_version, 1);
    assert!(v.session_id.is_empty());
    assert!(v.transport_mode.is_empty());
    assert!(v.traversal_method.is_empty());
    assert!(v.traversal_path.is_empty());
    assert_eq!(v.elapsed_ms, 0);
    assert_eq!(v.session_semver_packed, 0);
}

#[test]
fn loss_recovery_view_defaults_to_three_tick_window() {
    let v = NetLossRecoveryView::empty();
    assert_eq!(v.redundant_input_window_ticks, REDUNDANT_INPUT_DEFAULT_WINDOW);
    assert_eq!(v.redundant_input_window_ticks, 3);
    assert_eq!(v.recovered_input_ticks_total, 0);
    assert_eq!(v.fec_groups_total, 0);
}

#[test]
fn empty_rollback_stats_have_no_windows() {
    let v = NetRollbackStatsView::empty();
    assert_eq!(v.schema_version, 1);
    assert!(v.recent_windows.is_empty());
    assert_eq!(v.windows_within_budget, 0);
    assert_eq!(v.windows_over_budget, 0);
    assert_eq!(v.p99_resim_us, 0);
    assert_eq!(v.max_resim_us, 0);
}
