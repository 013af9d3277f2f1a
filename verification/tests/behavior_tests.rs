use cf_control::behavior::{
    detect_behavior_transitions, Archetype, BehaviorSignals, BotState, CoverSeekingReason, RetreatReason,
    TaskType,
};

fn signals_baseline(actor_id: u64) -> BehaviorSignals {
    BehaviorSignals {
        actor_id,
        hp_below_retreat_threshold: false,
        elevated: false,
        enemy_visible: false,
        under_fire: false,
        reactive_override: false,
        player_actor_id: Some(99),
        squadmates: vec![2, 3],
        friendly_in_line_of_fire: None,
        current_tick: 100,
        // 0.5 s at 60 Hz after the current tick.
        squad_comm_relay_tick: 130,
    }
}

#[test]
fn detect_emits_cover_seeking_on_transition_into_cover() {
    let mut bot = BotState::new(Archetype::Rifleman);
    let mut sig = signals_baseline(7);
    sig.under_fire = true;
    let emit = detect_behavior_transitions(&mut bot, TaskType::HoldCover, &sig);
    assert!(emit.cover_seeking_started.is_some());
    assert_eq!(emit.cover_seeking_started, Some(CoverSeekingReason::Fired));
    let emit2 = detect_behavior_transitions(&mut bot, TaskType::HoldCover, &sig);
    assert!(
        emit2.cover_seeking_started.is_none(),
        "no re-fire on second tick at same task"
    );
}

#[test]
fn detect_emits_suppression_on_transition_into_suppress() {
    let mut bot = BotState::new(Archetype::Rifleman);
    let sig = signals_baseline(7);
    let emit = detect_behavior_transitions(&mut bot, TaskType::SuppressFire, &sig);
    let target = emit.suppression_started.expect("suppression payload");
    assert_eq!(emit.actor_id, 7);
    assert_eq!(target, 99);
}

#[test]
fn detect_emits_retreat_decision_when_hp_low() {
    let mut bot = BotState::new(Archetype::Rifleman);
    let mut sig = signals_baseline(7);
    sig.hp_below_retreat_threshold = true;
    let emit = detect_behavior_transitions(&mut bot, TaskType::RetreatToCover, &sig);
    let reason = emit.retreat_decision.expect("retreat payload");
    assert_eq!(reason, RetreatReason::HpLow);
    assert_eq!(emit.actor_id, 7);
}

#[test]
fn detect_emits_patrol_waypoint_when_idle_expires() {
    let mut bot = BotState::new(Archetype::Rifleman);
    let sig = signals_baseline(7);
    let emit = detect_behavior_transitions(&mut bot, TaskType::Patrol, &sig);
    assert!(emit.patrol_step);
    assert_eq!(emit.actor_id, 7);
}

#[test]
fn detect_emits_friendly_fire_avoidance_when_friend_in_los() {
    let mut bot = BotState::new(Archetype::Rifleman);
    let mut sig = signals_baseline(7);
    sig.friendly_in_line_of_fire = Some(8);
    let emit = detect_behavior_transitions(&mut bot, TaskType::EngageVisibleEnemy, &sig);
    let friendly = emit.friendly_fire_avoidance.expect("ff payload");
    assert_eq!(friendly, 8);
    let emit2 = detect_behavior_transitions(&mut bot, TaskType::EngageVisibleEnemy, &sig);
    assert!(emit2.friendly_fire_avoidance.is_none());
}

#[test]
fn detect_emits_high_ground_preference_for_sniper_on_elevation() {
    let mut bot = BotState::new(Archetype::Sniper);
    let mut sig = signals_baseline(7);
    sig.elevated = true;
    let emit = detect_behavior_transitions(&mut bot, TaskType::SharpshootTarget, &sig);
    assert!(emit.high_ground_preference_applied);
    assert_eq!(emit.actor_id, 7);
}

#[test]
fn detect_does_not_emit_high_ground_for_rifleman() {
    let mut bot = BotState::new(Archetype::Rifleman);
    let mut sig = signals_baseline(7);
    sig.elevated = true;
    let emit = detect_behavior_transitions(&mut bot, TaskType::SharpshootTarget, &sig);
    assert!(!emit.high_ground_preference_applied);
}

#[test]
fn detect_emits_squad_comm_relayed_after_delay() {
    let mut bot = BotState::new(Archetype::Rifleman);
    let mut sig = signals_baseline(7);
    sig.enemy_visible = true;
    sig.current_tick = 100;
    let emit_first = detect_behavior_transitions(&mut bot, TaskType::EngageVisibleEnemy, &sig);
    assert!(
        emit_first.squad_comm_relayed.is_empty(),
        "no relay emitted before delay elapses"
    );
    sig.current_tick = 130;
    let emit_after = detect_behavior_transitions(&mut bot, TaskType::EngageVisibleEnemy, &sig);
    assert_eq!(emit_after.squad_comm_relayed.len(), 1);
    let relay = &emit_after.squad_comm_relayed[0];
    assert_eq!(relay.originator_actor_id, 7);
    assert_eq!(relay.receiver_actor_ids, vec![2, 3]);
    assert_eq!(relay.delay_ticks, 30);
    assert_eq!(relay.target_actor_id, 99);
}

#[test]
fn squad_comm_relay_delivered_once() {
    let mut bot = BotState::new(Archetype::Rifleman);
    let mut sig = signals_baseline(7);
    sig.enemy_visible = true;
    detect_behavior_transitions(&mut bot, TaskType::EngageVisibleEnemy, &sig);
    assert_eq!(bot.squad_comm_pending.len(), 1);
    sig.current_tick = 129;
    let early = detect_behavior_transitions(&mut bot, TaskType::EngageVisibleEnemy, &sig);
    assert!(early.squad_comm_relayed.is_empty());
    sig.current_tick = 140;
    let ready = detect_behavior_transitions(&mut bot, TaskType::EngageVisibleEnemy, &sig);
    assert_eq!(ready.squad_comm_relayed.len(), 1);
    assert!(bot.squad_comm_pending.is_empty());
    sig.current_tick = 200;
    let later = detect_behavior_transitions(&mut bot, TaskType::EngageVisibleEnemy, &sig);
    assert!(later.squad_comm_relayed.is_empty());
}

#[test]
fn squad_comm_scheduled_only_when_player_first_seen() {
    let mut bot = BotState::new(Archetype::Rifleman);
    let mut sig = signals_baseline(7);
    sig.enemy_visible = true;
    detect_behavior_transitions(&mut bot, TaskType::EngageVisibleEnemy, &sig);
    detect_behavior_transitions(&mut bot, TaskType::EngageVisibleEnemy, &sig);
    assert_eq!(bot.squad_comm_pending.len(), 1);
    sig.enemy_visible = false;
    detect_behavior_transitions(&mut bot, TaskType::EngageVisibleEnemy, &sig);
    sig.enemy_visible = true;
    sig.current_tick = 110;
    sig.squad_comm_relay_tick = 140;
    detect_behavior_transitions(&mut bot, TaskType::EngageVisibleEnemy, &sig);
    assert_eq!(bot.squad_comm_pending.len(), 2);
    sig.current_tick = 140;
    let both = detect_behavior_transitions(&mut bot, TaskType::EngageVisibleEnemy, &sig);
    assert_eq!(both.squad_comm_relayed.len(), 2);
    // Latest queued first.
    assert_eq!(both.squad_comm_relayed[0].delay_ticks, 30);
    assert_eq!(both.squad_comm_relayed[1].delay_ticks, 30);
    assert!(bot.squad_comm_pending.is_empty());
}

#[test]
fn squad_comm_needs_squadmates_and_known_player() {
    let mut bot = BotState::new(Archetype::Rifleman);
    let mut sig = signals_baseline(7);
    sig.enemy_visible = true;
    sig.squadmates = vec![];
    detect_behavior_transitions(&mut bot, TaskType::EngageVisibleEnemy, &sig);
    assert!(bot.squad_comm_pending.is_empty());
    let mut bot2 = BotState::new(Archetype::Rifleman);
    let mut sig2 = signals_baseline(7);
    sig2.enemy_visible = true;
    sig2.player_actor_id = None;
    detect_behavior_transitions(&mut bot2, TaskType::EngageVisibleEnemy, &sig2);
    assert!(bot2.squad_comm_pending.is_empty());
}

#[test]
fn squad_comm_relay_with_no_delay_is_delivered_same_tick() {
    let mut bot = BotState::new(Archetype::Rifleman);
    let mut sig = signals_baseline(7);
    sig.enemy_visible = true;
    sig.squad_comm_relay_tick = 100;
    let emit = detect_behavior_transitions(&mut bot, TaskType::EngageVisibleEnemy, &sig);
    assert_eq!(emit.squad_comm_relayed.len(), 1);
    assert_eq!(emit.squad_comm_relayed[0].delay_ticks, 0);
}

#[test]
fn retreat_under_reactive_override_is_overwhelmed_and_cover_is_emergency_dodge() {
    let mut bot = BotState::new(Archetype::Medic);
    let mut sig = signals_baseline(7);
    sig.reactive_override = true;
    let emit = detect_behavior_transitions(&mut bot, TaskType::RetreatToCover, &sig);
    assert_eq!(emit.retreat_decision, Some(RetreatReason::OverWhelmed));
    assert_eq!(emit.cover_seeking_started, Some(CoverSeekingReason::EmergencyDodge));
}

#[test]
fn retreat_into_cover_without_low_hp_is_cover_low_hp_but_no_retreat() {
    let mut bot = BotState::new(Archetype::Rifleman);
    let sig = signals_baseline(7);
    let emit = detect_behavior_transitions(&mut bot, TaskType::RetreatToCover, &sig);
    assert_eq!(emit.retreat_decision, None);
    assert_eq!(emit.cover_seeking_started, Some(CoverSeekingReason::LowHp));
}

#[test]
fn dig_cover_without_pressure_is_squad_flanking() {
    let mut bot = BotState::new(Archetype::Engineer);
    let sig = signals_baseline(7);
    let emit = detect_behavior_transitions(&mut bot, TaskType::DigCover, &sig);
    assert_eq!(emit.cover_seeking_started, Some(CoverSeekingReason::SquadFlanking));
}

#[test]
fn suppression_without_known_player_targets_zero() {
    let mut bot = BotState::new(Archetype::Rifleman);
    let mut sig = signals_baseline(7);
    sig.player_actor_id = None;
    let emit = detect_behavior_transitions(&mut bot, TaskType::SuppressFire, &sig);
    assert_eq!(emit.suppression_started, Some(0));
}

#[test]
fn friendly_fire_rearms_after_line_clears() {
    let mut bot = BotState::new(Archetype::Rifleman);
    let mut sig = signals_baseline(7);
    sig.friendly_in_line_of_fire = Some(8);
    let first = detect_behavior_transitions(&mut bot, TaskType::FlankTarget, &sig);
    assert_eq!(first.friendly_fire_avoidance, Some(8));
    sig.friendly_in_line_of_fire = None;
    let clear = detect_behavior_transitions(&mut bot, TaskType::FlankTarget, &sig);
    assert_eq!(clear.friendly_fire_avoidance, None);
    sig.friendly_in_line_of_fire = Some(8);
    let again = detect_behavior_transitions(&mut bot, TaskType::FlankTarget, &sig);
    assert_eq!(again.friendly_fire_avoidance, Some(8));
}

#[test]
fn friendly_in_line_ignored_outside_shooting_tasks() {
    let mut bot = BotState::new(Archetype::Rifleman);
    let mut sig = signals_baseline(7);
    sig.friendly_in_line_of_fire = Some(8);
    let emit = detect_behavior_transitions(&mut bot, TaskType::Patrol, &sig);
    assert_eq!(emit.friendly_fire_avoidance, None);
}

#[test]
fn high_ground_once_per_task_for_spotter() {
    let mut bot = BotState::new(Archetype::Spotter);
    let mut sig = signals_baseline(7);
    sig.elevated = true;
    let first = detect_behavior_transitions(&mut bot, TaskType::MarkThreats, &sig);
    assert!(first.high_ground_preference_applied);
    let second = detect_behavior_transitions(&mut bot, TaskType::MarkThreats, &sig);
    assert!(!second.high_ground_preference_applied);
    let other = detect_behavior_transitions(&mut bot, TaskType::HoldCover, &sig);
    assert!(!other.high_ground_preference_applied);
    let back = detect_behavior_transitions(&mut bot, TaskType::MarkThreats, &sig);
    assert!(back.high_ground_preference_applied);
}

#[test]
fn high_ground_needs_elevation() {
    let mut bot = BotState::new(Archetype::Sniper);
    let sig = signals_baseline(7);
    let emit = detect_behavior_transitions(&mut bot, TaskType::SharpshootTarget, &sig);
    assert!(!emit.high_ground_preference_applied);
}
