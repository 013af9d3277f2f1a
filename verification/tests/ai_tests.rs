use cf_control::ai::{boss_ability_for_phase, BossPhase, StressThreshold};
use cf_control::origin::ResKind;

#[test]
fn stress_threshold_labels() {
    assert_eq!(StressThreshold::Calm.as_str(), "calm");
    assert_eq!(StressThreshold::Stressed.as_str(), "stressed");
    assert_eq!(StressThreshold::Depressed.as_str(), "depressed");
    assert_eq!(StressThreshold::Broken.as_str(), "broken");
}

#[test]
fn boss_abilities_per_phase() {
    assert_eq!(boss_ability_for_phase(BossPhase::Phase1), None);
    assert_eq!(boss_ability_for_phase(BossPhase::Phase2), Some("shield"));
    assert_eq!(boss_ability_for_phase(BossPhase::Phase3), Some("enraged"));
}

#[test]
fn resource_kinds_have_labels_and_ids() {
    let all = [ResKind::Blood, ResKind::Oil, ResKind::Power, ResKind::Caloric, ResKind::BioFluid];
    let labels: Vec<&str> = all.iter().map(|k| k.as_str()).collect();
    assert_eq!(labels, vec!["blood", "oil", "power", "caloric", "bio_fluid"]);
    let ids: Vec<u8> = all.iter().map(|k| k.id()).collect();
    assert_eq!(ids, vec![0, 1, 2, 3, 4]);
}
