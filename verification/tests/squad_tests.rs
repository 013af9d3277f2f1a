use std::collections::BTreeMap;

use cf_control::squad::{bounding_split, BoundingPhase, SquadRoleHint};

fn squad() -> BTreeMap<u64, SquadRoleHint> {
    let mut m = BTreeMap::new();
    m.insert(4, SquadRoleHint::Pointman);
    m.insert(1, SquadRoleHint::SquadLeader);
    m.insert(3, SquadRoleHint::Heavy);
    m.insert(2, SquadRoleHint::Rifleman);
    m.insert(6, SquadRoleHint::Marksman);
    m.insert(5, SquadRoleHint::Engineer);
    m
}

#[test]
fn cover_half_step_puts_cover_roles_on_cover() {
    let (cover, moving) = bounding_split(&squad(), BoundingPhase::CoverHalf);
    assert_eq!(cover, vec![1, 3, 6]);
    assert_eq!(moving, vec![2, 4, 5]);
}

#[test]
fn move_half_step_swaps_the_crews() {
    let (cover, moving) = bounding_split(&squad(), BoundingPhase::MoveHalf);
    assert_eq!(cover, vec![2, 4, 5]);
    assert_eq!(moving, vec![1, 3, 6]);
}

#[test]
fn empty_squad_splits_into_empty_halves() {
    let (cover, moving) = bounding_split(&BTreeMap::new(), BoundingPhase::CoverHalf);
    assert!(cover.is_empty());
    assert!(moving.is_empty());
}

#[test]
fn squad_of_riflemen_all_move_on_a_cover_half_step() {
    let mut m = BTreeMap::new();
    m.insert(10, SquadRoleHint::Rifleman);
    m.insert(7, SquadRoleHint::Rifleman);
    let (cover, moving) = bounding_split(&m, BoundingPhase::CoverHalf);
    assert!(cover.is_empty());
    assert_eq!(moving, vec![7, 10]);
}
