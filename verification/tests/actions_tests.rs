use std::collections::BTreeSet;

use cf_control::actions::{M6ActionKind, SquadCommandKindOverWire};

const ALL_KINDS: [M6ActionKind; 27] = [
    M6ActionKind::Sprint,
    M6ActionKind::Prone,
    M6ActionKind::Slide,
    M6ActionKind::Vault,
    M6ActionKind::ClimbUp,
    M6ActionKind::ClimbDown,
    M6ActionKind::Dive,
    M6ActionKind::Lean,
    M6ActionKind::StealthKill,
    M6ActionKind::KnifeThrow,
    M6ActionKind::WeaponSwap,
    M6ActionKind::DropItem,
    M6ActionKind::Pickup,
    M6ActionKind::SignalFriendly,
    M6ActionKind::SignalEnemySpotted,
    M6ActionKind::MarkWaypoint,
    M6ActionKind::DeployBipod,
    M6ActionKind::StowBipod,
    M6ActionKind::CycleFireMode,
    M6ActionKind::CookGrenade,
    M6ActionKind::ThrowGrenade,
    M6ActionKind::MeleeBash,
    M6ActionKind::MeleeKick,
    M6ActionKind::UseTool,
    M6ActionKind::AttachSuppressor,
    M6ActionKind::DetachSuppressor,
    M6ActionKind::SetFacing,
];

#[test]
fn method_names_are_unique() {
    let names: BTreeSet<&str> = ALL_KINDS.iter().map(M6ActionKind::method_name).collect();
    assert_eq!(names.len(), ALL_KINDS.len());
}

#[test]
fn squad_requires_waypoint_known() {
    assert!(SquadCommandKindOverWire::DefendPoint.requires_waypoint());
    assert!(SquadCommandKindOverWire::PushToWaypoint.requires_waypoint());
    assert!(!SquadCommandKindOverWire::FollowLeader.requires_waypoint());
}

#[test]
fn hold_position_needs_no_waypoint() {
    assert!(!SquadCommandKindOverWire::HoldPosition.requires_waypoint());
}

#[test]
fn squad_command_wire_ids() {
    assert_eq!(SquadCommandKindOverWire::FollowLeader.as_str(), "follow_leader");
    assert_eq!(SquadCommandKindOverWire::HoldPosition.as_str(), "hold_position");
    assert_eq!(SquadCommandKindOverWire::DefendPoint.as_str(), "defend_point");
    assert_eq!(SquadCommandKindOverWire::PushToWaypoint.as_str(), "push_to_waypoint");
}

#[test]
fn method_names_carry_the_player_prefix() {
    assert_eq!(M6ActionKind::Sprint.method_name(), "act.player.sprint");
    assert_eq!(M6ActionKind::SignalEnemySpotted.method_name(), "act.player.signal_enemy_spotted");
    assert_eq!(M6ActionKind::SetFacing.method_name(), "act.player.set_facing");
    for k in ALL_KINDS.iter() {
        assert!(k.method_name().starts_with("act.player."));
    }
}
