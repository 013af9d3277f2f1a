//! Player and squad action vocabularies of the control surface.

use vstd::prelude::*;

verus! {

/// The kind of a sticky / edge player action, without its payload.
#[derive(Clone, Copy, Debug, PartialEq, Eq, Structural)]
pub enum M6ActionKind {
    Sprint,
    Prone,
    Slide,
    Vault,
    ClimbUp,
    ClimbDown,
    Dive,
    Lean,
    StealthKill,
    KnifeThrow,
    WeaponSwap,
    DropItem,
    Pickup,
    SignalFriendly,
    SignalEnemySpotted,
    MarkWaypoint,
    DeployBipod,
    StowBipod,
    CycleFireMode,
    CookGrenade,
    ThrowGrenade,
    MeleeBash,
    MeleeKick,
    UseTool,
    AttachSuppressor,
    DetachSuppressor,
    SetFacing,
}

/// The control-surface method name of each action kind.
pub open spec fn method_name_of(k: M6ActionKind) -> Seq<char> {
    match k {
        M6ActionKind::Sprint => "act.player.sprint"@,
        M6ActionKind::Prone => "act.player.prone"@,
        M6ActionKind::Slide => "act.player.slide"@,
        M6ActionKind::Vault => "act.player.vault"@,
        M6ActionKind::ClimbUp => "act.player.climb_up"@,
        M6ActionKind::ClimbDown => "act.player.climb_down"@,
        M6ActionKind::Dive => "act.player.dive"@,
        M6ActionKind::Lean => "act.player.lean"@,
        M6ActionKind::StealthKill => "act.player.stealth_kill"@,
        M6ActionKind::KnifeThrow => "act.player.knife_throw"@,
        M6ActionKind::WeaponSwap => "act.player.weapon_swap"@,
        M6ActionKind::DropItem => "act.player.drop_item"@,
        M6ActionKind::Pickup => "act.player.pickup"@,
        M6ActionKind::SignalFriendly => "act.player.signal_friendly"@,
        M6ActionKind::SignalEnemySpotted => "act.player.signal_enemy_spotted"@,
        M6ActionKind::MarkWaypoint => "act.player.mark_waypoint"@,
        M6ActionKind::DeployBipod => "act.player.deploy_bipod"@,
        M6ActionKind::StowBipod => "act.player.stow_bipod"@,
        M6ActionKind::CycleFireMode => "act.player.cycle_fire_mode"@,
        M6ActionKind::CookGrenade => "act.player.cook_grenade"@,
        M6ActionKind::ThrowGrenade => "act.player.throw_grenade"@,
        M6ActionKind::MeleeBash => "act.player.melee_bash"@,
        M6ActionKind::MeleeKick => "act.player.melee_kick"@,
        M6ActionKind::UseTool => "act.player.use_tool"@,
        M6ActionKind::AttachSuppressor => "act.player.attach_suppressor"@,
        M6ActionKind::DetachSuppressor => "act.player.detach_suppressor"@,
        M6ActionKind::SetFacing => "act.player.set_facing"@,
    }
}

impl M6ActionKind {
    /// Control-surface method string recorded when an action of this kind is accepted.
    pub fn method_name(&self) -> (r: &'static str)
        ensures
            r@ == method_name_of(*self),
    {
        match self {
            M6ActionKind::Sprint => "act.player.sprint",
            M6ActionKind::Prone => "act.player.prone",
            M6ActionKind::Slide => "act.player.slide",
            M6ActionKind::Vault => "act.player.vault",
            M6ActionKind::ClimbUp => "act.player.climb_up",
            M6ActionKind::ClimbDown => "act.player.climb_down",
            M6ActionKind::Dive => "act.player.dive",
            M6ActionKind::Lean => "act.player.lean",
            M6ActionKind::StealthKill => "act.player.stealth_kill",
            M6ActionKind::KnifeThrow => "act.player.knife_throw",
            M6ActionKind::WeaponSwap => "act.player.weapon_swap",
            M6ActionKind::DropItem => "act.player.drop_item",
            M6ActionKind::Pickup => "act.player.pickup",
            M6ActionKind::SignalFriendly => "act.player.signal_friendly",
            M6ActionKind::SignalEnemySpotted => "act.player.signal_enemy_spotted",
            M6ActionKind::MarkWaypoint => "act.player.mark_waypoint",
            M6ActionKind::DeployBipod => "act.player.deploy_bipod",
            M6ActionKind::StowBipod => "act.player.stow_bipod",
            M6ActionKind::CycleFireMode => "act.player.cycle_fire_mode",
            M6ActionKind::CookGrenade => "act.player.cook_grenade",
            M6ActionKind::ThrowGrenade => "act.player.throw_grenade",
            M6ActionKind::MeleeBash => "act.player.melee_bash",
            M6ActionKind::MeleeKick => "act.player.melee_kick",
            M6ActionKind::UseTool => "act.player.use_tool",
            M6ActionKind::AttachSuppressor => "act.player.attach_suppressor",
            M6ActionKind::DetachSuppressor => "act.player.detach_suppressor",
            M6ActionKind::SetFacing => "act.player.set_facing",
        }
    }
}

/// Length, twelfth character and last character of a method name: enough
/// to tell every method name apart.
spec fn name_signature(s: Seq<char>) -> (int, char, char) {
    (s.len() as int, s[11], s[s.len() - 1])
}

spec fn expected_signature(k: M6ActionKind) -> (int, char, char) {
    match k {
        M6ActionKind::Sprint => (17, 's', 't'),
        M6ActionKind::Prone => (16, 'p', 'e'),
        M6ActionKind::Slide => (16, 's', 'e'),
        M6ActionKind::Vault => (16, 'v', 't'),
        M6ActionKind::ClimbUp => (19, 'c', 'p'),
        M6ActionKind::ClimbDown => (21, 'c', 'n'),
        M6ActionKind::Dive => (15, 'd', 'e'),
        M6ActionKind::Lean => (15, 'l', 'n'),
        M6ActionKind::StealthKill => (23, 's', 'l'),
        M6ActionKind::KnifeThrow => (22, 'k', 'w'),
        M6ActionKind::WeaponSwap => (22, 'w', 'p'),
        M6ActionKind::DropItem => (20, 'd', 'm'),
        M6ActionKind::Pickup => (17, 'p', 'p'),
        M6ActionKind::SignalFriendly => (26, 's', 'y'),
        M6ActionKind::SignalEnemySpotted => (31, 's', 'd'),
        M6ActionKind::MarkWaypoint => (24, 'm', 't'),
        M6ActionKind::DeployBipod => (23, 'd', 'd'),
        M6ActionKind::StowBipod => (21, 's', 'd'),
        M6ActionKind::CycleFireMode => (26, 'c', 'e'),
        M6ActionKind::CookGrenade => (23, 'c', 'e'),
        M6ActionKind::ThrowGrenade => (24, 't', 'e'),
        M6ActionKind::MeleeBash => (21, 'm', 'h'),
        M6ActionKind::MeleeKick => (21, 'm', 'k'),
        M6ActionKind::UseTool => (19, 'u', 'l'),
        M6ActionKind::AttachSuppressor => (28, 'a', 'r'),
        M6ActionKind::DetachSuppressor => (28, 'd', 'r'),
        M6ActionKind::SetFacing => (21, 's', 'g'),
    }
}

proof fn lemma_name_signature(k: M6ActionKind)
    ensures
        name_signature(method_name_of(k)) == expected_signature(k),
{
    match k {
        M6ActionKind::Sprint => {
            reveal_strlit("act.player.sprint");
        },
        M6ActionKind::Prone => {
            reveal_strlit("act.player.prone");
        },
        M6ActionKind::Slide => {
            reveal_strlit("act.player.slide");
        },
        M6ActionKind::Vault => {
            reveal_strlit("act.player.vault");
        },
        M6ActionKind::ClimbUp => {
            reveal_strlit("act.player.climb_up");
        },
        M6ActionKind::ClimbDown => {
            reveal_strlit("act.player.climb_down");
        },
        M6ActionKind::Dive => {
            reveal_strlit("act.player.dive");
        },
        M6ActionKind::Lean => {
            reveal_strlit("act.player.lean");
        },
        M6ActionKind::StealthKill => {
            reveal_strlit("act.player.stealth_kill");
        },
        M6ActionKind::KnifeThrow => {
            reveal_strlit("act.player.knife_throw");
        },
        M6ActionKind::WeaponSwap => {
            reveal_strlit("act.player.weapon_swap");
        },
        M6ActionKind::DropItem => {
            reveal_strlit("act.player.drop_item");
        },
        M6ActionKind::Pickup => {
            reveal_strlit("act.player.pickup");
        },
        M6ActionKind::SignalFriendly => {
            reveal_strlit("act.player.signal_friendly");
        },
        M6ActionKind::SignalEnemySpotted => {
            reveal_strlit("act.player.signal_enemy_spotted");
        },
        M6ActionKind::MarkWaypoint => {
            reveal_strlit("act.player.mark_waypoint");
        },
        M6ActionKind::DeployBipod => {
            reveal_strlit("act.player.deploy_bipod");
        },
        M6ActionKind::StowBipod => {
            reveal_strlit("act.player.stow_bipod");
        },
        M6ActionKind::CycleFireMode => {
            reveal_strlit("act.player.cycle_fire_mode");
        },
        M6ActionKind::CookGrenade => {
            reveal_strlit("act.player.cook_grenade");
        },
        M6ActionKind::ThrowGrenade => {
            reveal_strlit("act.player.throw_grenade");
        },
        M6ActionKind::MeleeBash => {
            reveal_strlit("act.player.melee_bash");
        },
        M6ActionKind::MeleeKick => {
            reveal_strlit("act.player.melee_kick");
        },
        M6ActionKind::UseTool => {
            reveal_strlit("act.player.use_tool");
        },
        M6ActionKind::AttachSuppressor => {
            reveal_strlit("act.player.attach_suppressor");
        },
        M6ActionKind::DetachSuppressor => {
            reveal_strlit("act.player.detach_suppressor");
        },
        M6ActionKind::SetFacing => {
            reveal_strlit("act.player.set_facing");
        },
    }
}

/// Distinct action kinds carry distinct method names, so the method name
/// recorded for an accepted action identifies its kind.
pub proof fn method_names_are_unique(a: M6ActionKind, b: M6ActionKind)
    requires
        a != b,
    ensures
        method_name_of(a) != method_name_of(b),
{
    lemma_name_signature(a);
    lemma_name_signature(b);
}

/// Squad command kinds accepted over the wire.
#[derive(Clone, Copy, Debug, PartialEq, Eq, Structural)]
pub enum SquadCommandKindOverWire {
    FollowLeader,
    HoldPosition,
    DefendPoint,
    PushToWaypoint,
}

/// Wire id of each squad command kind.
pub open spec fn squad_command_wire_id(k: SquadCommandKindOverWire) -> Seq<char> {
    match k {
        SquadCommandKindOverWire::FollowLeader => "follow_leader"@,
        SquadCommandKindOverWire::HoldPosition => "hold_position"@,
        SquadCommandKindOverWire::DefendPoint => "defend_point"@,
        SquadCommandKindOverWire::PushToWaypoint => "push_to_waypoint"@,
    }
}

impl SquadCommandKindOverWire {
    /// The snake-case wire id of the command kind.
    pub fn as_str(&self) -> (r: &'static str)
        ensures
            r@ == squad_command_wire_id(*self),
    {
        match self {
            SquadCommandKindOverWire::FollowLeader => "follow_leader",
            SquadCommandKindOverWire::HoldPosition => "hold_position",
            SquadCommandKindOverWire::DefendPoint => "defend_point",
            SquadCommandKindOverWire::PushToWaypoint => "push_to_waypoint",
        }
    }

    /// True exactly for the command kinds that target a waypoint:
    /// defend-point and push-to-waypoint.
    pub fn requires_waypoint(&self) -> (r: bool)
        ensures
            r == (*self == SquadCommandKindOverWire::DefendPoint
                || *self == SquadCommandKindOverWire::PushToWaypoint),
    {
        match self {
            SquadCommandKindOverWire::DefendPoint | SquadCommandKindOverWire::PushToWaypoint => true,
            _ => false,
        }
    }
}

} // verus!

verus! {

/// Every player action is recorded under "act.player." followed by its
/// snake-case name.
pub proof fn method_name_catalog()
    ensures
        method_name_of(M6ActionKind::Sprint) == seq!['a', 'c', 't', '.', 'p', 'l', 'a', 'y', 'e', 'r', '.', 's', 'p', 'r', 'i', 'n', 't'],
        method_name_of(M6ActionKind::Prone) == seq!['a', 'c', 't', '.', 'p', 'l', 'a', 'y', 'e', 'r', '.', 'p', 'r', 'o', 'n', 'e'],
        method_name_of(M6ActionKind::Slide) == seq!['a', 'c', 't', '.', 'p', 'l', 'a', 'y', 'e', 'r', '.', 's', 'l', 'i', 'd', 'e'],
        method_name_of(M6ActionKind::Vault) == seq!['a', 'c', 't', '.', 'p', 'l', 'a', 'y', 'e', 'r', '.', 'v', 'a', 'u', 'l', 't'],
        method_name_of(M6ActionKind::ClimbUp) == seq!['a', 'c', 't', '.', 'p', 'l', 'a', 'y', 'e', 'r', '.', 'c', 'l', 'i', 'm', 'b', '_', 'u', 'p'],
        method_name_of(M6ActionKind::ClimbDown) == seq!['a', 'c', 't', '.', 'p', 'l', 'a', 'y', 'e', 'r', '.', 'c', 'l', 'i', 'm', 'b', '_', 'd', 'o', 'w', 'n'],
        method_name_of(M6ActionKind::Dive) == seq!['a', 'c', 't', '.', 'p', 'l', 'a', 'y', 'e', 'r', '.', 'd', 'i', 'v', 'e'],
        method_name_of(M6ActionKind::Lean) == seq!['a', 'c', 't', '.', 'p', 'l', 'a', 'y', 'e', 'r', '.', 'l', 'e', 'a', 'n'],
        method_name_of(M6ActionKind::StealthKill) == seq!['a', 'c', 't', '.', 'p', 'l', 'a', 'y', 'e', 'r', '.', 's', 't', 'e', 'a', 'l', 't', 'h', '_', 'k', 'i', 'l', 'l'],
        method_name_of(M6ActionKind::KnifeThrow) == seq!['a', 'c', 't', '.', 'p', 'l', 'a', 'y', 'e', 'r', '.', 'k', 'n', 'i', 'f', 'e', '_', 't', 'h', 'r', 'o', 'w'],
        method_name_of(M6ActionKind::WeaponSwap) == seq!['a', 'c', 't', '.', 'p', 'l', 'a', 'y', 'e', 'r', '.', 'w', 'e', 'a', 'p', 'o', 'n', '_', 's', 'w', 'a', 'p'],
        method_name_of(M6ActionKind::DropItem) == seq!['a', 'c', 't', '.', 'p', 'l', 'a', 'y', 'e', 'r', '.', 'd', 'r', 'o', 'p', '_', 'i', 't', 'e', 'm'],
        method_name_of(M6ActionKind::Pickup) == seq!['a', 'c', 't', '.', 'p', 'l', 'a', 'y', 'e', 'r', '.', 'p', 'i', 'c', 'k', 'u', 'p'],
        method_name_of(M6ActionKind::SignalFriendly) == seq!['a', 'c', 't', '.', 'p', 'l', 'a', 'y', 'e', 'r', '.', 's', 'i', 'g', 'n', 'a', 'l', '_', 'f', 'r', 'i', 'e', 'n', 'd', 'l', 'y'],
        method_name_of(M6ActionKind::SignalEnemySpotted) == seq!['a', 'c', 't', '.', 'p', 'l', 'a', 'y', 'e', 'r', '.', 's', 'i', 'g', 'n', 'a', 'l', '_', 'e', 'n', 'e', 'm', 'y', '_', 's', 'p', 'o', 't', 't', 'e', 'd'],
        method_name_of(M6ActionKind::MarkWaypoint) == seq!['a', 'c', 't', '.', 'p', 'l', 'a', 'y', 'e', 'r', '.', 'm', 'a', 'r', 'k', '_', 'w', 'a', 'y', 'p', 'o', 'i', 'n', 't'],
        method_name_of(M6ActionKind::DeployBipod) == seq!['a', 'c', 't', '.', 'p', 'l', 'a', 'y', 'e', 'r', '.', 'd', 'e', 'p', 'l', 'o', 'y', '_', 'b', 'i', 'p', 'o', 'd'],
        method_name_of(M6ActionKind::StowBipod) == seq!['a', 'c', 't', '.', 'p', 'l', 'a', 'y', 'e', 'r', '.', 's', 't', 'o', 'w', '_', 'b', 'i', 'p', 'o', 'd'],
        method_name_of(M6ActionKind::CycleFireMode) == seq!['a', 'c', 't', '.', 'p', 'l', 'a', 'y', 'e', 'r', '.', 'c', 'y', 'c', 'l', 'e', '_', 'f', 'i', 'r', 'e', '_', 'm', 'o', 'd', 'e'],
        method_name_of(M6ActionKind::CookGrenade) == seq!['a', 'c', 't', '.', 'p', 'l', 'a', 'y', 'e', 'r', '.', 'c', 'o', 'o', 'k', '_', 'g', 'r', 'e', 'n', 'a', 'd', 'e'],
        method_name_of(M6ActionKind::ThrowGrenade) == seq!['a', 'c', 't', '.', 'p', 'l', 'a', 'y', 'e', 'r', '.', 't', 'h', 'r', 'o', 'w', '_', 'g', 'r', 'e', 'n', 'a', 'd', 'e'],
        method_name_of(M6ActionKind::MeleeBash) == seq!['a', 'c', 't', '.', 'p', 'l', 'a', 'y', 'e', 'r', '.', 'm', 'e', 'l', 'e', 'e', '_', 'b', 'a', 's', 'h'],
        method_name_of(M6ActionKind::MeleeKick) == seq!['a', 'c', 't', '.', 'p', 'l', 'a', 'y', 'e', 'r', '.', 'm', 'e', 'l', 'e', 'e', '_', 'k', 'i', 'c', 'k'],
        method_name_of(M6ActionKind::UseTool) == seq!['a', 'c', 't', '.', 'p', 'l', 'a', 'y', 'e', 'r', '.', 'u', 's', 'e', '_', 't', 'o', 'o', 'l'],
        method_name_of(M6ActionKind::AttachSuppressor) == seq!['a', 'c', 't', '.', 'p', 'l', 'a', 'y', 'e', 'r', '.', 'a', 't', 't', 'a', 'c', 'h', '_', 's', 'u', 'p', 'p', 'r', 'e', 's', 's', 'o', 'r'],
        method_name_of(M6ActionKind::DetachSuppressor) == seq!['a', 'c', 't', '.', 'p', 'l', 'a', 'y', 'e', 'r', '.', 'd', 'e', 't', 'a', 'c', 'h', '_', 's', 'u', 'p', 'p', 'r', 'e', 's', 's', 'o', 'r'],
        method_name_of(M6ActionKind::SetFacing) == seq!['a', 'c', 't', '.', 'p', 'l', 'a', 'y', 'e', 'r', '.', 's', 'e', 't', '_', 'f', 'a', 'c', 'i', 'n', 'g'],
{
    reveal_strlit("act.player.attach_suppressor");
    reveal_strlit("act.player.climb_down");
    reveal_strlit("act.player.climb_up");
    reveal_strlit("act.player.cook_grenade");
    reveal_strlit("act.player.cycle_fire_mode");
    reveal_strlit("act.player.deploy_bipod");
    reveal_strlit("act.player.detach_suppressor");
    reveal_strlit("act.player.dive");
    reveal_strlit("act.player.drop_item");
    reveal_strlit("act.player.knife_throw");
    reveal_strlit("act.player.lean");
    reveal_strlit("act.player.mark_waypoint");
    reveal_strlit("act.player.melee_bash");
    reveal_strlit("act.player.melee_kick");
    reveal_strlit("act.player.pickup");
    reveal_strlit("act.player.prone");
    reveal_strlit("act.player.set_facing");
    reveal_strlit("act.player.signal_enemy_spotted");
    reveal_strlit("act.player.signal_friendly");
    reveal_strlit("act.player.slide");
    reveal_strlit("act.player.sprint");
    reveal_strlit("act.player.stealth_kill");
    reveal_strlit("act.player.stow_bipod");
    reveal_strlit("act.player.throw_grenade");
    reveal_strlit("act.player.use_tool");
    reveal_strlit("act.player.vault");
    reveal_strlit("act.player.weapon_swap");
    assert("act.player.attach_suppressor"@ =~= seq!['a', 'c', 't', '.', 'p', 'l', 'a', 'y', 'e', 'r', '.', 'a', 't', 't', 'a', 'c', 'h', '_', 's', 'u', 'p', 'p', 'r', 'e', 's', 's', 'o', 'r']);
    assert("act.player.climb_down"@ =~= seq!['a', 'c', 't', '.', 'p', 'l', 'a', 'y', 'e', 'r', '.', 'c', 'l', 'i', 'm', 'b', '_', 'd', 'o', 'w', 'n']);
    assert("act.player.climb_up"@ =~= seq!['a', 'c', 't', '.', 'p', 'l', 'a', 'y', 'e', 'r', '.', 'c', 'l', 'i', 'm', 'b', '_', 'u', 'p']);
    assert("act.player.cook_grenade"@ =~= seq!['a', 'c', 't', '.', 'p', 'l', 'a', 'y', 'e', 'r', '.', 'c', 'o', 'o', 'k', '_', 'g', 'r', 'e', 'n', 'a', 'd', 'e']);
    assert("act.player.cycle_fire_mode"@ =~= seq!['a', 'c', 't', '.', 'p', 'l', 'a', 'y', 'e', 'r', '.', 'c', 'y', 'c', 'l', 'e', '_', 'f', 'i', 'r', 'e', '_', 'm', 'o', 'd', 'e']);
    assert("act.player.deploy_bipod"@ =~= seq!['a', 'c', 't', '.', 'p', 'l', 'a', 'y', 'e', 'r', '.', 'd', 'e', 'p', 'l', 'o', 'y', '_', 'b', 'i', 'p', 'o', 'd']);
    assert("act.player.detach_suppressor"@ =~= seq!['a', 'c', 't', '.', 'p', 'l', 'a', 'y', 'e', 'r', '.', 'd', 'e', 't', 'a', 'c', 'h', '_', 's', 'u', 'p', 'p', 'r', 'e', 's', 's', 'o', 'r']);
    assert("act.player.dive"@ =~= seq!['a', 'c', 't', '.', 'p', 'l', 'a', 'y', 'e', 'r', '.', 'd', 'i', 'v', 'e']);
    assert("act.player.drop_item"@ =~= seq!['a', 'c', 't', '.', 'p', 'l', 'a', 'y', 'e', 'r', '.', 'd', 'r', 'o', 'p', '_', 'i', 't', 'e', 'm']);
    assert("act.player.knife_throw"@ =~= seq!['a', 'c', 't', '.', 'p', 'l', 'a', 'y', 'e', 'r', '.', 'k', 'n', 'i', 'f', 'e', '_', 't', 'h', 'r', 'o', 'w']);
    assert("act.player.lean"@ =~= seq!['a', 'c', 't', '.', 'p', 'l', 'a', 'y', 'e', 'r', '.', 'l', 'e', 'a', 'n']);
    assert("act.player.mark_waypoint"@ =~= seq!['a', 'c', 't', '.', 'p', 'l', 'a', 'y', 'e', 'r', '.', 'm', 'a', 'r', 'k', '_', 'w', 'a', 'y', 'p', 'o', 'i', 'n', 't']);
    assert("act.player.melee_bash"@ =~= seq!['a', 'c', 't', '.', 'p', 'l', 'a', 'y', 'e', 'r', '.', 'm', 'e', 'l', 'e', 'e', '_', 'b', 'a', 's', 'h']);
    assert("act.player.melee_kick"@ =~= seq!['a', 'c', 't', '.', 'p', 'l', 'a', 'y', 'e', 'r', '.', 'm', 'e', 'l', 'e', 'e', '_', 'k', 'i', 'c', 'k']);
    assert("act.player.pickup"@ =~= seq!['a', 'c', 't', '.', 'p', 'l', 'a', 'y', 'e', 'r', '.', 'p', 'i', 'c', 'k', 'u', 'p']);
    assert("act.player.prone"@ =~= seq!['a', 'c', 't', '.', 'p', 'l', 'a', 'y', 'e', 'r', '.', 'p', 'r', 'o', 'n', 'e']);
    assert("act.player.set_facing"@ =~= seq!['a', 'c', 't', '.', 'p', 'l', 'a', 'y', 'e', 'r', '.', 's', 'e', 't', '_', 'f', 'a', 'c', 'i', 'n', 'g']);
    assert("act.player.signal_enemy_spotted"@ =~= seq!['a', 'c', 't', '.', 'p', 'l', 'a', 'y', 'e', 'r', '.', 's', 'i', 'g', 'n', 'a', 'l', '_', 'e', 'n', 'e', 'm', 'y', '_', 's', 'p', 'o', 't', 't', 'e', 'd']);
    assert("act.player.signal_friendly"@ =~= seq!['a', 'c', 't', '.', 'p', 'l', 'a', 'y', 'e', 'r', '.', 's', 'i', 'g', 'n', 'a', 'l', '_', 'f', 'r', 'i', 'e', 'n', 'd', 'l', 'y']);
    assert("act.player.slide"@ =~= seq!['a', 'c', 't', '.', 'p', 'l', 'a', 'y', 'e', 'r', '.', 's', 'l', 'i', 'd', 'e']);
    assert("act.player.sprint"@ =~= seq!['a', 'c', 't', '.', 'p', 'l', 'a', 'y', 'e', 'r', '.', 's', 'p', 'r', 'i', 'n', 't']);
    assert("act.player.stealth_kill"@ =~= seq!['a', 'c', 't', '.', 'p', 'l', 'a', 'y', 'e', 'r', '.', 's', 't', 'e', 'a', 'l', 't', 'h', '_', 'k', 'i', 'l', 'l']);
    assert("act.player.stow_bipod"@ =~= seq!['a', 'c', 't', '.', 'p', 'l', 'a', 'y', 'e', 'r', '.', 's', 't', 'o', 'w', '_', 'b', 'i', 'p', 'o', 'd']);
    assert("act.player.throw_grenade"@ =~= seq!['a', 'c', 't', '.', 'p', 'l', 'a', 'y', 'e', 'r', '.', 't', 'h', 'r', 'o', 'w', '_', 'g', 'r', 'e', 'n', 'a', 'd', 'e']);
    assert("act.player.use_tool"@ =~= seq!['a', 'c', 't', '.', 'p', 'l', 'a', 'y', 'e', 'r', '.', 'u', 's', 'e', '_', 't', 'o', 'o', 'l']);
    assert("act.player.vault"@ =~= seq!['a', 'c', 't', '.', 'p', 'l', 'a', 'y', 'e', 'r', '.', 'v', 'a', 'u', 'l', 't']);
    assert("act.player.weapon_swap"@ =~= seq!['a', 'c', 't', '.', 'p', 'l', 'a', 'y', 'e', 'r', '.', 'w', 'e', 'a', 'p', 'o', 'n', '_', 's', 'w', 'a', 'p']);
}

/// Squad commands travel as "follow_leader", "hold_position",
/// "defend_point" and "push_to_waypoint".
pub proof fn squad_command_wire_ids()
    ensures
        squad_command_wire_id(SquadCommandKindOverWire::FollowLeader) == seq!['f', 'o', 'l', 'l', 'o', 'w', '_', 'l', 'e', 'a', 'd', 'e', 'r'],
        squad_command_wire_id(SquadCommandKindOverWire::HoldPosition) == seq!['h', 'o', 'l', 'd', '_', 'p', 'o', 's', 'i', 't', 'i', 'o', 'n'],
        squad_command_wire_id(SquadCommandKindOverWire::DefendPoint) == seq!['d', 'e', 'f', 'e', 'n', 'd', '_', 'p', 'o', 'i', 'n', 't'],
        squad_command_wire_id(SquadCommandKindOverWire::PushToWaypoint) == seq!['p', 'u', 's', 'h', '_', 't', 'o', '_', 'w', 'a', 'y', 'p', 'o', 'i', 'n', 't'],
{
    reveal_strlit("defend_point");
    reveal_strlit("follow_leader");
    reveal_strlit("hold_position");
    reveal_strlit("push_to_waypoint");
    assert("defend_point"@ =~= seq!['d', 'e', 'f', 'e', 'n', 'd', '_', 'p', 'o', 'i', 'n', 't']);
    assert("follow_leader"@ =~= seq!['f', 'o', 'l', 'l', 'o', 'w', '_', 'l', 'e', 'a', 'd', 'e', 'r']);
    assert("hold_position"@ =~= seq!['h', 'o', 'l', 'd', '_', 'p', 'o', 's', 'i', 't', 'i', 'o', 'n']);
    assert("push_to_waypoint"@ =~= seq!['p', 'u', 's', 'h', '_', 't', 'o', '_', 'w', 'a', 'y', 'p', 'o', 'i', 'n', 't']);
}

/// Distinct squad commands travel under distinct wire ids.
pub proof fn squad_command_wire_ids_are_distinct(a: SquadCommandKindOverWire, b: SquadCommandKindOverWire)
    requires
        a != b,
    ensures
        squad_command_wire_id(a) != squad_command_wire_id(b),
{
    squad_command_wire_ids();
    assert(squad_command_wire_id(a).len() != squad_command_wire_id(b).len() || squad_command_wire_id(a)[0] != squad_command_wire_id(b)[0] || squad_command_wire_id(a)[squad_command_wire_id(a).len() - 1]
        != squad_command_wire_id(b)[squad_command_wire_id(b).len() - 1]);
}

} // verus!
