//! Squad bounding overwatch: which members cover and which move.

use vstd::prelude::*;
use std::collections::BTreeMap;
use vstd::std_specs::btree::spec_btree_map_iter;
use vstd::std_specs::iter::IteratorSpec;
use vstd::std_specs::cmp::OrdSpec;

verus! {

/// Role hint of a squad member.
#[derive(Clone, Copy, Debug, PartialEq, Eq, Structural)]
pub enum SquadRoleHint {
    Pointman,
    Rifleman,
    Heavy,
    Marksman,
    Engineer,
    SquadLeader,
}

/// Which half of a bounding squad covers in the current step.
#[derive(Clone, Copy, Debug, PartialEq, Eq, Structural)]
pub enum BoundingPhase {
    CoverHalf,
    MoveHalf,
}

/// Heavy, marksman and squad-leader roles bias toward covering; the others
/// bias toward moving.
pub open spec fn prefers_cover(role: SquadRoleHint) -> bool {
    role == SquadRoleHint::Heavy || role == SquadRoleHint::Marksman || role == SquadRoleHint::SquadLeader
}

fn role_prefers_cover(role: &SquadRoleHint) -> (r: bool)
    ensures
        r == prefers_cover(*role),
{
    match role {
        SquadRoleHint::Heavy | SquadRoleHint::Marksman | SquadRoleHint::SquadLeader => true,
        _ => false,
    }
}

/// Strictly increasing ids.
pub open spec fn strictly_increasing(s: Seq<u64>) -> bool {
    forall|a: int, b: int| 0 <= a < b < s.len() ==> s[a] < s[b]
}

/// `cover` and `moving` split the members of `roles`: each list holds, in
/// increasing id order, exactly the members whose role prefers (resp. does
/// not prefer) cover.
pub open spec fn is_bounding_split(roles: Map<u64, SquadRoleHint>, cover: Seq<u64>, moving: Seq<u64>) -> bool {
    &&& strictly_increasing(cover)
    &&& strictly_increasing(moving)
    &&& forall|k: u64| cover.contains(k) <==> (roles.contains_key(k) && prefers_cover(roles[k]))
    &&& forall|k: u64| moving.contains(k) <==> (roles.contains_key(k) && !prefers_cover(roles[k]))
}

/// Some member among the first `n` iterated has id `k` and a role whose
/// cover preference is `cover`.
spec fn seen_with(rem: Seq<(&u64, &SquadRoleHint)>, n: int, k: u64, cover: bool) -> bool {
    exists|i: int| 0 <= i < n && *rem[i].0 == k && prefers_cover(*rem[i].1) == cover
}

/// The member `kv` has been put on the list its role prefers.
spec fn placed(cover: Seq<u64>, moving: Seq<u64>, kv: (&u64, &SquadRoleHint)) -> bool {
    if prefers_cover(*kv.1) {
        cover.contains(*kv.0)
    } else {
        moving.contains(*kv.0)
    }
}

proof fn lemma_u64_keys_ordered()
    ensures
        vstd::std_specs::btree::key_obeys_cmp_spec::<u64>(),
{
    broadcast use vstd::std_specs::btree::group_btree_axioms;
    broadcast use vstd::laws_cmp::group_laws_cmp;
}

proof fn lemma_increasing_ids(rem: Seq<(&u64, &SquadRoleHint)>)
    requires
        vstd::std_specs::btree::increasing_seq(rem.map_values(|kv: (&u64, &SquadRoleHint)| *kv.0)),
    ensures
        forall|i: int, j: int| 0 <= i < j < rem.len() ==> *rem[i].0 < *rem[j].0,
{
    broadcast use vstd::std_specs::btree::group_btree_axioms;
    broadcast use vstd::laws_cmp::group_laws_cmp;
    let keys = rem.map_values(|kv: (&u64, &SquadRoleHint)| *kv.0);
    assert(vstd::laws_cmp::obeys_cmp::<u64>());
    vstd::std_specs::btree::axiom_increasing_seq_meaning(keys);
    assert(vstd::std_specs::btree::increasing_seq(keys));
    assert forall|i: int, j: int| 0 <= i < j < rem.len() implies *rem[i].0 < *rem[j].0 by {
        assert(keys[i].cmp_spec(&keys[j]) is Less);
        assert(keys[i] == *rem[i].0);
        assert(keys[j] == *rem[j].0);
    }
}

/// Splits the squad for a bounding step into (covering, moving) member ids,
/// each in increasing id order. Cover-preferring roles form one half, the
/// rest the other; on a move-half step the halves swap, so the crew that
/// covered last step now moves.
pub fn bounding_split(
    role_assignments: &BTreeMap<u64, SquadRoleHint>,
    new_phase: BoundingPhase,
) -> (r: (Vec<u64>, Vec<u64>))
    ensures
        match new_phase {
            BoundingPhase::CoverHalf => is_bounding_split(role_assignments@, r.0@, r.1@),
            BoundingPhase::MoveHalf => is_bounding_split(role_assignments@, r.1@, r.0@),
        },
{
    broadcast use vstd::std_specs::btree::group_btree_axioms;

    let mut covering: Vec<u64> = Vec::new();
    let mut moving: Vec<u64> = Vec::new();
    let ghost m = role_assignments@;
    let ghost rem = spec_btree_map_iter(role_assignments).remaining();
    proof {
        lemma_u64_keys_ordered();
    }
    let members = role_assignments.iter();
    proof {
        lemma_increasing_ids(rem);
    }
    for kv in it: members
        invariant
            it.seq() == rem,
            m == role_assignments@,
            forall|i: int, j: int| 0 <= i < j < rem.len() ==> *rem[i].0 < *rem[j].0,
            strictly_increasing(covering@),
            strictly_increasing(moving@),
            forall|c: int| 0 <= c < covering@.len() ==> seen_with(rem, it.index(), #[trigger] covering@[c], true),
            forall|c: int| 0 <= c < moving@.len() ==> seen_with(rem, it.index(), #[trigger] moving@[c], false),
            forall|i: int| 0 <= i < it.index() ==> placed(covering@, moving@, #[trigger] rem[i]),
    {
        let ghost idx = it.index() as int;
        assert(kv == rem[idx]);
        let (actor_id, role) = kv;
        let ghost cov0 = covering@;
        let ghost mov0 = moving@;
        if role_prefers_cover(role) {
            proof {
                if cov0.len() > 0 {
                    let c = cov0.len() - 1;
                    assert(seen_with(rem, idx, cov0[c], true));
                    let i = choose|i: int| 0 <= i < idx && *rem[i].0 == cov0[c] && prefers_cover(*rem[i].1) == true;
                    assert(cov0[c] < *actor_id);
                }
            }
            covering.push(*actor_id);
        } else {
            proof {
                if mov0.len() > 0 {
                    let c = mov0.len() - 1;
                    assert(seen_with(rem, idx, mov0[c], false));
                    let i = choose|i: int| 0 <= i < idx && *rem[i].0 == mov0[c] && prefers_cover(*rem[i].1) == false;
                    assert(mov0[c] < *actor_id);
                }
            }
            moving.push(*actor_id);
        }
        proof {
            assert forall|c: int| 0 <= c < covering@.len() implies seen_with(rem, idx + 1, #[trigger] covering@[c], true) by {
                if c < cov0.len() {
                    assert(covering@[c] == cov0[c]);
                    assert(seen_with(rem, idx, cov0[c], true));
                } else {
                    assert(*rem[idx].0 == covering@[c]);
                }
            }
            assert forall|c: int| 0 <= c < moving@.len() implies seen_with(rem, idx + 1, #[trigger] moving@[c], false) by {
                if c < mov0.len() {
                    assert(moving@[c] == mov0[c]);
                    assert(seen_with(rem, idx, mov0[c], false));
                } else {
                    assert(*rem[idx].0 == moving@[c]);
                }
            }
            assert forall|i: int| 0 <= i < idx + 1 implies placed(covering@, moving@, #[trigger] rem[i]) by {
                if i < idx {
                    assert(placed(cov0, mov0, rem[i]));
                    if prefers_cover(*rem[i].1) {
                        let c = choose|c: int| 0 <= c < cov0.len() && cov0[c] == *rem[i].0;
                        assert(covering@[c] == cov0[c]);
                    } else {
                        let c = choose|c: int| 0 <= c < mov0.len() && mov0[c] == *rem[i].0;
                        assert(moving@[c] == mov0[c]);
                    }
                } else if prefers_cover(*rem[i].1) {
                    assert(covering@[covering@.len() - 1] == *rem[i].0);
                } else {
                    assert(moving@[moving@.len() - 1] == *rem[i].0);
                }
            }
        }
    }
    proof {
        assert forall|k: u64| covering@.contains(k) <==> (m.contains_key(k) && prefers_cover(m[k])) by {
            if covering@.contains(k) {
                let c = choose|c: int| 0 <= c < covering@.len() && covering@[c] == k;
                assert(seen_with(rem, rem.len() as int, covering@[c], true));
                let i = choose|i: int| 0 <= i < rem.len() && *rem[i].0 == covering@[c] && prefers_cover(*rem[i].1) == true;
                assert(m.contains_key(*rem[i].0));
            }
            if m.contains_key(k) && prefers_cover(m[k]) {
                assert(rem.contains((&k, &m[k])));
                let i = choose|i: int| 0 <= i < rem.len() && rem[i] == (&k, &m[k]);
                assert(placed(covering@, moving@, rem[i]));
            }
        }
        assert forall|k: u64| moving@.contains(k) <==> (m.contains_key(k) && !prefers_cover(m[k])) by {
            if moving@.contains(k) {
                let c = choose|c: int| 0 <= c < moving@.len() && moving@[c] == k;
                assert(seen_with(rem, rem.len() as int, moving@[c], false));
                let i = choose|i: int| 0 <= i < rem.len() && *rem[i].0 == moving@[c] && prefers_cover(*rem[i].1) == false;
                assert(m.contains_key(*rem[i].0));
            }
            if m.contains_key(k) && !prefers_cover(m[k]) {
                assert(rem.contains((&k, &m[k])));
                let i = choose|i: int| 0 <= i < rem.len() && rem[i] == (&k, &m[k]);
                assert(placed(covering@, moving@, rem[i]));
            }
        }
    }
    match new_phase {
        BoundingPhase::CoverHalf => (covering, moving),
        BoundingPhase::MoveHalf => (moving, covering),
    }
}

proof fn lemma_increasing_same_members_equal(a: Seq<u64>, b: Seq<u64>)
    requires
        strictly_increasing(a),
        strictly_increasing(b),
        forall|k: u64| a.contains(k) <==> b.contains(k),
    ensures
        a == b,
    decreases a.len(),
{
    if a.len() == 0 {
        if b.len() > 0 {
            assert(b.contains(b[0]));
        }
        assert(a =~= b);
    } else {
        assert(a.contains(a[0]));
        assert(b.len() > 0);
        assert(b.contains(b[0]));
        let ia = choose|i: int| 0 <= i < a.len() && a[i] == b[0];
        let ib = choose|i: int| 0 <= i < b.len() && b[i] == a[0];
        if ia > 0 {
            assert(a[0] < a[ia]);
        }
        if ib > 0 {
            assert(b[0] < b[ib]);
        }
        assert(a[0] == b[0]);
        let a1 = a.drop_first();
        let b1 = b.drop_first();
        assert forall|k: u64| a1.contains(k) <==> b1.contains(k) by {
            if a1.contains(k) {
                let i = choose|i: int| 0 <= i < a1.len() && a1[i] == k;
                assert(a[i + 1] == k);
                assert(a[0] < k);
                assert(a.contains(k));
                let j = choose|j: int| 0 <= j < b.len() && b[j] == k;
                assert(j != 0);
                assert(b1[j - 1] == k);
            }
            if b1.contains(k) {
                let i = choose|i: int| 0 <= i < b1.len() && b1[i] == k;
                assert(b[i + 1] == k);
                assert(b[0] < k);
                assert(b.contains(k));
                let j = choose|j: int| 0 <= j < a.len() && a[j] == k;
                assert(j != 0);
                assert(a1[j - 1] == k);
            }
        }
        lemma_increasing_same_members_equal(a1, b1);
        assert(a =~= seq![a[0]] + a1);
        assert(b =~= seq![b[0]] + b1);
    }
}

/// A squad has exactly one bounding split: two splits of the same role
/// assignments name the same covering crew and the same moving crew. So the
/// cover-half and move-half steps of one squad hand out the same two crews,
/// with their roles swapped.
pub proof fn bounding_split_is_unique(
    roles: Map<u64, SquadRoleHint>,
    cover1: Seq<u64>,
    moving1: Seq<u64>,
    cover2: Seq<u64>,
    moving2: Seq<u64>,
)
    requires
        is_bounding_split(roles, cover1, moving1),
        is_bounding_split(roles, cover2, moving2),
    ensures
        cover1 == cover2,
        moving1 == moving2,
{
    lemma_increasing_same_members_equal(cover1, cover2);
    lemma_increasing_same_members_equal(moving1, moving2);
}

/// Every squad member is in exactly one of the two crews, and the crews hold
/// no one else.
pub proof fn bounding_crews_partition_squad(roles: Map<u64, SquadRoleHint>, cover: Seq<u64>, moving: Seq<u64>)
    requires
        is_bounding_split(roles, cover, moving),
    ensures
        forall|k: u64| roles.contains_key(k) <==> (cover.contains(k) || moving.contains(k)),
        forall|k: u64| !(cover.contains(k) && moving.contains(k)),
{
}

} // verus!

verus! {

/// Heavies, marksmen and squad leaders cover; pointmen, riflemen and
/// engineers move.
pub proof fn cover_roles(role: SquadRoleHint)
    ensures
        prefers_cover(role) <==> (role == SquadRoleHint::Heavy || role == SquadRoleHint::Marksman || role
            == SquadRoleHint::SquadLeader),
        role == SquadRoleHint::Pointman || role == SquadRoleHint::Rifleman || role == SquadRoleHint::Engineer
            ==> !prefers_cover(role),
{
}

} // verus!
