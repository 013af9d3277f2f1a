//! AI mood/stress bands and mini-boss phase abilities.

use vstd::prelude::*;

verus! {

/// Mood / stress bands a bot can be in.
#[derive(Clone, Copy, Debug, PartialEq, Eq, Structural)]
pub enum StressThreshold {
    Calm,
    Stressed,
    Depressed,
    Broken,
}

/// Payload label of each stress band.
pub open spec fn stress_threshold_label(t: StressThreshold) -> Seq<char> {
    match t {
        StressThreshold::Calm => "calm"@,
        StressThreshold::Stressed => "stressed"@,
        StressThreshold::Depressed => "depressed"@,
        StressThreshold::Broken => "broken"@,
    }
}

impl StressThreshold {
    /// The payload label of the band.
    pub fn as_str(self) -> (r: &'static str)
        ensures
            r@ == stress_threshold_label(self),
    {
        match self {
            StressThreshold::Calm => "calm",
            StressThreshold::Stressed => "stressed",
            StressThreshold::Depressed => "depressed",
            StressThreshold::Broken => "broken",
        }
    }
}

/// The three phases of a mini-boss encounter.
#[derive(Clone, Copy, Debug, PartialEq, Eq, Structural)]
pub enum BossPhase {
    Phase1,
    Phase2,
    Phase3,
}

/// The special ability a boss phase triggers: none in phase 1, a shield in
/// phase 2, the enraged final stand in phase 3.
pub open spec fn boss_phase_ability(phase: BossPhase) -> Option<Seq<char>> {
    match phase {
        BossPhase::Phase1 => None,
        BossPhase::Phase2 => Some("shield"@),
        BossPhase::Phase3 => Some("enraged"@),
    }
}

/// The wire form of the special ability triggered on entering `phase`, if any.
pub fn boss_ability_for_phase(phase: BossPhase) -> (r: Option<&'static str>)
    ensures
        match r {
            Some(s) => boss_phase_ability(phase) == Some(s@),
            None => boss_phase_ability(phase) is None,
        },
{
    match phase {
        BossPhase::Phase1 => None,
        BossPhase::Phase2 => Some("shield"),
        BossPhase::Phase3 => Some("enraged"),
    }
}

} // verus!

verus! {

/// Stress bands are labelled "calm", "stressed", "depressed" and "broken".
pub proof fn stress_threshold_labels()
    ensures
        stress_threshold_label(StressThreshold::Calm) == seq!['c', 'a', 'l', 'm'],
        stress_threshold_label(StressThreshold::Stressed) == seq!['s', 't', 'r', 'e', 's', 's', 'e', 'd'],
        stress_threshold_label(StressThreshold::Depressed) == seq!['d', 'e', 'p', 'r', 'e', 's', 's', 'e', 'd'],
        stress_threshold_label(StressThreshold::Broken) == seq!['b', 'r', 'o', 'k', 'e', 'n'],
{
    reveal_strlit("broken");
    reveal_strlit("calm");
    reveal_strlit("depressed");
    reveal_strlit("stressed");
    assert("broken"@ =~= seq!['b', 'r', 'o', 'k', 'e', 'n']);
    assert("calm"@ =~= seq!['c', 'a', 'l', 'm']);
    assert("depressed"@ =~= seq!['d', 'e', 'p', 'r', 'e', 's', 's', 'e', 'd']);
    assert("stressed"@ =~= seq!['s', 't', 'r', 'e', 's', 's', 'e', 'd']);
}

/// Distinct stress bands carry distinct labels.
pub proof fn stress_threshold_labels_are_distinct(a: StressThreshold, b: StressThreshold)
    requires
        a != b,
    ensures
        stress_threshold_label(a) != stress_threshold_label(b),
{
    stress_threshold_labels();
    assert(stress_threshold_label(a).len() != stress_threshold_label(b).len() || stress_threshold_label(a)[0] != stress_threshold_label(b)[0] || stress_threshold_label(a)[stress_threshold_label(a).len() - 1]
        != stress_threshold_label(b)[stress_threshold_label(b).len() - 1]);
}

/// Phase 1 triggers no ability, phase 2 the shield, phase 3 the enraged stand.
pub proof fn boss_phase_abilities()
    ensures
        boss_phase_ability(BossPhase::Phase1) is None,
        boss_phase_ability(BossPhase::Phase2) == Some(seq!['s', 'h', 'i', 'e', 'l', 'd']),
        boss_phase_ability(BossPhase::Phase3) == Some(seq!['e', 'n', 'r', 'a', 'g', 'e', 'd']),
{
    reveal_strlit("enraged");
    reveal_strlit("shield");
    assert("enraged"@ =~= seq!['e', 'n', 'r', 'a', 'g', 'e', 'd']);
    assert("shield"@ =~= seq!['s', 'h', 'i', 'e', 'l', 'd']);
}

} // verus!
