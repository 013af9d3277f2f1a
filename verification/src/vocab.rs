//! Wire vocabularies that map between game enums and the strings carried on
//! replay payloads and control-surface arguments.

use vstd::prelude::*;

use crate::text::str_eq;

verus! {

/// Who issued an intent.
#[derive(Clone, Copy, Debug, PartialEq, Eq, Structural)]
pub enum IntentSource {
    Human,
    Cfctl,
    Ai,
    Replay,
}

/// Replay-payload label of each intent source.
pub open spec fn intent_source_label(s: IntentSource) -> Seq<char> {
    match s {
        IntentSource::Human => "human"@,
        IntentSource::Cfctl => "cfctl"@,
        IntentSource::Ai => "ai"@,
        IntentSource::Replay => "replay"@,
    }
}

/// Stringifies an intent source for replay-log payloads.
pub fn source_label(source: IntentSource) -> (r: &'static str)
    ensures
        r@ == intent_source_label(source),
{
    match source {
        IntentSource::Human => "human",
        IntentSource::Cfctl => "cfctl",
        IntentSource::Ai => "ai",
        IntentSource::Replay => "replay",
    }
}

/// The physiology class an affliction model is evaluated under.
#[derive(Clone, Copy, Debug, PartialEq, Eq, Structural)]
pub enum Race {
    Human,
    Methane,
    Crystalline,
    Aqueous,
    Robotic,
}

/// The race of an origin id: methane breathers, crystalline, aqueous and
/// robotic / synthetic origins have their own race; every other origin is human.
pub open spec fn race_of_origin(origin_id: Seq<char>) -> Race {
    if origin_id == "methane"@ || origin_id == "methane_breather"@ {
        Race::Methane
    } else if origin_id == "crystalline"@ {
        Race::Crystalline
    } else if origin_id == "aqueous"@ {
        Race::Aqueous
    } else if origin_id == "robot"@ || origin_id == "synth"@ {
        Race::Robotic
    } else {
        Race::Human
    }
}

/// Payload label of each race.
pub open spec fn race_label(race: Race) -> Seq<char> {
    match race {
        Race::Human => "human"@,
        Race::Methane => "methane"@,
        Race::Crystalline => "crystalline"@,
        Race::Aqueous => "aqueous"@,
        Race::Robotic => "robotic"@,
    }
}

/// Maps an origin id onto the race the affliction model uses.
pub fn race_from_origin(origin_id: &str) -> (r: Race)
    ensures
        r == race_of_origin(origin_id@),
{
    if str_eq(origin_id, "methane") || str_eq(origin_id, "methane_breather") {
        Race::Methane
    } else if str_eq(origin_id, "crystalline") {
        Race::Crystalline
    } else if str_eq(origin_id, "aqueous") {
        Race::Aqueous
    } else if str_eq(origin_id, "robot") || str_eq(origin_id, "synth") {
        Race::Robotic
    } else {
        Race::Human
    }
}

/// The payload label of a race.
pub fn race_str(race: Race) -> (r: &'static str)
    ensures
        r@ == race_label(race),
{
    match race {
        Race::Human => "human",
        Race::Methane => "methane",
        Race::Crystalline => "crystalline",
        Race::Aqueous => "aqueous",
        Race::Robotic => "robotic",
    }
}

/// How a tile takes part in hazard spread.
#[derive(Clone, Copy, Debug, PartialEq, Eq, Structural)]
pub enum TileAffordance {
    Empty,
    Flammable,
    Conductive,
    Water,
    Solid,
    Other,
}

/// Flammable materials: fire spreads across them.
pub open spec fn is_flammable_material(n: Seq<char>) -> bool {
    n == "wood"@ || n == "oil"@ || n == "kerosene"@ || n == "ethanol"@ || n == "fuel"@
        || n == "fabric"@ || n == "paper"@ || n == "coal"@ || n == "diesel"@
        || n == "hydrazine"@ || n == "tnt"@ || n == "gunpowder"@ || n == "anfo"@
        || n == "nitroglycerin"@
}

/// Conductive materials: arcs jump across them.
pub open spec fn is_conductive_material(n: Seq<char>) -> bool {
    n == "iron"@ || n == "metal"@ || n == "steel"@ || n == "copper"@ || n == "aluminum"@
        || n == "zinc"@ || n == "gold"@ || n == "metal_nohook"@
}

/// Water materials: hazards spread via water.
pub open spec fn is_water_material(n: Seq<char>) -> bool {
    n == "water"@ || n == "seawater"@
}

/// Solid materials that block spread.
pub open spec fn is_solid_material(n: Seq<char>) -> bool {
    n == "concrete"@ || n == "concrete_soft"@ || n == "anchor"@ || n == "dirt"@
        || n == "support_beam"@ || n == "loose_fill"@ || n == "repair_fill"@ || n == "hazard"@
        || n == "stone"@
}

/// The affordance of a terrain material name.
pub open spec fn affordance_of_material(n: Seq<char>) -> TileAffordance {
    if n == "air"@ {
        TileAffordance::Empty
    } else if is_flammable_material(n) {
        TileAffordance::Flammable
    } else if is_conductive_material(n) {
        TileAffordance::Conductive
    } else if is_water_material(n) {
        TileAffordance::Water
    } else if is_solid_material(n) {
        TileAffordance::Solid
    } else {
        TileAffordance::Other
    }
}

/// Length, first and last character: enough to tell the material names apart.
spec fn name_signature(s: Seq<char>) -> (int, char, char) {
    (s.len() as int, s[0], s[s.len() - 1])
}

proof fn lemma_material_name_signatures()
    ensures
        name_signature("air"@) == (3int, 'a', 'r'),
        name_signature("wood"@) == (4int, 'w', 'd'),
        name_signature("oil"@) == (3int, 'o', 'l'),
        name_signature("kerosene"@) == (8int, 'k', 'e'),
        name_signature("ethanol"@) == (7int, 'e', 'l'),
        name_signature("fuel"@) == (4int, 'f', 'l'),
        name_signature("fabric"@) == (6int, 'f', 'c'),
        name_signature("paper"@) == (5int, 'p', 'r'),
        name_signature("coal"@) == (4int, 'c', 'l'),
        name_signature("diesel"@) == (6int, 'd', 'l'),
        name_signature("hydrazine"@) == (9int, 'h', 'e'),
        name_signature("tnt"@) == (3int, 't', 't'),
        name_signature("gunpowder"@) == (9int, 'g', 'r'),
        name_signature("anfo"@) == (4int, 'a', 'o'),
        name_signature("nitroglycerin"@) == (13int, 'n', 'n'),
        name_signature("iron"@) == (4int, 'i', 'n'),
        name_signature("metal"@) == (5int, 'm', 'l'),
        name_signature("steel"@) == (5int, 's', 'l'),
        name_signature("copper"@) == (6int, 'c', 'r'),
        name_signature("aluminum"@) == (8int, 'a', 'm'),
        name_signature("zinc"@) == (4int, 'z', 'c'),
        name_signature("gold"@) == (4int, 'g', 'd'),
        name_signature("metal_nohook"@) == (12int, 'm', 'k'),
        name_signature("water"@) == (5int, 'w', 'r'),
        name_signature("seawater"@) == (8int, 's', 'r'),
        name_signature("concrete"@) == (8int, 'c', 'e'),
        name_signature("concrete_soft"@) == (13int, 'c', 't'),
        name_signature("anchor"@) == (6int, 'a', 'r'),
        name_signature("dirt"@) == (4int, 'd', 't'),
        name_signature("support_beam"@) == (12int, 's', 'm'),
        name_signature("loose_fill"@) == (10int, 'l', 'l'),
        name_signature("repair_fill"@) == (11int, 'r', 'l'),
        name_signature("hazard"@) == (6int, 'h', 'd'),
        name_signature("stone"@) == (5int, 's', 'e'),
{
    reveal_strlit("air");
    reveal_strlit("wood");
    reveal_strlit("oil");
    reveal_strlit("kerosene");
    reveal_strlit("ethanol");
    reveal_strlit("fuel");
    reveal_strlit("fabric");
    reveal_strlit("paper");
    reveal_strlit("coal");
    reveal_strlit("diesel");
    reveal_strlit("hydrazine");
    reveal_strlit("tnt");
    reveal_strlit("gunpowder");
    reveal_strlit("anfo");
    reveal_strlit("nitroglycerin");
    reveal_strlit("iron");
    reveal_strlit("metal");
    reveal_strlit("steel");
    reveal_strlit("copper");
    reveal_strlit("aluminum");
    reveal_strlit("zinc");
    reveal_strlit("gold");
    reveal_strlit("metal_nohook");
    reveal_strlit("water");
    reveal_strlit("seawater");
    reveal_strlit("concrete");
    reveal_strlit("concrete_soft");
    reveal_strlit("anchor");
    reveal_strlit("dirt");
    reveal_strlit("support_beam");
    reveal_strlit("loose_fill");
    reveal_strlit("repair_fill");
    reveal_strlit("hazard");
    reveal_strlit("stone");
}

/// The material table of hazard spread, by name: air is empty; wood, oil,
/// kerosene, ethanol, fuel, fabric, paper, coal, diesel, hydrazine, TNT,
/// gunpowder, ANFO and nitroglycerin are flammable; iron, metal, steel,
/// copper, aluminum, zinc, gold and hook-less metal conduct; water and
/// seawater carry hazards as water; concrete (hard or soft), anchors, dirt,
/// support beams, loose and repair fill, hazard blocks and stone are solid;
/// every other name is "other".
pub proof fn material_affordance_table(n: Seq<char>)
    ensures
        affordance_of_material(n) == TileAffordance::Empty <==> n == "air"@,
        affordance_of_material(n) == TileAffordance::Flammable <==> (n == "wood"@ || n == "oil"@ || n == "kerosene"@ || n == "ethanol"@ || n == "fuel"@ || n == "fabric"@ || n == "paper"@ || n == "coal"@ || n == "diesel"@ || n == "hydrazine"@ || n == "tnt"@ || n == "gunpowder"@ || n == "anfo"@ || n == "nitroglycerin"@),
        affordance_of_material(n) == TileAffordance::Conductive <==> (n == "iron"@ || n == "metal"@ || n == "steel"@ || n == "copper"@ || n == "aluminum"@ || n == "zinc"@ || n == "gold"@ || n == "metal_nohook"@),
        affordance_of_material(n) == TileAffordance::Water <==> (n == "water"@ || n == "seawater"@),
        affordance_of_material(n) == TileAffordance::Solid <==> (n == "concrete"@ || n == "concrete_soft"@ || n == "anchor"@ || n == "dirt"@ || n == "support_beam"@ || n == "loose_fill"@ || n == "repair_fill"@ || n == "hazard"@ || n == "stone"@),
{
    lemma_material_name_signatures();
}

fn flammable_material(n: &str) -> (r: bool)
    ensures
        r == is_flammable_material(n@),
{
    str_eq(n, "wood") || str_eq(n, "oil") || str_eq(n, "kerosene") || str_eq(n, "ethanol")
        || str_eq(n, "fuel") || str_eq(n, "fabric") || str_eq(n, "paper") || str_eq(n, "coal")
        || str_eq(n, "diesel") || str_eq(n, "hydrazine") || str_eq(n, "tnt")
        || str_eq(n, "gunpowder") || str_eq(n, "anfo") || str_eq(n, "nitroglycerin")
}

fn conductive_material(n: &str) -> (r: bool)
    ensures
        r == is_conductive_material(n@),
{
    str_eq(n, "iron") || str_eq(n, "metal") || str_eq(n, "steel") || str_eq(n, "copper")
        || str_eq(n, "aluminum") || str_eq(n, "zinc") || str_eq(n, "gold")
        || str_eq(n, "metal_nohook")
}

fn solid_material(n: &str) -> (r: bool)
    ensures
        r == is_solid_material(n@),
{
    str_eq(n, "concrete") || str_eq(n, "concrete_soft") || str_eq(n, "anchor")
        || str_eq(n, "dirt") || str_eq(n, "support_beam") || str_eq(n, "loose_fill")
        || str_eq(n, "repair_fill") || str_eq(n, "hazard") || str_eq(n, "stone")
}

/// Translates a terrain material name into the affordance hazard spread uses.
pub fn tile_affordance_for_material_name(name: &str) -> (r: TileAffordance)
    ensures
        r == affordance_of_material(name@),
{
    if str_eq(name, "air") {
        TileAffordance::Empty
    } else if flammable_material(name) {
        TileAffordance::Flammable
    } else if conductive_material(name) {
        TileAffordance::Conductive
    } else if str_eq(name, "water") || str_eq(name, "seawater") {
        TileAffordance::Water
    } else if solid_material(name) {
        TileAffordance::Solid
    } else {
        TileAffordance::Other
    }
}

/// Why a psychological condition was triggered.
#[derive(Clone, Copy, Debug, PartialEq, Eq, Structural)]
pub enum TriggerReason {
    WitnessDeaths,
    SurviveCriticalWound,
    ConcussionAtKo,
    SustainedStress,
    LossOfSquadmate,
    DrugDoses,
    DrugAbsence,
    PanicThreshold,
    AnxietyChronic,
    ImminentTrauma,
    SleepDeprivation,
    Comorbidity,
}

/// The trigger reason named by `s`; unknown names count as sustained stress.
pub open spec fn trigger_reason_of(s: Seq<char>) -> TriggerReason {
    if s == "witness_deaths"@ {
        TriggerReason::WitnessDeaths
    } else if s == "survive_critical_wound"@ {
        TriggerReason::SurviveCriticalWound
    } else if s == "concussion_at_ko"@ {
        TriggerReason::ConcussionAtKo
    } else if s == "sustained_stress"@ {
        TriggerReason::SustainedStress
    } else if s == "loss_of_squadmate"@ {
        TriggerReason::LossOfSquadmate
    } else if s == "drug_doses"@ {
        TriggerReason::DrugDoses
    } else if s == "drug_absence"@ {
        TriggerReason::DrugAbsence
    } else if s == "panic_threshold"@ {
        TriggerReason::PanicThreshold
    } else if s == "anxiety_chronic"@ {
        TriggerReason::AnxietyChronic
    } else if s == "imminent_trauma"@ {
        TriggerReason::ImminentTrauma
    } else if s == "sleep_deprivation"@ {
        TriggerReason::SleepDeprivation
    } else if s == "comorbidity"@ {
        TriggerReason::Comorbidity
    } else {
        TriggerReason::SustainedStress
    }
}

/// Tolerant trigger-reason parse: unknown names default to sustained stress.
pub fn parse_reason(s: &str) -> (r: TriggerReason)
    ensures
        r == trigger_reason_of(s@),
{
    if str_eq(s, "witness_deaths") {
        TriggerReason::WitnessDeaths
    } else if str_eq(s, "survive_critical_wound") {
        TriggerReason::SurviveCriticalWound
    } else if str_eq(s, "concussion_at_ko") {
        TriggerReason::ConcussionAtKo
    } else if str_eq(s, "sustained_stress") {
        TriggerReason::SustainedStress
    } else if str_eq(s, "loss_of_squadmate") {
        TriggerReason::LossOfSquadmate
    } else if str_eq(s, "drug_doses") {
        TriggerReason::DrugDoses
    } else if str_eq(s, "drug_absence") {
        TriggerReason::DrugAbsence
    } else if str_eq(s, "panic_threshold") {
        TriggerReason::PanicThreshold
    } else if str_eq(s, "anxiety_chronic") {
        TriggerReason::AnxietyChronic
    } else if str_eq(s, "imminent_trauma") {
        TriggerReason::ImminentTrauma
    } else if str_eq(s, "sleep_deprivation") {
        TriggerReason::SleepDeprivation
    } else if str_eq(s, "comorbidity") {
        TriggerReason::Comorbidity
    } else {
        TriggerReason::SustainedStress
    }
}

} // verus!

verus! {

/// The kind of a wound an actor can carry.
#[derive(Clone, Copy, Debug, PartialEq, Eq, Structural)]
pub enum WoundKind {
    LacerationLight,
    LacerationModerate,
    LacerationSevere,
    Puncture,
    StabThrough,
    GunshotEntry,
    GunshotExit,
    GunshotThrough,
    ShrapnelEmbedded,
    ShrapnelThrough,
    BruiseLight,
    BruiseHeavy,
    CrushLimb,
    Concussion,
    FractureSimple,
    FractureCompound,
    FractureComminuted,
    Dislocation,
    SprainStrain,
    Burn1st,
    Burn2nd,
    Burn3rd,
    Frostbite1st,
    Frostbite2nd,
    Frostbite3rd,
    AcidBurn,
    ChemicalBurn,
    EyeInjury,
    EarInjury,
    DentalDamage,
}

/// Cosmetic decal id of the scar each wound kind leaves.
pub open spec fn scar_decal_of(kind: WoundKind) -> Seq<char> {
    match kind {
        WoundKind::LacerationLight | WoundKind::LacerationModerate | WoundKind::LacerationSevere | WoundKind::Puncture | WoundKind::StabThrough => "scar_suture_line"@,
        WoundKind::GunshotEntry | WoundKind::GunshotExit | WoundKind::GunshotThrough | WoundKind::ShrapnelEmbedded | WoundKind::ShrapnelThrough => "scar_bullet"@,
        WoundKind::BruiseLight | WoundKind::BruiseHeavy => "scar_bruise_fade"@,
        WoundKind::CrushLimb => "scar_crush"@,
        WoundKind::Concussion => "scar_none"@,
        WoundKind::FractureSimple | WoundKind::FractureCompound | WoundKind::FractureComminuted => "scar_fracture"@,
        WoundKind::Dislocation | WoundKind::SprainStrain => "scar_joint"@,
        WoundKind::Burn1st | WoundKind::Burn2nd | WoundKind::Burn3rd => "scar_burn"@,
        WoundKind::Frostbite1st | WoundKind::Frostbite2nd | WoundKind::Frostbite3rd => "scar_frostbite"@,
        WoundKind::AcidBurn | WoundKind::ChemicalBurn => "scar_chemical"@,
        WoundKind::EyeInjury => "scar_eye_patch"@,
        WoundKind::EarInjury => "scar_ear"@,
        WoundKind::DentalDamage => "scar_dental"@,
    }
}

/// Resolves the cosmetic decal id for a scar of the given wound kind.
pub fn scar_decal_id(kind: WoundKind) -> (r: String)
    ensures
        r@ == scar_decal_of(kind),
{
    match kind {
        WoundKind::LacerationLight | WoundKind::LacerationModerate | WoundKind::LacerationSevere | WoundKind::Puncture | WoundKind::StabThrough => "scar_suture_line".to_owned(),
        WoundKind::GunshotEntry | WoundKind::GunshotExit | WoundKind::GunshotThrough | WoundKind::ShrapnelEmbedded | WoundKind::ShrapnelThrough => "scar_bullet".to_owned(),
        WoundKind::BruiseLight | WoundKind::BruiseHeavy => "scar_bruise_fade".to_owned(),
        WoundKind::CrushLimb => "scar_crush".to_owned(),
        WoundKind::Concussion => "scar_none".to_owned(),
        WoundKind::FractureSimple | WoundKind::FractureCompound | WoundKind::FractureComminuted => "scar_fracture".to_owned(),
        WoundKind::Dislocation | WoundKind::SprainStrain => "scar_joint".to_owned(),
        WoundKind::Burn1st | WoundKind::Burn2nd | WoundKind::Burn3rd => "scar_burn".to_owned(),
        WoundKind::Frostbite1st | WoundKind::Frostbite2nd | WoundKind::Frostbite3rd => "scar_frostbite".to_owned(),
        WoundKind::AcidBurn | WoundKind::ChemicalBurn => "scar_chemical".to_owned(),
        WoundKind::EyeInjury => "scar_eye_patch".to_owned(),
        WoundKind::EarInjury => "scar_ear".to_owned(),
        WoundKind::DentalDamage => "scar_dental".to_owned(),
    }
}

} // verus!

verus! {

/// Replay payloads name intent sources "human", "cfctl", "ai" and "replay".
pub proof fn intent_source_labels()
    ensures
        intent_source_label(IntentSource::Human) == seq!['h', 'u', 'm', 'a', 'n'],
        intent_source_label(IntentSource::Cfctl) == seq!['c', 'f', 'c', 't', 'l'],
        intent_source_label(IntentSource::Ai) == seq!['a', 'i'],
        intent_source_label(IntentSource::Replay) == seq!['r', 'e', 'p', 'l', 'a', 'y'],
{
    reveal_strlit("ai");
    reveal_strlit("cfctl");
    reveal_strlit("human");
    reveal_strlit("replay");
    assert("ai"@ =~= seq!['a', 'i']);
    assert("cfctl"@ =~= seq!['c', 'f', 'c', 't', 'l']);
    assert("human"@ =~= seq!['h', 'u', 'm', 'a', 'n']);
    assert("replay"@ =~= seq!['r', 'e', 'p', 'l', 'a', 'y']);
}

/// Distinct intent sources are logged under distinct labels.
pub proof fn intent_source_labels_are_distinct(a: IntentSource, b: IntentSource)
    requires
        a != b,
    ensures
        intent_source_label(a) != intent_source_label(b),
{
    intent_source_labels();
    assert(intent_source_label(a).len() != intent_source_label(b).len() || intent_source_label(a)[0] != intent_source_label(b)[0] || intent_source_label(a)[intent_source_label(a).len() - 1]
        != intent_source_label(b)[intent_source_label(b).len() - 1]);
}

/// Races are labelled "human", "methane", "crystalline", "aqueous" and "robotic".
pub proof fn race_labels()
    ensures
        race_label(Race::Human) == seq!['h', 'u', 'm', 'a', 'n'],
        race_label(Race::Methane) == seq!['m', 'e', 't', 'h', 'a', 'n', 'e'],
        race_label(Race::Crystalline) == seq!['c', 'r', 'y', 's', 't', 'a', 'l', 'l', 'i', 'n', 'e'],
        race_label(Race::Aqueous) == seq!['a', 'q', 'u', 'e', 'o', 'u', 's'],
        race_label(Race::Robotic) == seq!['r', 'o', 'b', 'o', 't', 'i', 'c'],
{
    reveal_strlit("aqueous");
    reveal_strlit("crystalline");
    reveal_strlit("human");
    reveal_strlit("methane");
    reveal_strlit("robotic");
    assert("aqueous"@ =~= seq!['a', 'q', 'u', 'e', 'o', 'u', 's']);
    assert("crystalline"@ =~= seq!['c', 'r', 'y', 's', 't', 'a', 'l', 'l', 'i', 'n', 'e']);
    assert("human"@ =~= seq!['h', 'u', 'm', 'a', 'n']);
    assert("methane"@ =~= seq!['m', 'e', 't', 'h', 'a', 'n', 'e']);
    assert("robotic"@ =~= seq!['r', 'o', 'b', 'o', 't', 'i', 'c']);
}

/// Distinct races carry distinct labels.
pub proof fn race_labels_are_distinct(a: Race, b: Race)
    requires
        a != b,
    ensures
        race_label(a) != race_label(b),
{
    race_labels();
    assert(race_label(a).len() != race_label(b).len() || race_label(a)[0] != race_label(b)[0] || race_label(a)[race_label(a).len() - 1]
        != race_label(b)[race_label(b).len() - 1]);
}

/// The scar each wound leaves: cuts, punctures and stabs a suture line;
/// gunshots and shrapnel a bullet scar; bruises a fading bruise; a crushed
/// limb a crush scar; a concussion none; fractures a fracture scar;
/// dislocations and sprains a joint scar; burns, frostbite, and acid or
/// chemical burns their own scars; eye, ear and dental injuries an eye
/// patch, an ear scar and a dental scar.
pub proof fn scar_decal_catalog()
    ensures
        scar_decal_of(WoundKind::LacerationLight) == seq!['s', 'c', 'a', 'r', '_', 's', 'u', 't', 'u', 'r', 'e', '_', 'l', 'i', 'n', 'e'],
        scar_decal_of(WoundKind::LacerationModerate) == seq!['s', 'c', 'a', 'r', '_', 's', 'u', 't', 'u', 'r', 'e', '_', 'l', 'i', 'n', 'e'],
        scar_decal_of(WoundKind::LacerationSevere) == seq!['s', 'c', 'a', 'r', '_', 's', 'u', 't', 'u', 'r', 'e', '_', 'l', 'i', 'n', 'e'],
        scar_decal_of(WoundKind::Puncture) == seq!['s', 'c', 'a', 'r', '_', 's', 'u', 't', 'u', 'r', 'e', '_', 'l', 'i', 'n', 'e'],
        scar_decal_of(WoundKind::StabThrough) == seq!['s', 'c', 'a', 'r', '_', 's', 'u', 't', 'u', 'r', 'e', '_', 'l', 'i', 'n', 'e'],
        scar_decal_of(WoundKind::GunshotEntry) == seq!['s', 'c', 'a', 'r', '_', 'b', 'u', 'l', 'l', 'e', 't'],
        scar_decal_of(WoundKind::GunshotExit) == seq!['s', 'c', 'a', 'r', '_', 'b', 'u', 'l', 'l', 'e', 't'],
        scar_decal_of(WoundKind::GunshotThrough) == seq!['s', 'c', 'a', 'r', '_', 'b', 'u', 'l', 'l', 'e', 't'],
        scar_decal_of(WoundKind::ShrapnelEmbedded) == seq!['s', 'c', 'a', 'r', '_', 'b', 'u', 'l', 'l', 'e', 't'],
        scar_decal_of(WoundKind::ShrapnelThrough) == seq!['s', 'c', 'a', 'r', '_', 'b', 'u', 'l', 'l', 'e', 't'],
        scar_decal_of(WoundKind::BruiseLight) == seq!['s', 'c', 'a', 'r', '_', 'b', 'r', 'u', 'i', 's', 'e', '_', 'f', 'a', 'd', 'e'],
        scar_decal_of(WoundKind::BruiseHeavy) == seq!['s', 'c', 'a', 'r', '_', 'b', 'r', 'u', 'i', 's', 'e', '_', 'f', 'a', 'd', 'e'],
        scar_decal_of(WoundKind::CrushLimb) == seq!['s', 'c', 'a', 'r', '_', 'c', 'r', 'u', 's', 'h'],
        scar_decal_of(WoundKind::Concussion) == seq!['s', 'c', 'a', 'r', '_', 'n', 'o', 'n', 'e'],
        scar_decal_of(WoundKind::FractureSimple) == seq!['s', 'c', 'a', 'r', '_', 'f', 'r', 'a', 'c', 't', 'u', 'r', 'e'],
        scar_decal_of(WoundKind::FractureCompound) == seq!['s', 'c', 'a', 'r', '_', 'f', 'r', 'a', 'c', 't', 'u', 'r', 'e'],
        scar_decal_of(WoundKind::FractureComminuted) == seq!['s', 'c', 'a', 'r', '_', 'f', 'r', 'a', 'c', 't', 'u', 'r', 'e'],
        scar_decal_of(WoundKind::Dislocation) == seq!['s', 'c', 'a', 'r', '_', 'j', 'o', 'i', 'n', 't'],
        scar_decal_of(WoundKind::SprainStrain) == seq!['s', 'c', 'a', 'r', '_', 'j', 'o', 'i', 'n', 't'],
        scar_decal_of(WoundKind::Burn1st) == seq!['s', 'c', 'a', 'r', '_', 'b', 'u', 'r', 'n'],
        scar_decal_of(WoundKind::Burn2nd) == seq!['s', 'c', 'a', 'r', '_', 'b', 'u', 'r', 'n'],
        scar_decal_of(WoundKind::Burn3rd) == seq!['s', 'c', 'a', 'r', '_', 'b', 'u', 'r', 'n'],
        scar_decal_of(WoundKind::Frostbite1st) == seq!['s', 'c', 'a', 'r', '_', 'f', 'r', 'o', 's', 't', 'b', 'i', 't', 'e'],
        scar_decal_of(WoundKind::Frostbite2nd) == seq!['s', 'c', 'a', 'r', '_', 'f', 'r', 'o', 's', 't', 'b', 'i', 't', 'e'],
        scar_decal_of(WoundKind::Frostbite3rd) == seq!['s', 'c', 'a', 'r', '_', 'f', 'r', 'o', 's', 't', 'b', 'i', 't', 'e'],
        scar_decal_of(WoundKind::AcidBurn) == seq!['s', 'c', 'a', 'r', '_', 'c', 'h', 'e', 'm', 'i', 'c', 'a', 'l'],
        scar_decal_of(WoundKind::ChemicalBurn) == seq!['s', 'c', 'a', 'r', '_', 'c', 'h', 'e', 'm', 'i', 'c', 'a', 'l'],
        scar_decal_of(WoundKind::EyeInjury) == seq!['s', 'c', 'a', 'r', '_', 'e', 'y', 'e', '_', 'p', 'a', 't', 'c', 'h'],
        scar_decal_of(WoundKind::EarInjury) == seq!['s', 'c', 'a', 'r', '_', 'e', 'a', 'r'],
        scar_decal_of(WoundKind::DentalDamage) == seq!['s', 'c', 'a', 'r', '_', 'd', 'e', 'n', 't', 'a', 'l'],
{
    reveal_strlit("scar_bruise_fade");
    reveal_strlit("scar_bullet");
    reveal_strlit("scar_burn");
    reveal_strlit("scar_chemical");
    reveal_strlit("scar_crush");
    reveal_strlit("scar_dental");
    reveal_strlit("scar_ear");
    reveal_strlit("scar_eye_patch");
    reveal_strlit("scar_fracture");
    reveal_strlit("scar_frostbite");
    reveal_strlit("scar_joint");
    reveal_strlit("scar_none");
    reveal_strlit("scar_suture_line");
    assert("scar_bruise_fade"@ =~= seq!['s', 'c', 'a', 'r', '_', 'b', 'r', 'u', 'i', 's', 'e', '_', 'f', 'a', 'd', 'e']);
    assert("scar_bullet"@ =~= seq!['s', 'c', 'a', 'r', '_', 'b', 'u', 'l', 'l', 'e', 't']);
    assert("scar_burn"@ =~= seq!['s', 'c', 'a', 'r', '_', 'b', 'u', 'r', 'n']);
    assert("scar_chemical"@ =~= seq!['s', 'c', 'a', 'r', '_', 'c', 'h', 'e', 'm', 'i', 'c', 'a', 'l']);
    assert("scar_crush"@ =~= seq!['s', 'c', 'a', 'r', '_', 'c', 'r', 'u', 's', 'h']);
    assert("scar_dental"@ =~= seq!['s', 'c', 'a', 'r', '_', 'd', 'e', 'n', 't', 'a', 'l']);
    assert("scar_ear"@ =~= seq!['s', 'c', 'a', 'r', '_', 'e', 'a', 'r']);
    assert("scar_eye_patch"@ =~= seq!['s', 'c', 'a', 'r', '_', 'e', 'y', 'e', '_', 'p', 'a', 't', 'c', 'h']);
    assert("scar_fracture"@ =~= seq!['s', 'c', 'a', 'r', '_', 'f', 'r', 'a', 'c', 't', 'u', 'r', 'e']);
    assert("scar_frostbite"@ =~= seq!['s', 'c', 'a', 'r', '_', 'f', 'r', 'o', 's', 't', 'b', 'i', 't', 'e']);
    assert("scar_joint"@ =~= seq!['s', 'c', 'a', 'r', '_', 'j', 'o', 'i', 'n', 't']);
    assert("scar_none"@ =~= seq!['s', 'c', 'a', 'r', '_', 'n', 'o', 'n', 'e']);
    assert("scar_suture_line"@ =~= seq!['s', 'c', 'a', 'r', '_', 's', 'u', 't', 'u', 'r', 'e', '_', 'l', 'i', 'n', 'e']);
}

} // verus!

verus! {

proof fn lemma_vocab_name_signatures()
    ensures
        name_signature("witness_deaths"@) == (14int, 'w', 's'),
        name_signature("survive_critical_wound"@) == (22int, 's', 'd'),
        name_signature("concussion_at_ko"@) == (16int, 'c', 'o'),
        name_signature("sustained_stress"@) == (16int, 's', 's'),
        name_signature("loss_of_squadmate"@) == (17int, 'l', 'e'),
        name_signature("drug_doses"@) == (10int, 'd', 's'),
        name_signature("drug_absence"@) == (12int, 'd', 'e'),
        name_signature("panic_threshold"@) == (15int, 'p', 'd'),
        name_signature("anxiety_chronic"@) == (15int, 'a', 'c'),
        name_signature("imminent_trauma"@) == (15int, 'i', 'a'),
        name_signature("sleep_deprivation"@) == (17int, 's', 'n'),
        name_signature("comorbidity"@) == (11int, 'c', 'y'),
        name_signature("methane"@) == (7int, 'm', 'e'),
        name_signature("methane_breather"@) == (16int, 'm', 'r'),
        name_signature("crystalline"@) == (11int, 'c', 'e'),
        name_signature("aqueous"@) == (7int, 'a', 's'),
        name_signature("robot"@) == (5int, 'r', 't'),
        name_signature("synth"@) == (5int, 's', 'h'),
{
    reveal_strlit("witness_deaths");
    reveal_strlit("survive_critical_wound");
    reveal_strlit("concussion_at_ko");
    reveal_strlit("sustained_stress");
    reveal_strlit("loss_of_squadmate");
    reveal_strlit("drug_doses");
    reveal_strlit("drug_absence");
    reveal_strlit("panic_threshold");
    reveal_strlit("anxiety_chronic");
    reveal_strlit("imminent_trauma");
    reveal_strlit("sleep_deprivation");
    reveal_strlit("comorbidity");
    reveal_strlit("methane");
    reveal_strlit("methane_breather");
    reveal_strlit("crystalline");
    reveal_strlit("aqueous");
    reveal_strlit("robot");
    reveal_strlit("synth");
}

/// Trigger reasons are parsed by their snake-case names; any other name,
/// like "sustained_stress" itself, gives sustained stress.
pub proof fn trigger_reason_names(s: Seq<char>)
    ensures
        trigger_reason_of(s) == TriggerReason::WitnessDeaths <==> s == "witness_deaths"@,
        trigger_reason_of(s) == TriggerReason::SurviveCriticalWound <==> s == "survive_critical_wound"@,
        trigger_reason_of(s) == TriggerReason::ConcussionAtKo <==> s == "concussion_at_ko"@,
        trigger_reason_of(s) == TriggerReason::LossOfSquadmate <==> s == "loss_of_squadmate"@,
        trigger_reason_of(s) == TriggerReason::DrugDoses <==> s == "drug_doses"@,
        trigger_reason_of(s) == TriggerReason::DrugAbsence <==> s == "drug_absence"@,
        trigger_reason_of(s) == TriggerReason::PanicThreshold <==> s == "panic_threshold"@,
        trigger_reason_of(s) == TriggerReason::AnxietyChronic <==> s == "anxiety_chronic"@,
        trigger_reason_of(s) == TriggerReason::ImminentTrauma <==> s == "imminent_trauma"@,
        trigger_reason_of(s) == TriggerReason::SleepDeprivation <==> s == "sleep_deprivation"@,
        trigger_reason_of(s) == TriggerReason::Comorbidity <==> s == "comorbidity"@,
        trigger_reason_of(s) == TriggerReason::SustainedStress <==> (s != "witness_deaths"@ && s != "survive_critical_wound"@ && s != "concussion_at_ko"@ && s != "loss_of_squadmate"@ && s != "drug_doses"@ && s != "drug_absence"@ && s != "panic_threshold"@ && s != "anxiety_chronic"@ && s != "imminent_trauma"@ && s != "sleep_deprivation"@ && s != "comorbidity"@),
{
    lemma_vocab_name_signatures();
}

/// Methane and methane-breather origins are methane breathers;
/// crystalline and aqueous origins are their own races; robot and synth
/// origins are robotic; every other origin is human.
pub proof fn race_of_origin_table(o: Seq<char>)
    ensures
        race_of_origin(o) == Race::Methane <==> (o == "methane"@ || o == "methane_breather"@),
        race_of_origin(o) == Race::Crystalline <==> o == "crystalline"@,
        race_of_origin(o) == Race::Aqueous <==> o == "aqueous"@,
        race_of_origin(o) == Race::Robotic <==> (o == "robot"@ || o == "synth"@),
        race_of_origin(o) == Race::Human <==> !(o == "methane"@ || o == "methane_breather"@ || o
            == "crystalline"@ || o == "aqueous"@ || o == "robot"@ || o == "synth"@),
{
    lemma_vocab_name_signatures();
}

} // verus!
