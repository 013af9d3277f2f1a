use cf_control::vocab::{
    parse_reason, race_from_origin, race_str, scar_decal_id, source_label, tile_affordance_for_material_name,
    IntentSource, Race, TileAffordance, TriggerReason, WoundKind,
};

#[test]
fn source_labels() {
    assert_eq!(source_label(IntentSource::Human), "human");
    assert_eq!(source_label(IntentSource::Cfctl), "cfctl");
    assert_eq!(source_label(IntentSource::Ai), "ai");
    assert_eq!(source_label(IntentSource::Replay), "replay");
}

#[test]
fn origins_map_onto_races() {
    assert_eq!(race_from_origin("methane"), Race::Methane);
    assert_eq!(race_from_origin("methane_breather"), Race::Methane);
    assert_eq!(race_from_origin("crystalline"), Race::Crystalline);
    assert_eq!(race_from_origin("aqueous"), Race::Aqueous);
    assert_eq!(race_from_origin("robot"), Race::Robotic);
    assert_eq!(race_from_origin("synth"), Race::Robotic);
    assert_eq!(race_from_origin("human"), Race::Human);
    assert_eq!(race_from_origin("unknown_origin"), Race::Human);
    // The race label "robotic" is not itself an origin id.
    assert_eq!(race_from_origin("robotic"), Race::Human);
}

#[test]
fn race_labels() {
    assert_eq!(race_str(Race::Human), "human");
    assert_eq!(race_str(Race::Methane), "methane");
    assert_eq!(race_str(Race::Crystalline), "crystalline");
    assert_eq!(race_str(Race::Aqueous), "aqueous");
    assert_eq!(race_str(Race::Robotic), "robotic");
}

#[test]
fn materials_map_onto_affordances() {
    assert_eq!(tile_affordance_for_material_name("air"), TileAffordance::Empty);
    assert_eq!(tile_affordance_for_material_name("wood"), TileAffordance::Flammable);
    assert_eq!(tile_affordance_for_material_name("nitroglycerin"), TileAffordance::Flammable);
    assert_eq!(tile_affordance_for_material_name("copper"), TileAffordance::Conductive);
    assert_eq!(tile_affordance_for_material_name("metal_nohook"), TileAffordance::Conductive);
    assert_eq!(tile_affordance_for_material_name("seawater"), TileAffordance::Water);
    assert_eq!(tile_affordance_for_material_name("dirt"), TileAffordance::Solid);
    assert_eq!(tile_affordance_for_material_name("stone"), TileAffordance::Solid);
    assert_eq!(tile_affordance_for_material_name("glass"), TileAffordance::Other);
    assert_eq!(tile_affordance_for_material_name(""), TileAffordance::Other);
}

#[test]
fn trigger_reasons_parse_tolerantly() {
    assert_eq!(parse_reason("witness_deaths"), TriggerReason::WitnessDeaths);
    assert_eq!(parse_reason("survive_critical_wound"), TriggerReason::SurviveCriticalWound);
    assert_eq!(parse_reason("concussion_at_ko"), TriggerReason::ConcussionAtKo);
    assert_eq!(parse_reason("loss_of_squadmate"), TriggerReason::LossOfSquadmate);
    assert_eq!(parse_reason("drug_doses"), TriggerReason::DrugDoses);
    assert_eq!(parse_reason("drug_absence"), TriggerReason::DrugAbsence);
    assert_eq!(parse_reason("panic_threshold"), TriggerReason::PanicThreshold);
    assert_eq!(parse_reason("anxiety_chronic"), TriggerReason::AnxietyChronic);
    assert_eq!(parse_reason("imminent_trauma"), TriggerReason::ImminentTrauma);
    assert_eq!(parse_reason("sleep_deprivation"), TriggerReason::SleepDeprivation);
    assert_eq!(parse_reason("comorbidity"), TriggerReason::Comorbidity);
    assert_eq!(parse_reason("sustained_stress"), TriggerReason::SustainedStress);
    assert_eq!(parse_reason("no_such_reason"), TriggerReason::SustainedStress);
}

#[test]
fn scar_decals_follow_wound_families() {
    assert_eq!(scar_decal_id(WoundKind::LacerationLight), "scar_suture_line");
    assert_eq!(scar_decal_id(WoundKind::StabThrough), "scar_suture_line");
    assert_eq!(scar_decal_id(WoundKind::GunshotEntry), "scar_bullet");
    assert_eq!(scar_decal_id(WoundKind::ShrapnelThrough), "scar_bullet");
    assert_eq!(scar_decal_id(WoundKind::BruiseHeavy), "scar_bruise_fade");
    assert_eq!(scar_decal_id(WoundKind::CrushLimb), "scar_crush");
    assert_eq!(scar_decal_id(WoundKind::Concussion), "scar_none");
    assert_eq!(scar_decal_id(WoundKind::FractureComminuted), "scar_fracture");
    assert_eq!(scar_decal_id(WoundKind::SprainStrain), "scar_joint");
    assert_eq!(scar_decal_id(WoundKind::Burn3rd), "scar_burn");
    assert_eq!(scar_decal_id(WoundKind::Frostbite1st), "scar_frostbite");
    assert_eq!(scar_decal_id(WoundKind::ChemicalBurn), "scar_chemical");
    assert_eq!(scar_decal_id(WoundKind::EyeInjury), "scar_eye_patch");
    assert_eq!(scar_decal_id(WoundKind::EarInjury), "scar_ear");
    assert_eq!(scar_decal_id(WoundKind::DentalDamage), "scar_dental");
}
