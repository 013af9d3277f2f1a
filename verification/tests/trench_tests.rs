use cf_control::trench::{
    build_time_seconds_for, default_modules_for, dig_time_seconds_for, module_cost, parse_module,
    parse_variant, segment_depth, segment_width, SegmentVariant, TrenchModule,
};

const VARIANTS: [SegmentVariant; 6] = [
    SegmentVariant::ShallowScrape,
    SegmentVariant::Standard,
    SegmentVariant::Deep,
    SegmentVariant::Communication,
    SegmentVariant::FireStep,
    SegmentVariant::ParapetRaised,
];

const MODULES: [TrenchModule; 6] = [
    TrenchModule::Duckboard,
    TrenchModule::FireStep,
    TrenchModule::Breastwork,
    TrenchModule::DrainageSump,
    TrenchModule::Revetment,
    TrenchModule::CornerTraverse,
];

#[test]
fn parse_variant_round_trip() {
    for variant in VARIANTS {
        let s = variant.as_str();
        assert_eq!(parse_variant(s), Some(variant), "round-trip failed for variant `{s}`");
    }
}

#[test]
fn parse_module_round_trip() {
    for m in MODULES {
        assert_eq!(parse_module(m.as_str()), Some(m));
    }
}

#[test]
fn dig_time_standard_is_4x_shallow_scrape() {
    assert_eq!(dig_time_seconds_for(SegmentVariant::Standard), 12);
    assert_eq!(dig_time_seconds_for(SegmentVariant::ShallowScrape), 5);
    assert!(
        dig_time_seconds_for(SegmentVariant::Standard) > dig_time_seconds_for(SegmentVariant::ShallowScrape),
        "standard must dig slower than shallow_scrape"
    );
}

#[test]
fn build_time_matches_spec_table() {
    assert_eq!(build_time_seconds_for(TrenchModule::Duckboard), 4);
    assert_eq!(build_time_seconds_for(TrenchModule::FireStep), 8);
    assert_eq!(build_time_seconds_for(TrenchModule::Breastwork), 12);
    assert_eq!(build_time_seconds_for(TrenchModule::DrainageSump), 6);
    assert_eq!(build_time_seconds_for(TrenchModule::Revetment), 10);
    assert_eq!(build_time_seconds_for(TrenchModule::CornerTraverse), 6);
}

#[test]
fn module_cost_json_round_trips() {
    let cost = module_cost(TrenchModule::Breastwork);
    assert_eq!(cost.iter().find(|(k, _)| *k == "sandbag").map(|(_, v)| *v), Some(6));
    let cost = module_cost(TrenchModule::Revetment);
    assert_eq!(cost.iter().find(|(k, _)| *k == "wood").map(|(_, v)| *v), Some(4));
    assert_eq!(cost.iter().find(|(k, _)| *k == "iron").map(|(_, v)| *v), Some(2));
}

#[test]
fn default_modules_match_segment_ron() {
    assert!(default_modules_for(SegmentVariant::ShallowScrape).is_empty());
    assert_eq!(default_modules_for(SegmentVariant::Standard), vec![TrenchModule::Duckboard]);
    assert_eq!(
        default_modules_for(SegmentVariant::Deep),
        vec![TrenchModule::Duckboard, TrenchModule::DrainageSump]
    );
    assert_eq!(default_modules_for(SegmentVariant::Communication), vec![TrenchModule::Duckboard]);
    assert_eq!(
        default_modules_for(SegmentVariant::FireStep),
        vec![TrenchModule::Duckboard, TrenchModule::FireStep]
    );
    assert_eq!(
        default_modules_for(SegmentVariant::ParapetRaised),
        vec![TrenchModule::Duckboard, TrenchModule::Breastwork]
    );
}

#[test]
fn unknown_ids_do_not_parse() {
    assert_eq!(parse_variant("trench"), None);
    assert_eq!(parse_variant(""), None);
    assert_eq!(parse_variant("Standard"), None);
    assert_eq!(parse_module("sandbag"), None);
    assert_eq!(parse_module("fire_step "), None);
}

#[test]
fn fire_step_id_names_both_a_variant_and_a_module() {
    assert_eq!(parse_variant("fire_step"), Some(SegmentVariant::FireStep));
    assert_eq!(parse_module("fire_step"), Some(TrenchModule::FireStep));
}

#[test]
fn variant_dimensions_match_spec_table() {
    assert_eq!((segment_depth(SegmentVariant::ShallowScrape), segment_width(SegmentVariant::ShallowScrape)), (6, 12));
    assert_eq!((segment_depth(SegmentVariant::Standard), segment_width(SegmentVariant::Standard)), (16, 16));
    assert_eq!((segment_depth(SegmentVariant::Deep), segment_width(SegmentVariant::Deep)), (24, 16));
    assert_eq!((segment_depth(SegmentVariant::Communication), segment_width(SegmentVariant::Communication)), (16, 8));
    assert_eq!((segment_depth(SegmentVariant::FireStep), segment_width(SegmentVariant::FireStep)), (16, 20));
    assert_eq!((segment_depth(SegmentVariant::ParapetRaised), segment_width(SegmentVariant::ParapetRaised)), (16, 24));
}

#[test]
fn remaining_dig_times_match_spec_table() {
    assert_eq!(dig_time_seconds_for(SegmentVariant::Deep), 24);
    assert_eq!(dig_time_seconds_for(SegmentVariant::Communication), 12);
    assert_eq!(dig_time_seconds_for(SegmentVariant::FireStep), 16);
    assert_eq!(dig_time_seconds_for(SegmentVariant::ParapetRaised), 20);
}

#[test]
fn module_costs_are_ordered_by_material() {
    assert_eq!(module_cost(TrenchModule::Duckboard), vec![("wood", 2)]);
    assert_eq!(module_cost(TrenchModule::FireStep), vec![("dirt", 4), ("wood", 1)]);
    assert_eq!(module_cost(TrenchModule::DrainageSump), vec![("dirt", 2), ("pipe", 1)]);
    assert_eq!(module_cost(TrenchModule::Revetment), vec![("iron", 2), ("wood", 4)]);
    assert_eq!(module_cost(TrenchModule::CornerTraverse), vec![("dirt", 2), ("sandbag", 4)]);
    for m in MODULES {
        let cost = module_cost(m);
        for w in cost.windows(2) {
            assert!(w[0].0 < w[1].0);
        }
    }
}
