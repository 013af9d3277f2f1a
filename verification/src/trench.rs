//! Trench catalog: segment variants, embeddable modules, their wire ids and
//! the per-variant / per-module spec tables the dig and build commands use.

use vstd::prelude::*;

use crate::text::str_eq;

verus! {

/// The six trench segment variants.
#[derive(Clone, Copy, Debug, PartialEq, Eq, Structural)]
pub enum SegmentVariant {
    ShallowScrape,
    Standard,
    Deep,
    Communication,
    FireStep,
    ParapetRaised,
}

/// The six modules that can be embedded in a trench segment.
#[derive(Clone, Copy, Debug, PartialEq, Eq, Structural)]
pub enum TrenchModule {
    Duckboard,
    FireStep,
    Breastwork,
    DrainageSump,
    Revetment,
    CornerTraverse,
}

/// Wire id of each segment variant.
pub open spec fn variant_wire_id(v: SegmentVariant) -> Seq<char> {
    match v {
        SegmentVariant::ShallowScrape => "shallow_scrape"@,
        SegmentVariant::Standard => "standard"@,
        SegmentVariant::Deep => "deep"@,
        SegmentVariant::Communication => "communication"@,
        SegmentVariant::FireStep => "fire_step"@,
        SegmentVariant::ParapetRaised => "parapet_raised"@,
    }
}

/// Wire id of each trench module.
pub open spec fn module_wire_id(m: TrenchModule) -> Seq<char> {
    match m {
        TrenchModule::Duckboard => "duckboard"@,
        TrenchModule::FireStep => "fire_step"@,
        TrenchModule::Breastwork => "breastwork"@,
        TrenchModule::DrainageSump => "drainage_sump"@,
        TrenchModule::Revetment => "revetment"@,
        TrenchModule::CornerTraverse => "corner_traverse"@,
    }
}

/// The variant whose wire id is `s`, if any.
pub open spec fn variant_of_wire_id(s: Seq<char>) -> Option<SegmentVariant> {
    if s == "shallow_scrape"@ {
        Some(SegmentVariant::ShallowScrape)
    } else if s == "standard"@ {
        Some(SegmentVariant::Standard)
    } else if s == "deep"@ {
        Some(SegmentVariant::Deep)
    } else if s == "communication"@ {
        Some(SegmentVariant::Communication)
    } else if s == "fire_step"@ {
        Some(SegmentVariant::FireStep)
    } else if s == "parapet_raised"@ {
        Some(SegmentVariant::ParapetRaised)
    } else {
        None
    }
}

/// The module whose wire id is `s`, if any.
pub open spec fn module_of_wire_id(s: Seq<char>) -> Option<TrenchModule> {
    if s == "duckboard"@ {
        Some(TrenchModule::Duckboard)
    } else if s == "fire_step"@ {
        Some(TrenchModule::FireStep)
    } else if s == "breastwork"@ {
        Some(TrenchModule::Breastwork)
    } else if s == "drainage_sump"@ {
        Some(TrenchModule::DrainageSump)
    } else if s == "revetment"@ {
        Some(TrenchModule::Revetment)
    } else if s == "corner_traverse"@ {
        Some(TrenchModule::CornerTraverse)
    } else {
        None
    }
}

impl SegmentVariant {
    /// The wire id of the variant.
    pub fn as_str(&self) -> (r: &'static str)
        ensures
            r@ == variant_wire_id(*self),
    {
        match self {
            SegmentVariant::ShallowScrape => "shallow_scrape",
            SegmentVariant::Standard => "standard",
            SegmentVariant::Deep => "deep",
            SegmentVariant::Communication => "communication",
            SegmentVariant::FireStep => "fire_step",
            SegmentVariant::ParapetRaised => "parapet_raised",
        }
    }
}

impl TrenchModule {
    /// The wire id of the module.
    pub fn as_str(&self) -> (r: &'static str)
        ensures
            r@ == module_wire_id(*self),
    {
        match self {
            TrenchModule::Duckboard => "duckboard",
            TrenchModule::FireStep => "fire_step",
            TrenchModule::Breastwork => "breastwork",
            TrenchModule::DrainageSump => "drainage_sump",
            TrenchModule::Revetment => "revetment",
            TrenchModule::CornerTraverse => "corner_traverse",
        }
    }
}

/// Parses a wire-format variant id; `None` for an unknown id.
pub fn parse_variant(id: &str) -> (r: Option<SegmentVariant>)
    ensures
        r == variant_of_wire_id(id@),
{
    if str_eq(id, "shallow_scrape") {
        Some(SegmentVariant::ShallowScrape)
    } else if str_eq(id, "standard") {
        Some(SegmentVariant::Standard)
    } else if str_eq(id, "deep") {
        Some(SegmentVariant::Deep)
    } else if str_eq(id, "communication") {
        Some(SegmentVariant::Communication)
    } else if str_eq(id, "fire_step") {
        Some(SegmentVariant::FireStep)
    } else if str_eq(id, "parapet_raised") {
        Some(SegmentVariant::ParapetRaised)
    } else {
        None
    }
}

/// Parses a wire-format module id; `None` for an unknown id.
pub fn parse_module(id: &str) -> (r: Option<TrenchModule>)
    ensures
        r == module_of_wire_id(id@),
{
    if str_eq(id, "duckboard") {
        Some(TrenchModule::Duckboard)
    } else if str_eq(id, "fire_step") {
        Some(TrenchModule::FireStep)
    } else if str_eq(id, "breastwork") {
        Some(TrenchModule::Breastwork)
    } else if str_eq(id, "drainage_sump") {
        Some(TrenchModule::DrainageSump)
    } else if str_eq(id, "revetment") {
        Some(TrenchModule::Revetment)
    } else if str_eq(id, "corner_traverse") {
        Some(TrenchModule::CornerTraverse)
    } else {
        None
    }
}

spec fn id_signature(s: Seq<char>) -> (int, char) {
    (s.len() as int, s[0])
}

proof fn lemma_variant_wire_ids(v: SegmentVariant)
    ensures
        id_signature(variant_wire_id(v)) == match v {
            SegmentVariant::ShallowScrape => (14int, 's'),
            SegmentVariant::Standard => (8int, 's'),
            SegmentVariant::Deep => (4int, 'd'),
            SegmentVariant::Communication => (13int, 'c'),
            SegmentVariant::FireStep => (9int, 'f'),
            SegmentVariant::ParapetRaised => (14int, 'p'),
        },
{
    reveal_strlit("shallow_scrape");
    reveal_strlit("standard");
    reveal_strlit("deep");
    reveal_strlit("communication");
    reveal_strlit("fire_step");
    reveal_strlit("parapet_raised");
}

proof fn lemma_module_wire_ids(m: TrenchModule)
    ensures
        id_signature(module_wire_id(m)) == match m {
            TrenchModule::Duckboard => (9int, 'd'),
            TrenchModule::FireStep => (9int, 'f'),
            TrenchModule::Breastwork => (10int, 'b'),
            TrenchModule::DrainageSump => (13int, 'd'),
            TrenchModule::Revetment => (9int, 'r'),
            TrenchModule::CornerTraverse => (15int, 'c'),
        },
{
    reveal_strlit("duckboard");
    reveal_strlit("fire_step");
    reveal_strlit("breastwork");
    reveal_strlit("drainage_sump");
    reveal_strlit("revetment");
    reveal_strlit("corner_traverse");
}

/// Parsing a variant's wire id gives back the variant, and a wire id parses
/// to a variant only if it is that variant's wire id.
pub proof fn variant_wire_id_round_trip(v: SegmentVariant, s: Seq<char>)
    ensures
        variant_of_wire_id(variant_wire_id(v)) == Some(v),
        variant_of_wire_id(s) == Some(v) ==> s == variant_wire_id(v),
{
    lemma_variant_wire_ids(v);
    lemma_variant_wire_ids(SegmentVariant::ShallowScrape);
    lemma_variant_wire_ids(SegmentVariant::Standard);
    lemma_variant_wire_ids(SegmentVariant::Deep);
    lemma_variant_wire_ids(SegmentVariant::Communication);
    lemma_variant_wire_ids(SegmentVariant::FireStep);
    lemma_variant_wire_ids(SegmentVariant::ParapetRaised);
}

/// Parsing a module's wire id gives back the module, and a wire id parses to
/// a module only if it is that module's wire id.
pub proof fn module_wire_id_round_trip(m: TrenchModule, s: Seq<char>)
    ensures
        module_of_wire_id(module_wire_id(m)) == Some(m),
        module_of_wire_id(s) == Some(m) ==> s == module_wire_id(m),
{
    lemma_module_wire_ids(m);
    lemma_module_wire_ids(TrenchModule::Duckboard);
    lemma_module_wire_ids(TrenchModule::FireStep);
    lemma_module_wire_ids(TrenchModule::Breastwork);
    lemma_module_wire_ids(TrenchModule::DrainageSump);
    lemma_module_wire_ids(TrenchModule::Revetment);
    lemma_module_wire_ids(TrenchModule::CornerTraverse);
}

} // verus!

verus! {

/// Dig time in whole in-game seconds per variant.
pub open spec fn spec_dig_time_seconds(v: SegmentVariant) -> u32 {
    match v {
        SegmentVariant::ShallowScrape => 5,
        SegmentVariant::Standard => 12,
        SegmentVariant::Deep => 24,
        SegmentVariant::Communication => 12,
        SegmentVariant::FireStep => 16,
        SegmentVariant::ParapetRaised => 20,
    }
}

/// Build time in seconds per module.
pub open spec fn spec_build_time_seconds(m: TrenchModule) -> u32 {
    match m {
        TrenchModule::Duckboard => 4,
        TrenchModule::FireStep => 8,
        TrenchModule::Breastwork => 12,
        TrenchModule::DrainageSump => 6,
        TrenchModule::Revetment => 10,
        TrenchModule::CornerTraverse => 6,
    }
}

/// Depth of a freshly dug segment per variant.
pub open spec fn spec_segment_depth(v: SegmentVariant) -> u32 {
    match v {
        SegmentVariant::ShallowScrape => 6,
        SegmentVariant::Standard => 16,
        SegmentVariant::Deep => 24,
        SegmentVariant::Communication => 16,
        SegmentVariant::FireStep => 16,
        SegmentVariant::ParapetRaised => 16,
    }
}

/// Width of a freshly dug segment per variant.
pub open spec fn spec_segment_width(v: SegmentVariant) -> u32 {
    match v {
        SegmentVariant::ShallowScrape => 12,
        SegmentVariant::Standard => 16,
        SegmentVariant::Deep => 16,
        SegmentVariant::Communication => 8,
        SegmentVariant::FireStep => 20,
        SegmentVariant::ParapetRaised => 24,
    }
}

/// Modules embedded in a freshly dug segment of each variant.
pub open spec fn spec_default_modules(v: SegmentVariant) -> Seq<TrenchModule> {
    match v {
        SegmentVariant::ShallowScrape => seq![],
        SegmentVariant::Standard => seq![TrenchModule::Duckboard],
        SegmentVariant::Deep => seq![TrenchModule::Duckboard, TrenchModule::DrainageSump],
        SegmentVariant::Communication => seq![TrenchModule::Duckboard],
        SegmentVariant::FireStep => seq![TrenchModule::Duckboard, TrenchModule::FireStep],
        SegmentVariant::ParapetRaised => seq![TrenchModule::Duckboard, TrenchModule::Breastwork],
    }
}

/// Material cost of each module, as (material, amount) pairs in material-name order.
pub open spec fn spec_module_cost(m: TrenchModule) -> Seq<(Seq<char>, u32)> {
    match m {
        TrenchModule::Duckboard => seq![("wood"@, 2u32)],
        TrenchModule::FireStep => seq![("dirt"@, 4u32), ("wood"@, 1u32)],
        TrenchModule::Breastwork => seq![("sandbag"@, 6u32)],
        TrenchModule::DrainageSump => seq![("dirt"@, 2u32), ("pipe"@, 1u32)],
        TrenchModule::Revetment => seq![("iron"@, 2u32), ("wood"@, 4u32)],
        TrenchModule::CornerTraverse => seq![("dirt"@, 2u32), ("sandbag"@, 4u32)],
    }
}

/// Per-variant dig time in whole in-game seconds.
pub fn dig_time_seconds_for(variant: SegmentVariant) -> (r: u32)
    ensures
        r == spec_dig_time_seconds(variant),
{
    match variant {
        SegmentVariant::ShallowScrape => 5,
        SegmentVariant::Standard => 12,
        SegmentVariant::Deep => 24,
        SegmentVariant::Communication => 12,
        SegmentVariant::FireStep => 16,
        SegmentVariant::ParapetRaised => 20,
    }
}

/// Per-module build time in seconds.
pub fn build_time_seconds_for(module: TrenchModule) -> (r: u32)
    ensures
        r == spec_build_time_seconds(module),
{
    match module {
        TrenchModule::Duckboard => 4,
        TrenchModule::FireStep => 8,
        TrenchModule::Breastwork => 12,
        TrenchModule::DrainageSump => 6,
        TrenchModule::Revetment => 10,
        TrenchModule::CornerTraverse => 6,
    }
}

/// Per-variant segment depth.
pub fn segment_depth(variant: SegmentVariant) -> (r: u32)
    ensures
        r == spec_segment_depth(variant),
{
    match variant {
        SegmentVariant::ShallowScrape => 6,
        SegmentVariant::Standard => 16,
        SegmentVariant::Deep => 24,
        SegmentVariant::Communication => 16,
        SegmentVariant::FireStep => 16,
        SegmentVariant::ParapetRaised => 16,
    }
}

/// Per-variant segment width.
pub fn segment_width(variant: SegmentVariant) -> (r: u32)
    ensures
        r == spec_segment_width(variant),
{
    match variant {
        SegmentVariant::ShallowScrape => 12,
        SegmentVariant::Standard => 16,
        SegmentVariant::Deep => 16,
        SegmentVariant::Communication => 8,
        SegmentVariant::FireStep => 20,
        SegmentVariant::ParapetRaised => 24,
    }
}

/// Default embedded modules for a freshly dug segment of the given variant.
pub fn default_modules_for(variant: SegmentVariant) -> (r: Vec<TrenchModule>)
    ensures
        r@ == spec_default_modules(variant),
{
    let mut v: Vec<TrenchModule> = Vec::new();
    match variant {
        SegmentVariant::ShallowScrape => {},
        SegmentVariant::Standard => {
            v.push(TrenchModule::Duckboard);
        },
        SegmentVariant::Deep => {
            v.push(TrenchModule::Duckboard);
            v.push(TrenchModule::DrainageSump);
        },
        SegmentVariant::Communication => {
            v.push(TrenchModule::Duckboard);
        },
        SegmentVariant::FireStep => {
            v.push(TrenchModule::Duckboard);
            v.push(TrenchModule::FireStep);
        },
        SegmentVariant::ParapetRaised => {
            v.push(TrenchModule::Duckboard);
            v.push(TrenchModule::Breastwork);
        },
    }
    v
}

/// Material cost of a module as (material, amount) pairs, ordered by material name.
pub fn module_cost(module: TrenchModule) -> (r: Vec<(&'static str, u32)>)
    ensures
        r@.len() == spec_module_cost(module).len(),
        forall|i: int| 0 <= i < r@.len() ==> (#[trigger] r@[i]).0@ == spec_module_cost(module)[i].0
            && r@[i].1 == spec_module_cost(module)[i].1,
{
    let mut v: Vec<(&'static str, u32)> = Vec::new();
    match module {
        TrenchModule::Duckboard => {
            v.push(("wood", 2));
        },
        TrenchModule::FireStep => {
            v.push(("dirt", 4));
            v.push(("wood", 1));
        },
        TrenchModule::Breastwork => {
            v.push(("sandbag", 6));
        },
        TrenchModule::DrainageSump => {
            v.push(("dirt", 2));
            v.push(("pipe", 1));
        },
        TrenchModule::Revetment => {
            v.push(("iron", 2));
            v.push(("wood", 4));
        },
        TrenchModule::CornerTraverse => {
            v.push(("dirt", 2));
            v.push(("sandbag", 4));
        },
    }
    v
}

} // verus!

verus! {

/// The material catalog: a duckboard costs 2 wood; a fire step 4 dirt and
/// 1 wood; a breastwork 6 sandbags; a drainage sump 2 dirt and 1 pipe; a
/// revetment 2 iron and 4 wood; a corner traverse 2 dirt and 4 sandbags.
/// No module needs any other material.
pub proof fn module_cost_catalog()
    ensures
        spec_module_cost(TrenchModule::Duckboard) == seq![(seq!['w', 'o', 'o', 'd'], 2u32)],
        spec_module_cost(TrenchModule::FireStep) == seq![
            (seq!['d', 'i', 'r', 't'], 4u32),
            (seq!['w', 'o', 'o', 'd'], 1u32),
        ],
        spec_module_cost(TrenchModule::Breastwork) == seq![(seq!['s', 'a', 'n', 'd', 'b', 'a', 'g'], 6u32)],
        spec_module_cost(TrenchModule::DrainageSump) == seq![
            (seq!['d', 'i', 'r', 't'], 2u32),
            (seq!['p', 'i', 'p', 'e'], 1u32),
        ],
        spec_module_cost(TrenchModule::Revetment) == seq![
            (seq!['i', 'r', 'o', 'n'], 2u32),
            (seq!['w', 'o', 'o', 'd'], 4u32),
        ],
        spec_module_cost(TrenchModule::CornerTraverse) == seq![
            (seq!['d', 'i', 'r', 't'], 2u32),
            (seq!['s', 'a', 'n', 'd', 'b', 'a', 'g'], 4u32),
        ],
{
    reveal_strlit("wood");
    reveal_strlit("dirt");
    reveal_strlit("sandbag");
    reveal_strlit("pipe");
    reveal_strlit("iron");
    assert("wood"@ =~= seq!['w', 'o', 'o', 'd']);
    assert("dirt"@ =~= seq!['d', 'i', 'r', 't']);
    assert("sandbag"@ =~= seq!['s', 'a', 'n', 'd', 'b', 'a', 'g']);
    assert("pipe"@ =~= seq!['p', 'i', 'p', 'e']);
    assert("iron"@ =~= seq!['i', 'r', 'o', 'n']);
    assert(spec_module_cost(TrenchModule::Duckboard) =~= seq![(seq!['w', 'o', 'o', 'd'], 2u32)]);
    assert(spec_module_cost(TrenchModule::FireStep) =~= seq![
        (seq!['d', 'i', 'r', 't'], 4u32),
        (seq!['w', 'o', 'o', 'd'], 1u32),
    ]);
    assert(spec_module_cost(TrenchModule::Breastwork) =~= seq![(seq!['s', 'a', 'n', 'd', 'b', 'a', 'g'], 6u32)]);
    assert(spec_module_cost(TrenchModule::DrainageSump) =~= seq![
        (seq!['d', 'i', 'r', 't'], 2u32),
        (seq!['p', 'i', 'p', 'e'], 1u32),
    ]);
    assert(spec_module_cost(TrenchModule::Revetment) =~= seq![
        (seq!['i', 'r', 'o', 'n'], 2u32),
        (seq!['w', 'o', 'o', 'd'], 4u32),
    ]);
    assert(spec_module_cost(TrenchModule::CornerTraverse) =~= seq![
        (seq!['d', 'i', 'r', 't'], 2u32),
        (seq!['s', 'a', 'n', 'd', 'b', 'a', 'g'], 4u32),
    ]);
}

/// Every module costs something, each material it needs is listed once with
/// a positive amount, and no module needs more than two materials.
pub proof fn module_costs_are_positive_and_distinct(m: TrenchModule)
    ensures
        0 < spec_module_cost(m).len() <= 2,
        forall|i: int| 0 <= i < spec_module_cost(m).len() ==> #[trigger] spec_module_cost(m)[i].1 > 0,
        forall|i: int, j: int|
            0 <= i < j < spec_module_cost(m).len() ==> spec_module_cost(m)[i].0 != spec_module_cost(m)[j].0,
{
    module_cost_catalog();
    reveal_strlit("wood");
    reveal_strlit("dirt");
    reveal_strlit("sandbag");
    reveal_strlit("pipe");
    reveal_strlit("iron");
    assert forall|i: int, j: int| 0 <= i < j < spec_module_cost(m).len() implies spec_module_cost(m)[i].0
        != spec_module_cost(m)[j].0 by {
        assert(i == 0 && j == 1);
        assert(spec_module_cost(m)[i].0[0] != spec_module_cost(m)[j].0[0]);
    }
}

/// The dig catalog: a shallow scrape takes 5 s and is 6 deep and 12 wide; a
/// standard trench 12 s, 16 by 16; a deep trench 24 s, 24 deep and 16 wide;
/// a communication trench 12 s, 16 deep and 8 wide; a fire-step trench 16 s,
/// 16 by 20; a raised-parapet trench 20 s, 16 deep and 24 wide.
pub proof fn dig_catalog()
    ensures
        spec_dig_time_seconds(SegmentVariant::ShallowScrape) == 5 && spec_segment_depth(SegmentVariant::ShallowScrape)
            == 6 && spec_segment_width(SegmentVariant::ShallowScrape) == 12,
        spec_dig_time_seconds(SegmentVariant::Standard) == 12 && spec_segment_depth(SegmentVariant::Standard) == 16
            && spec_segment_width(SegmentVariant::Standard) == 16,
        spec_dig_time_seconds(SegmentVariant::Deep) == 24 && spec_segment_depth(SegmentVariant::Deep) == 24
            && spec_segment_width(SegmentVariant::Deep) == 16,
        spec_dig_time_seconds(SegmentVariant::Communication) == 12 && spec_segment_depth(SegmentVariant::Communication)
            == 16 && spec_segment_width(SegmentVariant::Communication) == 8,
        spec_dig_time_seconds(SegmentVariant::FireStep) == 16 && spec_segment_depth(SegmentVariant::FireStep) == 16
            && spec_segment_width(SegmentVariant::FireStep) == 20,
        spec_dig_time_seconds(SegmentVariant::ParapetRaised) == 20 && spec_segment_depth(SegmentVariant::ParapetRaised)
            == 16 && spec_segment_width(SegmentVariant::ParapetRaised) == 24,
{
}

/// Digging deeper never takes less time: a deeper segment variant takes at
/// least as long to dig as a shallower one, and the shallow scrape is the
/// quickest and shallowest of all.
pub proof fn deeper_segments_take_longer(a: SegmentVariant, b: SegmentVariant)
    ensures
        spec_segment_depth(a) < spec_segment_depth(b) ==> spec_dig_time_seconds(a) < spec_dig_time_seconds(b),
        spec_dig_time_seconds(SegmentVariant::ShallowScrape) <= spec_dig_time_seconds(a),
        spec_segment_depth(SegmentVariant::ShallowScrape) <= spec_segment_depth(a),
{
}

/// The build catalog: duckboard 4 s, fire step 8 s, breastwork 12 s,
/// drainage sump 6 s, revetment 10 s, corner traverse 6 s; and the modules a
/// fresh segment comes with: none for a shallow scrape, a duckboard for
/// standard and communication trenches, a duckboard and a drainage sump for a
/// deep one, a duckboard and a fire step for a fire-step trench, a duckboard
/// and a breastwork for a raised parapet.
pub proof fn build_catalog()
    ensures
        spec_build_time_seconds(TrenchModule::Duckboard) == 4,
        spec_build_time_seconds(TrenchModule::FireStep) == 8,
        spec_build_time_seconds(TrenchModule::Breastwork) == 12,
        spec_build_time_seconds(TrenchModule::DrainageSump) == 6,
        spec_build_time_seconds(TrenchModule::Revetment) == 10,
        spec_build_time_seconds(TrenchModule::CornerTraverse) == 6,
        spec_default_modules(SegmentVariant::ShallowScrape).len() == 0,
        spec_default_modules(SegmentVariant::Standard) == seq![TrenchModule::Duckboard],
        spec_default_modules(SegmentVariant::Communication) == seq![TrenchModule::Duckboard],
        spec_default_modules(SegmentVariant::Deep) == seq![TrenchModule::Duckboard, TrenchModule::DrainageSump],
        spec_default_modules(SegmentVariant::FireStep) == seq![TrenchModule::Duckboard, TrenchModule::FireStep],
        spec_default_modules(SegmentVariant::ParapetRaised) == seq![TrenchModule::Duckboard, TrenchModule::Breastwork],
{
}

/// Every dug segment except a shallow scrape comes with a duckboard first.
pub proof fn dug_segments_start_with_a_duckboard(v: SegmentVariant)
    ensures
        v != SegmentVariant::ShallowScrape ==> spec_default_modules(v).len() >= 1 && spec_default_modules(v)[0]
            == TrenchModule::Duckboard,
        v == SegmentVariant::ShallowScrape ==> spec_default_modules(v).len() == 0,
{
}

} // verus!
