//! Origin resources tracked per actor.

use vstd::prelude::*;

verus! {

/// The resource pools an origin can drain.
#[derive(Clone, Copy, Debug, PartialEq, Eq, Structural)]
pub enum ResKind {
    Blood,
    Oil,
    Power,
    Caloric,
    BioFluid,
}

/// Payload label of each resource kind.
pub open spec fn res_kind_label(k: ResKind) -> Seq<char> {
    match k {
        ResKind::Blood => "blood"@,
        ResKind::Oil => "oil"@,
        ResKind::Power => "power"@,
        ResKind::Caloric => "caloric"@,
        ResKind::BioFluid => "bio_fluid"@,
    }
}

/// Numeric id of each resource kind, in declaration order from 0.
pub open spec fn res_kind_id(k: ResKind) -> u8 {
    match k {
        ResKind::Blood => 0,
        ResKind::Oil => 1,
        ResKind::Power => 2,
        ResKind::Caloric => 3,
        ResKind::BioFluid => 4,
    }
}

impl ResKind {
    /// The payload label of the resource kind.
    pub fn as_str(self) -> (r: &'static str)
        ensures
            r@ == res_kind_label(self),
    {
        match self {
            ResKind::Blood => "blood",
            ResKind::Oil => "oil",
            ResKind::Power => "power",
            ResKind::Caloric => "caloric",
            ResKind::BioFluid => "bio_fluid",
        }
    }

    /// The numeric id of the resource kind.
    pub fn id(self) -> (r: u8)
        ensures
            r == res_kind_id(self),
    {
        match self {
            ResKind::Blood => 0,
            ResKind::Oil => 1,
            ResKind::Power => 2,
            ResKind::Caloric => 3,
            ResKind::BioFluid => 4,
        }
    }
}

} // verus!

verus! {

/// Resource kinds are labelled "blood", "oil", "power", "caloric" and "bio_fluid".
pub proof fn res_kind_labels()
    ensures
        res_kind_label(ResKind::Blood) == seq!['b', 'l', 'o', 'o', 'd'],
        res_kind_label(ResKind::Oil) == seq!['o', 'i', 'l'],
        res_kind_label(ResKind::Power) == seq!['p', 'o', 'w', 'e', 'r'],
        res_kind_label(ResKind::Caloric) == seq!['c', 'a', 'l', 'o', 'r', 'i', 'c'],
        res_kind_label(ResKind::BioFluid) == seq!['b', 'i', 'o', '_', 'f', 'l', 'u', 'i', 'd'],
{
    reveal_strlit("bio_fluid");
    reveal_strlit("blood");
    reveal_strlit("caloric");
    reveal_strlit("oil");
    reveal_strlit("power");
    assert("bio_fluid"@ =~= seq!['b', 'i', 'o', '_', 'f', 'l', 'u', 'i', 'd']);
    assert("blood"@ =~= seq!['b', 'l', 'o', 'o', 'd']);
    assert("caloric"@ =~= seq!['c', 'a', 'l', 'o', 'r', 'i', 'c']);
    assert("oil"@ =~= seq!['o', 'i', 'l']);
    assert("power"@ =~= seq!['p', 'o', 'w', 'e', 'r']);
}

/// Distinct resource kinds carry distinct labels.
pub proof fn res_kind_labels_are_distinct(a: ResKind, b: ResKind)
    requires
        a != b,
    ensures
        res_kind_label(a) != res_kind_label(b),
{
    res_kind_labels();
    assert(res_kind_label(a).len() != res_kind_label(b).len() || res_kind_label(a)[0] != res_kind_label(b)[0] || res_kind_label(a)[res_kind_label(a).len() - 1]
        != res_kind_label(b)[res_kind_label(b).len() - 1]);
}

/// Resource kinds are numbered 0 to 4 in the order blood, oil, power,
/// caloric, bio-fluid, so distinct kinds have distinct numbers.
pub proof fn res_kind_ids(a: ResKind, b: ResKind)
    ensures
        res_kind_id(ResKind::Blood) == 0 && res_kind_id(ResKind::Oil) == 1 && res_kind_id(ResKind::Power) == 2
            && res_kind_id(ResKind::Caloric) == 3 && res_kind_id(ResKind::BioFluid) == 4,
        res_kind_id(a) < 5,
        a != b ==> res_kind_id(a) != res_kind_id(b),
{
}

} // verus!
