//! Small string helpers shared by the wire-vocabulary parsers.

use vstd::prelude::*;

verus! {

/// Compares two string slices by their characters.
pub(crate) fn str_eq(a: &str, b: &str) -> (r: bool)
    ensures
        r == (a@ == b@),
{
    let x: String = a.to_owned();
    let y: String = b.to_owned();
    x == y
}

} // verus!
