//! Comparison of string slices in verified code.

use vstd::prelude::*;

verus! {

/// Equality of string slices, `str::eq` of the standard library: two slices
/// are equal exactly when they hold the same characters.
pub assume_specification[ <str as PartialEq>::eq ](a: &str, b: &str) -> (same: bool)
    ensures
        same == (a@ == b@),
;

} // verus!
