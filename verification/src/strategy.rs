//! The bookkeeping strategies whose state is exact, by name.

use vstd::prelude::*;

verus! {

/// The baseline: raw perceptions in, raw predictions out.
pub struct NaiveStrategy;

/// Both sides stored as unit-length vectors.
pub struct NormalizedStrategy;

/// Relative prediction error in, unit prediction direction out.
pub struct MatchedStrategy;

impl NaiveStrategy {
    /// The name results are reported under.
    pub fn name(&self) -> (n: &'static str)
        ensures
            n@ == "naive"@,
    {
        "naive"
    }
}

impl NormalizedStrategy {
    /// The name results are reported under.
    pub fn name(&self) -> (n: &'static str)
        ensures
            n@ == "normalized"@,
    {
        "normalized"
    }
}

impl MatchedStrategy {
    /// The name results are reported under.
    pub fn name(&self) -> (n: &'static str)
        ensures
            n@ == "matched"@,
    {
        "matched"
    }
}

} // verus!
