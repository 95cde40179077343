//! Scalar search costs.

use vstd::prelude::*;

verus! {

/// A non-negative scalar cost in milli-units of the active model's objective
/// feature. `u64::MAX` stands for an unreachable (infinite) estimate, and
/// addition saturates there.
#[derive(Clone, Copy, PartialEq, Eq, Structural, Hash, Debug)]
pub struct Cost(pub u64);

/// The saturating sum of two raw cost values.
pub open spec fn spec_cost_add(a: int, b: int) -> int {
    if a + b <= u64::MAX {
        a + b
    } else {
        u64::MAX as int
    }
}

impl Cost {
    /// The additive identity.
    pub fn zero() -> (r: Cost)
        ensures
            r.0 == 0,
    {
        Cost(0)
    }

    /// The unreachable estimate that addition saturates at.
    pub fn infinity() -> (r: Cost)
        ensures
            r.0 == u64::MAX,
    {
        Cost(u64::MAX)
    }

    /// Adds two costs, saturating at the unreachable estimate.
    pub fn saturating_add(self, other: Cost) -> (r: Cost)
        ensures
            r.0 == spec_cost_add(self.0 as int, other.0 as int),
    {
        if self.0 <= u64::MAX - other.0 {
            Cost(self.0 + other.0)
        } else {
            Cost(u64::MAX)
        }
    }
}

} // verus!
