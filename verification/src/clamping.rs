//! The bounds that gate the controller's integral term.

use vstd::prelude::*;
use crate::scalar::Scalar;

verus! {

/// Which bounds, if any, the controller's last output is held against.
///
/// For `BothLimits` the lower bound comes first. That it does not lie above
/// the upper one is the caller's business; nothing here checks it.
pub enum Clamping<T: Scalar> {
    Unbounded,
    LowerLimit(T),
    UpperLimit(T),
    BothLimits(T, T),
}

impl<T: Scalar> Clamping<T> {
    /// Whether `value` lies outside the bounds: below the lower one or above
    /// the upper one, as far as each is set.
    pub open spec fn exceeded_spec(self, value: T) -> bool {
        match self {
            Clamping::Unbounded => false,
            Clamping::LowerLimit(lower) => value.less_than_spec(lower),
            Clamping::UpperLimit(upper) => upper.less_than_spec(value),
            Clamping::BothLimits(lower, upper) => value.less_than_spec(lower)
                || upper.less_than_spec(value),
        }
    }

    /// Tells whether `value` violates the bounds.
    pub fn exceeded(&self, value: T) -> (r: bool)
        ensures
            r == self.exceeded_spec(value),
    {
        match self {
            Clamping::Unbounded => false,
            Clamping::UpperLimit(upper_limit) => upper_limit.less_than(value),
            Clamping::LowerLimit(lower_limit) => value.less_than(*lower_limit),
            Clamping::BothLimits(lower_limit, upper_limit) => {
                value.less_than(*lower_limit) || upper_limit.less_than(value)
            },
        }
    }
}

} // verus!
