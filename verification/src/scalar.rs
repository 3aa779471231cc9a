//! The numeric kind the controller computes with.

use vstd::prelude::*;

verus! {

/// A number the controller can compute with: a zero, the four arithmetic
/// operations, negation and a strict order.
///
/// Each operation has a mathematical meaning (`*_spec`) and an executable
/// method that computes exactly that meaning. No operation may fail: where
/// the mathematics has no answer (a division by zero, a result out of range)
/// the kind itself says what comes out.
pub trait Scalar: Sized + Copy {
    /// The value every numeric field of a fresh controller holds.
    spec fn zero_spec() -> Self;

    /// `self + rhs`.
    spec fn plus_spec(self, rhs: Self) -> Self;

    /// `self - rhs`.
    spec fn minus_spec(self, rhs: Self) -> Self;

    /// `self * rhs`.
    spec fn times_spec(self, rhs: Self) -> Self;

    /// `self / rhs`.
    spec fn divided_by_spec(self, rhs: Self) -> Self;

    /// `-self`.
    spec fn negated_spec(self) -> Self;

    /// `self < rhs`.
    spec fn less_than_spec(self, rhs: Self) -> bool;

    fn zero() -> (r: Self)
        ensures
            r == Self::zero_spec(),
    ;

    fn plus(self, rhs: Self) -> (r: Self)
        ensures
            r == self.plus_spec(rhs),
    ;

    fn minus(self, rhs: Self) -> (r: Self)
        ensures
            r == self.minus_spec(rhs),
    ;

    fn times(self, rhs: Self) -> (r: Self)
        ensures
            r == self.times_spec(rhs),
    ;

    fn divided_by(self, rhs: Self) -> (r: Self)
        ensures
            r == self.divided_by_spec(rhs),
    ;

    fn negated(self) -> (r: Self)
        ensures
            r == self.negated_spec(),
    ;

    fn less_than(self, rhs: Self) -> (r: bool)
        ensures
            r == self.less_than_spec(rhs),
    ;
}

/// A numeric kind whose zero behaves as the zero of arithmetic does.
///
/// These identities hold of exact and of saturating arithmetic. They are the
/// whole of what the controller's laws about rest and about absent gains
/// lean on.
pub trait ZeroLaws: Scalar {
    /// Anything minus itself is zero.
    proof fn minus_self(x: Self)
        ensures
            x.minus_spec(x) == Self::zero_spec(),
    ;

    /// Adding zero, on either side, changes nothing.
    proof fn plus_zero(x: Self)
        ensures
            x.plus_spec(Self::zero_spec()) == x,
            Self::zero_spec().plus_spec(x) == x,
    ;

    /// A product with a zero factor is zero.
    proof fn times_zero(x: Self)
        ensures
            x.times_spec(Self::zero_spec()) == Self::zero_spec(),
            Self::zero_spec().times_spec(x) == Self::zero_spec(),
    ;

    /// Zero divided by anything but zero is zero.
    proof fn zero_divided(x: Self)
        requires
            x != Self::zero_spec(),
        ensures
            Self::zero_spec().divided_by_spec(x) == Self::zero_spec(),
    ;

    /// The negation of zero is zero.
    proof fn negated_zero()
        ensures
            Self::zero_spec().negated_spec() == Self::zero_spec(),
    ;
}

} // verus!
