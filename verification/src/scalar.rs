//! The numbers the simulation computes with.
//!
//! The library never looks inside a number. It fixes which operations are
//! applied to which operands and in what order; the arithmetic itself belongs
//! to whoever implements [`Scalar`].

use vstd::prelude::*;

verus! {

/// A kind of number with the five operations the simulation needs.
///
/// Each executable method promises one thing only: that its result is the
/// named function of its arguments, the same on every call. No law of
/// arithmetic is claimed: nothing here says that addition is associative or
/// that a product commutes, so everything proved over this trait holds for
/// rounded arithmetic as well as for exact.
///
/// The first six methods are the model that contracts speak of; the last six
/// are what runs. An implementation written in plain Rust supplies both, each
/// pair as the same operation.
pub trait Scalar: Sized + Copy {
    /// The sum `self + other`.
    spec fn plus(self, other: Self) -> Self;

    /// The difference `self - other`.
    spec fn minus(self, other: Self) -> Self;

    /// The product `self * other`.
    spec fn times(self, other: Self) -> Self;

    /// The quotient `self / other`.
    spec fn over(self, other: Self) -> Self;

    /// The square root of `self`.
    spec fn root(self) -> Self;

    /// The constant `num / den`.
    spec fn ratio(num: u64, den: u64) -> Self;

    /// Computes `self + other`.
    fn sum(self, other: Self) -> (r: Self)
        ensures
            r == self.plus(other),
    ;

    /// Computes `self - other`.
    fn diff(self, other: Self) -> (r: Self)
        ensures
            r == self.minus(other),
    ;

    /// Computes `self * other`.
    fn product(self, other: Self) -> (r: Self)
        ensures
            r == self.times(other),
    ;

    /// Computes `self / other`.
    fn quotient(self, other: Self) -> (r: Self)
        ensures
            r == self.over(other),
    ;

    /// Computes the square root of `self`.
    fn root_of(self) -> (r: Self)
        ensures
            r == self.root(),
    ;

    /// Builds the constant `num / den`.
    fn of_ratio(num: u64, den: u64) -> (r: Self)
        ensures
            r == Self::ratio(num, den),
    ;
}

} // verus!
