//! Two-dimensional vectors over a [`Scalar`].

use crate::scalar::Scalar;
use vstd::prelude::*;

verus! {

/// A vector in the plane. A plain value: every operation returns a new one.
#[derive(Clone, Copy, Debug, PartialEq)]
pub struct Vec2<S> {
    pub x: S,
    pub y: S,
}

impl<S: Scalar> Vec2<S> {
    /// The zero vector.
    pub open spec fn origin() -> Vec2<S> {
        Vec2 { x: S::ratio(0, 1), y: S::ratio(0, 1) }
    }

    /// Component-wise sum.
    pub open spec fn plus(self, other: Vec2<S>) -> Vec2<S> {
        Vec2 { x: self.x.plus(other.x), y: self.y.plus(other.y) }
    }

    /// Component-wise difference.
    pub open spec fn minus(self, other: Vec2<S>) -> Vec2<S> {
        Vec2 { x: self.x.minus(other.x), y: self.y.minus(other.y) }
    }

    /// Both components multiplied by `k`, the component on the left.
    pub open spec fn times(self, k: S) -> Vec2<S> {
        Vec2 { x: self.x.times(k), y: self.y.times(k) }
    }

    /// The Euclidean length: the root of `x*x + y*y`.
    pub open spec fn norm(self) -> S {
        self.x.times(self.x).plus(self.y.times(self.y)).root()
    }

    pub fn new(x: S, y: S) -> (v: Vec2<S>)
        ensures
            v.x == x,
            v.y == y,
    {
        Vec2 { x, y }
    }

    pub fn zero() -> (v: Vec2<S>)
        ensures
            v == Self::origin(),
    {
        Vec2 { x: S::of_ratio(0, 1), y: S::of_ratio(0, 1) }
    }

    pub fn add(self, other: Vec2<S>) -> (v: Vec2<S>)
        ensures
            v == self.plus(other),
    {
        Vec2 { x: self.x.sum(other.x), y: self.y.sum(other.y) }
    }

    pub fn sub(self, other: Vec2<S>) -> (v: Vec2<S>)
        ensures
            v == self.minus(other),
    {
        Vec2 { x: self.x.diff(other.x), y: self.y.diff(other.y) }
    }

    pub fn mul(self, k: S) -> (v: Vec2<S>)
        ensures
            v == self.times(k),
    {
        Vec2 { x: self.x.product(k), y: self.y.product(k) }
    }

    pub fn length(self) -> (l: S)
        ensures
            l == self.norm(),
    {
        self.x.product(self.x).sum(self.y.product(self.y)).root_of()
    }
}

} // verus!
