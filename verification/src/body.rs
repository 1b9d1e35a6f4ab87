//! One point mass.

use crate::vec2::Vec2;
use vstd::prelude::*;

verus! {

/// The physical state of one point mass.
///
/// `acceleration` is derived: it is overwritten whenever accelerations are
/// recomputed. A body's trail is kept by its owner beside it, with
/// `trail::record`.
#[derive(Clone, Copy)]
pub struct Body<S> {
    pub mass: S,
    pub position: Vec2<S>,
    pub velocity: Vec2<S>,
    pub acceleration: Vec2<S>,
}

} // verus!
