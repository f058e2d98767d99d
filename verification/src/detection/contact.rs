//! Geometric contacts, as a narrow phase reports them.

use vstd::prelude::*;
use crate::math::scalar::{Scalar, SCALE, WORKING_RANGE};
use crate::math::vector::Vec3;

verus! {

/// One geometric overlap between two bodies.
///
/// `world1` and `world2` are the contact points on the surface of the first
/// and of the second body, `normal` points from the first body toward the
/// second, and `depth` is positive where the bodies overlap and negative where
/// they are apart.
#[derive(Clone, Copy, Debug, PartialEq, Eq)]
pub struct Contact {
    pub world1: Vec3,
    pub world2: Vec3,
    pub normal: Vec3,
    pub depth: Scalar,
}

impl Contact {
    pub fn new(world1: Vec3, world2: Vec3, normal: Vec3, depth: Scalar) -> (r: Contact)
        ensures
            r.world1 == world1,
            r.world2 == world2,
            r.normal == normal,
            r.depth == depth,
    {
        Contact { world1, world2, normal, depth }
    }

    /// Whether the points and the depth lie in the working range, and no
    /// component of the normal exceeds one.
    pub open spec fn in_range(self) -> bool {
        &&& self.world1.bounded(WORKING_RANGE as int)
        &&& self.world2.bounded(WORKING_RANGE as int)
        &&& self.normal.bounded(SCALE as int)
        &&& self.depth.bounded(WORKING_RANGE as int)
    }

    /// Decides `in_range`.
    pub fn is_in_range(&self) -> (r: bool)
        ensures
            r == self.in_range(),
    {
        self.world1.is_bounded(WORKING_RANGE) && self.world2.is_bounded(WORKING_RANGE)
            && self.normal.is_bounded(SCALE) && self.depth.is_bounded(WORKING_RANGE)
    }
}

} // verus!
