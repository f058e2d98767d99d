//! The record that the solver operates on.

use vstd::prelude::*;
use crate::math::scalar::{FineScalar, Scalar};
use crate::math::vector::{v3_zero, Vec3};

verus! {

/// One constraint axis between two bodies.
///
/// `friction_limit_id` is the slot, in the array of normal constraints of the
/// same pass, of the constraint whose impulse limits this one.
#[derive(Clone, Copy, Debug, PartialEq, Eq)]
pub struct VelocityConstraint {
    pub normal: Vec3,
    pub weighted_normal1: Vec3,
    pub weighted_normal2: Vec3,
    pub rot_axis1: Vec3,
    pub weighted_rot_axis1: Vec3,
    pub rot_axis2: Vec3,
    pub weighted_rot_axis2: Vec3,
    /// Inverse of the mass along the constraint direction, in fine steps.
    pub inv_projected_mass: FineScalar,
    pub impulse: Scalar,
    pub lobound: Scalar,
    pub hibound: Scalar,
    pub objective: Scalar,
    pub id1: isize,
    pub id2: isize,
    pub friction_coeff: Scalar,
    pub friction_limit_id: usize,
}

impl VelocityConstraint {
    /// A constraint with every field zero, between no bodies.
    pub fn new() -> (r: VelocityConstraint)
        ensures
            r.normal@ == v3_zero(),
            r.weighted_normal1@ == v3_zero(),
            r.weighted_normal2@ == v3_zero(),
            r.rot_axis1@ == v3_zero(),
            r.weighted_rot_axis1@ == v3_zero(),
            r.rot_axis2@ == v3_zero(),
            r.weighted_rot_axis2@ == v3_zero(),
            r.inv_projected_mass@ == 0,
            r.impulse@ == 0,
            r.lobound@ == 0,
            r.hibound@ == 0,
            r.objective@ == 0,
            r.id1 == -1,
            r.id2 == -1,
            r.friction_coeff@ == 0,
            r.friction_limit_id == 0,
    {
        VelocityConstraint {
            normal: Vec3::zero(),
            weighted_normal1: Vec3::zero(),
            weighted_normal2: Vec3::zero(),
            rot_axis1: Vec3::zero(),
            weighted_rot_axis1: Vec3::zero(),
            rot_axis2: Vec3::zero(),
            weighted_rot_axis2: Vec3::zero(),
            inv_projected_mass: FineScalar::zero(),
            impulse: Scalar::zero(),
            lobound: Scalar::zero(),
            hibound: Scalar::zero(),
            objective: Scalar::zero(),
            id1: -1,
            id2: -1,
            friction_coeff: Scalar::zero(),
            friction_limit_id: 0,
        }
    }
}

} // verus!
