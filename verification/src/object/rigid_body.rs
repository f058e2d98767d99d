//! What the contact resolution reads of a rigid body.

use vstd::prelude::*;
use crate::math::scalar::{Scalar, SCALE, WORKING_RANGE};
use crate::math::vector::{v3_zero, Mat3, Vec3};

verus! {

/// Whether a body takes part in the dynamics or stays where it is.
#[derive(Clone, Copy, Debug, PartialEq, Eq)]
pub enum RigidBodyState {
    Static,
    Dynamic,
}

/// The state of one rigid body at the beginning of a step.
///
/// Bodies live in a list owned by the caller and are addressed by their
/// position in it; `index` is the slot of the body in the solver's arrays.
#[derive(Clone, Copy, Debug, PartialEq, Eq)]
pub struct RigidBody {
    pub state: RigidBodyState,
    pub active: bool,
    pub index: isize,
    pub center_of_mass: Vec3,
    pub lin_vel: Vec3,
    pub ang_vel: Vec3,
    pub lin_acc: Vec3,
    pub ang_acc: Vec3,
    pub inv_mass: Scalar,
    pub inv_inertia: Mat3,
    pub restitution: Scalar,
    pub friction: Scalar,
}

impl RigidBody {
    /// A body at rest at the origin, with restitution and friction zero.
    pub fn new(state: RigidBodyState, inv_mass: Scalar, inv_inertia: Mat3, index: isize) -> (r: RigidBody)
        ensures
            r.state == state,
            r.active,
            r.index == index,
            r.inv_mass == inv_mass,
            r.inv_inertia == inv_inertia,
            r.center_of_mass@ == v3_zero(),
            r.lin_vel@ == v3_zero(),
            r.ang_vel@ == v3_zero(),
            r.lin_acc@ == v3_zero(),
            r.ang_acc@ == v3_zero(),
            r.restitution@ == 0,
            r.friction@ == 0,
    {
        RigidBody {
            state,
            active: true,
            index,
            center_of_mass: Vec3::zero(),
            lin_vel: Vec3::zero(),
            ang_vel: Vec3::zero(),
            lin_acc: Vec3::zero(),
            ang_acc: Vec3::zero(),
            inv_mass,
            inv_inertia,
            restitution: Scalar::zero(),
            friction: Scalar::zero(),
        }
    }

    /// Whether forces can move the body.
    pub open spec fn movable(self) -> bool {
        self.state is Dynamic
    }

    /// Whether forces can move the body.
    pub fn can_move(&self) -> (r: bool)
        ensures
            r == self.movable(),
    {
        match self.state {
            RigidBodyState::Dynamic => true,
            RigidBodyState::Static => false,
        }
    }

    /// Whether the body is awake.
    pub fn is_active(&self) -> (r: bool)
        ensures
            r == self.active,
    {
        self.active
    }

    /// The slot of the body in the solver's arrays.
    pub fn index(&self) -> (r: isize)
        ensures
            r == self.index,
    {
        self.index
    }

    /// Whether every quantity lies in the working range, and the restitution
    /// coefficient between minus one and one.
    pub open spec fn in_range(self) -> bool {
        &&& self.center_of_mass.bounded(WORKING_RANGE as int)
        &&& self.lin_vel.bounded(WORKING_RANGE as int)
        &&& self.ang_vel.bounded(WORKING_RANGE as int)
        &&& self.lin_acc.bounded(WORKING_RANGE as int)
        &&& self.ang_acc.bounded(WORKING_RANGE as int)
        &&& self.inv_mass.bounded(WORKING_RANGE as int)
        &&& self.inv_inertia.bounded(WORKING_RANGE as int)
        &&& self.restitution.bounded(SCALE as int)
        &&& self.friction.bounded(WORKING_RANGE as int)
    }

    /// Decides `in_range`.
    pub fn is_in_range(&self) -> (r: bool)
        ensures
            r == self.in_range(),
    {
        self.center_of_mass.is_bounded(WORKING_RANGE)
            && self.lin_vel.is_bounded(WORKING_RANGE)
            && self.ang_vel.is_bounded(WORKING_RANGE)
            && self.lin_acc.is_bounded(WORKING_RANGE)
            && self.ang_acc.is_bounded(WORKING_RANGE)
            && self.inv_mass.is_bounded(WORKING_RANGE)
            && self.inv_inertia.is_bounded(WORKING_RANGE)
            && self.restitution.is_bounded(SCALE)
            && self.friction.is_bounded(WORKING_RANGE)
    }
}

} // verus!
