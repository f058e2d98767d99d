//! The equations of a contact: one normal constraint and one friction
//! constraint for each direction of the tangent plane.

use vstd::prelude::*;
use crate::detection::contact::Contact;
use crate::math::bounds::{
    lemma_apply_within, lemma_cross_within, lemma_diagonal_form_nonnegative, lemma_dot_within,
    lemma_fx_div_within, lemma_fx_mul_within, lemma_scale_within,
    lemma_weighted_norm_nonnegative, lemma_weighted_norm_positive,
    lemma_weighted_unit_norm_positive, m3_nonnegative_diagonal,
};
use crate::math::scalar::{
    fx_div, fx_mul, fx_recip, lemma_recip_sign, within, Scalar, SCALE, WORKING_RANGE,
};
use crate::math::vector::{
    m3_apply, v3_add, v3_cross, v3_dot, v3_dot_wide, v3_midpoint, v3_neg, v3_scale, v3_sub,
    v3_within, Vec3, V3,
};
use crate::object::rigid_body::RigidBody;
use crate::resolution::constraint::velocity_constraint::VelocityConstraint;

verus! {

/// Largest magnitude of a component of a rotation axis: the lever arm between
/// two points of the working range, crossed with a direction no longer than one.
pub const LEVER_RANGE: i64 = 4_000_000_000;

/// Largest magnitude of the velocity of one body relative to another along a
/// constraint direction, for bodies and a timestep in the working range.
pub const VELOCITY_RANGE: i64 = 24_030_006_000_000_000;

/// Largest magnitude of the mass that a pair accumulates along a direction,
/// for bodies and a contact in the working range. Its inverse is three fine
/// steps.
pub const MASS_RANGE: i64 = 288_000_006_000_000_000;

/// Number of friction constraints of a contact: the dimension of the tangent plane.
pub const FRICTION_AXES: usize = 2;

/// How penetration is traded against velocity.
#[derive(Clone, Copy, Debug, PartialEq, Eq)]
pub enum CorrectionMode {
    /// Correct penetration through the velocity alone, by the given factor.
    Velocity(Scalar),
    /// Velocity factor and position factor: both corrections apply at every
    /// depth. The third field is a threshold that this mode does not look at.
    VelocityAndPosition(Scalar, Scalar, Scalar),
    /// Velocity factor, position factor and a threshold: the velocity is
    /// corrected below that depth, the position from that depth on.
    VelocityAndPositionThresold(Scalar, Scalar, Scalar),
}

impl CorrectionMode {
    pub open spec fn spec_vel_corr_factor(&self) -> Scalar {
        match *self {
            CorrectionMode::Velocity(v) => v,
            CorrectionMode::VelocityAndPosition(v, _, _) => v,
            CorrectionMode::VelocityAndPositionThresold(v, _, _) => v,
        }
    }

    /// The factor of the velocity correction.
    #[verifier::when_used_as_spec(spec_vel_corr_factor)]
    pub fn vel_corr_factor(&self) -> (r: Scalar)
        ensures
            r == self.spec_vel_corr_factor(),
    {
        match *self {
            CorrectionMode::Velocity(v) => v,
            CorrectionMode::VelocityAndPosition(v, _, _) => v,
            CorrectionMode::VelocityAndPositionThresold(v, _, _) => v,
        }
    }

    pub open spec fn spec_pos_corr_factor(&self) -> Scalar {
        match *self {
            CorrectionMode::VelocityAndPosition(_, p, _) => p,
            CorrectionMode::VelocityAndPositionThresold(_, p, _) => p,
            CorrectionMode::Velocity(_) => Scalar { raw: 0 },
        }
    }

    /// The factor of the position correction; zero where the mode corrects
    /// the velocity alone.
    #[verifier::when_used_as_spec(spec_pos_corr_factor)]
    pub fn pos_corr_factor(&self) -> (r: Scalar)
        ensures
            r == self.spec_pos_corr_factor(),
    {
        match *self {
            CorrectionMode::VelocityAndPosition(_, p, _) => p,
            CorrectionMode::VelocityAndPositionThresold(_, p, _) => p,
            CorrectionMode::Velocity(_) => Scalar::zero(),
        }
    }

    pub open spec fn spec_min_depth_for_pos_corr(&self) -> Scalar {
        match *self {
            CorrectionMode::VelocityAndPosition(_, _, _) => Scalar { raw: i64::MIN },
            CorrectionMode::VelocityAndPositionThresold(_, _, t) => t,
            CorrectionMode::Velocity(_) => Scalar { raw: i64::MAX },
        }
    }

    /// The depth from which on the position is corrected: the smallest
    /// scalar where the position is always corrected, the threshold of the
    /// mode that has one, and the largest scalar where the mode corrects the
    /// velocity alone.
    #[verifier::when_used_as_spec(spec_min_depth_for_pos_corr)]
    pub fn min_depth_for_pos_corr(&self) -> (r: Scalar)
        ensures
            r == self.spec_min_depth_for_pos_corr(),
    {
        match *self {
            CorrectionMode::VelocityAndPosition(_, _, _) => Scalar::min_value(),
            CorrectionMode::VelocityAndPositionThresold(_, _, t) => t,
            CorrectionMode::Velocity(_) => Scalar::max_value(),
        }
    }

    pub open spec fn spec_max_depth_for_vel_corr(&self) -> Scalar {
        match *self {
            CorrectionMode::VelocityAndPosition(_, _, _) => Scalar { raw: i64::MAX },
            CorrectionMode::VelocityAndPositionThresold(_, _, t) => t,
            CorrectionMode::Velocity(_) => Scalar { raw: i64::MAX },
        }
    }

    /// The depth below which the velocity is corrected; the largest scalar
    /// for every mode but the one with a threshold.
    #[verifier::when_used_as_spec(spec_max_depth_for_vel_corr)]
    pub fn max_depth_for_vel_corr(&self) -> (r: Scalar)
        ensures
            r == self.spec_max_depth_for_vel_corr(),
    {
        match *self {
            CorrectionMode::VelocityAndPosition(_, _, _) => Scalar::max_value(),
            CorrectionMode::VelocityAndPositionThresold(_, _, t) => t,
            CorrectionMode::Velocity(_) => Scalar::max_value(),
        }
    }
}

/// What the caller chooses for one resolution pass.
#[derive(Clone, Copy, Debug, PartialEq, Eq)]
pub struct CorrectionParameters {
    pub corr_mode: CorrectionMode,
    /// Scale of the correction of joints; contacts do not look at it.
    pub joint_corr: Scalar,
    /// Closing speed beyond which a contact bounces.
    pub rest_eps: Scalar,
}

impl CorrectionParameters {
    pub fn new(corr_mode: CorrectionMode, joint_corr: Scalar, rest_eps: Scalar) -> (r:
        CorrectionParameters)
        ensures
            r.corr_mode == corr_mode,
            r.joint_corr == joint_corr,
            r.rest_eps == rest_eps,
    {
        CorrectionParameters { corr_mode, joint_corr, rest_eps }
    }

    /// Whether the two correction factors and the restitution threshold lie in
    /// the working range.
    pub open spec fn in_range(self) -> bool {
        &&& self.corr_mode.vel_corr_factor().bounded(WORKING_RANGE as int)
        &&& self.corr_mode.pos_corr_factor().bounded(WORKING_RANGE as int)
        &&& self.rest_eps.bounded(WORKING_RANGE as int)
    }

    /// Decides `in_range`.
    pub fn is_in_range(&self) -> (r: bool)
        ensures
            r == self.in_range(),
    {
        self.corr_mode.vel_corr_factor().is_bounded(WORKING_RANGE)
            && self.corr_mode.pos_corr_factor().is_bounded(WORKING_RANGE)
            && self.rest_eps.is_bounded(WORKING_RANGE)
    }
}

// ---------------------------------------------------------------------------
// What the equations are
// ---------------------------------------------------------------------------

/// The body as the equations see it: `None` for a body that cannot move.
pub open spec fn movable_part(rb: &RigidBody) -> Option<&RigidBody> {
    if rb.movable() {
        Some(rb)
    } else {
        None
    }
}

/// The rotation axis of a body for a constraint along `direction` that acts
/// at `center`: the lever arm from its center of mass, crossed with the
/// direction.
pub open spec fn lever_axis(center: V3, rb: &RigidBody, direction: V3) -> V3 {
    v3_cross(v3_sub(center, rb.center_of_mass@), direction)
}

/// What one body adds to the mass along a constraint direction: its inverse
/// mass along `normal` and its inverse inertia along `rot_axis`.
pub open spec fn body_projected_mass(normal: V3, rot_axis: V3, rb: &RigidBody) -> int {
    v3_dot(normal, v3_scale(normal, rb.inv_mass@))
        + v3_dot(rot_axis, m3_apply(rb.inv_inertia@, rot_axis))
}

/// The mass accumulated along a constraint direction, over the bodies that
/// are present.
pub open spec fn projected_mass(
    normal: V3,
    rot_axis1: V3,
    rot_axis2: V3,
    rb1: Option<&RigidBody>,
    rb2: Option<&RigidBody>,
) -> int {
    (match rb1 {
        Some(b) => body_projected_mass(normal, rot_axis1, b),
        None => 0,
    }) + (match rb2 {
        Some(b) => body_projected_mass(normal, rot_axis2, b),
        None => 0,
    })
}

/// The mass that a pair of bodies accumulates along `normal` for a
/// constraint that acts at `center`. Only bodies that can move count.
pub open spec fn pair_projected_mass(normal: V3, center: V3, rb1: &RigidBody, rb2: &RigidBody) -> int {
    projected_mass(
        normal,
        lever_axis(center, rb1, v3_neg(normal)),
        lever_axis(center, rb2, normal),
        movable_part(rb1),
        movable_part(rb2),
    )
}

/// Velocity of a body one timestep ahead, from its velocity and acceleration now.
pub open spec fn velocity_ahead(vel: V3, acc: V3, dt: int) -> V3 {
    v3_add(vel, v3_scale(acc, dt))
}

/// The velocity of one body along a constraint direction, one timestep ahead.
/// `sign` is `-1` for the first body of a pair and `1` for the second.
pub open spec fn body_velocity_along(rb: &RigidBody, sign: int, normal: V3, rot_axis: V3, dt: int) -> int {
    sign * v3_dot(velocity_ahead(rb.lin_vel@, rb.lin_acc@, dt), normal)
        + v3_dot(velocity_ahead(rb.ang_vel@, rb.ang_acc@, dt), rot_axis)
}

/// The velocity of the second body relative to the first along a constraint
/// direction, one timestep ahead, over the bodies that are present.
pub open spec fn relative_velocity_along(
    rb1: Option<&RigidBody>,
    rb2: Option<&RigidBody>,
    normal: V3,
    rot_axis1: V3,
    rot_axis2: V3,
    dt: int,
) -> int {
    (match rb1 {
        Some(b) => body_velocity_along(b, -1, normal, rot_axis1, dt),
        None => 0,
    }) + (match rb2 {
        Some(b) => body_velocity_along(b, 1, normal, rot_axis2, dt),
        None => 0,
    })
}

/// The relative velocity after the bounce: a closing speed beyond the
/// threshold `rest_eps` grows by the restitution.
pub open spec fn bounce(dvel: int, restitution: int, rest_eps: int) -> int {
    if dvel < -rest_eps {
        dvel + fx_mul(restitution, dvel)
    } else {
        dvel
    }
}

/// What the depth of a contact adds to the objective: the depth over the
/// timestep where the bodies are apart, the depth times the velocity factor
/// over the timestep where they overlap by less than the mode's limit, and
/// nothing beyond.
pub open spec fn penetration_bias(dt: int, depth: int, mode: CorrectionMode) -> int {
    if depth < 0 {
        fx_div(depth, dt)
    } else if depth < mode.max_depth_for_vel_corr()@ {
        fx_div(fx_mul(depth, mode.vel_corr_factor()@), dt)
    } else {
        0
    }
}

/// The objective of a velocity constraint: the negated relative velocity
/// after the bounce, plus the penetration bias.
pub open spec fn second_order_objective(
    dvel: int,
    restitution: int,
    depth: int,
    dt: int,
    correction: &CorrectionParameters,
) -> int {
    -bounce(dvel, restitution, correction.rest_eps@) + penetration_bias(dt, depth, correction.corr_mode)
}

/// The objective of a position-correction pass: the position factor times the
/// depth over the timestep from the mode's depth on, and zero below it.
pub open spec fn first_order_objective(dt: int, depth: int, mode: CorrectionMode) -> int {
    if depth >= mode.min_depth_for_pos_corr()@ {
        fx_div(fx_mul(mode.pos_corr_factor()@, if depth >= 0 { depth } else { 0 }), dt)
    } else {
        0
    }
}

/// The impulse that the solver starts from: the cached one while the bodies
/// touch, zero once they are apart.
pub open spec fn warm_start_impulse(depth: int, cached: int) -> int {
    if depth < 0 {
        0
    } else {
        cached
    }
}

/// The three fields of a constraint that belong to one body are those of
/// `before`, or, where the body is present, its share of the direction
/// `normal`: weighted normal, rotation axis and weighted rotation axis.
pub open spec fn body_geometry_filled(
    before: (Vec3, Vec3, Vec3),
    after: (Vec3, Vec3, Vec3),
    normal: V3,
    rot_axis: V3,
    rb: Option<&RigidBody>,
) -> bool {
    match rb {
        Some(b) => {
            &&& after.0@ == v3_scale(normal, b.inv_mass@)
            &&& after.1@ == rot_axis
            &&& after.2@ == m3_apply(b.inv_inertia@, rot_axis)
        },
        None => after == before,
    }
}

/// The direction of `after`, the fields of the bodies that are present and
/// the inverse of the accumulated mass are those of the direction `normal`;
/// the fields of an absent body are those of `before`.
pub open spec fn direction_filled(
    before: VelocityConstraint,
    after: VelocityConstraint,
    normal: V3,
    rot_axis1: V3,
    rot_axis2: V3,
    rb1: Option<&RigidBody>,
    rb2: Option<&RigidBody>,
) -> bool {
    &&& after.normal@ == normal
    &&& body_geometry_filled(
        (before.weighted_normal1, before.rot_axis1, before.weighted_rot_axis1),
        (after.weighted_normal1, after.rot_axis1, after.weighted_rot_axis1),
        normal,
        rot_axis1,
        rb1,
    )
    &&& body_geometry_filled(
        (before.weighted_normal2, before.rot_axis2, before.weighted_rot_axis2),
        (after.weighted_normal2, after.rot_axis2, after.weighted_rot_axis2),
        normal,
        rot_axis2,
        rb2,
    )
    &&& after.inv_projected_mass@ == fx_recip(projected_mass(normal, rot_axis1, rot_axis2, rb1, rb2))
}

/// `after` is `before` with the geometry of the direction `normal` filled
/// in: nothing else has changed.
pub open spec fn geometry_filled(
    before: VelocityConstraint,
    after: VelocityConstraint,
    normal: V3,
    rot_axis1: V3,
    rot_axis2: V3,
    rb1: Option<&RigidBody>,
    rb2: Option<&RigidBody>,
) -> bool {
    &&& direction_filled(before, after, normal, rot_axis1, rot_axis2, rb1, rb2)
    &&& after.objective == before.objective
    &&& after.impulse == before.impulse
    &&& after.lobound == before.lobound
    &&& after.hibound == before.hibound
    &&& after.id1 == before.id1
    &&& after.id2 == before.id2
    &&& after.friction_coeff == before.friction_coeff
    &&& after.friction_limit_id == before.friction_limit_id
}

/// `after` holds the equation of a constraint along `normal` that acts at
/// `center` between `rb1` and `rb2`: geometry, body slots, objective, impulse
/// and bounds. The geometry fields of a body that cannot move are those of
/// `before`. Nothing is said of the two friction fields.
pub open spec fn equation_filled(
    before: VelocityConstraint,
    after: VelocityConstraint,
    dt: int,
    normal: V3,
    center: V3,
    restitution: int,
    depth: int,
    initial_impulse: int,
    lobound: int,
    hibound: int,
    rb1: &RigidBody,
    rb2: &RigidBody,
    correction: &CorrectionParameters,
) -> bool {
    let rot_axis1 = lever_axis(center, rb1, v3_neg(normal));
    let rot_axis2 = lever_axis(center, rb2, normal);
    let dvel = relative_velocity_along(
        movable_part(rb1),
        movable_part(rb2),
        normal,
        rot_axis1,
        rot_axis2,
        dt,
    );
    &&& direction_filled(
        before,
        after,
        normal,
        rot_axis1,
        rot_axis2,
        movable_part(rb1),
        movable_part(rb2),
    )
    &&& after.id1 == rb1.index
    &&& after.id2 == rb2.index
    &&& after.objective@ == second_order_objective(dvel, restitution, depth, dt, correction)
    &&& after.impulse@ == warm_start_impulse(depth, initial_impulse)
    &&& after.lobound@ == lobound
    &&& after.hibound@ == hibound
}

/// The point at which the constraints of a contact act: halfway between its
/// two contact points.
pub open spec fn contact_center(coll: &Contact) -> V3 {
    v3_midpoint(coll.world1@, coll.world2@)
}

/// `after` is the normal constraint of the contact `coll` between `rb1` and
/// `rb2`: along the contact normal, with the restitution of the pair and the
/// depth of the contact, warm-started from `cached`, and bounded by zero
/// below and not at all above. The friction fields are those of `before`.
pub open spec fn normal_constraint_filled(
    before: VelocityConstraint,
    after: VelocityConstraint,
    dt: int,
    coll: &Contact,
    cached: int,
    rb1: &RigidBody,
    rb2: &RigidBody,
    correction: &CorrectionParameters,
) -> bool {
    &&& equation_filled(
        before,
        after,
        dt,
        coll.normal@,
        contact_center(coll),
        fx_mul(rb1.restitution@, rb2.restitution@),
        coll.depth@,
        cached,
        0,
        i64::MAX as int,
        rb1,
        rb2,
        correction,
    )
    &&& after.friction_coeff == before.friction_coeff
    &&& after.friction_limit_id == before.friction_limit_id
}

/// `after` is a friction constraint of the contact `coll` along `axis`:
/// without restitution and without depth, warm-started from `cached`, with
/// both bounds zero, the friction of the pair, and `idr` as the slot of the
/// normal constraint that limits it.
pub open spec fn friction_constraint_filled(
    before: VelocityConstraint,
    after: VelocityConstraint,
    dt: int,
    coll: &Contact,
    axis: V3,
    cached: int,
    idr: usize,
    rb1: &RigidBody,
    rb2: &RigidBody,
    correction: &CorrectionParameters,
) -> bool {
    &&& equation_filled(
        before,
        after,
        dt,
        axis,
        contact_center(coll),
        0,
        0,
        cached,
        0,
        0,
        rb1,
        rb2,
        correction,
    )
    &&& after.friction_coeff@ == fx_mul(rb1.friction@, rb2.friction@)
    &&& after.friction_limit_id == idr
}

/// The equations of the contact `coll` stand in `normal_after` and, one for
/// each friction axis, in the slots of `friction_after` from `idf` on; the
/// other slots are those of `friction_before`. `cache` holds the impulse
/// that the normal constraint starts from, then those of the friction
/// constraints.
pub open spec fn second_order_filled(
    normal_before: VelocityConstraint,
    normal_after: VelocityConstraint,
    friction_before: Seq<VelocityConstraint>,
    friction_after: Seq<VelocityConstraint>,
    dt: int,
    coll: &Contact,
    rb1: &RigidBody,
    rb2: &RigidBody,
    idr: usize,
    idf: int,
    cache: Seq<Scalar>,
    correction: &CorrectionParameters,
    friction_axes: Seq<Vec3>,
) -> bool {
    &&& normal_constraint_filled(normal_before, normal_after, dt, coll, cache[0]@, rb1, rb2, correction)
    &&& friction_after.len() == friction_before.len()
    &&& forall|j: int|
        0 <= j < friction_before.len() && !(idf <= j < idf + friction_axes.len())
            ==> #[trigger] friction_after[j] == friction_before[j]
    &&& forall|j: int|
        idf <= j < idf + friction_axes.len() ==> friction_constraint_filled(
            friction_before[j],
            #[trigger] friction_after[j],
            dt,
            coll,
            friction_axes[j - idf]@,
            cache[j - idf + 1]@,
            idr,
            rb1,
            rb2,
            correction,
        )
}

/// Whether the equations of the contact `coll` between `rb1` and `rb2` can
/// be written down: every quantity lies in its range, the timestep is not
/// zero, and the mass of the pair along the normal and along each friction
/// axis is positive.
pub open spec fn contact_solvable(
    dt: Scalar,
    coll: &Contact,
    rb1: &RigidBody,
    rb2: &RigidBody,
    correction: &CorrectionParameters,
    friction_axes: Seq<Vec3>,
) -> bool {
    &&& dt@ != 0
    &&& dt.bounded(WORKING_RANGE as int)
    &&& coll.in_range()
    &&& rb1.in_range()
    &&& rb2.in_range()
    &&& correction.in_range()
    &&& pair_projected_mass(coll.normal@, contact_center(coll), rb1, rb2) > 0
    &&& forall|i: int|
        0 <= i < friction_axes.len() ==> {
            &&& (#[trigger] friction_axes[i]).bounded(SCALE as int)
            &&& pair_projected_mass(friction_axes[i]@, contact_center(coll), rb1, rb2) > 0
        }
}

// ---------------------------------------------------------------------------
// Filling them
// ---------------------------------------------------------------------------

/// Resets a constraint for a position-correction pass: the objective is
/// computed from the depth alone and the impulse starts from zero. The
/// geometry of the constraint stays as it is.
pub fn reinit_to_first_order_equation(
    dt: Scalar,
    coll: &Contact,
    constraint: &mut VelocityConstraint,
    correction: &CorrectionParameters,
)
    requires
        dt@ != 0,
        coll.depth.bounded(WORKING_RANGE as int),
        correction.in_range(),
    ensures
        final(constraint).objective@ == first_order_objective(dt@, coll.depth@, correction.corr_mode),
        final(constraint).impulse@ == 0,
        *final(constraint) == (VelocityConstraint {
            objective: final(constraint).objective,
            impulse: final(constraint).impulse,
            ..*old(constraint)
        }),
{
    if coll.depth.raw >= correction.corr_mode.min_depth_for_pos_corr().raw {
        let factor = correction.corr_mode.pos_corr_factor();
        let depth = coll.depth.max(Scalar::zero());
        proof {
            let range = WORKING_RANGE as int;
            lemma_fx_mul_within(factor@, depth@, range, range, 1_000_000_000_000);
            lemma_fx_div_within(fx_mul(factor@, depth@), dt@, 1_000_000_000_000);
        }
        constraint.objective = factor.mul(depth).div(dt);
    } else {
        constraint.objective = Scalar::zero();
    }
    constraint.impulse = Scalar::zero();
}

/// How far the share of one body in a constraint direction can lie from
/// zero: its weighted normal, its weighted rotation axis, the two terms of
/// its mass and their sum.
pub proof fn lemma_body_mass_within(normal: V3, rot_axis: V3, rb: &RigidBody)
    requires
        v3_within(normal, SCALE as int),
        v3_within(rot_axis, LEVER_RANGE as int),
        rb.in_range(),
    ensures
        v3_within(v3_scale(normal, rb.inv_mass@), WORKING_RANGE as int),
        v3_within(m3_apply(rb.inv_inertia@, rot_axis), 12_000_000_000_000),
        within(v3_dot(normal, v3_scale(normal, rb.inv_mass@)), 3_000_000_000),
        within(v3_dot(rot_axis, m3_apply(rb.inv_inertia@, rot_axis)), 144_000_000_000_000_000),
        within(body_projected_mass(normal, rot_axis, rb), 144_000_003_000_000_000),
{
    let unit = SCALE as int;
    let range = WORKING_RANGE as int;
    let lever = LEVER_RANGE as int;
    let weighted_normal = v3_scale(normal, rb.inv_mass@);
    let weighted_rot_axis = m3_apply(rb.inv_inertia@, rot_axis);
    lemma_scale_within(normal, rb.inv_mass@, unit, range, range);
    lemma_apply_within(rb.inv_inertia@, rot_axis, range, lever, 12_000_000_000_000);
    lemma_dot_within(normal, weighted_normal, unit, range, 3_000_000_000);
    lemma_dot_within(rot_axis, weighted_rot_axis, lever, 12_000_000_000_000, 144_000_000_000_000_000);
}

/// The rotation axes of bodies in the working range, for a constraint that
/// acts at a point of the working range along a direction no longer than
/// one, lie in the lever range.
pub proof fn lemma_lever_axes_within(normal: V3, center: V3, rb1: &RigidBody, rb2: &RigidBody)
    requires
        v3_within(normal, SCALE as int),
        v3_within(center, WORKING_RANGE as int),
        rb1.in_range(),
        rb2.in_range(),
    ensures
        v3_within(lever_axis(center, rb1, v3_neg(normal)), LEVER_RANGE as int),
        v3_within(lever_axis(center, rb2, normal), LEVER_RANGE as int),
{
    let unit = SCALE as int;
    let lever = LEVER_RANGE as int;
    let arm1 = v3_sub(center, rb1.center_of_mass@);
    let arm2 = v3_sub(center, rb2.center_of_mass@);
    lemma_cross_within(arm1, v3_neg(normal), 2_000_000_000, unit, lever);
    lemma_cross_within(arm2, normal, 2_000_000_000, unit, lever);
}

/// The mass that a pair in the working range accumulates along a direction
/// no longer than one lies in the mass range.
pub proof fn lemma_pair_mass_within(normal: V3, center: V3, rb1: &RigidBody, rb2: &RigidBody)
    requires
        v3_within(normal, SCALE as int),
        v3_within(center, WORKING_RANGE as int),
        rb1.in_range(),
        rb2.in_range(),
    ensures
        within(pair_projected_mass(normal, center, rb1, rb2), MASS_RANGE as int),
{
    lemma_lever_axes_within(normal, center, rb1, rb2);
    lemma_body_mass_within(normal, lever_axis(center, rb1, v3_neg(normal)), rb1);
    lemma_body_mass_within(normal, lever_axis(center, rb2, normal), rb2);
}

/// The share of one body in a constraint direction: the weighted normal, the
/// weighted rotation axis and the mass along the direction.
fn body_geometry(normal: &Vec3, rot_axis: &Vec3, rb: &RigidBody) -> (r: (Vec3, Vec3, Scalar))
    requires
        normal.bounded(SCALE as int),
        rot_axis.bounded(LEVER_RANGE as int),
        rb.in_range(),
    ensures
        r.0@ == v3_scale(normal@, rb.inv_mass@),
        r.1@ == m3_apply(rb.inv_inertia@, rot_axis@),
        r.2@ == body_projected_mass(normal@, rot_axis@, rb),
        r.2.bounded(144_000_003_000_000_000),
{
    proof {
        lemma_body_mass_within(normal@, rot_axis@, rb);
    }
    let weighted_normal = normal.scale(rb.inv_mass);
    let weighted_rot_axis = rb.inv_inertia.apply(rot_axis);
    let mass = normal.dot(&weighted_normal).add(rot_axis.dot(&weighted_rot_axis));
    (weighted_normal, weighted_rot_axis, mass)
}

/// Fills the geometry of a constraint along `normal`: for each body that is
/// present its weighted normal, rotation axis and weighted rotation axis, and
/// the inverse of the mass accumulated along the direction. The inverse is
/// never zero: it is positive where the mass is.
pub fn fill_constraint_geometry(
    normal: Vec3,
    rot_axis1: Vec3,
    rot_axis2: Vec3,
    rb1: Option<&RigidBody>,
    rb2: Option<&RigidBody>,
    constraint: &mut VelocityConstraint,
)
    requires
        normal.bounded(SCALE as int),
        rot_axis1.bounded(LEVER_RANGE as int),
        rot_axis2.bounded(LEVER_RANGE as int),
        rb1 matches Some(b) ==> b.in_range(),
        rb2 matches Some(b) ==> b.in_range(),
        projected_mass(normal@, rot_axis1@, rot_axis2@, rb1, rb2) != 0,
    ensures
        geometry_filled(*old(constraint), *final(constraint), normal@, rot_axis1@, rot_axis2@, rb1, rb2),
        final(constraint).inv_projected_mass@ != 0,
        final(constraint).inv_projected_mass@ > 0 <==> projected_mass(
            normal@,
            rot_axis1@,
            rot_axis2@,
            rb1,
            rb2,
        ) > 0,
{
    constraint.normal = normal;
    let mut mass = Scalar::zero();
    match rb1 {
        Some(rb) => {
            let (weighted_normal, weighted_rot_axis, share) = body_geometry(&normal, &rot_axis1, rb);
            constraint.weighted_normal1 = weighted_normal;
            constraint.rot_axis1 = rot_axis1;
            constraint.weighted_rot_axis1 = weighted_rot_axis;
            mass = mass.add(share);
        },
        None => {},
    }
    match rb2 {
        Some(rb) => {
            let (weighted_normal, weighted_rot_axis, share) = body_geometry(&normal, &rot_axis2, rb);
            constraint.weighted_normal2 = weighted_normal;
            constraint.rot_axis2 = rot_axis2;
            constraint.weighted_rot_axis2 = weighted_rot_axis;
            mass = mass.add(share);
        },
        None => {},
    }
    proof {
        lemma_recip_sign(mass@);
    }
    constraint.inv_projected_mass = mass.recip();
}

/// The two terms of the velocity of one body along a constraint direction:
/// the linear one, unsigned, and the angular one.
fn body_velocity_terms(rb: &RigidBody, normal: &Vec3, rot_axis: &Vec3, dt: Scalar) -> (r: (Scalar, Scalar))
    requires
        rb.in_range(),
        normal.bounded(SCALE as int),
        rot_axis.bounded(LEVER_RANGE as int),
        dt.bounded(WORKING_RANGE as int),
    ensures
        r.0@ == v3_dot(velocity_ahead(rb.lin_vel@, rb.lin_acc@, dt@), normal@),
        r.1@ == v3_dot(velocity_ahead(rb.ang_vel@, rb.ang_acc@, dt@), rot_axis@),
        r.0.bounded(3_003_000_000_000),
        r.1.bounded(12_012_000_000_000_000),
{
    proof {
        let unit = SCALE as int;
        let range = WORKING_RANGE as int;
        let lever = LEVER_RANGE as int;
        let lin = velocity_ahead(rb.lin_vel@, rb.lin_acc@, dt@);
        let ang = velocity_ahead(rb.ang_vel@, rb.ang_acc@, dt@);
        lemma_scale_within(rb.lin_acc@, dt@, range, range, 1_000_000_000_000);
        lemma_scale_within(rb.ang_acc@, dt@, range, range, 1_000_000_000_000);
        lemma_dot_within(lin, normal@, 1_001_000_000_000, unit, 3_003_000_000_000);
        lemma_dot_within(ang, rot_axis@, 1_001_000_000_000, lever, 12_012_000_000_000_000);
    }
    let lin = rb.lin_vel.add(&rb.lin_acc.scale(dt));
    let ang = rb.ang_vel.add(&rb.ang_acc.scale(dt));
    (lin.dot(normal), ang.dot(rot_axis))
}

/// The velocity of the second body relative to the first along `normal`, one
/// timestep ahead. A body that is absent counts as at rest.
pub fn relative_velocity(
    rb1: Option<&RigidBody>,
    rb2: Option<&RigidBody>,
    normal: &Vec3,
    rot_axis1: &Vec3,
    rot_axis2: &Vec3,
    dt: &Scalar,
) -> (dvel: Scalar)
    requires
        rb1 matches Some(b) ==> b.in_range(),
        rb2 matches Some(b) ==> b.in_range(),
        normal.bounded(SCALE as int),
        rot_axis1.bounded(LEVER_RANGE as int),
        rot_axis2.bounded(LEVER_RANGE as int),
        dt.bounded(WORKING_RANGE as int),
    ensures
        dvel@ == relative_velocity_along(rb1, rb2, normal@, rot_axis1@, rot_axis2@, dt@),
        dvel.bounded(VELOCITY_RANGE as int),
{
    let mut dvel = Scalar::zero();
    match rb1 {
        Some(rb) => {
            let (lin, ang) = body_velocity_terms(rb, normal, rot_axis1, *dt);
            dvel = dvel.sub(lin).add(ang);
        },
        None => {},
    }
    match rb2 {
        Some(rb) => {
            let (lin, ang) = body_velocity_terms(rb, normal, rot_axis2, *dt);
            dvel = dvel.add(lin).add(ang);
        },
        None => {},
    }
    dvel
}

/// The rotation axes of the two bodies of a pair for a constraint along
/// `normal` that acts at `center`.
fn lever_axes(normal: &Vec3, center: &Vec3, rb1: &RigidBody, rb2: &RigidBody) -> (r: (Vec3, Vec3))
    requires
        normal.bounded(SCALE as int),
        center.bounded(WORKING_RANGE as int),
        rb1.in_range(),
        rb2.in_range(),
    ensures
        r.0@ == lever_axis(center@, rb1, v3_neg(normal@)),
        r.1@ == lever_axis(center@, rb2, normal@),
        r.0.bounded(LEVER_RANGE as int),
        r.1.bounded(LEVER_RANGE as int),
{
    proof {
        lemma_lever_axes_within(normal@, center@, rb1, rb2);
    }
    let rot_axis1 = center.sub(&rb1.center_of_mass).cross(&normal.neg());
    let rot_axis2 = center.sub(&rb2.center_of_mass).cross(normal);
    (rot_axis1, rot_axis2)
}

/// Fills every field of a constraint but the two friction fields.
fn fill_velocity_constraint(
    dt: Scalar,
    normal: Vec3,
    center: Vec3,
    restitution: Scalar,
    depth: Scalar,
    initial_impulse: Scalar,
    lobound: Scalar,
    hibound: Scalar,
    rb1: &RigidBody,
    rb2: &RigidBody,
    constraint: &mut VelocityConstraint,
    correction: &CorrectionParameters,
)
    requires
        dt@ != 0,
        dt.bounded(WORKING_RANGE as int),
        normal.bounded(SCALE as int),
        center.bounded(WORKING_RANGE as int),
        restitution.bounded(SCALE as int),
        depth.bounded(WORKING_RANGE as int),
        rb1.in_range(),
        rb2.in_range(),
        correction.in_range(),
        pair_projected_mass(normal@, center@, rb1, rb2) > 0,
    ensures
        final(constraint).inv_projected_mass@ > 0,
        equation_filled(
            *old(constraint),
            *final(constraint),
            dt@,
            normal@,
            center@,
            restitution@,
            depth@,
            initial_impulse@,
            lobound@,
            hibound@,
            rb1,
            rb2,
            correction,
        ),
        final(constraint).friction_coeff == old(constraint).friction_coeff,
        final(constraint).friction_limit_id == old(constraint).friction_limit_id,
{
    let (rot_axis1, rot_axis2) = lever_axes(&normal, &center, rb1, rb2);

    let opt_rb1 = if rb1.can_move() {
        Some(rb1)
    } else {
        None
    };
    let opt_rb2 = if rb2.can_move() {
        Some(rb2)
    } else {
        None
    };
    fill_constraint_geometry(normal, rot_axis1, rot_axis2, opt_rb1, opt_rb2, constraint);

    constraint.id1 = rb1.index();
    constraint.id2 = rb2.index();

    let mut objective = relative_velocity(opt_rb1, opt_rb2, &normal, &rot_axis1, &rot_axis2, &dt);
    if objective.raw < -correction.rest_eps.raw {
        proof {
            let range = VELOCITY_RANGE as int;
            lemma_fx_mul_within(restitution@, objective@, SCALE as int, range, range);
        }
        objective = objective.add(restitution.mul(objective));
    }
    objective = objective.neg();

    if depth.raw < 0 {
        proof {
            lemma_fx_div_within(depth@, dt@, WORKING_RANGE as int);
        }
        objective = objective.add(depth.div(dt));
    } else if depth.raw < correction.corr_mode.max_depth_for_vel_corr().raw {
        let factor = correction.corr_mode.vel_corr_factor();
        proof {
            let range = WORKING_RANGE as int;
            lemma_fx_mul_within(depth@, factor@, range, range, 1_000_000_000_000);
            lemma_fx_div_within(fx_mul(depth@, factor@), dt@, 1_000_000_000_000);
        }
        objective = objective.add(depth.mul(factor).div(dt));
    }
    constraint.objective = objective;

    constraint.impulse = if depth.raw < 0 {
        Scalar::zero()
    } else {
        initial_impulse
    };

    constraint.lobound = lobound;
    constraint.hibound = hibound;
}

/// Fills the equations of one contact: the normal constraint in
/// `rconstraint`, and one friction constraint for each axis of
/// `friction_axes` in `fconstraints`, from slot `idf` on.
///
/// `friction_axes` spans the plane perpendicular to the contact normal.
/// `cache` holds the impulses of the previous step: first that of the normal
/// constraint, then those of the friction constraints. `idr` is the slot of
/// `rconstraint` among the normal constraints of the pass.
///
/// The normal constraint may push and never pull: its impulse is bounded by
/// zero below and by nothing above. It starts from the cached impulse while
/// the bodies touch and from zero once they are apart. The inverse of the
/// projected mass is positive in every constraint that is filled.
pub fn fill_second_order_equation(
    dt: Scalar,
    coll: &Contact,
    rb1: &RigidBody,
    rb2: &RigidBody,
    rconstraint: &mut VelocityConstraint,
    idr: usize,
    fconstraints: &mut [VelocityConstraint],
    idf: usize,
    cache: &[Scalar],
    correction: &CorrectionParameters,
    friction_axes: &[Vec3],
)
    requires
        friction_axes.len() == FRICTION_AXES,
        idf + FRICTION_AXES <= old(fconstraints).len(),
        cache.len() > FRICTION_AXES,
        contact_solvable(dt, coll, rb1, rb2, correction, friction_axes@),
    ensures
        second_order_filled(
            *old(rconstraint),
            *final(rconstraint),
            old(fconstraints)@,
            final(fconstraints)@,
            dt@,
            coll,
            rb1,
            rb2,
            idr,
            idf as int,
            cache@,
            correction,
            friction_axes@,
        ),
        final(rconstraint).lobound@ == 0,
        final(rconstraint).hibound@ == i64::MAX,
        coll.depth@ < 0 ==> final(rconstraint).impulse@ == 0,
        coll.depth@ >= 0 ==> final(rconstraint).impulse == cache[0],
        final(rconstraint).inv_projected_mass@ > 0,
        forall|j: int|
            idf <= j < idf + FRICTION_AXES ==> (#[trigger] final(fconstraints)[j]).inv_projected_mass@
                > 0,
{
    proof {
        let unit = SCALE as int;
        let range = WORKING_RANGE as int;
        lemma_fx_mul_within(rb1.restitution@, rb2.restitution@, unit, unit, unit);
        lemma_fx_mul_within(rb1.friction@, rb2.friction@, range, range, 1_000_000_000_000);
    }
    let restitution = rb1.restitution.mul(rb2.restitution);
    let center = coll.world1.midpoint(&coll.world2);

    fill_velocity_constraint(
        dt,
        coll.normal,
        center,
        restitution,
        coll.depth,
        cache[0],
        Scalar::zero(),
        Scalar::max_value(),
        rb1,
        rb2,
        rconstraint,
        correction,
    );

    let friction = rb1.friction.mul(rb2.friction);

    let mut i: usize = 0;
    while i < FRICTION_AXES
        invariant
            i <= FRICTION_AXES,
            friction_axes.len() == FRICTION_AXES,
            cache.len() > FRICTION_AXES,
            idf + FRICTION_AXES <= old(fconstraints).len(),
            fconstraints.len() == old(fconstraints).len(),
            contact_solvable(dt, coll, rb1, rb2, correction, friction_axes@),
            center@ == contact_center(coll),
            center.bounded(WORKING_RANGE as int),
            friction@ == fx_mul(rb1.friction@, rb2.friction@),
            forall|j: int|
                0 <= j < old(fconstraints).len() && !(idf <= j < idf + i)
                    ==> fconstraints[j] == old(fconstraints)[j],
            forall|k: int| idf <= k < idf + i ==> (#[trigger] fconstraints[k]).inv_projected_mass@ > 0,
            forall|k: int|
                idf <= k < idf + i ==> friction_constraint_filled(
                    old(fconstraints)[k],
                    #[trigger] fconstraints[k],
                    dt@,
                    coll,
                    friction_axes[k - idf]@,
                    cache[k - idf + 1]@,
                    idr,
                    rb1,
                    rb2,
                    correction,
                ),
        decreases FRICTION_AXES - i,
    {
        let mut constraint = fconstraints[idf + i];
        fill_velocity_constraint(
            dt,
            friction_axes[i],
            center,
            Scalar::zero(),
            Scalar::zero(),
            cache[i + 1],
            Scalar::zero(),
            Scalar::zero(),
            rb1,
            rb2,
            &mut constraint,
            correction,
        );
        constraint.friction_coeff = friction;
        constraint.friction_limit_id = idr;
        fconstraints[idf + i] = constraint;
        i = i + 1;
    }
}

/// The mass that a pair of bodies accumulates along `normal` for a
/// constraint that acts at `center`.
pub fn projected_mass_of_pair(normal: &Vec3, center: &Vec3, rb1: &RigidBody, rb2: &RigidBody) -> (mass: Scalar)
    requires
        normal.bounded(SCALE as int),
        center.bounded(WORKING_RANGE as int),
        rb1.in_range(),
        rb2.in_range(),
    ensures
        mass@ == pair_projected_mass(normal@, center@, rb1, rb2),
{
    let (rot_axis1, rot_axis2) = lever_axes(normal, center, rb1, rb2);
    let mut mass = Scalar::zero();
    if rb1.can_move() {
        let (_, _, share) = body_geometry(normal, &rot_axis1, rb1);
        mass = mass.add(share);
    }
    if rb2.can_move() {
        let (_, _, share) = body_geometry(normal, &rot_axis2, rb2);
        mass = mass.add(share);
    }
    mass
}

/// Decides `contact_solvable`.
pub fn contact_is_solvable(
    dt: Scalar,
    coll: &Contact,
    rb1: &RigidBody,
    rb2: &RigidBody,
    correction: &CorrectionParameters,
    friction_axes: &[Vec3],
) -> (r: bool)
    ensures
        r == contact_solvable(dt, coll, rb1, rb2, correction, friction_axes@),
{
    if dt.raw == 0 || !dt.is_bounded(WORKING_RANGE) || !coll.is_in_range() || !rb1.is_in_range()
        || !rb2.is_in_range() || !correction.is_in_range() {
        return false;
    }
    let center = coll.world1.midpoint(&coll.world2);
    if projected_mass_of_pair(&coll.normal, &center, rb1, rb2).raw <= 0 {
        return false;
    }
    let mut i: usize = 0;
    while i < friction_axes.len()
        invariant
            i <= friction_axes.len(),
            rb1.in_range(),
            rb2.in_range(),
            center@ == contact_center(coll),
            center.bounded(WORKING_RANGE as int),
            forall|k: int|
                0 <= k < i ==> {
                    &&& (#[trigger] friction_axes[k]).bounded(SCALE as int)
                    &&& pair_projected_mass(friction_axes[k]@, contact_center(coll), rb1, rb2) > 0
                },
        decreases friction_axes.len() - i,
    {
        let axis = &friction_axes[i];
        if !axis.is_bounded(SCALE) {
            return false;
        }
        if projected_mass_of_pair(axis, &center, rb1, rb2).raw <= 0 {
            return false;
        }
        i = i + 1;
    }
    true
}

/// Fills the equations of one contact as `fill_second_order_equation` does,
/// where they can be written down and the slots exist; else leaves
/// everything as it is. Returns whether the equations were filled.
pub fn try_fill_second_order_equation(
    dt: Scalar,
    coll: &Contact,
    rb1: &RigidBody,
    rb2: &RigidBody,
    rconstraint: &mut VelocityConstraint,
    idr: usize,
    fconstraints: &mut [VelocityConstraint],
    idf: usize,
    cache: &[Scalar],
    correction: &CorrectionParameters,
    friction_axes: &[Vec3],
) -> (filled: bool)
    ensures
        filled == {
            &&& friction_axes.len() == FRICTION_AXES
            &&& idf + FRICTION_AXES <= old(fconstraints).len()
            &&& cache.len() > FRICTION_AXES
            &&& contact_solvable(dt, coll, rb1, rb2, correction, friction_axes@)
        },
        filled ==> second_order_filled(
            *old(rconstraint),
            *final(rconstraint),
            old(fconstraints)@,
            final(fconstraints)@,
            dt@,
            coll,
            rb1,
            rb2,
            idr,
            idf as int,
            cache@,
            correction,
            friction_axes@,
        ),
        filled ==> final(rconstraint).inv_projected_mass@ > 0,
        filled ==> forall|j: int|
            idf <= j < idf + FRICTION_AXES ==> (#[trigger] final(fconstraints)[j]).inv_projected_mass@
                > 0,
        !filled ==> *final(rconstraint) == *old(rconstraint),
        !filled ==> final(fconstraints)@ == old(fconstraints)@,
{
    if friction_axes.len() != FRICTION_AXES || cache.len() <= FRICTION_AXES {
        return false;
    }
    if fconstraints.len() < FRICTION_AXES || idf > fconstraints.len() - FRICTION_AXES {
        return false;
    }
    if !contact_is_solvable(dt, coll, rb1, rb2, correction, friction_axes) {
        return false;
    }
    fill_second_order_equation(
        dt,
        coll,
        rb1,
        rb2,
        rconstraint,
        idr,
        fconstraints,
        idf,
        cache,
        correction,
        friction_axes,
    );
    true
}

// ---------------------------------------------------------------------------
// What holds of them
// ---------------------------------------------------------------------------

/// The friction constraints of a contact are between the bodies of its
/// normal constraint, and each names the slot of that constraint as its limit.
pub proof fn lemma_friction_follows_normal(
    normal_before: VelocityConstraint,
    normal_after: VelocityConstraint,
    friction_before: Seq<VelocityConstraint>,
    friction_after: Seq<VelocityConstraint>,
    dt: int,
    coll: &Contact,
    rb1: &RigidBody,
    rb2: &RigidBody,
    idr: usize,
    idf: int,
    cache: Seq<Scalar>,
    correction: &CorrectionParameters,
    friction_axes: Seq<Vec3>,
    i: int,
)
    requires
        second_order_filled(
            normal_before,
            normal_after,
            friction_before,
            friction_after,
            dt,
            coll,
            rb1,
            rb2,
            idr,
            idf,
            cache,
            correction,
            friction_axes,
        ),
        0 <= i < friction_axes.len(),
    ensures
        friction_after[idf + i].id1 == normal_after.id1,
        friction_after[idf + i].id2 == normal_after.id2,
        friction_after[idf + i].friction_limit_id == idr,
        friction_after[idf + i].lobound@ == 0,
        friction_after[idf + i].hibound@ == 0,
{
    let j = idf + i;
    assert(friction_constraint_filled(
        friction_before[j],
        friction_after[j],
        dt,
        coll,
        friction_axes[j - idf]@,
        cache[j - idf + 1]@,
        idr,
        rb1,
        rb2,
        correction,
    ));
}

/// A pair without a body that can move has no mass along any direction:
/// its equations cannot be written down.
pub proof fn lemma_immovable_pair_has_no_mass(normal: V3, center: V3, rb1: &RigidBody, rb2: &RigidBody)
    requires
        !rb1.movable(),
        !rb2.movable(),
    ensures
        pair_projected_mass(normal, center, rb1, rb2) == 0,
{
}

/// Whether the body yields to a push and to a twist about `rot_axis` in
/// their own direction: its inverse mass is not negative, and neither is its
/// inverse inertia about the axis.
pub open spec fn yields_along(rb: &RigidBody, rot_axis: V3) -> bool {
    rb.inv_mass@ >= 0 && v3_dot(rot_axis, m3_apply(rb.inv_inertia@, rot_axis)) >= 0
}

/// A body whose inverse mass is not negative and whose inverse inertia is
/// diagonal without a negative entry yields in the direction of every push
/// and twist.
pub proof fn lemma_diagonal_body_yields(rb: &RigidBody, rot_axis: V3)
    requires
        rb.inv_mass@ >= 0,
        m3_nonnegative_diagonal(rb.inv_inertia@),
    ensures
        yields_along(rb, rot_axis),
{
    lemma_diagonal_form_nonnegative(rb.inv_inertia@, rot_axis);
}

/// Between bodies that yield in the direction of a push the mass of a pair
/// is never negative: where the equations of such a pair can be written
/// down, its mass is positive.
pub proof fn lemma_projected_mass_nonnegative(normal: V3, center: V3, rb1: &RigidBody, rb2: &RigidBody)
    requires
        rb1.movable() ==> yields_along(rb1, lever_axis(center, rb1, v3_neg(normal))),
        rb2.movable() ==> yields_along(rb2, lever_axis(center, rb2, normal)),
    ensures
        pair_projected_mass(normal, center, rb1, rb2) >= 0,
{
    if rb1.movable() {
        lemma_weighted_norm_nonnegative(normal, rb1.inv_mass@);
    }
    if rb2.movable() {
        lemma_weighted_norm_nonnegative(normal, rb2.inv_mass@);
    }
}

/// Whether the mass of the body along `direction` cannot round to nothing.
/// It cannot for a direction of positive length and an inverse mass of at
/// least one, nor for a direction no longer than one in each component and
/// an inverse mass that is at least four over its squared length: four steps
/// for a direction of length one.
pub open spec fn weighs_along(rb: &RigidBody, direction: V3) -> bool {
    ||| rb.inv_mass@ >= SCALE && v3_dot(direction, direction) > 0
    ||| {
        &&& rb.inv_mass@ >= 0
        &&& v3_within(direction, SCALE as int)
        &&& rb.inv_mass@ * v3_dot_wide(direction, direction) >= 4 * (SCALE * SCALE)
    }
}

/// A pair has mass along `direction` where each of its bodies that can move
/// yields along its lever axis, and one of them weighs along the direction.
pub open spec fn pair_has_mass_along(direction: V3, center: V3, rb1: &RigidBody, rb2: &RigidBody) -> bool {
    &&& rb1.movable() ==> yields_along(rb1, lever_axis(center, rb1, v3_neg(direction)))
    &&& rb2.movable() ==> yields_along(rb2, lever_axis(center, rb2, direction))
    &&& (rb1.movable() && weighs_along(rb1, direction)) || (rb2.movable() && weighs_along(
        rb2,
        direction,
    ))
}

/// Which pairs have a positive mass along a direction: those with a body
/// that can move and weighs along the direction, between bodies that yield.
pub proof fn lemma_yielding_pair_has_mass(direction: V3, center: V3, rb1: &RigidBody, rb2: &RigidBody)
    requires
        pair_has_mass_along(direction, center, rb1, rb2),
    ensures
        pair_projected_mass(direction, center, rb1, rb2) > 0,
{
    lemma_projected_mass_nonnegative(direction, center, rb1, rb2);
    if rb1.movable() {
        lemma_weighted_norm_nonnegative(direction, rb1.inv_mass@);
        if weighs_along(rb1, direction) {
            if rb1.inv_mass@ >= SCALE && v3_dot(direction, direction) > 0 {
                lemma_weighted_norm_positive(direction, rb1.inv_mass@);
            } else {
                lemma_weighted_unit_norm_positive(direction, rb1.inv_mass@);
            }
        }
    }
    if rb2.movable() {
        lemma_weighted_norm_nonnegative(direction, rb2.inv_mass@);
        if weighs_along(rb2, direction) {
            if rb2.inv_mass@ >= SCALE && v3_dot(direction, direction) > 0 {
                lemma_weighted_norm_positive(direction, rb2.inv_mass@);
            } else {
                lemma_weighted_unit_norm_positive(direction, rb2.inv_mass@);
            }
        }
    }
}

/// Which contacts are solvable: those whose quantities lie in their ranges,
/// with a timestep that is not zero, between bodies that have mass along the
/// contact normal and along each friction axis.
pub proof fn lemma_yielding_contact_is_solvable(
    dt: Scalar,
    coll: &Contact,
    rb1: &RigidBody,
    rb2: &RigidBody,
    correction: &CorrectionParameters,
    friction_axes: Seq<Vec3>,
)
    requires
        dt@ != 0,
        dt.bounded(WORKING_RANGE as int),
        coll.in_range(),
        rb1.in_range(),
        rb2.in_range(),
        correction.in_range(),
        pair_has_mass_along(coll.normal@, contact_center(coll), rb1, rb2),
        forall|i: int|
            0 <= i < friction_axes.len() ==> {
                &&& (#[trigger] friction_axes[i]).bounded(SCALE as int)
                &&& pair_has_mass_along(friction_axes[i]@, contact_center(coll), rb1, rb2)
            },
    ensures
        contact_solvable(dt, coll, rb1, rb2, correction, friction_axes),
{
    lemma_yielding_pair_has_mass(coll.normal@, contact_center(coll), rb1, rb2);
    assert forall|i: int| 0 <= i < friction_axes.len() implies pair_projected_mass(
        (#[trigger] friction_axes[i])@,
        contact_center(coll),
        rb1,
        rb2,
    ) > 0 by {
        lemma_yielding_pair_has_mass(friction_axes[i]@, contact_center(coll), rb1, rb2);
    }
}

/// For a pair in the working range with a body that can move and a positive
/// mass along the constraint direction, a filled constraint has a positive
/// `inv_projected_mass`.
pub proof fn lemma_inv_projected_mass_positive(
    before: VelocityConstraint,
    after: VelocityConstraint,
    dt: int,
    normal: V3,
    center: V3,
    restitution: int,
    depth: int,
    initial_impulse: int,
    lobound: int,
    hibound: int,
    rb1: &RigidBody,
    rb2: &RigidBody,
    correction: &CorrectionParameters,
)
    requires
        equation_filled(
            before,
            after,
            dt,
            normal,
            center,
            restitution,
            depth,
            initial_impulse,
            lobound,
            hibound,
            rb1,
            rb2,
            correction,
        ),
        v3_within(normal, SCALE as int),
        v3_within(center, WORKING_RANGE as int),
        rb1.in_range(),
        rb2.in_range(),
        rb1.movable() || rb2.movable(),
        pair_projected_mass(normal, center, rb1, rb2) > 0,
    ensures
        after.inv_projected_mass@ > 0,
{
    lemma_pair_mass_within(normal, center, rb1, rb2);
    lemma_recip_sign(pair_projected_mass(normal, center, rb1, rb2));
}

} // verus!
