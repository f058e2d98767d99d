use contact_resolution::detection::contact::Contact;
use contact_resolution::math::scalar::{FineScalar, Scalar, SCALE};
use contact_resolution::math::vector::{Mat3, Vec3};
use contact_resolution::object::rigid_body::{RigidBody, RigidBodyState};
use contact_resolution::resolution::constraint::contact_equation::{
    contact_is_solvable, fill_constraint_geometry, fill_second_order_equation,
    projected_mass_of_pair, reinit_to_first_order_equation, relative_velocity,
    try_fill_second_order_equation, CorrectionMode, CorrectionParameters, FRICTION_AXES,
};
use contact_resolution::resolution::constraint::velocity_constraint::VelocityConstraint;

fn raw(v: i64) -> Scalar {
    Scalar::from_raw(v)
}

fn fine(v: i64) -> FineScalar {
    FineScalar::from_raw(v)
}

fn x_axis() -> Vec3 {
    Vec3::from_raw(SCALE, 0, 0)
}

fn tangent_axes() -> Vec<Vec3> {
    vec![Vec3::from_raw(0, SCALE, 0), Vec3::from_raw(0, 0, SCALE)]
}

fn dynamic_body(inv_mass: i64, inv_inertia: i64) -> RigidBody {
    RigidBody::new(RigidBodyState::Dynamic, raw(inv_mass), Mat3::diagonal(raw(inv_inertia)), 0)
}

fn static_body() -> RigidBody {
    RigidBody::new(RigidBodyState::Static, raw(0), Mat3::diagonal(raw(0)), -1)
}

fn velocity_mode() -> CorrectionParameters {
    CorrectionParameters::new(CorrectionMode::Velocity(raw(200_000)), raw(0), raw(SCALE))
}

fn threshold_mode() -> CorrectionMode {
    CorrectionMode::VelocityAndPositionThresold(raw(200_000), raw(100_000), raw(10_000))
}

fn contact_at_origin(depth: i64) -> Contact {
    Contact::new(Vec3::zero(), Vec3::zero(), x_axis(), raw(depth))
}

/// A constraint whose every field differs from what any test expects.
fn marked_constraint() -> VelocityConstraint {
    let v = Vec3::from_raw(11, 22, 33);
    VelocityConstraint {
        normal: v,
        weighted_normal1: v,
        weighted_normal2: v,
        rot_axis1: v,
        weighted_rot_axis1: v,
        rot_axis2: v,
        weighted_rot_axis2: v,
        inv_projected_mass: fine(44),
        impulse: raw(55),
        lobound: raw(66),
        hibound: raw(77),
        objective: raw(88),
        id1: 99,
        id2: 111,
        friction_coeff: raw(122),
        friction_limit_id: 133,
    }
}

#[test]
fn velocity_mode_corrects_the_velocity_alone() {
    let m = CorrectionMode::Velocity(raw(200_000));
    assert_eq!(m.vel_corr_factor(), raw(200_000));
    assert_eq!(m.pos_corr_factor(), Scalar::zero());
    assert_eq!(m.min_depth_for_pos_corr(), Scalar::max_value());
    assert_eq!(m.max_depth_for_vel_corr(), Scalar::max_value());
}

#[test]
fn velocity_and_position_mode_corrects_both_at_every_depth() {
    let m = CorrectionMode::VelocityAndPosition(raw(200_000), raw(100_000), raw(10_000));
    assert_eq!(m.vel_corr_factor(), raw(200_000));
    assert_eq!(m.pos_corr_factor(), raw(100_000));
    assert_eq!(m.min_depth_for_pos_corr(), Scalar::min_value());
    assert_eq!(m.max_depth_for_vel_corr(), Scalar::max_value());
}

#[test]
fn threshold_mode_switches_at_its_threshold() {
    let m = threshold_mode();
    assert_eq!(m.vel_corr_factor(), raw(200_000));
    assert_eq!(m.pos_corr_factor(), raw(100_000));
    assert_eq!(m.min_depth_for_pos_corr(), raw(10_000));
    assert_eq!(m.max_depth_for_vel_corr(), raw(10_000));
}

#[test]
fn correction_parameters_keep_what_they_were_made_with() {
    let p = CorrectionParameters::new(threshold_mode(), raw(7), raw(8));
    assert_eq!(p.corr_mode, threshold_mode());
    assert_eq!(p.joint_corr, raw(7));
    assert_eq!(p.rest_eps, raw(8));
    assert!(p.is_in_range());
    let wide = CorrectionParameters::new(CorrectionMode::Velocity(raw(1_000_000_001)), raw(0), raw(0));
    assert!(!wide.is_in_range());
}

#[test]
fn first_order_below_the_threshold_has_no_position_term() {
    let correction = CorrectionParameters::new(threshold_mode(), raw(0), raw(0));
    let mut c = marked_constraint();
    reinit_to_first_order_equation(raw(16_000), &contact_at_origin(5_000), &mut c, &correction);
    assert_eq!(c.objective, Scalar::zero());
    assert_eq!(c.impulse, Scalar::zero());
}

#[test]
fn first_order_from_the_threshold_on_has_the_position_term() {
    let correction = CorrectionParameters::new(threshold_mode(), raw(0), raw(0));
    let mut c = marked_constraint();
    // 0.1 * 0.02 / 0.016 = 0.125
    reinit_to_first_order_equation(raw(16_000), &contact_at_origin(20_000), &mut c, &correction);
    assert_eq!(c.objective, raw(125_000));
    assert_eq!(c.impulse, Scalar::zero());
    // The threshold itself counts as reached: 0.1 * 0.01 / 0.016 = 0.0625
    reinit_to_first_order_equation(raw(16_000), &contact_at_origin(10_000), &mut c, &correction);
    assert_eq!(c.objective, raw(62_500));
}

#[test]
fn first_order_leaves_everything_but_objective_and_impulse() {
    let correction = CorrectionParameters::new(threshold_mode(), raw(0), raw(0));
    let mut c = marked_constraint();
    reinit_to_first_order_equation(raw(16_000), &contact_at_origin(20_000), &mut c, &correction);
    let mut expected = marked_constraint();
    expected.objective = raw(125_000);
    expected.impulse = Scalar::zero();
    assert_eq!(c, expected);
}

#[test]
fn first_order_in_velocity_mode_is_zero() {
    let mut c = marked_constraint();
    reinit_to_first_order_equation(raw(16_000), &contact_at_origin(5_000), &mut c, &velocity_mode());
    assert_eq!(c.objective, Scalar::zero());
    assert_eq!(c.impulse, Scalar::zero());
}

#[test]
fn first_order_with_position_mode_corrects_below_its_third_field() {
    let mode = CorrectionMode::VelocityAndPosition(raw(200_000), raw(100_000), raw(10_000));
    let correction = CorrectionParameters::new(mode, raw(0), raw(0));
    let mut c = marked_constraint();
    // 0.1 * 0.005 / 0.016 = 0.03125
    reinit_to_first_order_equation(raw(16_000), &contact_at_origin(5_000), &mut c, &correction);
    assert_eq!(c.objective, raw(31_250));
    // Bodies that are apart have nothing to correct.
    reinit_to_first_order_equation(raw(16_000), &contact_at_origin(-5_000), &mut c, &correction);
    assert_eq!(c.objective, Scalar::zero());
}

#[test]
fn separating_contact_gets_the_depth_over_the_timestep_and_no_impulse() {
    let rb1 = dynamic_body(SCALE, SCALE);
    let rb2 = static_body();
    let mut normal = marked_constraint();
    let mut friction = vec![marked_constraint(), marked_constraint()];
    let cache = [raw(3_000_000), raw(4), raw(5)];
    // -0.01 / 0.016 = -0.625
    fill_second_order_equation(
        raw(16_000),
        &contact_at_origin(-10_000),
        &rb1,
        &rb2,
        &mut normal,
        0,
        &mut friction,
        0,
        &cache,
        &velocity_mode(),
        &tangent_axes(),
    );
    assert_eq!(normal.objective, raw(-625_000));
    assert_eq!(normal.impulse, Scalar::zero());
}

#[test]
fn normal_constraint_pushes_and_never_pulls() {
    let rb1 = dynamic_body(SCALE, SCALE);
    let rb2 = dynamic_body(SCALE, SCALE);
    for depth in [-10_000, 0, 10_000] {
        let mut normal = marked_constraint();
        let mut friction = vec![marked_constraint(), marked_constraint()];
        let cache = [raw(1), raw(2), raw(3)];
        fill_second_order_equation(
            raw(16_000),
            &contact_at_origin(depth),
            &rb1,
            &rb2,
            &mut normal,
            0,
            &mut friction,
            0,
            &cache,
            &velocity_mode(),
            &tangent_axes(),
        );
        assert_eq!(normal.lobound, Scalar::zero());
        assert_eq!(normal.hibound, Scalar::max_value());
    }
}

#[test]
fn warm_start_takes_the_cached_impulse_while_the_bodies_touch() {
    let rb1 = dynamic_body(SCALE, SCALE);
    let rb2 = static_body();
    let cache = [raw(3_000_000), raw(4), raw(5)];
    for (depth, expected) in [(-1, 0), (0, 3_000_000), (10_000, 3_000_000)] {
        let mut normal = marked_constraint();
        let mut friction = vec![marked_constraint(), marked_constraint()];
        fill_second_order_equation(
            raw(16_000),
            &contact_at_origin(depth),
            &rb1,
            &rb2,
            &mut normal,
            0,
            &mut friction,
            0,
            &cache,
            &velocity_mode(),
            &tangent_axes(),
        );
        assert_eq!(normal.impulse, raw(expected));
        // Friction carries no depth: it always starts from the cache.
        assert_eq!(friction[0].impulse, raw(4));
        assert_eq!(friction[1].impulse, raw(5));
    }
}

#[test]
fn closing_bodies_bounce_and_shallow_overlap_is_pushed_out() {
    let mut rb1 = dynamic_body(SCALE, SCALE);
    rb1.lin_vel = Vec3::from_raw(2 * SCALE, 0, 0);
    rb1.restitution = raw(500_000);
    let mut rb2 = static_body();
    rb2.restitution = raw(500_000);
    let mut normal = marked_constraint();
    let mut friction = vec![marked_constraint(), marked_constraint()];
    let cache = [raw(3_000_000), raw(4), raw(5)];
    fill_second_order_equation(
        raw(16_000),
        &contact_at_origin(50_000),
        &rb1,
        &rb2,
        &mut normal,
        0,
        &mut friction,
        0,
        &cache,
        &velocity_mode(),
        &tangent_axes(),
    );
    // Relative velocity -2, beyond the threshold 1: (1 + 0.25) * 2 = 2.5,
    // plus 0.05 * 0.2 / 0.016 = 0.625.
    assert_eq!(normal.objective, raw(3_125_000));
    assert_eq!(normal.impulse, raw(3_000_000));
}

#[test]
fn slow_closing_bodies_do_not_bounce() {
    let mut rb1 = dynamic_body(SCALE, SCALE);
    rb1.lin_vel = Vec3::from_raw(SCALE, 0, 0);
    rb1.restitution = raw(500_000);
    let mut rb2 = static_body();
    rb2.restitution = raw(500_000);
    let mut normal = marked_constraint();
    let mut friction = vec![marked_constraint(), marked_constraint()];
    let cache = [raw(0), raw(0), raw(0)];
    // The closing speed equals the threshold: not beyond it.
    fill_second_order_equation(
        raw(16_000),
        &contact_at_origin(0),
        &rb1,
        &rb2,
        &mut normal,
        0,
        &mut friction,
        0,
        &cache,
        &velocity_mode(),
        &tangent_axes(),
    );
    assert_eq!(normal.objective, raw(SCALE));
}

#[test]
fn velocity_correction_stops_at_the_threshold() {
    let rb1 = dynamic_body(SCALE, SCALE);
    let rb2 = static_body();
    let correction = CorrectionParameters::new(threshold_mode(), raw(0), raw(SCALE));
    let cache = [raw(0), raw(0), raw(0)];
    for (depth, expected) in [(5_000, 62_500), (9_999, 124_937), (10_000, 0), (20_000, 0)] {
        let mut normal = marked_constraint();
        let mut friction = vec![marked_constraint(), marked_constraint()];
        fill_second_order_equation(
            raw(16_000),
            &contact_at_origin(depth),
            &rb1,
            &rb2,
            &mut normal,
            0,
            &mut friction,
            0,
            &cache,
            &correction,
            &tangent_axes(),
        );
        assert_eq!(normal.objective, raw(expected));
    }
}

fn lever_bodies() -> (RigidBody, RigidBody) {
    let mut rb1 = dynamic_body(500_000, 2 * SCALE);
    rb1.index = 3;
    rb1.lin_vel = Vec3::from_raw(2 * SCALE, 0, 0);
    rb1.lin_acc = Vec3::from_raw(SCALE, 0, 0);
    rb1.ang_vel = Vec3::from_raw(0, 0, SCALE);
    rb1.friction = raw(300_000);
    let mut rb2 = dynamic_body(250_000, 500_000);
    rb2.index = 7;
    rb2.center_of_mass = Vec3::from_raw(0, 3 * SCALE, 0);
    rb2.lin_vel = Vec3::from_raw(-SCALE, 0, 0);
    rb2.ang_vel = Vec3::from_raw(0, 0, -250_000);
    rb2.friction = raw(600_000);
    (rb1, rb2)
}

fn lever_contact() -> Contact {
    Contact::new(Vec3::from_raw(0, SCALE, 0), Vec3::from_raw(0, SCALE, 0), x_axis(), raw(0))
}

#[test]
fn second_order_fills_the_whole_normal_constraint() {
    let (rb1, rb2) = lever_bodies();
    let correction = CorrectionParameters::new(CorrectionMode::Velocity(raw(200_000)), raw(0), raw(100 * SCALE));
    let mut normal = marked_constraint();
    let mut friction = vec![marked_constraint(), marked_constraint()];
    let cache = [raw(9), raw(7), raw(8)];
    fill_second_order_equation(
        raw(16_000),
        &lever_contact(),
        &rb1,
        &rb2,
        &mut normal,
        5,
        &mut friction,
        0,
        &cache,
        &correction,
        &tangent_axes(),
    );
    let expected = VelocityConstraint {
        normal: x_axis(),
        weighted_normal1: Vec3::from_raw(500_000, 0, 0),
        weighted_normal2: Vec3::from_raw(250_000, 0, 0),
        rot_axis1: Vec3::from_raw(0, 0, SCALE),
        weighted_rot_axis1: Vec3::from_raw(0, 0, 2 * SCALE),
        rot_axis2: Vec3::from_raw(0, 0, 2 * SCALE),
        weighted_rot_axis2: Vec3::from_raw(0, 0, SCALE),
        // 1 / (0.5 + 2 + 0.25 + 2)
        inv_projected_mass: fine(210_526_315_789),
        impulse: raw(9),
        lobound: Scalar::zero(),
        hibound: Scalar::max_value(),
        // -(-2.016 + 1 - 1 - 0.5)
        objective: raw(2_516_000),
        id1: 3,
        id2: 7,
        friction_coeff: raw(122),
        friction_limit_id: 133,
    };
    assert_eq!(normal, expected);
}

#[test]
fn second_order_fills_one_friction_constraint_for_each_axis() {
    let (rb1, rb2) = lever_bodies();
    let correction = CorrectionParameters::new(CorrectionMode::Velocity(raw(200_000)), raw(0), raw(100 * SCALE));
    let mut normal = marked_constraint();
    let mut friction = vec![marked_constraint(), marked_constraint()];
    let cache = [raw(9), raw(7), raw(8)];
    fill_second_order_equation(
        raw(16_000),
        &lever_contact(),
        &rb1,
        &rb2,
        &mut normal,
        5,
        &mut friction,
        0,
        &cache,
        &correction,
        &tangent_axes(),
    );
    let first = VelocityConstraint {
        normal: Vec3::from_raw(0, SCALE, 0),
        weighted_normal1: Vec3::from_raw(0, 500_000, 0),
        weighted_normal2: Vec3::from_raw(0, 250_000, 0),
        rot_axis1: Vec3::zero(),
        weighted_rot_axis1: Vec3::zero(),
        rot_axis2: Vec3::zero(),
        weighted_rot_axis2: Vec3::zero(),
        // 1 / (0.5 + 0.25)
        inv_projected_mass: fine(1_333_333_333_333),
        impulse: raw(7),
        lobound: Scalar::zero(),
        hibound: Scalar::zero(),
        objective: Scalar::zero(),
        id1: 3,
        id2: 7,
        // 0.3 * 0.6
        friction_coeff: raw(180_000),
        friction_limit_id: 5,
    };
    let second = VelocityConstraint {
        normal: Vec3::from_raw(0, 0, SCALE),
        weighted_normal1: Vec3::from_raw(0, 0, 500_000),
        weighted_normal2: Vec3::from_raw(0, 0, 250_000),
        rot_axis1: Vec3::from_raw(-SCALE, 0, 0),
        weighted_rot_axis1: Vec3::from_raw(-2 * SCALE, 0, 0),
        rot_axis2: Vec3::from_raw(-2 * SCALE, 0, 0),
        weighted_rot_axis2: Vec3::from_raw(-SCALE, 0, 0),
        inv_projected_mass: fine(210_526_315_789),
        impulse: raw(8),
        lobound: Scalar::zero(),
        hibound: Scalar::zero(),
        objective: Scalar::zero(),
        id1: 3,
        id2: 7,
        friction_coeff: raw(180_000),
        friction_limit_id: 5,
    };
    assert_eq!(friction, vec![first, second]);
}

#[test]
fn friction_constraints_go_to_their_slots_and_nowhere_else() {
    let (rb1, rb2) = lever_bodies();
    let mut normal = marked_constraint();
    let mut friction = vec![marked_constraint(); 5];
    let cache = [raw(9), raw(7), raw(8), raw(6)];
    fill_second_order_equation(
        raw(16_000),
        &lever_contact(),
        &rb1,
        &rb2,
        &mut normal,
        1,
        &mut friction,
        2,
        &cache,
        &velocity_mode(),
        &tangent_axes(),
    );
    assert_eq!(friction.len(), 5);
    assert_eq!(friction[0], marked_constraint());
    assert_eq!(friction[1], marked_constraint());
    assert_eq!(friction[4], marked_constraint());
    assert_eq!(friction[2].normal, Vec3::from_raw(0, SCALE, 0));
    assert_eq!(friction[3].normal, Vec3::from_raw(0, 0, SCALE));
    assert_eq!(friction[2].impulse, raw(7));
    assert_eq!(friction[3].impulse, raw(8));
    assert_eq!(friction[2].friction_limit_id, 1);
    assert_eq!(friction[3].friction_limit_id, 1);
    assert_eq!(FRICTION_AXES, 2);
}

#[test]
fn an_immovable_body_leaves_its_geometry_fields_alone() {
    let rb1 = static_body();
    let rb2 = dynamic_body(SCALE, SCALE);
    let mut normal = marked_constraint();
    let mut friction = vec![marked_constraint(), marked_constraint()];
    let cache = [raw(0), raw(0), raw(0)];
    fill_second_order_equation(
        raw(16_000),
        &contact_at_origin(0),
        &rb1,
        &rb2,
        &mut normal,
        0,
        &mut friction,
        0,
        &cache,
        &velocity_mode(),
        &tangent_axes(),
    );
    let mark = Vec3::from_raw(11, 22, 33);
    assert_eq!(normal.weighted_normal1, mark);
    assert_eq!(normal.rot_axis1, mark);
    assert_eq!(normal.weighted_rot_axis1, mark);
    assert_eq!(normal.weighted_normal2, x_axis());
    assert_eq!(normal.rot_axis2, Vec3::zero());
    assert_eq!(normal.inv_projected_mass, fine(1_000_000_000_000));
    assert_eq!(normal.id1, -1);
    assert_eq!(normal.id2, 0);
}

#[test]
fn inverse_projected_mass_is_positive_for_a_pair_that_can_move() {
    let (rb1, rb2) = lever_bodies();
    for (first, second) in [(rb1, rb2), (rb1, static_body()), (static_body(), rb2)] {
        let mut normal = marked_constraint();
        let mut friction = vec![marked_constraint(), marked_constraint()];
        let cache = [raw(0), raw(0), raw(0)];
        fill_second_order_equation(
            raw(16_000),
            &lever_contact(),
            &first,
            &second,
            &mut normal,
            0,
            &mut friction,
            0,
            &cache,
            &velocity_mode(),
            &tangent_axes(),
        );
        assert!(normal.inv_projected_mass.raw > 0);
        assert!(friction[0].inv_projected_mass.raw > 0);
        assert!(friction[1].inv_projected_mass.raw > 0);
    }
}

#[test]
fn geometry_of_one_direction_between_two_bodies() {
    let (rb1, rb2) = lever_bodies();
    let mut c = marked_constraint();
    fill_constraint_geometry(
        x_axis(),
        Vec3::from_raw(0, 0, SCALE),
        Vec3::from_raw(0, 0, 2 * SCALE),
        Some(&rb1),
        Some(&rb2),
        &mut c,
    );
    let mut expected = marked_constraint();
    expected.normal = x_axis();
    expected.weighted_normal1 = Vec3::from_raw(500_000, 0, 0);
    expected.rot_axis1 = Vec3::from_raw(0, 0, SCALE);
    expected.weighted_rot_axis1 = Vec3::from_raw(0, 0, 2 * SCALE);
    expected.weighted_normal2 = Vec3::from_raw(250_000, 0, 0);
    expected.rot_axis2 = Vec3::from_raw(0, 0, 2 * SCALE);
    expected.weighted_rot_axis2 = Vec3::from_raw(0, 0, SCALE);
    expected.inv_projected_mass = fine(210_526_315_789);
    assert_eq!(c, expected);
}

#[test]
fn geometry_with_one_body_absent() {
    let (rb1, _) = lever_bodies();
    let mut c = marked_constraint();
    fill_constraint_geometry(
        x_axis(),
        Vec3::from_raw(0, 0, SCALE),
        Vec3::from_raw(0, 0, 2 * SCALE),
        Some(&rb1),
        None,
        &mut c,
    );
    let mut expected = marked_constraint();
    expected.normal = x_axis();
    expected.weighted_normal1 = Vec3::from_raw(500_000, 0, 0);
    expected.rot_axis1 = Vec3::from_raw(0, 0, SCALE);
    expected.weighted_rot_axis1 = Vec3::from_raw(0, 0, 2 * SCALE);
    // 1 / (0.5 + 2)
    expected.inv_projected_mass = fine(400_000_000_000);
    assert_eq!(c, expected);
}

#[test]
fn relative_velocity_looks_one_timestep_ahead() {
    let (rb1, rb2) = lever_bodies();
    let rot1 = Vec3::from_raw(0, 0, SCALE);
    let rot2 = Vec3::from_raw(0, 0, 2 * SCALE);
    let dt = raw(16_000);
    // First body: -(2 + 1 * 0.016) + 1 * 1; second body: -1 + (-0.25) * 2.
    assert_eq!(relative_velocity(Some(&rb1), Some(&rb2), &x_axis(), &rot1, &rot2, &dt), raw(-2_516_000));
    assert_eq!(relative_velocity(Some(&rb1), None, &x_axis(), &rot1, &rot2, &dt), raw(-1_016_000));
    assert_eq!(relative_velocity(None, Some(&rb2), &x_axis(), &rot1, &rot2, &dt), raw(-1_500_000));
    assert_eq!(relative_velocity(None, None, &x_axis(), &rot1, &rot2, &dt), Scalar::zero());
}

#[test]
fn projected_mass_counts_movable_bodies_only() {
    let (rb1, rb2) = lever_bodies();
    let center = Vec3::from_raw(0, SCALE, 0);
    assert_eq!(projected_mass_of_pair(&x_axis(), &center, &rb1, &rb2), raw(4_750_000));
    assert_eq!(projected_mass_of_pair(&x_axis(), &center, &rb1, &static_body()), raw(2_500_000));
    assert_eq!(projected_mass_of_pair(&x_axis(), &center, &static_body(), &rb2), raw(2_250_000));
    assert_eq!(projected_mass_of_pair(&x_axis(), &center, &static_body(), &static_body()), Scalar::zero());
}

#[test]
fn a_pair_of_immovable_bodies_is_not_solvable() {
    let axes = tangent_axes();
    let correction = velocity_mode();
    assert!(!contact_is_solvable(raw(16_000), &contact_at_origin(0), &static_body(), &static_body(), &correction, &axes));
    let mut normal = marked_constraint();
    let mut friction = vec![marked_constraint(), marked_constraint()];
    let cache = [raw(1), raw(2), raw(3)];
    let filled = try_fill_second_order_equation(
        raw(16_000),
        &contact_at_origin(0),
        &static_body(),
        &static_body(),
        &mut normal,
        0,
        &mut friction,
        0,
        &cache,
        &correction,
        &axes,
    );
    assert!(!filled);
    assert_eq!(normal, marked_constraint());
    assert_eq!(friction, vec![marked_constraint(), marked_constraint()]);
}

#[test]
fn solvable_needs_a_timestep_and_quantities_in_range() {
    let rb = dynamic_body(SCALE, SCALE);
    let axes = tangent_axes();
    let correction = velocity_mode();
    let contact = contact_at_origin(0);
    assert!(contact_is_solvable(raw(16_000), &contact, &rb, &static_body(), &correction, &axes));
    assert!(contact_is_solvable(raw(-16_000), &contact, &rb, &static_body(), &correction, &axes));
    assert!(!contact_is_solvable(raw(0), &contact, &rb, &static_body(), &correction, &axes));
    assert!(!contact_is_solvable(raw(1_000_000_001), &contact, &rb, &static_body(), &correction, &axes));
    let far = Contact::new(Vec3::from_raw(1_000_000_001, 0, 0), Vec3::zero(), x_axis(), raw(0));
    assert!(!contact_is_solvable(raw(16_000), &far, &rb, &static_body(), &correction, &axes));
    assert!(!far.is_in_range());
    let long_normal = Contact::new(Vec3::zero(), Vec3::zero(), Vec3::from_raw(SCALE + 1, 0, 0), raw(0));
    assert!(!contact_is_solvable(raw(16_000), &long_normal, &rb, &static_body(), &correction, &axes));
    let mut heavy = rb;
    heavy.inv_mass = raw(1_000_000_001);
    assert!(!contact_is_solvable(raw(16_000), &contact, &heavy, &static_body(), &correction, &axes));
    let long_axes = vec![Vec3::from_raw(0, SCALE + 1, 0), Vec3::from_raw(0, 0, SCALE)];
    assert!(!contact_is_solvable(raw(16_000), &contact, &rb, &static_body(), &correction, &long_axes));
    let flat_axes = vec![Vec3::from_raw(0, SCALE, 0), Vec3::zero()];
    assert!(!contact_is_solvable(raw(16_000), &contact, &rb, &static_body(), &correction, &flat_axes));
}

#[test]
fn try_fill_needs_the_slots_and_the_cache() {
    let rb = dynamic_body(SCALE, SCALE);
    let correction = velocity_mode();
    let contact = contact_at_origin(0);
    let cache = [raw(1), raw(2), raw(3)];
    let mut normal = marked_constraint();
    let mut friction = vec![marked_constraint(); 3];
    // The second friction slot would lie beyond the end.
    assert!(!try_fill_second_order_equation(
        raw(16_000), &contact, &rb, &static_body(), &mut normal, 0, &mut friction, 2, &cache,
        &correction, &tangent_axes(),
    ));
    assert!(!try_fill_second_order_equation(
        raw(16_000), &contact, &rb, &static_body(), &mut normal, 0, &mut friction, usize::MAX, &cache,
        &correction, &tangent_axes(),
    ));
    // One cached impulse is missing.
    assert!(!try_fill_second_order_equation(
        raw(16_000), &contact, &rb, &static_body(), &mut normal, 0, &mut friction, 0, &cache[..2],
        &correction, &tangent_axes(),
    ));
    // One axis is missing.
    assert!(!try_fill_second_order_equation(
        raw(16_000), &contact, &rb, &static_body(), &mut normal, 0, &mut friction, 0, &cache,
        &correction, &tangent_axes()[..1],
    ));
    assert_eq!(normal, marked_constraint());
    assert_eq!(friction, vec![marked_constraint(); 3]);
    assert!(try_fill_second_order_equation(
        raw(16_000), &contact, &rb, &static_body(), &mut normal, 0, &mut friction, 1, &cache,
        &correction, &tangent_axes(),
    ));
    assert_eq!(friction[0], marked_constraint());
    assert_eq!(normal.normal, x_axis());
    assert_eq!(friction[1].normal, Vec3::from_raw(0, SCALE, 0));
    assert_eq!(friction[2].normal, Vec3::from_raw(0, 0, SCALE));
}

#[test]
fn a_new_constraint_is_zero_between_no_bodies() {
    let c = VelocityConstraint::new();
    assert_eq!(c.normal, Vec3::zero());
    assert_eq!(c.inv_projected_mass, FineScalar::zero());
    assert_eq!(c.objective, Scalar::zero());
    assert_eq!(c.impulse, Scalar::zero());
    assert_eq!(c.lobound, Scalar::zero());
    assert_eq!(c.hibound, Scalar::zero());
    assert_eq!((c.id1, c.id2), (-1, -1));
    assert_eq!(c.friction_limit_id, 0);
}

#[test]
fn a_large_mass_still_has_a_positive_inverse() {
    // Inverse inertia 1000, touched 100 units from the center of mass: the
    // mass along the normal is 1 + 100 * 1000 * 100 units.
    let rb1 = RigidBody::new(RigidBodyState::Dynamic, raw(SCALE), Mat3::diagonal(raw(1_000 * SCALE)), 0);
    let rb2 = static_body();
    let point = Vec3::from_raw(100 * SCALE, 0, 0);
    let contact = Contact::new(point, point, Vec3::from_raw(0, SCALE, 0), raw(0));
    let axes = vec![x_axis(), Vec3::from_raw(0, 0, SCALE)];
    assert_eq!(
        projected_mass_of_pair(&contact.normal, &point, &rb1, &rb2),
        raw(10_000_001_000_000)
    );
    assert!(contact_is_solvable(raw(16_000), &contact, &rb1, &rb2, &velocity_mode(), &axes));
    let mut normal = marked_constraint();
    let mut friction = vec![marked_constraint(), marked_constraint()];
    let cache = [raw(0), raw(0), raw(0)];
    fill_second_order_equation(
        raw(16_000),
        &contact,
        &rb1,
        &rb2,
        &mut normal,
        0,
        &mut friction,
        0,
        &cache,
        &velocity_mode(),
        &axes,
    );
    assert_eq!(normal.rot_axis1, Vec3::from_raw(0, 0, -100 * SCALE));
    assert_eq!(normal.inv_projected_mass, fine(99_999));
    assert_eq!(friction[0].inv_projected_mass, fine(1_000_000_000_000));
    assert_eq!(friction[1].inv_projected_mass, fine(99_999));
}

#[test]
fn a_mass_that_rounds_to_nothing_is_not_solvable() {
    let normal = Vec3::from_raw(600_000, 800_000, 0);
    let contact = Contact::new(Vec3::zero(), Vec3::zero(), normal, raw(0));
    let axes = vec![Vec3::from_raw(-800_000, 600_000, 0), Vec3::from_raw(0, 0, SCALE)];
    let one_step = RigidBody::new(RigidBodyState::Dynamic, raw(1), Mat3::diagonal(raw(0)), 0);
    assert_eq!(projected_mass_of_pair(&normal, &Vec3::zero(), &one_step, &static_body()), raw(0));
    assert!(!contact_is_solvable(raw(16_000), &contact, &one_step, &static_body(), &velocity_mode(), &axes));
    let four_steps = RigidBody::new(RigidBodyState::Dynamic, raw(4), Mat3::diagonal(raw(0)), 0);
    assert_eq!(projected_mass_of_pair(&normal, &Vec3::zero(), &four_steps, &static_body()), raw(3));
    assert!(contact_is_solvable(raw(16_000), &contact, &four_steps, &static_body(), &velocity_mode(), &axes));
    let mut c = marked_constraint();
    let mut friction = vec![marked_constraint(), marked_constraint()];
    let cache = [raw(0), raw(0), raw(0)];
    assert!(try_fill_second_order_equation(
        raw(16_000), &contact, &four_steps, &static_body(), &mut c, 0, &mut friction, 0, &cache,
        &velocity_mode(), &axes,
    ));
    assert_eq!(c.inv_projected_mass, fine(333_333_333_333_333_333));
    assert_eq!(friction[0].inv_projected_mass, fine(333_333_333_333_333_333));
    assert_eq!(friction[1].inv_projected_mass, fine(250_000_000_000_000_000));
}

#[test]
fn a_negative_mass_is_not_solvable() {
    let rb1 = RigidBody::new(RigidBodyState::Dynamic, raw(-SCALE), Mat3::diagonal(raw(0)), 0);
    assert_eq!(projected_mass_of_pair(&x_axis(), &Vec3::zero(), &rb1, &static_body()), raw(-SCALE));
    assert!(!contact_is_solvable(
        raw(16_000), &contact_at_origin(0), &rb1, &static_body(), &velocity_mode(), &tangent_axes(),
    ));
    let mut normal = marked_constraint();
    let mut friction = vec![marked_constraint(), marked_constraint()];
    let cache = [raw(0), raw(0), raw(0)];
    assert!(!try_fill_second_order_equation(
        raw(16_000), &contact_at_origin(0), &rb1, &static_body(), &mut normal, 0, &mut friction, 0,
        &cache, &velocity_mode(), &tangent_axes(),
    ));
    assert_eq!(normal, marked_constraint());
}

#[test]
fn geometry_of_a_negative_mass_has_a_negative_inverse() {
    let rb1 = RigidBody::new(RigidBodyState::Dynamic, raw(-SCALE), Mat3::diagonal(raw(0)), 0);
    let mut c = marked_constraint();
    fill_constraint_geometry(x_axis(), Vec3::zero(), Vec3::zero(), Some(&rb1), None, &mut c);
    assert_eq!(c.inv_projected_mass, fine(-1_000_000_000_000));
}
