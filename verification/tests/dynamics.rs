//! Rigid-body dynamics and integrator tests, all with exact expected values.

use slippy::integrate::{euler, rk4};
use slippy::matrix::Matrix3x3;
use slippy::quaternion::Quaternion;
use slippy::rational::Rat;
use slippy::rigidbody::RigidBody;
use slippy::vector::Vector3;

fn ri(n: i64) -> Rat {
    Rat::from_int(n)
}

fn r(n: i64, d: i64) -> Rat {
    Rat::new(n, d).unwrap()
}

fn vec(i: Rat, j: Rat, k: Rat) -> Vector3 {
    Vector3::new(i, j, k)
}

#[test]
fn new_precomputes_the_inverse_tensor() {
    let z = Rat::zero();
    let body = RigidBody::new(
        [z, z, z],
        [z, z, z],
        [z, z, z],
        [z, z, z],
        [z, z, z],
        [z, z, z],
        [z, z, z],
        [ri(1), z, z, z],
        [z, z, z],
        [z, z, z],
        ri(1),
        [ri(2), z, z, z, ri(2), z, z, z, ri(2)],
    )
    .unwrap();
    let expected = Matrix3x3::new(r(1, 2), z, z, z, r(1, 2), z, z, z, r(1, 2));
    assert!(body.inv_i_tensor_cg_kgpm2.equals(&expected));
}

#[test]
fn new_rejects_a_singular_tensor() {
    let z = Rat::zero();
    let body = RigidBody::new(
        [z, z, z],
        [z, z, z],
        [z, z, z],
        [z, z, z],
        [z, z, z],
        [z, z, z],
        [z, z, z],
        [ri(1), z, z, z],
        [z, z, z],
        [z, z, z],
        ri(1),
        [ri(1), z, z, ri(2), z, z, z, z, ri(1)],
    );
    assert!(body.is_none());
}

#[test]
fn pure_translation() {
    // A constant inertial force (1,1,1) N on a unit-mass body starting at
    // rest at (0,1,2): after 5 s, velocity (5,5,5) and position
    // (12.5,13.5,14.5), exactly.
    let mut body = RigidBody::identity();
    body.inertial_pos_m = vec(ri(0), ri(1), ri(2));
    body.intertial_force_n = vec(ri(1), ri(1), ri(1));
    let dt = r(1, 1000);
    let mut i: usize = 0;
    while i < 5000 {
        body = rk4(&mut body, &dt).unwrap();
        i += 1;
    }
    assert!(body.get_vel_mps().equals(&vec(ri(5), ri(5), ri(5))));
    assert!(body.get_pos_m().equals(&vec(r(25, 2), r(27, 2), r(29, 2))));
}

#[test]
fn rk4_exact_on_constant_acceleration() {
    // Two huge steps: the classical fourth-order method reproduces the
    // quadratic closed form exactly.
    let mut body = RigidBody::identity();
    body.intertial_force_n = vec(ri(1), ri(0), ri(0));
    let dt = ri(5);
    let mut i: usize = 0;
    while i < 2 {
        body = rk4(&mut body, &dt).unwrap();
        i += 1;
    }
    assert!(body.get_vel_mps().equals(&vec(ri(10), ri(0), ri(0))));
    assert!(body.get_pos_m().equals(&vec(ri(50), ri(0), ri(0))));
}

#[test]
fn euler_velocity_exact() {
    // The explicit Euler step: velocity is exact, position lags by the
    // closed-form a*t*dt/2.
    let mut body = RigidBody::identity();
    body.intertial_force_n = vec(ri(1), ri(0), ri(0));
    let dt = r(1, 10);
    let mut i: usize = 0;
    while i < 100 {
        body = euler(&mut body, &dt).unwrap();
        i += 1;
    }
    assert!(body.get_vel_mps().equals(&vec(ri(10), ri(0), ri(0))));
    assert!(body.get_pos_m().equals(&vec(r(99, 2), ri(0), ri(0))));
}

#[test]
fn pure_rotation_rate() {
    // Constant moment (1/10,0,0) N m on a unit-inertia body: angular
    // velocity grows by M/I per unit time, exactly; about a principal axis
    // the gyroscopic term vanishes.
    let mut body = RigidBody::identity();
    body.body_moment_nm = vec(r(1, 10), ri(0), ri(0));
    let dt = r(1, 4);
    body = rk4(&mut body, &dt).unwrap();
    assert!(body.get_body_ang_vel_radps().equals(&vec(r(1, 40), ri(0), ri(0))));
    assert!(body.get_body_ang_accel_radps2().equals(&vec(r(1, 10), ri(0), ri(0))));
}

#[test]
fn gyroscopic_coupling() {
    // Torque-free body with an asymmetric diagonal tensor: the angular
    // acceleration is exactly I^-1 (-(w x I w)), checking the sign and
    // ordering of the coupling term.
    let z = Rat::zero();
    let mut body = RigidBody::new(
        [z, z, z],
        [z, z, z],
        [z, z, z],
        [z, z, z],
        [z, z, z],
        [z, z, z],
        [z, z, z],
        [ri(1), z, z, z],
        [ri(1), ri(1), z],
        [z, z, z],
        ri(1),
        [ri(1), z, z, z, ri(2), z, z, z, ri(3)],
    )
    .unwrap();
    body = rk4(&mut body, &r(1, 10)).unwrap();
    // w x (I w) = (0, 0, 1); alpha = I^-1 (0, 0, -1) = (0, 0, -1/3) is the
    // effects snapshot the step used; the returned state keeps it (the
    // derivative of the acceleration field is zero), and the angular
    // velocity moved by alpha * dt.
    assert!(body.get_body_ang_accel_radps2().equals(&vec(z, z, r(-1, 3))));
    assert!(body.get_body_ang_vel_radps().equals(&vec(ri(1), ri(1), r(-1, 30))));
}

#[test]
fn gyroscopic_term_in_effects() {
    let z = Rat::zero();
    let body = RigidBody::new(
        [z, z, z],
        [z, z, z],
        [z, z, z],
        [z, z, z],
        [z, z, z],
        [z, z, z],
        [z, z, z],
        [ri(1), z, z, z],
        [r(1, 10), r(1, 10), z],
        [z, z, z],
        ri(1),
        [ri(1), z, z, z, ri(2), z, z, z, ri(3)],
    )
    .unwrap();
    // One Euler step of size zero leaves the state but applies effects.
    let mut stepped = body;
    let after = euler(&mut stepped, &z).unwrap();
    assert!(stepped.get_body_ang_accel_radps2().equals(&vec(z, z, r(-1, 300))));
    assert!(after.get_body_ang_vel_radps().equals(&vec(r(1, 10), r(1, 10), z)));
}

#[test]
fn body_frame_force_is_rotated() {
    // With attitude (3/5,4/5,0,0), a body-frame force (0,0,1) acts as
    // (0,-24/25,-7/25) in the inertial frame.
    let mut body = RigidBody::identity();
    body.quat_b2i = Quaternion::new(r(3, 5), r(4, 5), Rat::zero(), Rat::zero());
    body.body_force_n = vec(ri(0), ri(0), ri(1));
    let mut stepped = body;
    euler(&mut stepped, &Rat::zero()).unwrap();
    assert!(stepped.get_accel_mps2().equals(&vec(ri(0), r(-24, 25), r(-7, 25))));
}

#[test]
fn zero_input_is_a_fixed_point() {
    // All-zero forces, moments and rates: any number of steps of either
    // integrator leaves the body exactly at its initial state.
    let mut body = RigidBody::identity();
    body.inertial_pos_m = vec(ri(3), r(-1, 7), ri(2));
    let initial = body;
    let dt = r(1, 8);
    let mut i: usize = 0;
    while i < 8 {
        body = rk4(&mut body, &dt).unwrap();
        body = euler(&mut body, &dt).unwrap();
        i += 1;
    }
    assert!(body.get_pos_m().equals(&initial.get_pos_m()));
    assert!(body.get_vel_mps().equals(&initial.get_vel_mps()));
    assert!(body.get_quat().equals(&initial.get_quat()));
    assert!(body.get_body_ang_vel_radps().equals(&initial.get_body_ang_vel_radps()));
}
