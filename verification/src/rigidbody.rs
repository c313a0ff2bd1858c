//! The rigid body: kinematic state, force and moment inputs, mass
//! properties, and the dynamics evaluator that the generic integrator
//! advances.
//!
//! The dynamics follow the Newton-Euler equations: linear acceleration is
//! the total force over the mass, and angular acceleration is the inverse
//! inertia tensor applied to the total moment minus the gyroscopic coupling
//! term `w x (I w)`.

use vstd::prelude::*;

verus! {

use crate::rational::{
    Rat,
    SRat,
    rat_eq,
    rat_wf,
    rat_int,
    rat_add,
    rat_mul,
    rat_div,
    lemma_rat_add_congr,
    lemma_rat_mul_congr,
    lemma_rat_div_congr,
    lemma_rat_ops_wf,
    lemma_rat_eq_trans,
};
use crate::vector::{
    Vector3,
    SVec3,
    svec_eq,
    svec_wf,
    svec_zero,
    svec_add,
    svec_sub,
    svec_scale,
    svec_div,
    svec_cross,
    svec_of_array,
    svec_mag,
    svec_under,
    svec_fits_env,
    svec_dot,
    svec_dot_fits,
    scross_env,
    lemma_svec_congr,
    lemma_svec_ops_wf,
    lemma_svec_scale_wf,
    lemma_svec_eq_trans,
    lemma_svec_dot_fits_mono,
};
use crate::rational::{
    rat_mag,
    rat_fits_env,
    lemma_rat_mag_self,
    lemma_env_mono_add,
    lemma_env_mono_mul,
    lemma_env_mono_div,
};
use crate::matrix::{
    Matrix3x3,
    SMat3,
    smat_eq,
    smat_wf,
    smat_zero,
    smat_identity,
    smat_add,
    smat_scale,
    smat_div,
    smat_vec,
    smat_det,
    smat_inverse,
    smat_of_array,
    smat_mag,
    smat_fits_env,
    smat_inv_fits,
    srow1,
    srow2,
    srow3,
    lemma_smat_congr,
    lemma_smat_ops_wf,
    lemma_smat_eq_trans,
};
use crate::quaternion::{
    Quaternion,
    SQuat,
    squat_eq,
    squat_wf,
    squat_zero,
    squat_identity,
    squat_add,
    squat_scale,
    squat_div,
    squat_transform,
    squat_derivative,
    squat_of_array,
    squat_mag,
    squat_fits_env,
    squat_transform_fits,
    squat_transform_env,
    squat_derivative_fits,
    lemma_squat_congr,
    lemma_squat_ops_wf,
    lemma_squat_eq_trans,
    lemma_squat_derivative_congr,
    lemma_squat_transform_wf,
};
use crate::integrate::Integrate;

/// Mathematical model of the full rigid-body record.
pub struct SRigid {
    pub intertial_force_n: SVec3,
    pub intertial_moment_nm: SVec3,
    pub body_force_n: SVec3,
    pub body_moment_nm: SVec3,
    pub inertial_pos_m: SVec3,
    pub inertial_vel_mps: SVec3,
    pub inertial_accel_mps2: SVec3,
    pub quat_b2i: SQuat,
    pub body_ang_vel_radps: SVec3,
    pub body_ang_accel_radps2: SVec3,
    pub mass_cg_kg: SRat,
    pub i_tensor_cg_kgpm2: SMat3,
    pub inv_i_tensor_cg_kgpm2: SMat3,
}

pub open spec fn srigid_wf(m: SRigid) -> bool {
    svec_wf(m.intertial_force_n) && svec_wf(m.intertial_moment_nm) && svec_wf(m.body_force_n)
        && svec_wf(m.body_moment_nm) && svec_wf(m.inertial_pos_m) && svec_wf(m.inertial_vel_mps)
        && svec_wf(m.inertial_accel_mps2) && squat_wf(m.quat_b2i) && svec_wf(m.body_ang_vel_radps)
        && svec_wf(m.body_ang_accel_radps2) && rat_wf(m.mass_cg_kg) && smat_wf(m.i_tensor_cg_kgpm2)
        && smat_wf(m.inv_i_tensor_cg_kgpm2)
}

/// Fieldwise value equality.
pub open spec fn srigid_eq(a: SRigid, b: SRigid) -> bool {
    svec_eq(a.intertial_force_n, b.intertial_force_n) && svec_eq(
        a.intertial_moment_nm,
        b.intertial_moment_nm,
    ) && svec_eq(a.body_force_n, b.body_force_n) && svec_eq(a.body_moment_nm, b.body_moment_nm)
        && svec_eq(a.inertial_pos_m, b.inertial_pos_m) && svec_eq(
        a.inertial_vel_mps,
        b.inertial_vel_mps,
    ) && svec_eq(a.inertial_accel_mps2, b.inertial_accel_mps2) && squat_eq(a.quat_b2i, b.quat_b2i)
        && svec_eq(a.body_ang_vel_radps, b.body_ang_vel_radps) && svec_eq(
        a.body_ang_accel_radps2,
        b.body_ang_accel_radps2,
    ) && rat_eq(a.mass_cg_kg, b.mass_cg_kg) && smat_eq(a.i_tensor_cg_kgpm2, b.i_tensor_cg_kgpm2)
        && smat_eq(a.inv_i_tensor_cg_kgpm2, b.inv_i_tensor_cg_kgpm2)
}

/// The total force on the body: the inertial-frame input plus the rotated
/// body-frame input.
pub open spec fn srigid_total_force(m: SRigid) -> SVec3 {
    svec_add(m.intertial_force_n, squat_transform(m.quat_b2i, m.body_force_n))
}

/// The total moment on the body, likewise.
pub open spec fn srigid_total_moment(m: SRigid) -> SVec3 {
    svec_add(m.intertial_moment_nm, squat_transform(m.quat_b2i, m.body_moment_nm))
}

/// The gyroscopic coupling moment `w x (I w)`.
pub open spec fn srigid_gyro_moment(m: SRigid) -> SVec3 {
    svec_cross(m.body_ang_vel_radps, smat_vec(m.i_tensor_cg_kgpm2, m.body_ang_vel_radps))
}

/// The effects step: recomputes both accelerations from the current inputs.
/// `a = F/m` and `alpha = I^-1 (M - w x (I w))`; everything else is kept.
pub open spec fn srigid_effects(m: SRigid) -> SRigid {
    SRigid {
        inertial_accel_mps2: svec_div(srigid_total_force(m), m.mass_cg_kg),
        body_ang_accel_radps2: smat_vec(
            m.inv_i_tensor_cg_kgpm2,
            svec_sub(srigid_total_moment(m), srigid_gyro_moment(m)),
        ),
        ..m
    }
}

/// The state derivative: velocity feeds position, acceleration feeds
/// velocity, the quaternion kinematic rate feeds attitude, and angular
/// acceleration feeds angular velocity. All other fields derive to zero.
pub open spec fn srigid_derivative(m: SRigid) -> SRigid {
    SRigid {
        intertial_force_n: svec_zero(),
        intertial_moment_nm: svec_zero(),
        body_force_n: svec_zero(),
        body_moment_nm: svec_zero(),
        inertial_pos_m: m.inertial_vel_mps,
        inertial_vel_mps: m.inertial_accel_mps2,
        inertial_accel_mps2: svec_zero(),
        quat_b2i: squat_derivative(m.quat_b2i, m.body_ang_vel_radps),
        body_ang_vel_radps: m.body_ang_accel_radps2,
        body_ang_accel_radps2: svec_zero(),
        mass_cg_kg: rat_int(0),
        i_tensor_cg_kgpm2: smat_zero(),
        inv_i_tensor_cg_kgpm2: smat_zero(),
    }
}

pub open spec fn srigid_add(a: SRigid, b: SRigid) -> SRigid {
    SRigid {
        intertial_force_n: svec_add(a.intertial_force_n, b.intertial_force_n),
        intertial_moment_nm: svec_add(a.intertial_moment_nm, b.intertial_moment_nm),
        body_force_n: svec_add(a.body_force_n, b.body_force_n),
        body_moment_nm: svec_add(a.body_moment_nm, b.body_moment_nm),
        inertial_pos_m: svec_add(a.inertial_pos_m, b.inertial_pos_m),
        inertial_vel_mps: svec_add(a.inertial_vel_mps, b.inertial_vel_mps),
        inertial_accel_mps2: svec_add(a.inertial_accel_mps2, b.inertial_accel_mps2),
        quat_b2i: squat_add(a.quat_b2i, b.quat_b2i),
        body_ang_vel_radps: svec_add(a.body_ang_vel_radps, b.body_ang_vel_radps),
        body_ang_accel_radps2: svec_add(a.body_ang_accel_radps2, b.body_ang_accel_radps2),
        mass_cg_kg: rat_add(a.mass_cg_kg, b.mass_cg_kg),
        i_tensor_cg_kgpm2: smat_add(a.i_tensor_cg_kgpm2, b.i_tensor_cg_kgpm2),
        inv_i_tensor_cg_kgpm2: smat_add(a.inv_i_tensor_cg_kgpm2, b.inv_i_tensor_cg_kgpm2),
    }
}

pub open spec fn srigid_scale(a: SRigid, k: SRat) -> SRigid {
    SRigid {
        intertial_force_n: svec_scale(a.intertial_force_n, k),
        intertial_moment_nm: svec_scale(a.intertial_moment_nm, k),
        body_force_n: svec_scale(a.body_force_n, k),
        body_moment_nm: svec_scale(a.body_moment_nm, k),
        inertial_pos_m: svec_scale(a.inertial_pos_m, k),
        inertial_vel_mps: svec_scale(a.inertial_vel_mps, k),
        inertial_accel_mps2: svec_scale(a.inertial_accel_mps2, k),
        quat_b2i: squat_scale(a.quat_b2i, k),
        body_ang_vel_radps: svec_scale(a.body_ang_vel_radps, k),
        body_ang_accel_radps2: svec_scale(a.body_ang_accel_radps2, k),
        mass_cg_kg: rat_mul(a.mass_cg_kg, k),
        i_tensor_cg_kgpm2: smat_scale(a.i_tensor_cg_kgpm2, k),
        inv_i_tensor_cg_kgpm2: smat_scale(a.inv_i_tensor_cg_kgpm2, k),
    }
}

pub open spec fn srigid_div(a: SRigid, k: SRat) -> SRigid {
    SRigid {
        intertial_force_n: svec_div(a.intertial_force_n, k),
        intertial_moment_nm: svec_div(a.intertial_moment_nm, k),
        body_force_n: svec_div(a.body_force_n, k),
        body_moment_nm: svec_div(a.body_moment_nm, k),
        inertial_pos_m: svec_div(a.inertial_pos_m, k),
        inertial_vel_mps: svec_div(a.inertial_vel_mps, k),
        inertial_accel_mps2: svec_div(a.inertial_accel_mps2, k),
        quat_b2i: squat_div(a.quat_b2i, k),
        body_ang_vel_radps: svec_div(a.body_ang_vel_radps, k),
        body_ang_accel_radps2: svec_div(a.body_ang_accel_radps2, k),
        mass_cg_kg: rat_div(a.mass_cg_kg, k),
        i_tensor_cg_kgpm2: smat_div(a.i_tensor_cg_kgpm2, k),
        inv_i_tensor_cg_kgpm2: smat_div(a.inv_i_tensor_cg_kgpm2, k),
    }
}

/// The envelope of `I w`, the angular momentum the dynamics reads.
pub open spec fn srigid_idw_env(m: SRigid) -> SVec3 {
    SVec3 {
        i: svec_dot(svec_mag(srow1(m.i_tensor_cg_kgpm2)), svec_mag(m.body_ang_vel_radps)),
        j: svec_dot(svec_mag(srow2(m.i_tensor_cg_kgpm2)), svec_mag(m.body_ang_vel_radps)),
        k: svec_dot(svec_mag(srow3(m.i_tensor_cg_kgpm2)), svec_mag(m.body_ang_vel_radps)),
    }
}

/// The effects step succeeds when the mass is nonzero and the envelope of
/// every exact intermediate of both acceleration computations fits.
pub open spec fn srigid_effects_fits(m: SRigid) -> bool {
    let tfenv = svec_add(
        svec_mag(m.intertial_force_n),
        squat_transform_env(m.quat_b2i, m.body_force_n),
    );
    let tmenv = svec_add(
        svec_mag(m.intertial_moment_nm),
        squat_transform_env(m.quat_b2i, m.body_moment_nm),
    );
    let idwenv = srigid_idw_env(m);
    let wcenv = scross_env(svec_mag(m.body_ang_vel_radps), idwenv);
    let mmenv = svec_add(tmenv, wcenv);
    &&& m.mass_cg_kg.n != 0
    &&& squat_transform_fits(m.quat_b2i, m.body_force_n)
    &&& squat_transform_fits(m.quat_b2i, m.body_moment_nm)
    &&& svec_fits_env(tfenv)
    &&& svec_fits_env(tmenv)
    &&& svec_fits_env(svec_div(tfenv, rat_mag(m.mass_cg_kg)))
    &&& svec_dot_fits(srow1(m.i_tensor_cg_kgpm2), m.body_ang_vel_radps)
    &&& svec_dot_fits(srow2(m.i_tensor_cg_kgpm2), m.body_ang_vel_radps)
    &&& svec_dot_fits(srow3(m.i_tensor_cg_kgpm2), m.body_ang_vel_radps)
    &&& svec_fits_env(wcenv)
    &&& svec_fits_env(mmenv)
    &&& rat_fits_env(svec_dot(svec_mag(srow1(m.inv_i_tensor_cg_kgpm2)), mmenv))
    &&& rat_fits_env(svec_dot(svec_mag(srow2(m.inv_i_tensor_cg_kgpm2)), mmenv))
    &&& rat_fits_env(svec_dot(svec_mag(srow3(m.inv_i_tensor_cg_kgpm2)), mmenv))
}

/// The derivative exists when the attitude kinematic rate does.
pub open spec fn srigid_derivative_fits(m: SRigid) -> bool {
    squat_derivative_fits(m.quat_b2i, m.body_ang_vel_radps)
}

/// Fieldwise addition succeeds when every field's magnitude envelope fits.
pub open spec fn srigid_add_fits(a: SRigid, b: SRigid) -> bool {
    &&& svec_fits_env(svec_add(svec_mag(a.intertial_force_n), svec_mag(b.intertial_force_n)))
    &&& svec_fits_env(svec_add(svec_mag(a.intertial_moment_nm), svec_mag(b.intertial_moment_nm)))
    &&& svec_fits_env(svec_add(svec_mag(a.body_force_n), svec_mag(b.body_force_n)))
    &&& svec_fits_env(svec_add(svec_mag(a.body_moment_nm), svec_mag(b.body_moment_nm)))
    &&& svec_fits_env(svec_add(svec_mag(a.inertial_pos_m), svec_mag(b.inertial_pos_m)))
    &&& svec_fits_env(svec_add(svec_mag(a.inertial_vel_mps), svec_mag(b.inertial_vel_mps)))
    &&& svec_fits_env(svec_add(svec_mag(a.inertial_accel_mps2), svec_mag(b.inertial_accel_mps2)))
    &&& squat_fits_env(squat_add(squat_mag(a.quat_b2i), squat_mag(b.quat_b2i)))
    &&& svec_fits_env(svec_add(svec_mag(a.body_ang_vel_radps), svec_mag(b.body_ang_vel_radps)))
    &&& svec_fits_env(
        svec_add(svec_mag(a.body_ang_accel_radps2), svec_mag(b.body_ang_accel_radps2)),
    )
    &&& rat_fits_env(rat_add(rat_mag(a.mass_cg_kg), rat_mag(b.mass_cg_kg)))
    &&& smat_fits_env(smat_add(smat_mag(a.i_tensor_cg_kgpm2), smat_mag(b.i_tensor_cg_kgpm2)))
    &&& smat_fits_env(
        smat_add(smat_mag(a.inv_i_tensor_cg_kgpm2), smat_mag(b.inv_i_tensor_cg_kgpm2)),
    )
}

/// Fieldwise scaling succeeds when every field's magnitude envelope fits.
pub open spec fn srigid_scale_fits(a: SRigid, k: SRat) -> bool {
    &&& svec_fits_env(svec_scale(svec_mag(a.intertial_force_n), rat_mag(k)))
    &&& svec_fits_env(svec_scale(svec_mag(a.intertial_moment_nm), rat_mag(k)))
    &&& svec_fits_env(svec_scale(svec_mag(a.body_force_n), rat_mag(k)))
    &&& svec_fits_env(svec_scale(svec_mag(a.body_moment_nm), rat_mag(k)))
    &&& svec_fits_env(svec_scale(svec_mag(a.inertial_pos_m), rat_mag(k)))
    &&& svec_fits_env(svec_scale(svec_mag(a.inertial_vel_mps), rat_mag(k)))
    &&& svec_fits_env(svec_scale(svec_mag(a.inertial_accel_mps2), rat_mag(k)))
    &&& squat_fits_env(squat_scale(squat_mag(a.quat_b2i), rat_mag(k)))
    &&& svec_fits_env(svec_scale(svec_mag(a.body_ang_vel_radps), rat_mag(k)))
    &&& svec_fits_env(svec_scale(svec_mag(a.body_ang_accel_radps2), rat_mag(k)))
    &&& rat_fits_env(rat_mul(rat_mag(a.mass_cg_kg), rat_mag(k)))
    &&& smat_fits_env(smat_scale(smat_mag(a.i_tensor_cg_kgpm2), rat_mag(k)))
    &&& smat_fits_env(smat_scale(smat_mag(a.inv_i_tensor_cg_kgpm2), rat_mag(k)))
}

/// Fieldwise division succeeds for a nonzero divisor when every field's
/// magnitude envelope fits.
pub open spec fn srigid_div_fits(a: SRigid, k: SRat) -> bool {
    &&& k.n != 0
    &&& svec_fits_env(svec_div(svec_mag(a.intertial_force_n), rat_mag(k)))
    &&& svec_fits_env(svec_div(svec_mag(a.intertial_moment_nm), rat_mag(k)))
    &&& svec_fits_env(svec_div(svec_mag(a.body_force_n), rat_mag(k)))
    &&& svec_fits_env(svec_div(svec_mag(a.body_moment_nm), rat_mag(k)))
    &&& svec_fits_env(svec_div(svec_mag(a.inertial_pos_m), rat_mag(k)))
    &&& svec_fits_env(svec_div(svec_mag(a.inertial_vel_mps), rat_mag(k)))
    &&& svec_fits_env(svec_div(svec_mag(a.inertial_accel_mps2), rat_mag(k)))
    &&& squat_fits_env(squat_div(squat_mag(a.quat_b2i), rat_mag(k)))
    &&& svec_fits_env(svec_div(svec_mag(a.body_ang_vel_radps), rat_mag(k)))
    &&& svec_fits_env(svec_div(svec_mag(a.body_ang_accel_radps2), rat_mag(k)))
    &&& rat_fits_env(rat_div(rat_mag(a.mass_cg_kg), rat_mag(k)))
    &&& smat_fits_env(smat_div(smat_mag(a.i_tensor_cg_kgpm2), rat_mag(k)))
    &&& smat_fits_env(smat_div(smat_mag(a.inv_i_tensor_cg_kgpm2), rat_mag(k)))
}

/// The identity body: at rest at the origin, identity attitude, unit mass,
/// identity inertia tensor.
pub open spec fn srigid_identity() -> SRigid {
    SRigid {
        intertial_force_n: svec_zero(),
        intertial_moment_nm: svec_zero(),
        body_force_n: svec_zero(),
        body_moment_nm: svec_zero(),
        inertial_pos_m: svec_zero(),
        inertial_vel_mps: svec_zero(),
        inertial_accel_mps2: svec_zero(),
        quat_b2i: squat_identity(),
        body_ang_vel_radps: svec_zero(),
        body_ang_accel_radps2: svec_zero(),
        mass_cg_kg: rat_int(1),
        i_tensor_cg_kgpm2: smat_identity(),
        inv_i_tensor_cg_kgpm2: smat_identity(),
    }
}

/// Executable rigid body over exact rationals.
#[derive(Debug, Clone, Copy)]
pub struct RigidBody {
    // Forces and moments, set externally before each step.
    pub intertial_force_n: Vector3,
    pub intertial_moment_nm: Vector3,
    pub body_force_n: Vector3,
    pub body_moment_nm: Vector3,
    // State.
    pub inertial_pos_m: Vector3,
    pub inertial_vel_mps: Vector3,
    pub inertial_accel_mps2: Vector3,
    pub quat_b2i: Quaternion,
    pub body_ang_vel_radps: Vector3,
    pub body_ang_accel_radps2: Vector3,
    // Mass properties.
    pub mass_cg_kg: Rat,
    pub i_tensor_cg_kgpm2: Matrix3x3,
    pub inv_i_tensor_cg_kgpm2: Matrix3x3,
}

impl View for RigidBody {
    type V = SRigid;

    open spec fn view(&self) -> SRigid {
        SRigid {
            intertial_force_n: self.intertial_force_n@,
            intertial_moment_nm: self.intertial_moment_nm@,
            body_force_n: self.body_force_n@,
            body_moment_nm: self.body_moment_nm@,
            inertial_pos_m: self.inertial_pos_m@,
            inertial_vel_mps: self.inertial_vel_mps@,
            inertial_accel_mps2: self.inertial_accel_mps2@,
            quat_b2i: self.quat_b2i@,
            body_ang_vel_radps: self.body_ang_vel_radps@,
            body_ang_accel_radps2: self.body_ang_accel_radps2@,
            mass_cg_kg: self.mass_cg_kg@,
            i_tensor_cg_kgpm2: self.i_tensor_cg_kgpm2@,
            inv_i_tensor_cg_kgpm2: self.inv_i_tensor_cg_kgpm2@,
        }
    }
}

impl RigidBody {
    /// Builds a body from its parts and precomputes the inverse of the
    /// inertia tensor. `None` when the tensor's determinant is zero (it has
    /// no inverse) or an exact intermediate does not fit.
    pub fn new(
        intertial_force_n: [Rat; 3],
        intertial_moment_nm: [Rat; 3],
        body_force_n: [Rat; 3],
        body_moment_nm: [Rat; 3],
        inertial_pos_m: [Rat; 3],
        inertial_vel_mps: [Rat; 3],
        inertial_accel_mps2: [Rat; 3],
        quat_b2i: [Rat; 4],
        body_ang_vel_radps: [Rat; 3],
        body_ang_accel_radps2: [Rat; 3],
        mass_cg_kg: Rat,
        i_tensor_cg_kgpm2: [Rat; 9],
    ) -> (r: Option<RigidBody>)
        ensures
            r matches Some(v) ==> {
                &&& v@.intertial_force_n == svec_of_array(intertial_force_n)
                &&& v@.intertial_moment_nm == svec_of_array(intertial_moment_nm)
                &&& v@.body_force_n == svec_of_array(body_force_n)
                &&& v@.body_moment_nm == svec_of_array(body_moment_nm)
                &&& v@.inertial_pos_m == svec_of_array(inertial_pos_m)
                &&& v@.inertial_vel_mps == svec_of_array(inertial_vel_mps)
                &&& v@.inertial_accel_mps2 == svec_of_array(inertial_accel_mps2)
                &&& v@.quat_b2i == squat_of_array(quat_b2i)
                &&& v@.body_ang_vel_radps == svec_of_array(body_ang_vel_radps)
                &&& v@.body_ang_accel_radps2 == svec_of_array(body_ang_accel_radps2)
                &&& v@.mass_cg_kg == mass_cg_kg@
                &&& v@.i_tensor_cg_kgpm2 == smat_of_array(i_tensor_cg_kgpm2)
                &&& smat_eq(
                    v@.inv_i_tensor_cg_kgpm2,
                    smat_inverse(smat_of_array(i_tensor_cg_kgpm2)),
                )
                &&& !rat_eq(smat_det(smat_of_array(i_tensor_cg_kgpm2)), rat_int(0))
            },
            !rat_eq(smat_det(smat_of_array(i_tensor_cg_kgpm2)), rat_int(0)) && smat_inv_fits(
                smat_of_array(i_tensor_cg_kgpm2),
            ) ==> r is Some,
    {
        let i_tensor = Matrix3x3::from_array(i_tensor_cg_kgpm2);
        let inv = match i_tensor.inv() {
            Some(v) => v,
            None => {
                return None;
            },
        };
        Some(
            RigidBody {
                intertial_force_n: Vector3::from_array(intertial_force_n),
                intertial_moment_nm: Vector3::from_array(intertial_moment_nm),
                body_force_n: Vector3::from_array(body_force_n),
                body_moment_nm: Vector3::from_array(body_moment_nm),
                inertial_pos_m: Vector3::from_array(inertial_pos_m),
                inertial_vel_mps: Vector3::from_array(inertial_vel_mps),
                inertial_accel_mps2: Vector3::from_array(inertial_accel_mps2),
                quat_b2i: Quaternion::from_array(quat_b2i),
                body_ang_vel_radps: Vector3::from_array(body_ang_vel_radps),
                body_ang_accel_radps2: Vector3::from_array(body_ang_accel_radps2),
                mass_cg_kg,
                i_tensor_cg_kgpm2: i_tensor,
                inv_i_tensor_cg_kgpm2: inv,
            },
        )
    }

    /// The identity body: at rest, identity attitude, unit mass properties.
    pub fn identity() -> (r: RigidBody)
        ensures
            r@ == srigid_identity(),
    {
        RigidBody {
            intertial_force_n: Vector3::zeros(),
            intertial_moment_nm: Vector3::zeros(),
            body_force_n: Vector3::zeros(),
            body_moment_nm: Vector3::zeros(),
            inertial_pos_m: Vector3::zeros(),
            inertial_vel_mps: Vector3::zeros(),
            inertial_accel_mps2: Vector3::zeros(),
            quat_b2i: Quaternion::identity(),
            body_ang_vel_radps: Vector3::zeros(),
            body_ang_accel_radps2: Vector3::zeros(),
            mass_cg_kg: Rat::one(),
            i_tensor_cg_kgpm2: Matrix3x3::identity(),
            inv_i_tensor_cg_kgpm2: Matrix3x3::identity(),
        }
    }

    pub fn get_pos_m(&self) -> (r: Vector3)
        ensures
            r@ == self@.inertial_pos_m,
    {
        self.inertial_pos_m
    }

    pub fn get_vel_mps(&self) -> (r: Vector3)
        ensures
            r@ == self@.inertial_vel_mps,
    {
        self.inertial_vel_mps
    }

    pub fn get_accel_mps2(&self) -> (r: Vector3)
        ensures
            r@ == self@.inertial_accel_mps2,
    {
        self.inertial_accel_mps2
    }

    pub fn get_quat(&self) -> (r: Quaternion)
        ensures
            r@ == self@.quat_b2i,
    {
        self.quat_b2i
    }

    pub fn get_body_ang_vel_radps(&self) -> (r: Vector3)
        ensures
            r@ == self@.body_ang_vel_radps,
    {
        self.body_ang_vel_radps
    }

    pub fn get_body_ang_accel_radps2(&self) -> (r: Vector3)
        ensures
            r@ == self@.body_ang_accel_radps2,
    {
        self.body_ang_accel_radps2
    }
}

impl Integrate for RigidBody {
    open spec fn s_eq(a: SRigid, b: SRigid) -> bool {
        srigid_eq(a, b)
    }

    open spec fn s_wf(a: SRigid) -> bool {
        srigid_wf(a)
    }

    open spec fn s_effects(a: SRigid) -> SRigid {
        srigid_effects(a)
    }

    open spec fn s_derivative(a: SRigid) -> SRigid {
        srigid_derivative(a)
    }

    open spec fn s_add(a: SRigid, b: SRigid) -> SRigid {
        srigid_add(a, b)
    }

    open spec fn s_scale(a: SRigid, k: SRat) -> SRigid {
        srigid_scale(a, k)
    }

    open spec fn s_div(a: SRigid, k: SRat) -> SRigid {
        srigid_div(a, k)
    }

    open spec fn s_effects_ok(a: SRigid) -> bool {
        srigid_effects_fits(a)
    }

    open spec fn s_derivative_ok(a: SRigid) -> bool {
        srigid_derivative_fits(a)
    }

    open spec fn s_add_ok(a: SRigid, b: SRigid) -> bool {
        srigid_add_fits(a, b)
    }

    open spec fn s_scale_ok(a: SRigid, k: SRat) -> bool {
        srigid_scale_fits(a, k)
    }

    open spec fn s_div_ok(a: SRigid, k: SRat) -> bool {
        srigid_div_fits(a, k)
    }

    proof fn lemma_s_eq_refl(a: SRigid) {
    }

    proof fn lemma_s_eq_trans(a: SRigid, b: SRigid, c: SRigid) {
        lemma_svec_eq_trans(a.intertial_force_n, b.intertial_force_n, c.intertial_force_n);
        lemma_svec_eq_trans(a.intertial_moment_nm, b.intertial_moment_nm, c.intertial_moment_nm);
        lemma_svec_eq_trans(a.body_force_n, b.body_force_n, c.body_force_n);
        lemma_svec_eq_trans(a.body_moment_nm, b.body_moment_nm, c.body_moment_nm);
        lemma_svec_eq_trans(a.inertial_pos_m, b.inertial_pos_m, c.inertial_pos_m);
        lemma_svec_eq_trans(a.inertial_vel_mps, b.inertial_vel_mps, c.inertial_vel_mps);
        lemma_svec_eq_trans(a.inertial_accel_mps2, b.inertial_accel_mps2, c.inertial_accel_mps2);
        lemma_squat_eq_trans(a.quat_b2i, b.quat_b2i, c.quat_b2i);
        lemma_svec_eq_trans(a.body_ang_vel_radps, b.body_ang_vel_radps, c.body_ang_vel_radps);
        lemma_svec_eq_trans(
            a.body_ang_accel_radps2,
            b.body_ang_accel_radps2,
            c.body_ang_accel_radps2,
        );
        lemma_rat_eq_trans(a.mass_cg_kg, b.mass_cg_kg, c.mass_cg_kg);
        lemma_smat_eq_trans(a.i_tensor_cg_kgpm2, b.i_tensor_cg_kgpm2, c.i_tensor_cg_kgpm2);
        lemma_smat_eq_trans(
            a.inv_i_tensor_cg_kgpm2,
            b.inv_i_tensor_cg_kgpm2,
            c.inv_i_tensor_cg_kgpm2,
        );
    }

    proof fn lemma_s_ops_congr(a: SRigid, b: SRigid, a2: SRigid, b2: SRigid, k: SRat) {
        lemma_svec_congr(a.intertial_force_n, b.intertial_force_n, a2.intertial_force_n,
            b2.intertial_force_n, k);
        lemma_svec_congr(a.intertial_moment_nm, b.intertial_moment_nm, a2.intertial_moment_nm,
            b2.intertial_moment_nm, k);
        lemma_svec_congr(a.body_force_n, b.body_force_n, a2.body_force_n, b2.body_force_n, k);
        lemma_svec_congr(a.body_moment_nm, b.body_moment_nm, a2.body_moment_nm, b2.body_moment_nm,
            k);
        lemma_svec_congr(a.inertial_pos_m, b.inertial_pos_m, a2.inertial_pos_m, b2.inertial_pos_m,
            k);
        lemma_svec_congr(a.inertial_vel_mps, b.inertial_vel_mps, a2.inertial_vel_mps,
            b2.inertial_vel_mps, k);
        lemma_svec_congr(a.inertial_accel_mps2, b.inertial_accel_mps2, a2.inertial_accel_mps2,
            b2.inertial_accel_mps2, k);
        lemma_squat_congr(a.quat_b2i, b.quat_b2i, a2.quat_b2i, b2.quat_b2i, k);
        lemma_svec_congr(a.body_ang_vel_radps, b.body_ang_vel_radps, a2.body_ang_vel_radps,
            b2.body_ang_vel_radps, k);
        lemma_svec_congr(a.body_ang_accel_radps2, b.body_ang_accel_radps2,
            a2.body_ang_accel_radps2, b2.body_ang_accel_radps2, k);
        lemma_rat_add_congr(a.mass_cg_kg, b.mass_cg_kg, a2.mass_cg_kg, b2.mass_cg_kg);
        lemma_rat_mul_congr(a.mass_cg_kg, k, a2.mass_cg_kg, k);
        if k.n != 0 {
            lemma_rat_div_congr(a.mass_cg_kg, k, a2.mass_cg_kg, k);
        }
        lemma_smat_congr(a.i_tensor_cg_kgpm2, b.i_tensor_cg_kgpm2, a2.i_tensor_cg_kgpm2,
            b2.i_tensor_cg_kgpm2, svec_zero(), svec_zero(), k);
        lemma_smat_congr(a.inv_i_tensor_cg_kgpm2, b.inv_i_tensor_cg_kgpm2,
            a2.inv_i_tensor_cg_kgpm2, b2.inv_i_tensor_cg_kgpm2, svec_zero(), svec_zero(), k);
        lemma_squat_derivative_congr(a.quat_b2i, a.body_ang_vel_radps, a2.quat_b2i,
            a2.body_ang_vel_radps);
    }

    proof fn lemma_s_ops_wf(a: SRigid, b: SRigid, k: SRat) {
        lemma_svec_ops_wf(a.intertial_force_n, b.intertial_force_n);
        lemma_svec_ops_wf(a.intertial_moment_nm, b.intertial_moment_nm);
        lemma_svec_ops_wf(a.body_force_n, b.body_force_n);
        lemma_svec_ops_wf(a.body_moment_nm, b.body_moment_nm);
        lemma_svec_ops_wf(a.inertial_pos_m, b.inertial_pos_m);
        lemma_svec_ops_wf(a.inertial_vel_mps, b.inertial_vel_mps);
        lemma_svec_ops_wf(a.inertial_accel_mps2, b.inertial_accel_mps2);
        lemma_svec_ops_wf(a.body_ang_vel_radps, b.body_ang_vel_radps);
        lemma_svec_ops_wf(a.body_ang_accel_radps2, b.body_ang_accel_radps2);
        lemma_svec_scale_wf(a.intertial_force_n, k);
        lemma_svec_scale_wf(a.intertial_moment_nm, k);
        lemma_svec_scale_wf(a.body_force_n, k);
        lemma_svec_scale_wf(a.body_moment_nm, k);
        lemma_svec_scale_wf(a.inertial_pos_m, k);
        lemma_svec_scale_wf(a.inertial_vel_mps, k);
        lemma_svec_scale_wf(a.inertial_accel_mps2, k);
        lemma_svec_scale_wf(a.body_ang_vel_radps, k);
        lemma_svec_scale_wf(a.body_ang_accel_radps2, k);
        lemma_squat_ops_wf(a.quat_b2i, b.quat_b2i, a.body_ang_vel_radps, k);
        lemma_rat_ops_wf(a.mass_cg_kg, b.mass_cg_kg);
        lemma_rat_ops_wf(a.mass_cg_kg, k);
        lemma_smat_ops_wf(a.i_tensor_cg_kgpm2, b.i_tensor_cg_kgpm2, svec_zero(), k);
        lemma_smat_ops_wf(a.inv_i_tensor_cg_kgpm2, b.inv_i_tensor_cg_kgpm2, svec_zero(), k);
    }

    fn effects(&mut self) -> (ok: bool) {
        let ghost m = self@;
        let ghost tfenv = svec_add(
            svec_mag(m.intertial_force_n),
            squat_transform_env(m.quat_b2i, m.body_force_n),
        );
        let ghost tmenv = svec_add(
            svec_mag(m.intertial_moment_nm),
            squat_transform_env(m.quat_b2i, m.body_moment_nm),
        );
        let ghost idwenv = srigid_idw_env(m);
        let ghost wcenv = scross_env(svec_mag(m.body_ang_vel_radps), idwenv);
        let ghost mmenv = svec_add(tmenv, wcenv);
        proof {
            use_type_invariant(self.intertial_force_n.i);
            use_type_invariant(self.intertial_force_n.j);
            use_type_invariant(self.intertial_force_n.k);
            use_type_invariant(self.intertial_moment_nm.i);
            use_type_invariant(self.intertial_moment_nm.j);
            use_type_invariant(self.intertial_moment_nm.k);
            use_type_invariant(self.body_ang_vel_radps.i);
            use_type_invariant(self.body_ang_vel_radps.j);
            use_type_invariant(self.body_ang_vel_radps.k);
            use_type_invariant(self.mass_cg_kg);
            use_type_invariant(self.inv_i_tensor_cg_kgpm2.c11);
            use_type_invariant(self.inv_i_tensor_cg_kgpm2.c12);
            use_type_invariant(self.inv_i_tensor_cg_kgpm2.c13);
            use_type_invariant(self.inv_i_tensor_cg_kgpm2.c21);
            use_type_invariant(self.inv_i_tensor_cg_kgpm2.c22);
            use_type_invariant(self.inv_i_tensor_cg_kgpm2.c23);
            use_type_invariant(self.inv_i_tensor_cg_kgpm2.c31);
            use_type_invariant(self.inv_i_tensor_cg_kgpm2.c32);
            use_type_invariant(self.inv_i_tensor_cg_kgpm2.c33);
        }
        let rf = match self.quat_b2i.transform(&self.body_force_n) {
            Some(v) => v,
            None => {
                return false;
            },
        };
        proof {
            lemma_rat_mag_self(m.intertial_force_n.i);
            lemma_rat_mag_self(m.intertial_force_n.j);
            lemma_rat_mag_self(m.intertial_force_n.k);
            lemma_rat_mag_self(rf@.i);
            lemma_rat_mag_self(rf@.j);
            lemma_rat_mag_self(rf@.k);
            let te = squat_transform_env(m.quat_b2i, m.body_force_n);
            lemma_env_mono_add(rat_mag(m.intertial_force_n.i), rat_mag(rf@.i),
                rat_mag(m.intertial_force_n.i), te.i);
            lemma_env_mono_add(rat_mag(m.intertial_force_n.j), rat_mag(rf@.j),
                rat_mag(m.intertial_force_n.j), te.j);
            lemma_env_mono_add(rat_mag(m.intertial_force_n.k), rat_mag(rf@.k),
                rat_mag(m.intertial_force_n.k), te.k);
        }
        let tf = match self.intertial_force_n.add(&rf) {
            Some(v) => v,
            None => {
                return false;
            },
        };
        proof {
            if m.mass_cg_kg.n != 0 {
                lemma_rat_mag_self(m.mass_cg_kg);
                lemma_rat_mag_self(tf@.i);
                lemma_rat_mag_self(tf@.j);
                lemma_rat_mag_self(tf@.k);
                lemma_env_mono_div(rat_mag(tf@.i), rat_mag(m.mass_cg_kg), tfenv.i,
                    rat_mag(m.mass_cg_kg));
                lemma_env_mono_div(rat_mag(tf@.j), rat_mag(m.mass_cg_kg), tfenv.j,
                    rat_mag(m.mass_cg_kg));
                lemma_env_mono_div(rat_mag(tf@.k), rat_mag(m.mass_cg_kg), tfenv.k,
                    rat_mag(m.mass_cg_kg));
            }
        }
        let accel = match tf.div_scalar(&self.mass_cg_kg) {
            Some(v) => v,
            None => {
                return false;
            },
        };
        let rm = match self.quat_b2i.transform(&self.body_moment_nm) {
            Some(v) => v,
            None => {
                return false;
            },
        };
        proof {
            lemma_rat_mag_self(m.intertial_moment_nm.i);
            lemma_rat_mag_self(m.intertial_moment_nm.j);
            lemma_rat_mag_self(m.intertial_moment_nm.k);
            lemma_rat_mag_self(rm@.i);
            lemma_rat_mag_self(rm@.j);
            lemma_rat_mag_self(rm@.k);
            let te = squat_transform_env(m.quat_b2i, m.body_moment_nm);
            lemma_env_mono_add(rat_mag(m.intertial_moment_nm.i), rat_mag(rm@.i),
                rat_mag(m.intertial_moment_nm.i), te.i);
            lemma_env_mono_add(rat_mag(m.intertial_moment_nm.j), rat_mag(rm@.j),
                rat_mag(m.intertial_moment_nm.j), te.j);
            lemma_env_mono_add(rat_mag(m.intertial_moment_nm.k), rat_mag(rm@.k),
                rat_mag(m.intertial_moment_nm.k), te.k);
        }
        let tm = match self.intertial_moment_nm.add(&rm) {
            Some(v) => v,
            None => {
                return false;
            },
        };
        let idw = match self.i_tensor_cg_kgpm2.transform(&self.body_ang_vel_radps) {
            Some(v) => v,
            None => {
                return false;
            },
        };
        proof {
            let wm = svec_mag(m.body_ang_vel_radps);
            lemma_rat_mag_self(m.body_ang_vel_radps.i);
            lemma_rat_mag_self(m.body_ang_vel_radps.j);
            lemma_rat_mag_self(m.body_ang_vel_radps.k);
            lemma_rat_mag_self(idw@.i);
            lemma_rat_mag_self(idw@.j);
            lemma_rat_mag_self(idw@.k);
            lemma_env_mono_mul(wm.j, rat_mag(idw@.k), wm.j, idwenv.k);
            lemma_env_mono_mul(wm.k, rat_mag(idw@.j), wm.k, idwenv.j);
            lemma_env_mono_mul(wm.k, rat_mag(idw@.i), wm.k, idwenv.i);
            lemma_env_mono_mul(wm.i, rat_mag(idw@.k), wm.i, idwenv.k);
            lemma_env_mono_mul(wm.i, rat_mag(idw@.j), wm.i, idwenv.j);
            lemma_env_mono_mul(wm.j, rat_mag(idw@.i), wm.j, idwenv.i);
            lemma_env_mono_add(rat_mul(wm.j, rat_mag(idw@.k)), rat_mul(wm.k, rat_mag(idw@.j)),
                rat_mul(wm.j, idwenv.k), rat_mul(wm.k, idwenv.j));
            lemma_env_mono_add(rat_mul(wm.k, rat_mag(idw@.i)), rat_mul(wm.i, rat_mag(idw@.k)),
                rat_mul(wm.k, idwenv.i), rat_mul(wm.i, idwenv.k));
            lemma_env_mono_add(rat_mul(wm.i, rat_mag(idw@.j)), rat_mul(wm.j, rat_mag(idw@.i)),
                rat_mul(wm.i, idwenv.j), rat_mul(wm.j, idwenv.i));
        }
        let wc = match self.body_ang_vel_radps.cross(&idw) {
            Some(v) => v,
            None => {
                return false;
            },
        };
        proof {
            lemma_rat_mag_self(tm@.i);
            lemma_rat_mag_self(tm@.j);
            lemma_rat_mag_self(tm@.k);
            lemma_rat_mag_self(wc@.i);
            lemma_rat_mag_self(wc@.j);
            lemma_rat_mag_self(wc@.k);
            lemma_env_mono_add(rat_mag(tm@.i), rat_mag(wc@.i), tmenv.i, wcenv.i);
            lemma_env_mono_add(rat_mag(tm@.j), rat_mag(wc@.j), tmenv.j, wcenv.j);
            lemma_env_mono_add(rat_mag(tm@.k), rat_mag(wc@.k), tmenv.k, wcenv.k);
        }
        let mm = match tm.sub(&wc) {
            Some(v) => v,
            None => {
                return false;
            },
        };
        proof {
            lemma_svec_dot_fits_mono(srow1(m.inv_i_tensor_cg_kgpm2), mm@, mmenv);
            lemma_svec_dot_fits_mono(srow2(m.inv_i_tensor_cg_kgpm2), mm@, mmenv);
            lemma_svec_dot_fits_mono(srow3(m.inv_i_tensor_cg_kgpm2), mm@, mmenv);
        }
        let aa = match self.inv_i_tensor_cg_kgpm2.transform(&mm) {
            Some(v) => v,
            None => {
                return false;
            },
        };
        proof {
            let tfs = srigid_total_force(m);
            let tms = srigid_total_moment(m);
            let idws = smat_vec(m.i_tensor_cg_kgpm2, m.body_ang_vel_radps);
            let wcs = srigid_gyro_moment(m);
            let mms = svec_sub(tms, wcs);
            lemma_squat_transform_wf(m.quat_b2i, m.body_force_n);
            lemma_squat_transform_wf(m.quat_b2i, m.body_moment_nm);
            // total force
            lemma_svec_congr(m.intertial_force_n, rf@, m.intertial_force_n,
                squat_transform(m.quat_b2i, m.body_force_n), rat_int(1));
            lemma_svec_ops_wf(m.intertial_force_n, rf@);
            lemma_svec_eq_trans(tf@, svec_add(m.intertial_force_n, rf@), tfs);
            // acceleration
            lemma_svec_ops_wf(m.intertial_force_n, squat_transform(m.quat_b2i, m.body_force_n));
            lemma_svec_congr(tf@, tf@, tfs, tfs, m.mass_cg_kg);
            lemma_svec_scale_wf(tf@, m.mass_cg_kg);
            lemma_svec_eq_trans(accel@, svec_div(tf@, m.mass_cg_kg), svec_div(tfs, m.mass_cg_kg));
            // total moment
            lemma_svec_congr(m.intertial_moment_nm, rm@, m.intertial_moment_nm,
                squat_transform(m.quat_b2i, m.body_moment_nm), rat_int(1));
            lemma_svec_ops_wf(m.intertial_moment_nm, rm@);
            lemma_svec_eq_trans(tm@, svec_add(m.intertial_moment_nm, rm@), tms);
            lemma_svec_ops_wf(m.intertial_moment_nm, squat_transform(m.quat_b2i,
                m.body_moment_nm));
            // gyroscopic term
            lemma_smat_ops_wf(m.i_tensor_cg_kgpm2, m.i_tensor_cg_kgpm2, m.body_ang_vel_radps,
                rat_int(1));
            lemma_svec_congr(m.body_ang_vel_radps, idw@, m.body_ang_vel_radps, idws, rat_int(1));
            lemma_svec_ops_wf(m.body_ang_vel_radps, idw@);
            lemma_svec_eq_trans(wc@, svec_cross(m.body_ang_vel_radps, idw@), wcs);
            lemma_svec_ops_wf(m.body_ang_vel_radps, idws);
            // moment minus gyroscopic term
            lemma_svec_congr(tm@, wc@, tms, wcs, rat_int(1));
            lemma_svec_ops_wf(tm@, wc@);
            lemma_svec_eq_trans(mm@, svec_sub(tm@, wc@), mms);
            lemma_svec_ops_wf(tms, wcs);
            // angular acceleration
            lemma_smat_congr(m.inv_i_tensor_cg_kgpm2, m.inv_i_tensor_cg_kgpm2,
                m.inv_i_tensor_cg_kgpm2, m.inv_i_tensor_cg_kgpm2, mm@, mms, rat_int(1));
            lemma_smat_ops_wf(m.inv_i_tensor_cg_kgpm2, m.inv_i_tensor_cg_kgpm2, mm@, rat_int(1));
            lemma_svec_eq_trans(aa@, smat_vec(m.inv_i_tensor_cg_kgpm2, mm@), smat_vec(
                m.inv_i_tensor_cg_kgpm2, mms));
        }
        self.inertial_accel_mps2 = accel;
        self.body_ang_accel_radps2 = aa;
        true
    }

    fn get_derivative(&self) -> (r: Option<Self>) {
        let qd = match self.quat_b2i.derivative(&self.body_ang_vel_radps) {
            Some(v) => v,
            None => {
                return None;
            },
        };
        let z = Rat::zero();
        Some(
            RigidBody {
                intertial_force_n: Vector3::zeros(),
                intertial_moment_nm: Vector3::zeros(),
                body_force_n: Vector3::zeros(),
                body_moment_nm: Vector3::zeros(),
                inertial_pos_m: self.inertial_vel_mps,
                inertial_vel_mps: self.inertial_accel_mps2,
                inertial_accel_mps2: Vector3::zeros(),
                quat_b2i: qd,
                body_ang_vel_radps: self.body_ang_accel_radps2,
                body_ang_accel_radps2: Vector3::zeros(),
                mass_cg_kg: z,
                i_tensor_cg_kgpm2: Matrix3x3::of(z),
                inv_i_tensor_cg_kgpm2: Matrix3x3::of(z),
            },
        )
    }

    fn add(&self, other: &Self) -> (r: Option<Self>) {
        let intertial_force_n = match self.intertial_force_n.add(&other.intertial_force_n) {
            Some(v) => v,
            None => {
                return None;
            },
        };
        let intertial_moment_nm = match self.intertial_moment_nm.add(&other.intertial_moment_nm) {
            Some(v) => v,
            None => {
                return None;
            },
        };
        let body_force_n = match self.body_force_n.add(&other.body_force_n) {
            Some(v) => v,
            None => {
                return None;
            },
        };
        let body_moment_nm = match self.body_moment_nm.add(&other.body_moment_nm) {
            Some(v) => v,
            None => {
                return None;
            },
        };
        let inertial_pos_m = match self.inertial_pos_m.add(&other.inertial_pos_m) {
            Some(v) => v,
            None => {
                return None;
            },
        };
        let inertial_vel_mps = match self.inertial_vel_mps.add(&other.inertial_vel_mps) {
            Some(v) => v,
            None => {
                return None;
            },
        };
        let inertial_accel_mps2 = match self.inertial_accel_mps2.add(&other.inertial_accel_mps2) {
            Some(v) => v,
            None => {
                return None;
            },
        };
        let quat_b2i = match self.quat_b2i.add(&other.quat_b2i) {
            Some(v) => v,
            None => {
                return None;
            },
        };
        let body_ang_vel_radps = match self.body_ang_vel_radps.add(&other.body_ang_vel_radps) {
            Some(v) => v,
            None => {
                return None;
            },
        };
        let body_ang_accel_radps2 = match self.body_ang_accel_radps2.add(
            &other.body_ang_accel_radps2,
        ) {
            Some(v) => v,
            None => {
                return None;
            },
        };
        let mass_cg_kg = match self.mass_cg_kg.add(&other.mass_cg_kg) {
            Some(v) => v,
            None => {
                return None;
            },
        };
        let i_tensor_cg_kgpm2 = match self.i_tensor_cg_kgpm2.add(&other.i_tensor_cg_kgpm2) {
            Some(v) => v,
            None => {
                return None;
            },
        };
        let inv_i_tensor_cg_kgpm2 = match self.inv_i_tensor_cg_kgpm2.add(
            &other.inv_i_tensor_cg_kgpm2,
        ) {
            Some(v) => v,
            None => {
                return None;
            },
        };
        Some(
            RigidBody {
                intertial_force_n,
                intertial_moment_nm,
                body_force_n,
                body_moment_nm,
                inertial_pos_m,
                inertial_vel_mps,
                inertial_accel_mps2,
                quat_b2i,
                body_ang_vel_radps,
                body_ang_accel_radps2,
                mass_cg_kg,
                i_tensor_cg_kgpm2,
                inv_i_tensor_cg_kgpm2,
            },
        )
    }

    fn scale(&self, k: &Rat) -> (r: Option<Self>) {
        let intertial_force_n = match self.intertial_force_n.scale(k) {
            Some(v) => v,
            None => {
                return None;
            },
        };
        let intertial_moment_nm = match self.intertial_moment_nm.scale(k) {
            Some(v) => v,
            None => {
                return None;
            },
        };
        let body_force_n = match self.body_force_n.scale(k) {
            Some(v) => v,
            None => {
                return None;
            },
        };
        let body_moment_nm = match self.body_moment_nm.scale(k) {
            Some(v) => v,
            None => {
                return None;
            },
        };
        let inertial_pos_m = match self.inertial_pos_m.scale(k) {
            Some(v) => v,
            None => {
                return None;
            },
        };
        let inertial_vel_mps = match self.inertial_vel_mps.scale(k) {
            Some(v) => v,
            None => {
                return None;
            },
        };
        let inertial_accel_mps2 = match self.inertial_accel_mps2.scale(k) {
            Some(v) => v,
            None => {
                return None;
            },
        };
        let quat_b2i = match self.quat_b2i.scale(k) {
            Some(v) => v,
            None => {
                return None;
            },
        };
        let body_ang_vel_radps = match self.body_ang_vel_radps.scale(k) {
            Some(v) => v,
            None => {
                return None;
            },
        };
        let body_ang_accel_radps2 = match self.body_ang_accel_radps2.scale(k) {
            Some(v) => v,
            None => {
                return None;
            },
        };
        let mass_cg_kg = match self.mass_cg_kg.mul(k) {
            Some(v) => v,
            None => {
                return None;
            },
        };
        let i_tensor_cg_kgpm2 = match self.i_tensor_cg_kgpm2.scale(k) {
            Some(v) => v,
            None => {
                return None;
            },
        };
        let inv_i_tensor_cg_kgpm2 = match self.inv_i_tensor_cg_kgpm2.scale(k) {
            Some(v) => v,
            None => {
                return None;
            },
        };
        Some(
            RigidBody {
                intertial_force_n,
                intertial_moment_nm,
                body_force_n,
                body_moment_nm,
                inertial_pos_m,
                inertial_vel_mps,
                inertial_accel_mps2,
                quat_b2i,
                body_ang_vel_radps,
                body_ang_accel_radps2,
                mass_cg_kg,
                i_tensor_cg_kgpm2,
                inv_i_tensor_cg_kgpm2,
            },
        )
    }

    fn div(&self, k: &Rat) -> (r: Option<Self>) {
        let intertial_force_n = match self.intertial_force_n.div_scalar(k) {
            Some(v) => v,
            None => {
                return None;
            },
        };
        let intertial_moment_nm = match self.intertial_moment_nm.div_scalar(k) {
            Some(v) => v,
            None => {
                return None;
            },
        };
        let body_force_n = match self.body_force_n.div_scalar(k) {
            Some(v) => v,
            None => {
                return None;
            },
        };
        let body_moment_nm = match self.body_moment_nm.div_scalar(k) {
            Some(v) => v,
            None => {
                return None;
            },
        };
        let inertial_pos_m = match self.inertial_pos_m.div_scalar(k) {
            Some(v) => v,
            None => {
                return None;
            },
        };
        let inertial_vel_mps = match self.inertial_vel_mps.div_scalar(k) {
            Some(v) => v,
            None => {
                return None;
            },
        };
        let inertial_accel_mps2 = match self.inertial_accel_mps2.div_scalar(k) {
            Some(v) => v,
            None => {
                return None;
            },
        };
        let quat_b2i = match self.quat_b2i.div_scalar(k) {
            Some(v) => v,
            None => {
                return None;
            },
        };
        let body_ang_vel_radps = match self.body_ang_vel_radps.div_scalar(k) {
            Some(v) => v,
            None => {
                return None;
            },
        };
        let body_ang_accel_radps2 = match self.body_ang_accel_radps2.div_scalar(k) {
            Some(v) => v,
            None => {
                return None;
            },
        };
        let mass_cg_kg = match self.mass_cg_kg.div(k) {
            Some(v) => v,
            None => {
                return None;
            },
        };
        let i_tensor_cg_kgpm2 = match self.i_tensor_cg_kgpm2.div_scalar(k) {
            Some(v) => v,
            None => {
                return None;
            },
        };
        let inv_i_tensor_cg_kgpm2 = match self.inv_i_tensor_cg_kgpm2.div_scalar(k) {
            Some(v) => v,
            None => {
                return None;
            },
        };
        Some(
            RigidBody {
                intertial_force_n,
                intertial_moment_nm,
                body_force_n,
                body_moment_nm,
                inertial_pos_m,
                inertial_vel_mps,
                inertial_accel_mps2,
                quat_b2i,
                body_ang_vel_radps,
                body_ang_accel_radps2,
                mass_cg_kg,
                i_tensor_cg_kgpm2,
                inv_i_tensor_cg_kgpm2,
            },
        )
    }
}

} // verus!
