//! Quaternions over exact rationals: body-to-reference attitude, rotation of
//! vectors, kinematic rates, and conversion to a direction-cosine matrix.
//!
//! The scalar part comes first: `a + b*i + c*j + d*k`. A quaternion stands
//! for a rotation when it has unit norm; none of these operations
//! renormalizes.

use vstd::prelude::*;

verus! {

use crate::rational::{
    Rat,
    SRat,
    rat_eq,
    rat_wf,
    rat_pos,
    rat_int,
    rat_add,
    rat_sub,
    rat_neg,
    rat_mul,
    rat_div,
    lemma_rat_add_exact,
    lemma_rat_sub_exact,
    lemma_rat_mul_exact,
    lemma_rat_div_exact,
    lemma_rat_mul_congr,
    lemma_rat_neg_congr,
    lemma_rat_add_congr,
    lemma_rat_ops_wf,
    lemma_rat_eq_trans,
};
use crate::rational::{lemma_rat_sub_congr, lemma_rat_div_congr, lemma_rat_nonzero_transfer,
    lemma_rat_le_congr, rat_le};
use crate::rational::{rat_mag, rat_env, rat_under, rat_fits_env, lemma_rat_mag_self,
    lemma_env_mono_add, lemma_env_mono_mul, lemma_env_mono_div};
use crate::vector::{Vector3, SVec3, svec_eq, svec_dot, svec_pos, svec_wf, svec_mag, svec_under,
    svec_dot_fits, lemma_svec_congr, lemma_svec_ops_wf, lemma_svec_dot_fits_mono};
use crate::matrix::{Matrix3x3, SMat3, smat_eq, smat_pos};

/// Mathematical model of a quaternion, scalar part `a` first.
pub struct SQuat {
    pub a: SRat,
    pub b: SRat,
    pub c: SRat,
    pub d: SRat,
}

pub open spec fn squat_wf(q: SQuat) -> bool {
    rat_wf(q.a) && rat_wf(q.b) && rat_wf(q.c) && rat_wf(q.d)
}

pub open spec fn squat_pos(q: SQuat) -> bool {
    rat_pos(q.a) && rat_pos(q.b) && rat_pos(q.c) && rat_pos(q.d)
}

/// Componentwise value equality.
pub open spec fn squat_eq(p: SQuat, q: SQuat) -> bool {
    rat_eq(p.a, q.a) && rat_eq(p.b, q.b) && rat_eq(p.c, q.c) && rat_eq(p.d, q.d)
}

pub open spec fn squat_identity() -> SQuat {
    SQuat { a: rat_int(1), b: rat_int(0), c: rat_int(0), d: rat_int(0) }
}

pub open spec fn squat_conj(q: SQuat) -> SQuat {
    SQuat { a: q.a, b: rat_neg(q.b), c: rat_neg(q.c), d: rat_neg(q.d) }
}

pub open spec fn squat_neg(q: SQuat) -> SQuat {
    SQuat { a: rat_neg(q.a), b: rat_neg(q.b), c: rat_neg(q.c), d: rat_neg(q.d) }
}

/// The componentwise magnitude of a quaternion.
pub open spec fn squat_mag(q: SQuat) -> SQuat {
    SQuat { a: rat_mag(q.a), b: rat_mag(q.b), c: rat_mag(q.c), d: rat_mag(q.d) }
}

pub open spec fn squat_under(v: SQuat, e: SQuat) -> bool {
    rat_under(v.a, e.a) && rat_under(v.b, e.b) && rat_under(v.c, e.c) && rat_under(v.d, e.d)
}

pub open spec fn squat_fits_env(e: SQuat) -> bool {
    rat_fits_env(e.a) && rat_fits_env(e.b) && rat_fits_env(e.c) && rat_fits_env(e.d)
}

/// A four-term inner product, associated left-first as the executable code
/// computes it.
pub open spec fn sdot4(x1: SRat, y1: SRat, x2: SRat, y2: SRat, x3: SRat, y3: SRat, x4: SRat,
    y4: SRat) -> SRat {
    rat_add(rat_add(rat_add(rat_mul(x1, y1), rat_mul(x2, y2)), rat_mul(x3, y3)), rat_mul(x4, y4))
}

/// A four-term inner product succeeds when the envelope of its whole
/// expression, over the operands' magnitudes, fits.
pub open spec fn sdot4_fits(x1: SRat, y1: SRat, x2: SRat, y2: SRat, x3: SRat, y3: SRat, x4: SRat,
    y4: SRat) -> bool {
    rat_fits_env(
        sdot4(
            rat_mag(x1),
            rat_mag(y1),
            rat_mag(x2),
            rat_mag(y2),
            rat_mag(x3),
            rat_mag(y3),
            rat_mag(x4),
            rat_mag(y4),
        ),
    )
}

/// Sets up the envelope nodes of a four-term inner-product tree.
proof fn lemma_sdot4_env_tree(a1: SRat, b1: SRat, a2: SRat, b2: SRat, a3: SRat, b3: SRat,
    a4: SRat, b4: SRat)
    requires
        rat_env(a1) && rat_env(b1) && rat_env(a2) && rat_env(b2),
        rat_env(a3) && rat_env(b3) && rat_env(a4) && rat_env(b4),
    ensures
        rat_env(rat_mul(a1, b1)) && rat_env(rat_mul(a2, b2)) && rat_env(rat_mul(a3, b3))
            && rat_env(rat_mul(a4, b4)),
        rat_env(rat_add(rat_mul(a1, b1), rat_mul(a2, b2))),
        rat_env(rat_add(rat_add(rat_mul(a1, b1), rat_mul(a2, b2)), rat_mul(a3, b3))),
        rat_env(sdot4(a1, b1, a2, b2, a3, b3, a4, b4)),
        rat_mul(a1, b1).n <= sdot4(a1, b1, a2, b2, a3, b3, a4, b4).n && rat_mul(a1, b1).d
            <= sdot4(a1, b1, a2, b2, a3, b3, a4, b4).d,
        rat_mul(a2, b2).n <= sdot4(a1, b1, a2, b2, a3, b3, a4, b4).n && rat_mul(a2, b2).d
            <= sdot4(a1, b1, a2, b2, a3, b3, a4, b4).d,
        rat_mul(a3, b3).n <= sdot4(a1, b1, a2, b2, a3, b3, a4, b4).n && rat_mul(a3, b3).d
            <= sdot4(a1, b1, a2, b2, a3, b3, a4, b4).d,
        rat_mul(a4, b4).n <= sdot4(a1, b1, a2, b2, a3, b3, a4, b4).n && rat_mul(a4, b4).d
            <= sdot4(a1, b1, a2, b2, a3, b3, a4, b4).d,
        rat_add(rat_mul(a1, b1), rat_mul(a2, b2)).n <= sdot4(a1, b1, a2, b2, a3, b3, a4, b4).n
            && rat_add(rat_mul(a1, b1), rat_mul(a2, b2)).d <= sdot4(
            a1,
            b1,
            a2,
            b2,
            a3,
            b3,
            a4,
            b4,
        ).d,
        rat_add(rat_add(rat_mul(a1, b1), rat_mul(a2, b2)), rat_mul(a3, b3)).n <= sdot4(
            a1,
            b1,
            a2,
            b2,
            a3,
            b3,
            a4,
            b4,
        ).n && rat_add(rat_add(rat_mul(a1, b1), rat_mul(a2, b2)), rat_mul(a3, b3)).d <= sdot4(
            a1,
            b1,
            a2,
            b2,
            a3,
            b3,
            a4,
            b4,
        ).d,
{
    lemma_env_mono_mul(a1, b1, a1, b1);
    lemma_env_mono_mul(a2, b2, a2, b2);
    lemma_env_mono_mul(a3, b3, a3, b3);
    lemma_env_mono_mul(a4, b4, a4, b4);
    let m1 = rat_mul(a1, b1);
    let m2 = rat_mul(a2, b2);
    let m3 = rat_mul(a3, b3);
    let m4 = rat_mul(a4, b4);
    lemma_env_mono_add(m1, m2, m1, m2);
    lemma_env_mono_add(rat_add(m1, m2), m3, rat_add(m1, m2), m3);
    lemma_env_mono_add(rat_add(rat_add(m1, m2), m3), m4, rat_add(rat_add(m1, m2), m3), m4);
}

/// The vector-product rows without their signs: the magnitudes the
/// quaternion-vector product works under.
pub open spec fn svmul_fits(p: SQuat, v: SVec3) -> bool {
    svec_dot_fits((SVec3 { i: p.b, j: p.c, k: p.d }), v) && svec_dot_fits(
        (SVec3 { i: p.a, j: p.d, k: p.c }),
        v,
    ) && svec_dot_fits((SVec3 { i: p.d, j: p.a, k: p.b }), v) && svec_dot_fits(
        (SVec3 { i: p.c, j: p.b, k: p.a }),
        v,
    )
}

/// The componentwise result envelope of the quaternion-vector product.
pub open spec fn svmul_env(p: SQuat, v: SVec3) -> SQuat {
    SQuat {
        a: svec_dot(svec_mag((SVec3 { i: p.b, j: p.c, k: p.d })), svec_mag(v)),
        b: svec_dot(svec_mag((SVec3 { i: p.a, j: p.d, k: p.c })), svec_mag(v)),
        c: svec_dot(svec_mag((SVec3 { i: p.d, j: p.a, k: p.b })), svec_mag(v)),
        d: svec_dot(svec_mag((SVec3 { i: p.c, j: p.b, k: p.a })), svec_mag(v)),
    }
}

/// The componentwise result envelope of the Hamilton product.
pub open spec fn squat_mul_env(p: SQuat, q: SQuat) -> SQuat {
    let pm = squat_mag(p);
    let qm = squat_mag(q);
    SQuat {
        a: sdot4(pm.a, qm.a, pm.b, qm.b, pm.c, qm.c, pm.d, qm.d),
        b: sdot4(pm.b, qm.a, pm.a, qm.b, pm.d, qm.c, pm.c, qm.d),
        c: sdot4(pm.c, qm.a, pm.d, qm.b, pm.a, qm.c, pm.b, qm.d),
        d: sdot4(pm.d, qm.a, pm.c, qm.b, pm.b, qm.c, pm.a, qm.d),
    }
}

/// The componentwise result envelope of the sandwich rotation.
pub open spec fn squat_transform_env(p: SQuat, v: SVec3) -> SVec3 {
    let e = svmul_env(p, v);
    let m = squat_mag(p);
    SVec3 {
        i: sdot4(e.b, m.a, e.a, m.b, e.d, m.c, e.c, m.d),
        j: sdot4(e.c, m.a, e.d, m.b, e.a, m.c, e.b, m.d),
        k: sdot4(e.d, m.a, e.c, m.b, e.b, m.c, e.a, m.d),
    }
}

/// The Hamilton product succeeds when each component's inner product does.
pub open spec fn squat_mul_fits(p: SQuat, q: SQuat) -> bool {
    sdot4_fits(p.a, q.a, p.b, q.b, p.c, q.c, p.d, q.d) && sdot4_fits(p.b, q.a, p.a, q.b, p.d,
        q.c, p.c, q.d) && sdot4_fits(p.c, q.a, p.d, q.b, p.a, q.c, p.b, q.d) && sdot4_fits(
        p.d,
        q.a,
        p.c,
        q.b,
        p.b,
        q.c,
        p.a,
        q.d,
    )
}

/// A four-term inner product stays under envelopes of its left operands,
/// and succeeds when that envelope tree fits.
proof fn lemma_sdot4_fits_mono(x1: SRat, y1: SRat, x2: SRat, y2: SRat, x3: SRat, y3: SRat,
    x4: SRat, y4: SRat, e1: SRat, e2: SRat, e3: SRat, e4: SRat)
    requires
        rat_pos(x1) && rat_pos(x2) && rat_pos(x3) && rat_pos(x4),
        rat_pos(y1) && rat_pos(y2) && rat_pos(y3) && rat_pos(y4),
        rat_under(x1, e1) && rat_under(x2, e2) && rat_under(x3, e3) && rat_under(x4, e4),
        rat_env(e1) && rat_env(e2) && rat_env(e3) && rat_env(e4),
    ensures
        rat_fits_env(sdot4(e1, rat_mag(y1), e2, rat_mag(y2), e3, rat_mag(y3), e4, rat_mag(y4)))
            ==> sdot4_fits(x1, y1, x2, y2, x3, y3, x4, y4),
        sdot4(
            rat_mag(x1),
            rat_mag(y1),
            rat_mag(x2),
            rat_mag(y2),
            rat_mag(x3),
            rat_mag(y3),
            rat_mag(x4),
            rat_mag(y4),
        ).n <= sdot4(e1, rat_mag(y1), e2, rat_mag(y2), e3, rat_mag(y3), e4, rat_mag(y4)).n,
        sdot4(
            rat_mag(x1),
            rat_mag(y1),
            rat_mag(x2),
            rat_mag(y2),
            rat_mag(x3),
            rat_mag(y3),
            rat_mag(x4),
            rat_mag(y4),
        ).d <= sdot4(e1, rat_mag(y1), e2, rat_mag(y2), e3, rat_mag(y3), e4, rat_mag(y4)).d,
        rat_env(sdot4(e1, rat_mag(y1), e2, rat_mag(y2), e3, rat_mag(y3), e4, rat_mag(y4))),
{
    lemma_rat_mag_self(x1);
    lemma_rat_mag_self(x2);
    lemma_rat_mag_self(x3);
    lemma_rat_mag_self(x4);
    lemma_rat_mag_self(y1);
    lemma_rat_mag_self(y2);
    lemma_rat_mag_self(y3);
    lemma_rat_mag_self(y4);
    lemma_sdot4_env_tree(rat_mag(x1), rat_mag(y1), rat_mag(x2), rat_mag(y2), rat_mag(x3),
        rat_mag(y3), rat_mag(x4), rat_mag(y4));
    lemma_sdot4_env_tree(e1, rat_mag(y1), e2, rat_mag(y2), e3, rat_mag(y3), e4, rat_mag(y4));
    lemma_env_mono_mul(rat_mag(x1), rat_mag(y1), e1, rat_mag(y1));
    lemma_env_mono_mul(rat_mag(x2), rat_mag(y2), e2, rat_mag(y2));
    lemma_env_mono_mul(rat_mag(x3), rat_mag(y3), e3, rat_mag(y3));
    lemma_env_mono_mul(rat_mag(x4), rat_mag(y4), e4, rat_mag(y4));
    lemma_env_mono_add(
        rat_mul(rat_mag(x1), rat_mag(y1)),
        rat_mul(rat_mag(x2), rat_mag(y2)),
        rat_mul(e1, rat_mag(y1)),
        rat_mul(e2, rat_mag(y2)),
    );
    lemma_env_mono_add(
        rat_add(rat_mul(rat_mag(x1), rat_mag(y1)), rat_mul(rat_mag(x2), rat_mag(y2))),
        rat_mul(rat_mag(x3), rat_mag(y3)),
        rat_add(rat_mul(e1, rat_mag(y1)), rat_mul(e2, rat_mag(y2))),
        rat_mul(e3, rat_mag(y3)),
    );
    lemma_env_mono_add(
        rat_add(
            rat_add(rat_mul(rat_mag(x1), rat_mag(y1)), rat_mul(rat_mag(x2), rat_mag(y2))),
            rat_mul(rat_mag(x3), rat_mag(y3)),
        ),
        rat_mul(rat_mag(x4), rat_mag(y4)),
        rat_add(rat_add(rat_mul(e1, rat_mag(y1)), rat_mul(e2, rat_mag(y2))), rat_mul(e3,
            rat_mag(y3))),
        rat_mul(e4, rat_mag(y4)),
    );
}

/// Quaternion composition `p * q` (Hamilton product).
pub open spec fn squat_mul(p: SQuat, q: SQuat) -> SQuat {
    SQuat {
        a: sdot4(p.a, q.a, rat_neg(p.b), q.b, rat_neg(p.c), q.c, rat_neg(p.d), q.d),
        b: sdot4(p.b, q.a, p.a, q.b, rat_neg(p.d), q.c, p.c, q.d),
        c: sdot4(p.c, q.a, p.d, q.b, p.a, q.c, rat_neg(p.b), q.d),
        d: sdot4(p.d, q.a, rat_neg(p.c), q.b, p.b, q.c, p.a, q.d),
    }
}

/// Product of a quaternion with a pure-vector quaternion `(0, v)`.
pub open spec fn squat_vmul(p: SQuat, v: SVec3) -> SQuat {
    SQuat {
        a: svec_dot(SVec3 { i: rat_neg(p.b), j: rat_neg(p.c), k: rat_neg(p.d) }, v),
        b: svec_dot(SVec3 { i: p.a, j: rat_neg(p.d), k: p.c }, v),
        c: svec_dot(SVec3 { i: p.d, j: p.a, k: rat_neg(p.b) }, v),
        d: svec_dot(SVec3 { i: rat_neg(p.c), j: p.b, k: p.a }, v),
    }
}

pub open spec fn squat_zero() -> SQuat {
    SQuat { a: rat_int(0), b: rat_int(0), c: rat_int(0), d: rat_int(0) }
}

/// Componentwise sum (the vector-space addition the integrator uses, not
/// quaternion composition).
pub open spec fn squat_add(p: SQuat, q: SQuat) -> SQuat {
    SQuat { a: rat_add(p.a, q.a), b: rat_add(p.b, q.b), c: rat_add(p.c, q.c), d: rat_add(p.d,
        q.d) }
}

pub open spec fn squat_scale(q: SQuat, k: SRat) -> SQuat {
    SQuat { a: rat_mul(q.a, k), b: rat_mul(q.b, k), c: rat_mul(q.c, k), d: rat_mul(q.d, k) }
}

pub open spec fn squat_div(q: SQuat, k: SRat) -> SQuat {
    SQuat { a: rat_div(q.a, k), b: rat_div(q.b, k), c: rat_div(q.c, k), d: rat_div(q.d, k) }
}

pub open spec fn squat_div2(q: SQuat) -> SQuat {
    SQuat {
        a: rat_div(q.a, rat_int(2)),
        b: rat_div(q.b, rat_int(2)),
        c: rat_div(q.c, rat_int(2)),
        d: rat_div(q.d, rat_int(2)),
    }
}

/// The sandwich rotation succeeds when the vector product does and every
/// component of the following composition stays in range.
pub open spec fn squat_transform_fits(p: SQuat, v: SVec3) -> bool {
    let e = svmul_env(p, v);
    let m = squat_mag(p);
    svmul_fits(p, v) && rat_fits_env(sdot4(e.a, m.a, e.b, m.b, e.c, m.c, e.d, m.d))
        && rat_fits_env(sdot4(e.b, m.a, e.a, m.b, e.d, m.c, e.c, m.d)) && rat_fits_env(
        sdot4(e.c, m.a, e.d, m.b, e.a, m.c, e.b, m.d),
    ) && rat_fits_env(sdot4(e.d, m.a, e.c, m.b, e.b, m.c, e.a, m.d))
}

/// The kinematic rate succeeds when the vector product does and each halved
/// component stays in range.
pub open spec fn squat_derivative_fits(p: SQuat, v: SVec3) -> bool {
    let e = svmul_env(p, v);
    svmul_fits(p, v) && rat_fits_env(rat_div(e.a, rat_int(2))) && rat_fits_env(
        rat_div(e.b, rat_int(2)),
    ) && rat_fits_env(rat_div(e.c, rat_int(2))) && rat_fits_env(rat_div(e.d, rat_int(2)))
}

/// The vector rotated by the sandwich product `q (0,v) q*`.
pub open spec fn squat_transform(q: SQuat, v: SVec3) -> SVec3 {
    let w = squat_mul(squat_vmul(q, v), squat_conj(q));
    SVec3 { i: w.b, j: w.c, k: w.d }
}

/// The attitude kinematic rate `q' = q (0,w) / 2` for body rate `w`.
pub open spec fn squat_derivative(q: SQuat, w: SVec3) -> SQuat {
    squat_div2(squat_vmul(q, w))
}

/// The direction-cosine matrix of a unit quaternion, by the standard
/// bilinear expansion.
pub open spec fn squat_to_dcm(q: SQuat) -> SMat3 {
    SMat3 {
        c11: sdiag(q.a, q.b, q.c, q.d),
        c12: rat_mul(rat_sub(rat_mul(q.b, q.c), rat_mul(q.a, q.d)), rat_int(2)),
        c13: rat_mul(rat_add(rat_mul(q.b, q.d), rat_mul(q.a, q.c)), rat_int(2)),
        c21: rat_mul(rat_add(rat_mul(q.b, q.c), rat_mul(q.a, q.d)), rat_int(2)),
        c22: sdiag(q.a, q.c, q.b, q.d),
        c23: rat_mul(rat_sub(rat_mul(q.c, q.d), rat_mul(q.a, q.b)), rat_int(2)),
        c31: rat_mul(rat_sub(rat_mul(q.b, q.d), rat_mul(q.a, q.c)), rat_int(2)),
        c32: rat_mul(rat_add(rat_mul(q.c, q.d), rat_mul(q.a, q.b)), rat_int(2)),
        c33: sdiag(q.a, q.d, q.b, q.c),
    }
}

/// `p*p + q*q - r*r - s*s`, associated as the executable code computes it.
pub open spec fn sdiag(p: SRat, q: SRat, r: SRat, s: SRat) -> SRat {
    rat_sub(rat_sub(rat_add(rat_mul(p, p), rat_mul(q, q)), rat_mul(r, r)), rat_mul(s, s))
}

/// The envelope of a diagonal entry: magnitudes add where the entry
/// subtracts.
pub open spec fn sdiag_env(p: SRat, q: SRat, r: SRat, s: SRat) -> SRat {
    rat_add(rat_add(rat_add(rat_mul(p, p), rat_mul(q, q)), rat_mul(r, r)), rat_mul(s, s))
}

/// The envelope of a doubled off-diagonal entry.
pub open spec fn s2term_env(x: SRat, y: SRat, u: SRat, v: SRat) -> SRat {
    rat_mul(rat_add(rat_mul(x, y), rat_mul(u, v)), rat_int(2))
}

/// The conversion to a direction-cosine matrix succeeds when the envelope
/// of every entry fits.
pub open spec fn squat_to_dcm_fits(q: SQuat) -> bool {
    let m = squat_mag(q);
    rat_fits_env(sdiag_env(m.a, m.b, m.c, m.d)) && rat_fits_env(sdiag_env(m.a, m.c, m.b, m.d))
        && rat_fits_env(sdiag_env(m.a, m.d, m.b, m.c)) && rat_fits_env(
        s2term_env(m.b, m.c, m.a, m.d),
    ) && rat_fits_env(s2term_env(m.b, m.d, m.a, m.c)) && rat_fits_env(
        s2term_env(m.c, m.d, m.a, m.b),
    )
}

/// `sdot4` respects value equality of all eight operands.
pub proof fn lemma_sdot4_congr(x1: SRat, y1: SRat, x2: SRat, y2: SRat, x3: SRat, y3: SRat,
    x4: SRat, y4: SRat, x1b: SRat, y1b: SRat, x2b: SRat, y2b: SRat, x3b: SRat, y3b: SRat,
    x4b: SRat, y4b: SRat)
    requires
        rat_eq(x1, x1b) && rat_eq(y1, y1b),
        rat_eq(x2, x2b) && rat_eq(y2, y2b),
        rat_eq(x3, x3b) && rat_eq(y3, y3b),
        rat_eq(x4, x4b) && rat_eq(y4, y4b),
        rat_wf(x1) && rat_wf(y1) && rat_wf(x2) && rat_wf(y2),
        rat_wf(x3) && rat_wf(y3) && rat_wf(x4) && rat_wf(y4),
    ensures
        rat_eq(
            sdot4(x1, y1, x2, y2, x3, y3, x4, y4),
            sdot4(x1b, y1b, x2b, y2b, x3b, y3b, x4b, y4b),
        ),
{
    let m1 = rat_mul(x1, y1);
    let m2 = rat_mul(x2, y2);
    let m3 = rat_mul(x3, y3);
    let m4 = rat_mul(x4, y4);
    lemma_rat_mul_congr(x1, y1, x1b, y1b);
    lemma_rat_mul_congr(x2, y2, x2b, y2b);
    lemma_rat_mul_congr(x3, y3, x3b, y3b);
    lemma_rat_mul_congr(x4, y4, x4b, y4b);
    lemma_rat_add_congr(m1, m2, rat_mul(x1b, y1b), rat_mul(x2b, y2b));
    lemma_rat_add_congr(
        rat_add(m1, m2),
        m3,
        rat_add(rat_mul(x1b, y1b), rat_mul(x2b, y2b)),
        rat_mul(x3b, y3b),
    );
    lemma_rat_add_congr(
        rat_add(rat_add(m1, m2), m3),
        m4,
        rat_add(rat_add(rat_mul(x1b, y1b), rat_mul(x2b, y2b)), rat_mul(x3b, y3b)),
        rat_mul(x4b, y4b),
    );
}

/// `squat_mul` respects value equality of its operands.
pub proof fn lemma_squat_mul_congr(p: SQuat, q: SQuat, p2: SQuat, q2: SQuat)
    requires
        squat_eq(p, p2),
        squat_eq(q, q2),
        squat_wf(p),
        squat_wf(q),
    ensures
        squat_eq(squat_mul(p, q), squat_mul(p2, q2)),
{
    lemma_rat_neg_congr(p.b, p2.b);
    lemma_rat_neg_congr(p.c, p2.c);
    lemma_rat_neg_congr(p.d, p2.d);
    lemma_rat_ops_wf(p.b, p.b);
    lemma_rat_ops_wf(p.c, p.c);
    lemma_rat_ops_wf(p.d, p.d);
    lemma_sdot4_congr(
        p.a, q.a, rat_neg(p.b), q.b, rat_neg(p.c), q.c, rat_neg(p.d), q.d,
        p2.a, q2.a, rat_neg(p2.b), q2.b, rat_neg(p2.c), q2.c, rat_neg(p2.d), q2.d,
    );
    lemma_sdot4_congr(
        p.b, q.a, p.a, q.b, rat_neg(p.d), q.c, p.c, q.d,
        p2.b, q2.a, p2.a, q2.b, rat_neg(p2.d), q2.c, p2.c, q2.d,
    );
    lemma_sdot4_congr(
        p.c, q.a, p.d, q.b, p.a, q.c, rat_neg(p.b), q.d,
        p2.c, q2.a, p2.d, q2.b, p2.a, q2.c, rat_neg(p2.b), q2.d,
    );
    lemma_sdot4_congr(
        p.d, q.a, rat_neg(p.c), q.b, p.b, q.c, p.a, q.d,
        p2.d, q2.a, rat_neg(p2.c), q2.b, p2.b, q2.c, p2.a, q2.d,
    );
}

/// The model of an array of four scalars, scalar part first.
pub open spec fn squat_of_array(a: [Rat; 4]) -> SQuat {
    SQuat { a: a[0]@, b: a[1]@, c: a[2]@, d: a[3]@ }
}

pub proof fn lemma_squat_eq_trans(a: SQuat, b: SQuat, c: SQuat)
    requires
        squat_wf(b),
        squat_eq(a, b),
        squat_eq(b, c),
    ensures
        squat_eq(a, c),
{
    lemma_rat_eq_trans(a.a, b.a, c.a);
    lemma_rat_eq_trans(a.b, b.b, c.b);
    lemma_rat_eq_trans(a.c, b.c, c.c);
    lemma_rat_eq_trans(a.d, b.d, c.d);
}

/// Well-formedness of the rotated vector.
pub proof fn lemma_squat_transform_wf(q: SQuat, v: SVec3)
    requires
        squat_wf(q),
        svec_wf(v),
    ensures
        svec_wf(squat_transform(q, v)),
{
    lemma_squat_vmul_wf(q, v);
    lemma_rat_ops_wf(q.b, q.b);
    lemma_rat_ops_wf(q.c, q.c);
    lemma_rat_ops_wf(q.d, q.d);
    lemma_squat_mul_wf(squat_vmul(q, v), squat_conj(q));
}

/// Componentwise quaternion operations respect componentwise value equality.
pub proof fn lemma_squat_congr(p: SQuat, q: SQuat, p2: SQuat, q2: SQuat, k: SRat)
    requires
        squat_eq(p, p2),
        squat_eq(q, q2),
        squat_wf(p),
        squat_wf(q),
        squat_wf(p2),
        squat_wf(q2),
        rat_wf(k),
    ensures
        squat_eq(squat_add(p, q), squat_add(p2, q2)),
        squat_eq(squat_scale(p, k), squat_scale(p2, k)),
        k.n != 0 ==> squat_eq(squat_div(p, k), squat_div(p2, k)),
        squat_eq(squat_conj(p), squat_conj(p2)),
        squat_eq(squat_neg(p), squat_neg(p2)),
{
    lemma_rat_add_congr(p.a, q.a, p2.a, q2.a);
    lemma_rat_add_congr(p.b, q.b, p2.b, q2.b);
    lemma_rat_add_congr(p.c, q.c, p2.c, q2.c);
    lemma_rat_add_congr(p.d, q.d, p2.d, q2.d);
    lemma_rat_mul_congr(p.a, k, p2.a, k);
    lemma_rat_mul_congr(p.b, k, p2.b, k);
    lemma_rat_mul_congr(p.c, k, p2.c, k);
    lemma_rat_mul_congr(p.d, k, p2.d, k);
    if k.n != 0 {
        lemma_rat_div_congr(p.a, k, p2.a, k);
        lemma_rat_div_congr(p.b, k, p2.b, k);
        lemma_rat_div_congr(p.c, k, p2.c, k);
        lemma_rat_div_congr(p.d, k, p2.d, k);
    }
    lemma_rat_neg_congr(p.a, p2.a);
    lemma_rat_neg_congr(p.b, p2.b);
    lemma_rat_neg_congr(p.c, p2.c);
    lemma_rat_neg_congr(p.d, p2.d);
}

/// The quaternion-vector product respects value equality of both operands.
pub proof fn lemma_squat_vmul_congr(p: SQuat, v: SVec3, p2: SQuat, v2: SVec3)
    requires
        squat_eq(p, p2),
        svec_eq(v, v2),
        squat_wf(p),
        svec_wf(v),
        squat_wf(p2),
        svec_wf(v2),
    ensures
        squat_eq(squat_vmul(p, v), squat_vmul(p2, v2)),
{
    lemma_rat_neg_congr(p.b, p2.b);
    lemma_rat_neg_congr(p.c, p2.c);
    lemma_rat_neg_congr(p.d, p2.d);
    lemma_rat_ops_wf(p.b, p.b);
    lemma_rat_ops_wf(p.c, p.c);
    lemma_rat_ops_wf(p.d, p.d);
    lemma_rat_ops_wf(p2.b, p2.b);
    lemma_rat_ops_wf(p2.c, p2.c);
    lemma_rat_ops_wf(p2.d, p2.d);
    lemma_svec_congr(
        SVec3 { i: rat_neg(p.b), j: rat_neg(p.c), k: rat_neg(p.d) },
        v,
        SVec3 { i: rat_neg(p2.b), j: rat_neg(p2.c), k: rat_neg(p2.d) },
        v2,
        rat_int(1),
    );
    lemma_svec_congr(
        SVec3 { i: p.a, j: rat_neg(p.d), k: p.c },
        v,
        SVec3 { i: p2.a, j: rat_neg(p2.d), k: p2.c },
        v2,
        rat_int(1),
    );
    lemma_svec_congr(
        SVec3 { i: p.d, j: p.a, k: rat_neg(p.b) },
        v,
        SVec3 { i: p2.d, j: p2.a, k: rat_neg(p2.b) },
        v2,
        rat_int(1),
    );
    lemma_svec_congr(
        SVec3 { i: rat_neg(p.c), j: p.b, k: p.a },
        v,
        SVec3 { i: rat_neg(p2.c), j: p2.b, k: p2.a },
        v2,
        rat_int(1),
    );
}

/// The kinematic rate respects value equality of attitude and body rate.
pub proof fn lemma_squat_derivative_congr(p: SQuat, v: SVec3, p2: SQuat, v2: SVec3)
    requires
        squat_eq(p, p2),
        svec_eq(v, v2),
        squat_wf(p),
        svec_wf(v),
        squat_wf(p2),
        svec_wf(v2),
    ensures
        squat_eq(squat_derivative(p, v), squat_derivative(p2, v2)),
{
    lemma_squat_vmul_congr(p, v, p2, v2);
    lemma_squat_vmul_wf(p, v);
    lemma_squat_vmul_wf(p2, v2);
    let m = squat_vmul(p, v);
    let m2 = squat_vmul(p2, v2);
    lemma_rat_div_congr(m.a, rat_int(2), m2.a, rat_int(2));
    lemma_rat_div_congr(m.b, rat_int(2), m2.b, rat_int(2));
    lemma_rat_div_congr(m.c, rat_int(2), m2.c, rat_int(2));
    lemma_rat_div_congr(m.d, rat_int(2), m2.d, rat_int(2));
}

/// Well-formedness of the componentwise operations and the kinematic rate.
pub proof fn lemma_squat_ops_wf(p: SQuat, q: SQuat, v: SVec3, k: SRat)
    requires
        squat_wf(p),
        squat_wf(q),
        svec_wf(v),
        rat_wf(k),
    ensures
        squat_wf(squat_add(p, q)),
        squat_wf(squat_scale(p, k)),
        k.n != 0 ==> squat_wf(squat_div(p, k)),
        squat_wf(squat_conj(p)),
        squat_wf(squat_neg(p)),
        squat_wf(squat_derivative(p, v)),
{
    lemma_rat_ops_wf(p.a, q.a);
    lemma_rat_ops_wf(p.b, q.b);
    lemma_rat_ops_wf(p.c, q.c);
    lemma_rat_ops_wf(p.d, q.d);
    lemma_rat_ops_wf(p.a, k);
    lemma_rat_ops_wf(p.b, k);
    lemma_rat_ops_wf(p.c, k);
    lemma_rat_ops_wf(p.d, k);
    if k.n != 0 {
        crate::rational::lemma_rat_ops_wf(p.a, k);
    }
    lemma_squat_vmul_wf(p, v);
    let m = squat_vmul(p, v);
    lemma_rat_ops_wf(m.a, rat_int(2));
    lemma_rat_ops_wf(m.b, rat_int(2));
    lemma_rat_ops_wf(m.c, rat_int(2));
    lemma_rat_ops_wf(m.d, rat_int(2));
}

// ---------------------------------------------------------------------------
// Conversion from a direction-cosine matrix, by the maximum-trace-element
// method: of the four trace-based candidates, the largest is taken, its
// square root fixes one component, and the off-diagonal sums and differences
// fix the other three; the sign is then made canonical by requiring a
// nonnegative scalar part.
// ---------------------------------------------------------------------------

pub open spec fn smat_tr(m: SMat3) -> SRat {
    rat_add(rat_add(m.c11, m.c22), m.c33)
}

pub open spec fn sdcm_pa(m: SMat3) -> SRat {
    rat_add(rat_int(1), smat_tr(m))
}

pub open spec fn sdcm_pb(m: SMat3) -> SRat {
    rat_sub(rat_add(rat_int(1), rat_mul(m.c11, rat_int(2))), smat_tr(m))
}

pub open spec fn sdcm_pc(m: SMat3) -> SRat {
    rat_sub(rat_add(rat_int(1), rat_mul(m.c22, rat_int(2))), smat_tr(m))
}

pub open spec fn sdcm_pd(m: SMat3) -> SRat {
    rat_sub(rat_add(rat_int(1), rat_mul(m.c33, rat_int(2))), smat_tr(m))
}

/// Which candidate the conversion selects: `pa` when it is no smaller than
/// the rest, then `pb`, `pc`, `pd` in that order.
pub open spec fn sdcm_sel_a(m: SMat3) -> bool {
    rat_le(sdcm_pb(m), sdcm_pa(m)) && rat_le(sdcm_pc(m), sdcm_pa(m)) && rat_le(
        sdcm_pd(m),
        sdcm_pa(m),
    )
}

pub open spec fn sdcm_sel_b(m: SMat3) -> bool {
    !sdcm_sel_a(m) && rat_le(sdcm_pa(m), sdcm_pb(m)) && rat_le(sdcm_pc(m), sdcm_pb(m)) && rat_le(
        sdcm_pd(m),
        sdcm_pb(m),
    )
}

pub open spec fn sdcm_sel_c(m: SMat3) -> bool {
    !sdcm_sel_a(m) && !sdcm_sel_b(m) && rat_le(sdcm_pa(m), sdcm_pc(m)) && rat_le(
        sdcm_pb(m),
        sdcm_pc(m),
    ) && rat_le(sdcm_pd(m), sdcm_pc(m))
}

/// The selected candidate, whose square root seeds the conversion.
pub open spec fn sdcm_p_sel(m: SMat3) -> SRat {
    if sdcm_sel_a(m) {
        sdcm_pa(m)
    } else if sdcm_sel_b(m) {
        sdcm_pb(m)
    } else if sdcm_sel_c(m) {
        sdcm_pc(m)
    } else {
        sdcm_pd(m)
    }
}

/// The quaternion the selected branch builds from the root `s` of its
/// candidate, before sign normalization.
pub open spec fn sdcm_quat_raw(m: SMat3, s: SRat) -> SQuat {
    let half = rat_div(s, rat_int(2));
    let den = sdcm_den(s);
    if sdcm_sel_a(m) {
        SQuat {
            a: half,
            b: rat_div(rat_sub(m.c32, m.c23), den),
            c: rat_div(rat_sub(m.c13, m.c31), den),
            d: rat_div(rat_sub(m.c21, m.c12), den),
        }
    } else if sdcm_sel_b(m) {
        SQuat {
            a: rat_div(rat_sub(m.c32, m.c23), den),
            b: half,
            c: rat_div(rat_add(m.c21, m.c12), den),
            d: rat_div(rat_add(m.c13, m.c31), den),
        }
    } else if sdcm_sel_c(m) {
        SQuat {
            a: rat_div(rat_sub(m.c13, m.c31), den),
            b: rat_div(rat_add(m.c21, m.c12), den),
            c: half,
            d: rat_div(rat_add(m.c32, m.c23), den),
        }
    } else {
        SQuat {
            a: rat_div(rat_sub(m.c21, m.c12), den),
            b: rat_div(rat_add(m.c13, m.c31), den),
            c: rat_div(rat_add(m.c32, m.c23), den),
            d: half,
        }
    }
}

/// A positive exact root of the selected candidate.
pub open spec fn sdcm_root_ok(m: SMat3, s: SRat) -> bool {
    rat_pos(s) && s.n > 0 && rat_eq(rat_mul(s, s), sdcm_p_sel(m))
}

/// Whether the trace candidate is the square of a positive integer; then
/// its exact root exists in every representation.
pub open spec fn sdcm_pa_square(m: SMat3) -> bool {
    exists|k: int| 0 < k && #[trigger] rat_eq(sdcm_pa(m), rat_int(k * k))
}

/// The envelope of the trace of the magnitudes.
pub open spec fn sdcm_tr_env(m: SMat3) -> SRat {
    rat_add(rat_add(rat_mag(m.c11), rat_mag(m.c22)), rat_mag(m.c33))
}

/// The trace-candidate branch of the conversion succeeds when every
/// envelope of its expression tree fits.
pub open spec fn sdcm_quat_a_fits(m: SMat3) -> bool {
    let trenv = sdcm_tr_env(m);
    let paenv = rat_add(rat_int(1), trenv);
    let denenv = sdcm_den(sroot_env(paenv));
    &&& rat_fits_env(trenv)
    &&& rat_fits_env(paenv)
    &&& rat_fits_env(scand_env(rat_mag(m.c11), trenv))
    &&& rat_fits_env(scand_env(rat_mag(m.c22), trenv))
    &&& rat_fits_env(scand_env(rat_mag(m.c33), trenv))
    &&& rat_fits_env(rat_div(sroot_env(paenv), rat_int(2)))
    &&& rat_fits_env(denenv)
    &&& rat_fits_env(rat_div(rat_add(rat_mag(m.c32), rat_mag(m.c23)), denenv))
    &&& rat_fits_env(rat_div(rat_add(rat_mag(m.c13), rat_mag(m.c31)), denenv))
    &&& rat_fits_env(rat_div(rat_add(rat_mag(m.c21), rat_mag(m.c12)), denenv))
}

/// What the conversion returns: the branch quaternion for a positive exact
/// root of the selected candidate, up to overall sign, with a nonnegative
/// scalar part.
pub open spec fn sdcm_quat_rel(m: SMat3, r: SQuat) -> bool {
    exists|s: SRat|
        #[trigger] sdcm_root_ok(m, s) && (squat_eq(r, sdcm_quat_raw(m, s)) || squat_eq(
            r,
            squat_neg(sdcm_quat_raw(m, s)),
        )) && rat_le(rat_int(0), r.a)
}

/// Executable quaternion, scalar part `a` first.
#[derive(Debug, Clone, Copy)]
pub struct Quaternion {
    pub a: Rat,
    pub b: Rat,
    pub c: Rat,
    pub d: Rat,
}

impl View for Quaternion {
    type V = SQuat;

    open spec fn view(&self) -> SQuat {
        SQuat { a: self.a@, b: self.b@, c: self.c@, d: self.d@ }
    }
}

impl Quaternion {
    pub fn new(a: Rat, b: Rat, c: Rat, d: Rat) -> (r: Quaternion)
        ensures
            r@ == (SQuat { a: a@, b: b@, c: c@, d: d@ }),
    {
        Quaternion { a, b, c, d }
    }

    /// The quaternion with `num` in every component.
    pub fn of(num: Rat) -> (r: Quaternion)
        ensures
            r@ == (SQuat { a: num@, b: num@, c: num@, d: num@ }),
    {
        Quaternion { a: num, b: num, c: num, d: num }
    }

    pub fn identity() -> (r: Quaternion)
        ensures
            r@ == squat_identity(),
    {
        Quaternion { a: Rat::one(), b: Rat::zero(), c: Rat::zero(), d: Rat::zero() }
    }

    pub fn from_array(array: [Rat; 4]) -> (r: Quaternion)
        ensures
            r@ == (SQuat { a: array[0]@, b: array[1]@, c: array[2]@, d: array[3]@ }),
    {
        Quaternion { a: array[0], b: array[1], c: array[2], d: array[3] }
    }

    pub fn to_array(&self) -> (r: [Rat; 4])
        ensures
            r[0]@ == self@.a,
            r[1]@ == self@.b,
            r[2]@ == self@.c,
            r[3]@ == self@.d,
    {
        [self.a, self.b, self.c, self.d]
    }

    /// The conjugate, which undoes the rotation of a unit quaternion.
    pub fn conjugate(&self) -> (r: Quaternion)
        ensures
            r@ == squat_conj(self@),
    {
        Quaternion { a: self.a, b: self.b.neg(), c: self.c.neg(), d: self.d.neg() }
    }

    /// Componentwise negation; `-q` stands for the same rotation as `q`.
    pub fn neg(&self) -> (r: Quaternion)
        ensures
            r@ == squat_neg(self@),
    {
        Quaternion { a: self.a.neg(), b: self.b.neg(), c: self.c.neg(), d: self.d.neg() }
    }

    /// Exact Hamilton product, or `None` when an intermediate does not fit;
    /// succeeds whenever every component's magnitude envelope fits.
    pub fn mul(&self, other: &Quaternion) -> (r: Option<Quaternion>)
        ensures
            r matches Some(v) ==> squat_eq(v@, squat_mul(self@, other@)) && squat_pos(v@),
            r matches Some(v) ==> squat_under(v@, squat_mul_env(self@, other@)),
            squat_mul_fits(self@, other@) ==> r is Some,
    {
        proof {
            assert(rat_mag(rat_neg(self@.b)) == rat_mag(self@.b));
            assert(rat_mag(rat_neg(self@.c)) == rat_mag(self@.c));
            assert(rat_mag(rat_neg(self@.d)) == rat_mag(self@.d));
        }
        let a = dot4(&self.a, &other.a, &self.b.neg(), &other.b, &self.c.neg(), &other.c,
            &self.d.neg(), &other.d);
        let b = dot4(&self.b, &other.a, &self.a, &other.b, &self.d.neg(), &other.c, &self.c,
            &other.d);
        let c = dot4(&self.c, &other.a, &self.d, &other.b, &self.a, &other.c, &self.b.neg(),
            &other.d);
        let d = dot4(&self.d, &other.a, &self.c.neg(), &other.b, &self.b, &other.c, &self.a,
            &other.d);
        let a = match a {
            Some(v) => v,
            None => {
                return None;
            },
        };
        let b = match b {
            Some(v) => v,
            None => {
                return None;
            },
        };
        let c = match c {
            Some(v) => v,
            None => {
                return None;
            },
        };
        let d = match d {
            Some(v) => v,
            None => {
                return None;
            },
        };
        Some(Quaternion { a, b, c, d })
    }

    /// Exact product with the pure-vector quaternion `(0, vec)`, or `None`
    /// when an intermediate does not fit.
    pub fn mul_vec(&self, vec: &Vector3) -> (r: Option<Quaternion>)
        ensures
            r matches Some(v) ==> squat_eq(v@, squat_vmul(self@, vec@)) && squat_pos(v@),
            r matches Some(v) ==> squat_under(v@, svmul_env(self@, vec@)),
            svmul_fits(self@, vec@) ==> r is Some,
    {
        proof {
            assert(svec_mag((SVec3 {
                i: rat_neg(self@.b),
                j: rat_neg(self@.c),
                k: rat_neg(self@.d),
            })) == svec_mag((SVec3 { i: self@.b, j: self@.c, k: self@.d })));
            assert(svec_mag((SVec3 { i: self@.a, j: rat_neg(self@.d), k: self@.c })) == svec_mag(
                (SVec3 { i: self@.a, j: self@.d, k: self@.c }),
            ));
            assert(svec_mag((SVec3 { i: self@.d, j: self@.a, k: rat_neg(self@.b) })) == svec_mag(
                (SVec3 { i: self@.d, j: self@.a, k: self@.b }),
            ));
            assert(svec_mag((SVec3 { i: rat_neg(self@.c), j: self@.b, k: self@.a })) == svec_mag(
                (SVec3 { i: self@.c, j: self@.b, k: self@.a }),
            ));
        }
        let a = Vector3::new(self.b.neg(), self.c.neg(), self.d.neg()).dot(vec);
        let b = Vector3::new(self.a, self.d.neg(), self.c).dot(vec);
        let c = Vector3::new(self.d, self.a, self.b.neg()).dot(vec);
        let d = Vector3::new(self.c.neg(), self.b, self.a).dot(vec);
        let a = match a {
            Some(v) => v,
            None => {
                return None;
            },
        };
        let b = match b {
            Some(v) => v,
            None => {
                return None;
            },
        };
        let c = match c {
            Some(v) => v,
            None => {
                return None;
            },
        };
        let d = match d {
            Some(v) => v,
            None => {
                return None;
            },
        };
        Some(Quaternion { a, b, c, d })
    }

    /// Rotates a vector by the sandwich product `q (0,v) q*`, exactly; `None`
    /// when an intermediate does not fit. Stands for the rotation only when
    /// the quaternion has unit norm.
    pub fn transform(&self, vec: &Vector3) -> (r: Option<Vector3>)
        ensures
            r matches Some(v) ==> svec_eq(v@, squat_transform(self@, vec@)) && svec_pos(v@),
            r matches Some(v) ==> svec_under(v@, squat_transform_env(self@, vec@)),
            squat_transform_fits(self@, vec@) ==> r is Some,
    {
        let t = match self.mul_vec(vec) {
            Some(v) => v,
            None => {
                return None;
            },
        };
        proof {
            use_type_invariant(self.a);
            use_type_invariant(self.b);
            use_type_invariant(self.c);
            use_type_invariant(self.d);
            let e = svmul_env(self@, vec@);
            let cj = squat_conj(self@);
            assert(rat_mag(cj.a) == rat_mag(self@.a) && rat_mag(cj.b) == rat_mag(self@.b)
                && rat_mag(cj.c) == rat_mag(self@.c) && rat_mag(cj.d) == rat_mag(self@.d));
            lemma_sdot4_fits_mono(t@.a, cj.a, t@.b, cj.b, t@.c, cj.c, t@.d, cj.d, e.a, e.b, e.c,
                e.d);
            lemma_sdot4_fits_mono(t@.b, cj.a, t@.a, cj.b, t@.d, cj.c, t@.c, cj.d, e.b, e.a, e.d,
                e.c);
            lemma_sdot4_fits_mono(t@.c, cj.a, t@.d, cj.b, t@.a, cj.c, t@.b, cj.d, e.c, e.d, e.a,
                e.b);
            lemma_sdot4_fits_mono(t@.d, cj.a, t@.c, cj.b, t@.b, cj.c, t@.a, cj.d, e.d, e.c, e.b,
                e.a);
        }
        let w = match t.mul(&self.conjugate()) {
            Some(v) => v,
            None => {
                return None;
            },
        };
        proof {
            use_type_invariant(self.a);
            use_type_invariant(self.b);
            use_type_invariant(self.c);
            use_type_invariant(self.d);
            use_type_invariant(vec.i);
            use_type_invariant(vec.j);
            use_type_invariant(vec.k);
            lemma_squat_vmul_wf(self@, vec@);
            lemma_squat_mul_congr(t@, squat_conj(self@), squat_vmul(self@, vec@),
                squat_conj(self@));
            let lhs = squat_mul(t@, squat_conj(self@));
            let rhs = squat_mul(squat_vmul(self@, vec@), squat_conj(self@));
            lemma_squat_mul_wf(t@, squat_conj(self@));
            lemma_rat_eq_trans(w@.b, lhs.b, rhs.b);
            lemma_rat_eq_trans(w@.c, lhs.c, rhs.c);
            lemma_rat_eq_trans(w@.d, lhs.d, rhs.d);
        }
        Some(Vector3 { i: w.b, j: w.c, k: w.d })
    }

    /// The attitude kinematic rate `q (0,w) / 2` for body rate `w`, exactly;
    /// `None` when an intermediate does not fit.
    pub fn derivative(&self, vec: &Vector3) -> (r: Option<Quaternion>)
        ensures
            r matches Some(v) ==> squat_eq(v@, squat_derivative(self@, vec@)) && squat_pos(v@),
            squat_derivative_fits(self@, vec@) ==> r is Some,
    {
        let t = match self.mul_vec(vec) {
            Some(v) => v,
            None => {
                return None;
            },
        };
        let two = Rat::from_int(2);
        proof {
            let e = svmul_env(self@, vec@);
            lemma_rat_mag_self(t@.a);
            lemma_rat_mag_self(t@.b);
            lemma_rat_mag_self(t@.c);
            lemma_rat_mag_self(t@.d);
            assert(rat_mag(two@) == rat_int(2));
            lemma_env_mono_div(rat_mag(t@.a), rat_mag(two@), e.a, rat_int(2));
            lemma_env_mono_div(rat_mag(t@.b), rat_mag(two@), e.b, rat_int(2));
            lemma_env_mono_div(rat_mag(t@.c), rat_mag(two@), e.c, rat_int(2));
            lemma_env_mono_div(rat_mag(t@.d), rat_mag(two@), e.d, rat_int(2));
        }
        let a = match t.a.div(&two) {
            Some(v) => v,
            None => {
                return None;
            },
        };
        let b = match t.b.div(&two) {
            Some(v) => v,
            None => {
                return None;
            },
        };
        let c = match t.c.div(&two) {
            Some(v) => v,
            None => {
                return None;
            },
        };
        let d = match t.d.div(&two) {
            Some(v) => v,
            None => {
                return None;
            },
        };
        proof {
            let vm = squat_vmul(self@, vec@);
            lemma_rat_div_exact(a@, t@.a, two@, vm.a, rat_int(2));
            lemma_rat_div_exact(b@, t@.b, two@, vm.b, rat_int(2));
            lemma_rat_div_exact(c@, t@.c, two@, vm.c, rat_int(2));
            lemma_rat_div_exact(d@, t@.d, two@, vm.d, rat_int(2));
        }
        Some(Quaternion { a, b, c, d })
    }

    /// Attitude error toward a target: `target * conj(self)`. `None` when an
    /// intermediate does not fit.
    pub fn error(&self, target: &Quaternion) -> (r: Option<Quaternion>)
        ensures
            r matches Some(v) ==> squat_eq(v@, squat_mul(target@, squat_conj(self@))) && squat_pos(
                v@,
            ),
            squat_mul_fits(target@, squat_conj(self@)) ==> r is Some,
    {
        target.mul(&self.conjugate())
    }

    /// The direction-cosine matrix of this quaternion by the bilinear
    /// expansion, exactly; `None` when an intermediate does not fit. Stands
    /// for the same rotation only when the quaternion has unit norm.
    pub fn to_dcm(&self) -> (r: Option<Matrix3x3>)
        ensures
            r matches Some(v) ==> smat_eq(v@, squat_to_dcm(self@)) && smat_pos(v@),
            squat_to_dcm_fits(self@) ==> r is Some,
    {
        let two = Rat::from_int(2);
        let c11 = diag_term(&self.a, &self.b, &self.c, &self.d);
        let c22 = diag_term(&self.a, &self.c, &self.b, &self.d);
        let c33 = diag_term(&self.a, &self.d, &self.b, &self.c);
        let c12 = scaled2_term(&self.b, &self.c, &self.a, &self.d, false, &two);
        let c13 = scaled2_term(&self.b, &self.d, &self.a, &self.c, true, &two);
        let c21 = scaled2_term(&self.b, &self.c, &self.a, &self.d, true, &two);
        let c23 = scaled2_term(&self.c, &self.d, &self.a, &self.b, false, &two);
        let c31 = scaled2_term(&self.b, &self.d, &self.a, &self.c, false, &two);
        let c32 = scaled2_term(&self.c, &self.d, &self.a, &self.b, true, &two);
        let c11 = match c11 {
            Some(v) => v,
            None => {
                return None;
            },
        };
        let c12 = match c12 {
            Some(v) => v,
            None => {
                return None;
            },
        };
        let c13 = match c13 {
            Some(v) => v,
            None => {
                return None;
            },
        };
        let c21 = match c21 {
            Some(v) => v,
            None => {
                return None;
            },
        };
        let c22 = match c22 {
            Some(v) => v,
            None => {
                return None;
            },
        };
        let c23 = match c23 {
            Some(v) => v,
            None => {
                return None;
            },
        };
        let c31 = match c31 {
            Some(v) => v,
            None => {
                return None;
            },
        };
        let c32 = match c32 {
            Some(v) => v,
            None => {
                return None;
            },
        };
        let c33 = match c33 {
            Some(v) => v,
            None => {
                return None;
            },
        };
        Some(Matrix3x3 { c11, c12, c13, c21, c22, c23, c31, c32, c33 })
    }

    /// Exact componentwise sum (vector-space addition, not composition), or
    /// `None` when a component does not fit.
    pub fn add(&self, other: &Quaternion) -> (r: Option<Quaternion>)
        ensures
            r matches Some(v) ==> squat_eq(v@, squat_add(self@, other@)) && squat_pos(v@),
            r matches Some(v) ==> squat_under(v@, squat_add(squat_mag(self@), squat_mag(other@))),
            squat_fits_env(squat_add(squat_mag(self@), squat_mag(other@))) ==> r is Some,
    {
        let a = match self.a.add(&other.a) {
            Some(v) => v,
            None => {
                return None;
            },
        };
        let b = match self.b.add(&other.b) {
            Some(v) => v,
            None => {
                return None;
            },
        };
        let c = match self.c.add(&other.c) {
            Some(v) => v,
            None => {
                return None;
            },
        };
        let d = match self.d.add(&other.d) {
            Some(v) => v,
            None => {
                return None;
            },
        };
        Some(Quaternion { a, b, c, d })
    }

    /// Exact componentwise scaling, or `None` when a component does not fit.
    pub fn scale(&self, k: &Rat) -> (r: Option<Quaternion>)
        ensures
            r matches Some(v) ==> squat_eq(v@, squat_scale(self@, k@)) && squat_pos(v@),
            r matches Some(v) ==> squat_under(v@, squat_scale(squat_mag(self@), rat_mag(k@))),
            squat_fits_env(squat_scale(squat_mag(self@), rat_mag(k@))) ==> r is Some,
    {
        let a = match self.a.mul(k) {
            Some(v) => v,
            None => {
                return None;
            },
        };
        let b = match self.b.mul(k) {
            Some(v) => v,
            None => {
                return None;
            },
        };
        let c = match self.c.mul(k) {
            Some(v) => v,
            None => {
                return None;
            },
        };
        let d = match self.d.mul(k) {
            Some(v) => v,
            None => {
                return None;
            },
        };
        Some(Quaternion { a, b, c, d })
    }

    /// Exact componentwise division, or `None` when the divisor is zero or a
    /// component does not fit.
    pub fn div_scalar(&self, k: &Rat) -> (r: Option<Quaternion>)
        ensures
            r matches Some(v) ==> squat_eq(v@, squat_div(self@, k@)) && squat_pos(v@),
            k@.n != 0 && squat_fits_env(squat_div(squat_mag(self@), rat_mag(k@))) ==> r is Some,
    {
        let a = match self.a.div(k) {
            Some(v) => v,
            None => {
                return None;
            },
        };
        let b = match self.b.div(k) {
            Some(v) => v,
            None => {
                return None;
            },
        };
        let c = match self.c.div(k) {
            Some(v) => v,
            None => {
                return None;
            },
        };
        let d = match self.d.div(k) {
            Some(v) => v,
            None => {
                return None;
            },
        };
        Some(Quaternion { a, b, c, d })
    }

    /// Exact componentwise value equality test.
    pub fn equals(&self, other: &Quaternion) -> (r: bool)
        ensures
            r == squat_eq(self@, other@),
    {
        self.a.equals(&other.a) && self.b.equals(&other.b) && self.c.equals(&other.c)
            && self.d.equals(&other.d)
    }
}

pub proof fn lemma_squat_vmul_wf(q: SQuat, v: SVec3)
    requires
        squat_wf(q),
        svec_wf(v),
    ensures
        squat_wf(squat_vmul(q, v)),
{
    lemma_rat_ops_wf(q.b, q.b);
    lemma_rat_ops_wf(q.c, q.c);
    lemma_rat_ops_wf(q.d, q.d);
    crate::vector::lemma_svec_ops_wf(
        SVec3 { i: rat_neg(q.b), j: rat_neg(q.c), k: rat_neg(q.d) },
        v,
    );
    crate::vector::lemma_svec_ops_wf(SVec3 { i: q.a, j: rat_neg(q.d), k: q.c }, v);
    crate::vector::lemma_svec_ops_wf(SVec3 { i: q.d, j: q.a, k: rat_neg(q.b) }, v);
    crate::vector::lemma_svec_ops_wf(SVec3 { i: rat_neg(q.c), j: q.b, k: q.a }, v);
}

pub proof fn lemma_sdot4_wf(x1: SRat, y1: SRat, x2: SRat, y2: SRat, x3: SRat, y3: SRat, x4: SRat,
    y4: SRat)
    requires
        rat_wf(x1) && rat_wf(y1) && rat_wf(x2) && rat_wf(y2),
        rat_wf(x3) && rat_wf(y3) && rat_wf(x4) && rat_wf(y4),
    ensures
        rat_wf(sdot4(x1, y1, x2, y2, x3, y3, x4, y4)),
{
    lemma_rat_ops_wf(x1, y1);
    lemma_rat_ops_wf(x2, y2);
    lemma_rat_ops_wf(x3, y3);
    lemma_rat_ops_wf(x4, y4);
    lemma_rat_ops_wf(rat_mul(x1, y1), rat_mul(x2, y2));
    lemma_rat_ops_wf(rat_add(rat_mul(x1, y1), rat_mul(x2, y2)), rat_mul(x3, y3));
    lemma_rat_ops_wf(
        rat_add(rat_add(rat_mul(x1, y1), rat_mul(x2, y2)), rat_mul(x3, y3)),
        rat_mul(x4, y4),
    );
}

pub proof fn lemma_squat_mul_wf(p: SQuat, q: SQuat)
    requires
        squat_wf(p),
        squat_wf(q),
    ensures
        squat_wf(squat_mul(p, q)),
{
    lemma_rat_ops_wf(p.b, p.b);
    lemma_rat_ops_wf(p.c, p.c);
    lemma_rat_ops_wf(p.d, p.d);
    lemma_sdot4_wf(p.a, q.a, rat_neg(p.b), q.b, rat_neg(p.c), q.c, rat_neg(p.d), q.d);
    lemma_sdot4_wf(p.b, q.a, p.a, q.b, rat_neg(p.d), q.c, p.c, q.d);
    lemma_sdot4_wf(p.c, q.a, p.d, q.b, p.a, q.c, rat_neg(p.b), q.d);
    lemma_sdot4_wf(p.d, q.a, rat_neg(p.c), q.b, p.b, q.c, p.a, q.d);
}

/// A four-term inner product of scalars, exactly; `None` when an
/// intermediate does not fit.
fn dot4(x1: &Rat, y1: &Rat, x2: &Rat, y2: &Rat, x3: &Rat, y3: &Rat, x4: &Rat, y4: &Rat) -> (r:
    Option<Rat>)
    ensures
        r matches Some(v) ==> rat_eq(v@, sdot4(x1@, y1@, x2@, y2@, x3@, y3@, x4@, y4@)) && rat_pos(
            v@,
        ),
        r matches Some(v) ==> rat_under(
            v@,
            sdot4(
                rat_mag(x1@),
                rat_mag(y1@),
                rat_mag(x2@),
                rat_mag(y2@),
                rat_mag(x3@),
                rat_mag(y3@),
                rat_mag(x4@),
                rat_mag(y4@),
            ),
        ),
        sdot4_fits(x1@, y1@, x2@, y2@, x3@, y3@, x4@, y4@) ==> r is Some,
{
    proof {
        use_type_invariant(*x1);
        use_type_invariant(*y1);
        use_type_invariant(*x2);
        use_type_invariant(*y2);
        use_type_invariant(*x3);
        use_type_invariant(*y3);
        use_type_invariant(*x4);
        use_type_invariant(*y4);
        lemma_rat_mag_self(x1@);
        lemma_rat_mag_self(y1@);
        lemma_rat_mag_self(x2@);
        lemma_rat_mag_self(y2@);
        lemma_rat_mag_self(x3@);
        lemma_rat_mag_self(y3@);
        lemma_rat_mag_self(x4@);
        lemma_rat_mag_self(y4@);
        lemma_sdot4_env_tree(rat_mag(x1@), rat_mag(y1@), rat_mag(x2@), rat_mag(y2@),
            rat_mag(x3@), rat_mag(y3@), rat_mag(x4@), rat_mag(y4@));
    }
    let ghost e1 = rat_mul(rat_mag(x1@), rat_mag(y1@));
    let ghost e2 = rat_mul(rat_mag(x2@), rat_mag(y2@));
    let ghost e3 = rat_mul(rat_mag(x3@), rat_mag(y3@));
    let ghost e4 = rat_mul(rat_mag(x4@), rat_mag(y4@));
    let m1 = match x1.mul(y1) {
        Some(v) => v,
        None => {
            return None;
        },
    };
    let m2 = match x2.mul(y2) {
        Some(v) => v,
        None => {
            return None;
        },
    };
    let m3 = match x3.mul(y3) {
        Some(v) => v,
        None => {
            return None;
        },
    };
    let m4 = match x4.mul(y4) {
        Some(v) => v,
        None => {
            return None;
        },
    };
    proof {
        lemma_rat_mag_self(m1@);
        lemma_rat_mag_self(m2@);
        lemma_rat_mag_self(m3@);
        lemma_rat_mag_self(m4@);
        lemma_env_mono_add(rat_mag(m1@), rat_mag(m2@), e1, e2);
    }
    let s1 = match m1.add(&m2) {
        Some(v) => v,
        None => {
            return None;
        },
    };
    proof {
        lemma_rat_mag_self(s1@);
        lemma_env_mono_add(rat_mag(s1@), rat_mag(m3@), rat_add(e1, e2), e3);
    }
    let s2 = match s1.add(&m3) {
        Some(v) => v,
        None => {
            return None;
        },
    };
    proof {
        lemma_rat_mag_self(s2@);
        lemma_env_mono_add(rat_mag(s2@), rat_mag(m4@), rat_add(rat_add(e1, e2), e3), e4);
    }
    let s3 = match s2.add(&m4) {
        Some(v) => v,
        None => {
            return None;
        },
    };
    proof {
        lemma_rat_add_exact(s1@, m1@, m2@, rat_mul(x1@, y1@), rat_mul(x2@, y2@));
        lemma_rat_add_exact(
            s2@,
            s1@,
            m3@,
            rat_add(rat_mul(x1@, y1@), rat_mul(x2@, y2@)),
            rat_mul(x3@, y3@),
        );
        lemma_rat_add_exact(
            s3@,
            s2@,
            m4@,
            rat_add(rat_add(rat_mul(x1@, y1@), rat_mul(x2@, y2@)), rat_mul(x3@, y3@)),
            rat_mul(x4@, y4@),
        );
    }
    Some(s3)
}

/// `p*p + q*q - r*r - s*s`, exactly; `None` when an intermediate does not
/// fit.
fn diag_term(p: &Rat, q: &Rat, r: &Rat, s: &Rat) -> (res: Option<Rat>)
    ensures
        res matches Some(v) ==> rat_eq(v@, sdiag(p@, q@, r@, s@)) && rat_pos(v@),
        res matches Some(v) ==> rat_under(
            v@,
            sdiag_env(rat_mag(p@), rat_mag(q@), rat_mag(r@), rat_mag(s@)),
        ),
        rat_fits_env(sdiag_env(rat_mag(p@), rat_mag(q@), rat_mag(r@), rat_mag(s@))) ==> res
            is Some,
{
    proof {
        use_type_invariant(*p);
        use_type_invariant(*q);
        use_type_invariant(*r);
        use_type_invariant(*s);
        lemma_rat_mag_self(p@);
        lemma_rat_mag_self(q@);
        lemma_rat_mag_self(r@);
        lemma_rat_mag_self(s@);
        lemma_sdot4_env_tree(rat_mag(p@), rat_mag(p@), rat_mag(q@), rat_mag(q@), rat_mag(r@),
            rat_mag(r@), rat_mag(s@), rat_mag(s@));
        assert(sdiag_env(rat_mag(p@), rat_mag(q@), rat_mag(r@), rat_mag(s@)) == sdot4(
            rat_mag(p@),
            rat_mag(p@),
            rat_mag(q@),
            rat_mag(q@),
            rat_mag(r@),
            rat_mag(r@),
            rat_mag(s@),
            rat_mag(s@),
        ));
    }
    let ghost e1 = rat_mul(rat_mag(p@), rat_mag(p@));
    let ghost e2 = rat_mul(rat_mag(q@), rat_mag(q@));
    let ghost e3 = rat_mul(rat_mag(r@), rat_mag(r@));
    let ghost e4 = rat_mul(rat_mag(s@), rat_mag(s@));
    let m1 = match p.mul(p) {
        Some(v) => v,
        None => {
            return None;
        },
    };
    let m2 = match q.mul(q) {
        Some(v) => v,
        None => {
            return None;
        },
    };
    let m3 = match r.mul(r) {
        Some(v) => v,
        None => {
            return None;
        },
    };
    let m4 = match s.mul(s) {
        Some(v) => v,
        None => {
            return None;
        },
    };
    proof {
        lemma_rat_mag_self(m1@);
        lemma_rat_mag_self(m2@);
        lemma_rat_mag_self(m3@);
        lemma_rat_mag_self(m4@);
        lemma_env_mono_add(rat_mag(m1@), rat_mag(m2@), e1, e2);
    }
    let t1 = match m1.add(&m2) {
        Some(v) => v,
        None => {
            return None;
        },
    };
    proof {
        lemma_rat_mag_self(t1@);
        lemma_env_mono_add(rat_mag(t1@), rat_mag(m3@), rat_add(e1, e2), e3);
    }
    let t2 = match t1.sub(&m3) {
        Some(v) => v,
        None => {
            return None;
        },
    };
    proof {
        lemma_rat_mag_self(t2@);
        lemma_env_mono_add(rat_mag(t2@), rat_mag(m4@), rat_add(rat_add(e1, e2), e3), e4);
    }
    let t3 = match t2.sub(&m4) {
        Some(v) => v,
        None => {
            return None;
        },
    };
    proof {
        lemma_rat_add_exact(t1@, m1@, m2@, rat_mul(p@, p@), rat_mul(q@, q@));
        lemma_rat_sub_exact(
            t2@,
            t1@,
            m3@,
            rat_add(rat_mul(p@, p@), rat_mul(q@, q@)),
            rat_mul(r@, r@),
        );
        lemma_rat_sub_exact(
            t3@,
            t2@,
            m4@,
            rat_sub(rat_add(rat_mul(p@, p@), rat_mul(q@, q@)), rat_mul(r@, r@)),
            rat_mul(s@, s@),
        );
    }
    Some(t3)
}

/// `2*(x*y + u*v)` when `plus`, else `2*(x*y - u*v)`, exactly; `None` when
/// an intermediate does not fit.
fn scaled2_term(x: &Rat, y: &Rat, u: &Rat, v: &Rat, plus: bool, two: &Rat) -> (r: Option<Rat>)
    requires
        two@ == rat_int(2),
    ensures
        r matches Some(w) ==> rat_pos(w@) && (if plus {
            rat_eq(w@, rat_mul(rat_add(rat_mul(x@, y@), rat_mul(u@, v@)), rat_int(2)))
        } else {
            rat_eq(w@, rat_mul(rat_sub(rat_mul(x@, y@), rat_mul(u@, v@)), rat_int(2)))
        }),
        r matches Some(w) ==> rat_under(
            w@,
            s2term_env(rat_mag(x@), rat_mag(y@), rat_mag(u@), rat_mag(v@)),
        ),
        rat_fits_env(s2term_env(rat_mag(x@), rat_mag(y@), rat_mag(u@), rat_mag(v@))) ==> r
            is Some,
{
    proof {
        use_type_invariant(*x);
        use_type_invariant(*y);
        use_type_invariant(*u);
        use_type_invariant(*v);
        use_type_invariant(*two);
        lemma_rat_mag_self(x@);
        lemma_rat_mag_self(y@);
        lemma_rat_mag_self(u@);
        lemma_rat_mag_self(v@);
        lemma_env_mono_mul(rat_mag(x@), rat_mag(y@), rat_mag(x@), rat_mag(y@));
        lemma_env_mono_mul(rat_mag(u@), rat_mag(v@), rat_mag(u@), rat_mag(v@));
        lemma_env_mono_add(rat_mul(rat_mag(x@), rat_mag(y@)), rat_mul(rat_mag(u@), rat_mag(v@)),
            rat_mul(rat_mag(x@), rat_mag(y@)), rat_mul(rat_mag(u@), rat_mag(v@)));
        assert(rat_mag(two@) == rat_int(2));
    }
    let ghost e1 = rat_mul(rat_mag(x@), rat_mag(y@));
    let ghost e2 = rat_mul(rat_mag(u@), rat_mag(v@));
    let m1 = match x.mul(y) {
        Some(w) => w,
        None => {
            return None;
        },
    };
    let m2 = match u.mul(v) {
        Some(w) => w,
        None => {
            return None;
        },
    };
    proof {
        lemma_rat_mag_self(m1@);
        lemma_rat_mag_self(m2@);
        lemma_env_mono_add(rat_mag(m1@), rat_mag(m2@), e1, e2);
    }
    let s = if plus {
        match m1.add(&m2) {
            Some(w) => w,
            None => {
                return None;
            },
        }
    } else {
        match m1.sub(&m2) {
            Some(w) => w,
            None => {
                return None;
            },
        }
    };
    proof {
        lemma_rat_mag_self(s@);
        lemma_env_mono_mul(rat_mag(s@), rat_mag(two@), rat_add(e1, e2), rat_int(2));
    }
    let res = match s.mul(two) {
        Some(w) => w,
        None => {
            return None;
        },
    };
    proof {
        if plus {
            lemma_rat_add_exact(s@, m1@, m2@, rat_mul(x@, y@), rat_mul(u@, v@));
            lemma_rat_mul_exact(
                res@,
                s@,
                two@,
                rat_add(rat_mul(x@, y@), rat_mul(u@, v@)),
                rat_int(2),
            );
        } else {
            lemma_rat_sub_exact(s@, m1@, m2@, rat_mul(x@, y@), rat_mul(u@, v@));
            lemma_rat_mul_exact(
                res@,
                s@,
                two@,
                rat_sub(rat_mul(x@, y@), rat_mul(u@, v@)),
                rat_int(2),
            );
        }
    }
    Some(res)
}

/// One off-diagonal component: `(x + y) / den` or `(x - y) / den`, exactly;
/// `None` when the divisor is zero or an intermediate does not fit.
fn quat_ratio(x: &Rat, y: &Rat, plus: bool, den: &Rat) -> (r: Option<Rat>)
    ensures
        r matches Some(v) ==> rat_pos(v@) && den@.n != 0 && (if plus {
            rat_eq(v@, rat_div(rat_add(x@, y@), den@))
        } else {
            rat_eq(v@, rat_div(rat_sub(x@, y@), den@))
        }),
        den@.n != 0 && rat_fits_env(
            rat_div(rat_add(rat_mag(x@), rat_mag(y@)), rat_mag(den@)),
        ) ==> r is Some,
{
    proof {
        use_type_invariant(*x);
        use_type_invariant(*y);
        use_type_invariant(*den);
        lemma_rat_mag_self(x@);
        lemma_rat_mag_self(y@);
        lemma_rat_mag_self(den@);
        lemma_env_mono_add(rat_mag(x@), rat_mag(y@), rat_mag(x@), rat_mag(y@));
        if den@.n != 0 {
            lemma_env_mono_div(rat_add(rat_mag(x@), rat_mag(y@)), rat_mag(den@),
                rat_add(rat_mag(x@), rat_mag(y@)), rat_mag(den@));
        }
    }
    let num = if plus {
        match x.add(y) {
            Some(v) => v,
            None => {
                return None;
            },
        }
    } else {
        match x.sub(y) {
            Some(v) => v,
            None => {
                return None;
            },
        }
    };
    proof {
        lemma_rat_mag_self(num@);
        if den@.n != 0 {
            lemma_env_mono_div(rat_mag(num@), rat_mag(den@), rat_add(rat_mag(x@), rat_mag(y@)),
                rat_mag(den@));
        }
    }
    let res = match num.div(den) {
        Some(v) => v,
        None => {
            return None;
        },
    };
    proof {
        use_type_invariant(*den);
        if plus {
            lemma_rat_div_exact(res@, num@, den@, rat_add(x@, y@), den@);
        } else {
            lemma_rat_div_exact(res@, num@, den@, rat_sub(x@, y@), den@);
        }
    }
    Some(res)
}

/// The root of a branch candidate with its derived values: the exact root
/// `s`, the component `s / 2`, and the shared divisor `4 * (s / 2)`.
fn root_parts(p: &Rat, two: &Rat, four: &Rat) -> (r: Option<(Rat, Rat, Rat)>)
    requires
        two@ == rat_int(2),
        four@ == rat_int(4),
    ensures
        r matches Some(t) ==> {
            &&& rat_eq(rat_mul(t.0@, t.0@), p@)
            &&& t.0@.n >= 0
            &&& rat_pos(t.0@)
            &&& rat_eq(t.1@, rat_div(t.0@, rat_int(2)))
            &&& rat_pos(t.1@)
            &&& rat_eq(t.2@, rat_mul(rat_int(4), rat_div(t.0@, rat_int(2))))
            &&& rat_pos(t.2@)
            &&& rat_under(t.0@, sroot_env(rat_mag(p@)))
            &&& rat_under(t.2@, sdcm_den(sroot_env(rat_mag(p@))))
        },
        p@.n >= 0 && crate::rational::is_square(p@.n * p@.d) && rat_fits_env(
            rat_div(sroot_env(rat_mag(p@)), rat_int(2)),
        ) && rat_fits_env(sdcm_den(sroot_env(rat_mag(p@)))) ==> r is Some,
{
    proof {
        use_type_invariant(*p);
        use_type_invariant(*two);
        use_type_invariant(*four);
        lemma_rat_mag_self(p@);
        assert(rat_mag(two@) == rat_int(2));
        assert(rat_mag(four@) == rat_int(4));
        assert(0 <= rat_mag(p@).n * rat_mag(p@).d) by (nonlinear_arith)
            requires
                0 <= rat_mag(p@).n,
                1 <= rat_mag(p@).d,
        {
        }
        assert(rat_env(sroot_env(rat_mag(p@))));
    }
    let s = match p.sqrt() {
        Some(v) => v,
        None => {
            return None;
        },
    };
    proof {
        lemma_rat_mag_self(s@);
        lemma_env_mono_div(rat_mag(s@), rat_mag(two@), sroot_env(rat_mag(p@)), rat_int(2));
    }
    let half = match s.div(two) {
        Some(v) => v,
        None => {
            return None;
        },
    };
    proof {
        lemma_rat_mag_self(half@);
        lemma_env_mono_mul(rat_mag(four@), rat_mag(half@), rat_int(4),
            rat_div(sroot_env(rat_mag(p@)), rat_int(2)));
    }
    let den = match four.mul(&half) {
        Some(v) => v,
        None => {
            return None;
        },
    };
    proof {
        lemma_rat_mul_exact(den@, four@, half@, rat_int(4), rat_div(s@, rat_int(2)));
    }
    Some((s, half, den))
}

/// Positivity of the trace and of the four branch candidates of a matrix
/// whose entries have positive denominators.
proof fn lemma_sdcm_p_pos(m: SMat3)
    requires
        smat_pos(m),
    ensures
        rat_pos(smat_tr(m)),
        rat_pos(sdcm_pa(m)),
        rat_pos(sdcm_pb(m)),
        rat_pos(sdcm_pc(m)),
        rat_pos(sdcm_pd(m)),
{
    let trd = smat_tr(m).d;
    assert(trd == (m.c11.d * m.c22.d) * m.c33.d);
    assert(trd > 0) by (nonlinear_arith)
        requires
            trd == (m.c11.d * m.c22.d) * m.c33.d,
            m.c11.d > 0,
            m.c22.d > 0,
            m.c33.d > 0,
    {
    }
    assert(sdcm_pa(m).d == 1 * trd);
    assert(sdcm_pb(m).d == (1 * (m.c11.d * 1)) * trd);
    assert(sdcm_pc(m).d == (1 * (m.c22.d * 1)) * trd);
    assert(sdcm_pd(m).d == (1 * (m.c33.d * 1)) * trd);
    assert(sdcm_pb(m).d > 0 && sdcm_pc(m).d > 0 && sdcm_pd(m).d > 0) by (nonlinear_arith)
        requires
            sdcm_pb(m).d == (1 * (m.c11.d * 1)) * trd,
            sdcm_pc(m).d == (1 * (m.c22.d * 1)) * trd,
            sdcm_pd(m).d == (1 * (m.c33.d * 1)) * trd,
            m.c11.d > 0,
            m.c22.d > 0,
            m.c33.d > 0,
            trd > 0,
    {
    }
}

impl Matrix3x3 {
    /// The quaternion of this rotation matrix by the maximum-trace-element
    /// method, with a canonical nonnegative scalar part; `None` when the
    /// selected candidate has no exact rational square root (or is zero), or
    /// an exact intermediate does not fit. Stands for the same rotation only
    /// when the matrix is orthonormal.
    pub fn to_quat(&self) -> (r: Option<Quaternion>)
        ensures
            r matches Some(v) ==> sdcm_quat_rel(self@, v@) && squat_pos(v@),
            sdcm_sel_a(self@) && sdcm_pa_square(self@) && sdcm_quat_a_fits(self@) ==> r is Some,
    {
        proof {
            use_type_invariant(self.c11);
            use_type_invariant(self.c12);
            use_type_invariant(self.c13);
            use_type_invariant(self.c21);
            use_type_invariant(self.c22);
            use_type_invariant(self.c23);
            use_type_invariant(self.c31);
            use_type_invariant(self.c32);
            use_type_invariant(self.c33);
            lemma_sdcm_p_pos(self@);
            lemma_rat_mag_self(self@.c11);
            lemma_rat_mag_self(self@.c12);
            lemma_rat_mag_self(self@.c13);
            lemma_rat_mag_self(self@.c21);
            lemma_rat_mag_self(self@.c22);
            lemma_rat_mag_self(self@.c23);
            lemma_rat_mag_self(self@.c31);
            lemma_rat_mag_self(self@.c32);
            lemma_rat_mag_self(self@.c33);
            let trenv = sdcm_tr_env(self@);
            lemma_env_mono_add(rat_mag(self@.c11), rat_mag(self@.c22), rat_mag(self@.c11),
                rat_mag(self@.c22));
            lemma_env_mono_add(rat_add(rat_mag(self@.c11), rat_mag(self@.c22)),
                rat_mag(self@.c33), rat_add(rat_mag(self@.c11), rat_mag(self@.c22)),
                rat_mag(self@.c33));
            lemma_env_mono_add(rat_int(1), trenv, rat_int(1), trenv);
            lemma_env_mono_mul(rat_mag(self@.c11), rat_int(2), rat_mag(self@.c11), rat_int(2));
            lemma_env_mono_mul(rat_mag(self@.c22), rat_int(2), rat_mag(self@.c22), rat_int(2));
            lemma_env_mono_mul(rat_mag(self@.c33), rat_int(2), rat_mag(self@.c33), rat_int(2));
            lemma_env_mono_add(rat_int(1), rat_mul(rat_mag(self@.c11), rat_int(2)), rat_int(1),
                rat_mul(rat_mag(self@.c11), rat_int(2)));
            lemma_env_mono_add(rat_int(1), rat_mul(rat_mag(self@.c22), rat_int(2)), rat_int(1),
                rat_mul(rat_mag(self@.c22), rat_int(2)));
            lemma_env_mono_add(rat_int(1), rat_mul(rat_mag(self@.c33), rat_int(2)), rat_int(1),
                rat_mul(rat_mag(self@.c33), rat_int(2)));
            lemma_env_mono_add(rat_mag(self@.c32), rat_mag(self@.c23), rat_mag(self@.c32),
                rat_mag(self@.c23));
            lemma_env_mono_add(rat_mag(self@.c13), rat_mag(self@.c31), rat_mag(self@.c13),
                rat_mag(self@.c31));
            lemma_env_mono_add(rat_mag(self@.c21), rat_mag(self@.c12), rat_mag(self@.c21),
                rat_mag(self@.c12));
        }
        let one = Rat::one();
        let two = Rat::from_int(2);
        let four = Rat::from_int(4);
        let t1 = match self.c11.add(&self.c22) {
            Some(v) => v,
            None => {
                return None;
            },
        };
        proof {
            lemma_rat_mag_self(t1@);
            lemma_env_mono_add(rat_mag(t1@), rat_mag(self@.c33),
                rat_add(rat_mag(self@.c11), rat_mag(self@.c22)), rat_mag(self@.c33));
        }
        let tr = match t1.add(&self.c33) {
            Some(v) => v,
            None => {
                return None;
            },
        };
        proof {
            lemma_rat_mag_self(tr@);
            assert(rat_mag(one@) == rat_int(1));
            lemma_env_mono_add(rat_mag(one@), rat_mag(tr@), rat_int(1), sdcm_tr_env(self@));
            lemma_env_mono_add(
                rat_add(rat_int(1), rat_mul(rat_mag(self@.c11), rat_int(2))),
                rat_mag(tr@),
                rat_add(rat_int(1), rat_mul(rat_mag(self@.c11), rat_int(2))),
                sdcm_tr_env(self@),
            );
            lemma_env_mono_add(
                rat_add(rat_int(1), rat_mul(rat_mag(self@.c22), rat_int(2))),
                rat_mag(tr@),
                rat_add(rat_int(1), rat_mul(rat_mag(self@.c22), rat_int(2))),
                sdcm_tr_env(self@),
            );
            lemma_env_mono_add(
                rat_add(rat_int(1), rat_mul(rat_mag(self@.c33), rat_int(2))),
                rat_mag(tr@),
                rat_add(rat_int(1), rat_mul(rat_mag(self@.c33), rat_int(2))),
                sdcm_tr_env(self@),
            );
        }
        let pa = match one.add(&tr) {
            Some(v) => v,
            None => {
                return None;
            },
        };
        let pb = match candidate(&self.c11, &tr, &one, &two) {
            Some(v) => v,
            None => {
                return None;
            },
        };
        let pc = match candidate(&self.c22, &tr, &one, &two) {
            Some(v) => v,
            None => {
                return None;
            },
        };
        let pd = match candidate(&self.c33, &tr, &one, &two) {
            Some(v) => v,
            None => {
                return None;
            },
        };
        proof {
            let m = self@;
            lemma_rat_add_exact(tr@, t1@, self.c33@, rat_add(m.c11, m.c22), m.c33);
            lemma_rat_add_exact(pa@, one@, tr@, rat_int(1), smat_tr(m));
            lemma_rat_sub_exact(pb@, rat_add(rat_int(1), rat_mul(m.c11, rat_int(2))), tr@,
                rat_add(rat_int(1), rat_mul(m.c11, rat_int(2))), smat_tr(m));
            lemma_rat_sub_exact(pc@, rat_add(rat_int(1), rat_mul(m.c22, rat_int(2))), tr@,
                rat_add(rat_int(1), rat_mul(m.c22, rat_int(2))), smat_tr(m));
            lemma_rat_sub_exact(pd@, rat_add(rat_int(1), rat_mul(m.c33, rat_int(2))), tr@,
                rat_add(rat_int(1), rat_mul(m.c33, rat_int(2))), smat_tr(m));
            lemma_rat_le_congr(pb@, pa@, sdcm_pb(m), sdcm_pa(m));
            lemma_rat_le_congr(pc@, pa@, sdcm_pc(m), sdcm_pa(m));
            lemma_rat_le_congr(pd@, pa@, sdcm_pd(m), sdcm_pa(m));
            lemma_rat_le_congr(pa@, pb@, sdcm_pa(m), sdcm_pb(m));
            lemma_rat_le_congr(pc@, pb@, sdcm_pc(m), sdcm_pb(m));
            lemma_rat_le_congr(pd@, pb@, sdcm_pd(m), sdcm_pb(m));
            lemma_rat_le_congr(pa@, pc@, sdcm_pa(m), sdcm_pc(m));
            lemma_rat_le_congr(pb@, pc@, sdcm_pb(m), sdcm_pc(m));
            lemma_rat_le_congr(pd@, pc@, sdcm_pd(m), sdcm_pc(m));
        }
        if pb.le(&pa) && pc.le(&pa) && pd.le(&pa) {
            let ghost trenv = sdcm_tr_env(self@);
            let ghost paenv = rat_add(rat_int(1), trenv);
            let ghost denenv = sdcm_den(sroot_env(paenv));
            proof {
                if sdcm_pa_square(self@) && sdcm_quat_a_fits(self@) {
                    let k = choose|k: int| 0 < k && #[trigger] rat_eq(sdcm_pa(self@), rat_int(k * k));
                    lemma_rat_eq_trans(pa@, sdcm_pa(self@), rat_int(k * k));
                    assert(pa@.n >= 0 && pa@.n * pa@.d == (k * pa@.d) * (k * pa@.d))
                        by (nonlinear_arith)
                        requires
                            pa@.n * 1 == (k * k) * pa@.d,
                            pa@.d > 0,
                            0 < k,
                    {
                    }
                    assert((k * pa@.d) * (k * pa@.d) == pa@.n * pa@.d);
                    assert(crate::rational::is_square(pa@.n * pa@.d));
                    lemma_rat_mag_self(pa@);
                    assert(rat_mag(pa@).n * rat_mag(pa@).d <= paenv.n * paenv.d
                        && 0 <= rat_mag(pa@).n * rat_mag(pa@).d) by (nonlinear_arith)
                        requires
                            0 <= rat_mag(pa@).n <= paenv.n,
                            1 <= rat_mag(pa@).d <= paenv.d,
                    {
                    }
                    lemma_env_mono_div(sroot_env(rat_mag(pa@)), rat_int(2), sroot_env(paenv),
                        rat_int(2));
                    lemma_env_mono_mul(rat_int(4), rat_div(sroot_env(rat_mag(pa@)), rat_int(2)),
                        rat_int(4), rat_div(sroot_env(paenv), rat_int(2)));
                }
            }
            let (sr, half, den) = match root_parts(&pa, &two, &four) {
                Some(v) => v,
                None => {
                    return None;
                },
            };
            proof {
                if sdcm_pa_square(self@) && sdcm_quat_a_fits(self@) {
                    let k = choose|k: int| 0 < k && #[trigger] rat_eq(sdcm_pa(self@), rat_int(k * k));
                    lemma_rat_eq_trans(pa@, sdcm_pa(self@), rat_int(k * k));
                    assert(sr@.n != 0) by (nonlinear_arith)
                        requires
                            (sr@.n * sr@.n) * pa@.d == pa@.n * (sr@.d * sr@.d),
                            pa@.n * 1 == (k * k) * pa@.d,
                            0 < k,
                            pa@.d > 0,
                            sr@.d > 0,
                    {
                    }
                    assert(sdcm_den(sr@).n == 4 * (sr@.n * 1) && sdcm_den(sr@).d == 1 * (sr@.d
                        * 2));
                    assert(sdcm_den(sr@).n != 0 && sdcm_den(sr@).d > 0) by (nonlinear_arith)
                        requires
                            sdcm_den(sr@).n == 4 * (sr@.n * 1),
                            sdcm_den(sr@).d == 1 * (sr@.d * 2),
                            sr@.n != 0,
                            sr@.d > 0,
                    {
                    }
                    crate::rational::lemma_rat_eq_sym(den@, sdcm_den(sr@));
                    lemma_rat_nonzero_transfer(sdcm_den(sr@), den@);
                    lemma_rat_mag_self(den@);
                    lemma_env_mono_div(rat_add(rat_mag(self@.c32), rat_mag(self@.c23)),
                        rat_mag(den@), rat_add(rat_mag(self@.c32), rat_mag(self@.c23)), denenv);
                    lemma_env_mono_div(rat_add(rat_mag(self@.c13), rat_mag(self@.c31)),
                        rat_mag(den@), rat_add(rat_mag(self@.c13), rat_mag(self@.c31)), denenv);
                    lemma_env_mono_div(rat_add(rat_mag(self@.c21), rat_mag(self@.c12)),
                        rat_mag(den@), rat_add(rat_mag(self@.c21), rat_mag(self@.c12)), denenv);
                }
            }
            let rb = match quat_ratio(&self.c32, &self.c23, false, &den) {
                Some(v) => v,
                None => {
                    return None;
                },
            };
            let rc = match quat_ratio(&self.c13, &self.c31, false, &den) {
                Some(v) => v,
                None => {
                    return None;
                },
            };
            let rd = match quat_ratio(&self.c21, &self.c12, false, &den) {
                Some(v) => v,
                None => {
                    return None;
                },
            };
            let q = Quaternion { a: half, b: rb, c: rc, d: rd };
            proof {
                let m = self@;
                branch_facts(m, sr@, half@, den@, pa@);
                branch_component(rb@, m.c32, m.c23, false, den@, sr@);
                branch_component(rc@, m.c13, m.c31, false, den@, sr@);
                branch_component(rd@, m.c21, m.c12, false, den@, sr@);
                assert(squat_eq(q@, sdcm_quat_raw(m, sr@)));
                assert(squat_wf(sdcm_quat_raw(m, sr@)));
            }
            Some(finish(q, Ghost(self@), Ghost(sr@)))
        } else if pa.le(&pb) && pc.le(&pb) && pd.le(&pb) {
            let (sr, half, den) = match root_parts(&pb, &two, &four) {
                Some(v) => v,
                None => {
                    return None;
                },
            };
            let ra = match quat_ratio(&self.c32, &self.c23, false, &den) {
                Some(v) => v,
                None => {
                    return None;
                },
            };
            let rc = match quat_ratio(&self.c21, &self.c12, true, &den) {
                Some(v) => v,
                None => {
                    return None;
                },
            };
            let rd = match quat_ratio(&self.c13, &self.c31, true, &den) {
                Some(v) => v,
                None => {
                    return None;
                },
            };
            let q = Quaternion { a: ra, b: half, c: rc, d: rd };
            proof {
                let m = self@;
                branch_facts(m, sr@, half@, den@, pb@);
                branch_component(ra@, m.c32, m.c23, false, den@, sr@);
                branch_component(rc@, m.c21, m.c12, true, den@, sr@);
                branch_component(rd@, m.c13, m.c31, true, den@, sr@);
                assert(squat_eq(q@, sdcm_quat_raw(m, sr@)));
                assert(squat_wf(sdcm_quat_raw(m, sr@)));
            }
            Some(finish(q, Ghost(self@), Ghost(sr@)))
        } else if pa.le(&pc) && pb.le(&pc) && pd.le(&pc) {
            let (sr, half, den) = match root_parts(&pc, &two, &four) {
                Some(v) => v,
                None => {
                    return None;
                },
            };
            let ra = match quat_ratio(&self.c13, &self.c31, false, &den) {
                Some(v) => v,
                None => {
                    return None;
                },
            };
            let rb = match quat_ratio(&self.c21, &self.c12, true, &den) {
                Some(v) => v,
                None => {
                    return None;
                },
            };
            let rd = match quat_ratio(&self.c32, &self.c23, true, &den) {
                Some(v) => v,
                None => {
                    return None;
                },
            };
            let q = Quaternion { a: ra, b: rb, c: half, d: rd };
            proof {
                let m = self@;
                branch_facts(m, sr@, half@, den@, pc@);
                branch_component(ra@, m.c13, m.c31, false, den@, sr@);
                branch_component(rb@, m.c21, m.c12, true, den@, sr@);
                branch_component(rd@, m.c32, m.c23, true, den@, sr@);
                assert(squat_eq(q@, sdcm_quat_raw(m, sr@)));
                assert(squat_wf(sdcm_quat_raw(m, sr@)));
            }
            Some(finish(q, Ghost(self@), Ghost(sr@)))
        } else {
            let (sr, half, den) = match root_parts(&pd, &two, &four) {
                Some(v) => v,
                None => {
                    return None;
                },
            };
            let ra = match quat_ratio(&self.c21, &self.c12, false, &den) {
                Some(v) => v,
                None => {
                    return None;
                },
            };
            let rb = match quat_ratio(&self.c13, &self.c31, true, &den) {
                Some(v) => v,
                None => {
                    return None;
                },
            };
            let rc = match quat_ratio(&self.c32, &self.c23, true, &den) {
                Some(v) => v,
                None => {
                    return None;
                },
            };
            let q = Quaternion { a: ra, b: rb, c: rc, d: half };
            proof {
                let m = self@;
                branch_facts(m, sr@, half@, den@, pd@);
                branch_component(ra@, m.c21, m.c12, false, den@, sr@);
                branch_component(rb@, m.c13, m.c31, true, den@, sr@);
                branch_component(rc@, m.c32, m.c23, true, den@, sr@);
                assert(squat_eq(q@, sdcm_quat_raw(m, sr@)));
                assert(squat_wf(sdcm_quat_raw(m, sr@)));
            }
            Some(finish(q, Ghost(self@), Ghost(sr@)))
        }
    }
}

/// The spec divisor a branch's root induces.
pub open spec fn sdcm_den(s: SRat) -> SRat {
    rat_mul(rat_int(4), rat_div(s, rat_int(2)))
}

/// The envelope of the exact root of a value under the envelope `pm`.
pub open spec fn sroot_env(pm: SRat) -> SRat {
    SRat { n: pm.n * pm.d, d: pm.d }
}

/// Carries one branch component from the executable divisor to the spec one.
proof fn branch_component(v: SRat, x: SRat, y: SRat, plus: bool, den: SRat, s: SRat)
    requires
        rat_pos(v),
        rat_pos(den),
        den.n != 0,
        rat_wf(x),
        rat_wf(y),
        rat_wf(s),
        sdcm_den(s).n != 0,
        rat_eq(den, sdcm_den(s)),
        (if plus {
            rat_eq(v, rat_div(rat_add(x, y), den))
        } else {
            rat_eq(v, rat_div(rat_sub(x, y), den))
        }),
    ensures
        (if plus {
            rat_eq(v, rat_div(rat_add(x, y), sdcm_den(s))) && rat_wf(
                rat_div(rat_add(x, y), sdcm_den(s)),
            )
        } else {
            rat_eq(v, rat_div(rat_sub(x, y), sdcm_den(s))) && rat_wf(
                rat_div(rat_sub(x, y), sdcm_den(s)),
            )
        }),
{
    lemma_rat_ops_wf(s, rat_int(2));
    lemma_rat_ops_wf(rat_int(4), rat_div(s, rat_int(2)));
    lemma_rat_ops_wf(x, y);
    if plus {
        lemma_rat_div_exact(v, rat_add(x, y), den, rat_add(x, y), sdcm_den(s));
        lemma_rat_ops_wf(rat_add(x, y), sdcm_den(s));
    } else {
        lemma_rat_div_exact(v, rat_sub(x, y), den, rat_sub(x, y), sdcm_den(s));
        lemma_rat_ops_wf(rat_sub(x, y), sdcm_den(s));
    }
}

/// The shared root facts every branch establishes.
proof fn branch_facts(m: SMat3, s: SRat, half: SRat, den: SRat, p: SRat)
    requires
        rat_pos(s),
        s.n >= 0,
        rat_pos(half),
        rat_pos(den),
        den.n != 0,
        rat_eq(rat_mul(s, s), p),
        rat_eq(p, sdcm_p_sel(m)),
        rat_pos(p),
        rat_eq(half, rat_div(s, rat_int(2))),
        rat_eq(den, sdcm_den(s)),
    ensures
        sdcm_root_ok(m, s),
        sdcm_den(s).n != 0,
        rat_wf(rat_div(s, rat_int(2))),
{
    lemma_rat_ops_wf(s, rat_int(2));
    lemma_rat_ops_wf(rat_int(4), rat_div(s, rat_int(2)));
    lemma_rat_nonzero_transfer(den, sdcm_den(s));
    assert(sdcm_den(s).n == 4 * (s.n * 1));
    assert(s.n != 0);
    lemma_rat_eq_trans(rat_mul(s, s), p, sdcm_p_sel(m));
}

/// Applies the canonical-sign rule shared by every branch: negate when the
/// scalar part is not positive, so the result's scalar part is nonnegative.
fn finish(q: Quaternion, m: Ghost<SMat3>, s: Ghost<SRat>) -> (r: Quaternion)
    requires
        sdcm_root_ok(m@, s@),
        squat_eq(q@, sdcm_quat_raw(m@, s@)),
        squat_pos(q@),
        squat_wf(sdcm_quat_raw(m@, s@)),
    ensures
        sdcm_quat_rel(m@, r@),
        squat_pos(r@),
{
    let zero = Rat::zero();
    let cond = q.a.le(&zero);
    let res = if cond {
        q.neg()
    } else {
        q
    };
    proof {
        let raw = sdcm_quat_raw(m@, s@);
        lemma_squat_congr(q@, q@, raw, raw, rat_int(1));
        if cond {
            assert(squat_eq(res@, squat_neg(raw)));
            assert(rat_le(rat_int(0), res@.a));
        } else {
            assert(rat_le(rat_int(0), res@.a));
        }
        assert(sdcm_root_ok(m@, s@) && (squat_eq(res@, sdcm_quat_raw(m@, s@)) || squat_eq(
            res@,
            squat_neg(sdcm_quat_raw(m@, s@)),
        )) && rat_le(rat_int(0), res@.a));
    }
    res
}

/// One of the `1 + 2*c - tr` candidates, exactly; `None` when an
/// intermediate does not fit.
/// The envelope of a branch candidate.
pub open spec fn scand_env(cm: SRat, trm: SRat) -> SRat {
    rat_add(rat_add(rat_int(1), rat_mul(cm, rat_int(2))), trm)
}

fn candidate(c: &Rat, tr: &Rat, one: &Rat, two: &Rat) -> (r: Option<Rat>)
    requires
        one@ == rat_int(1),
        two@ == rat_int(2),
    ensures
        r matches Some(v) ==> rat_pos(v@) && rat_eq(
            v@,
            rat_sub(rat_add(rat_int(1), rat_mul(c@, rat_int(2))), tr@),
        ),
        r matches Some(v) ==> rat_under(v@, scand_env(rat_mag(c@), rat_mag(tr@))),
        rat_fits_env(scand_env(rat_mag(c@), rat_mag(tr@))) ==> r is Some,
{
    proof {
        use_type_invariant(*c);
        use_type_invariant(*tr);
        use_type_invariant(*one);
        use_type_invariant(*two);
        lemma_rat_mag_self(c@);
        lemma_rat_mag_self(tr@);
        lemma_rat_mag_self(one@);
        lemma_rat_mag_self(two@);
        assert(rat_mag(one@) == rat_int(1));
        assert(rat_mag(two@) == rat_int(2));
        lemma_env_mono_mul(rat_mag(c@), rat_int(2), rat_mag(c@), rat_int(2));
        lemma_env_mono_add(rat_int(1), rat_mul(rat_mag(c@), rat_int(2)), rat_int(1),
            rat_mul(rat_mag(c@), rat_int(2)));
        lemma_env_mono_add(rat_add(rat_int(1), rat_mul(rat_mag(c@), rat_int(2))), rat_mag(tr@),
            rat_add(rat_int(1), rat_mul(rat_mag(c@), rat_int(2))), rat_mag(tr@));
    }
    let doubled = match c.mul(two) {
        Some(v) => v,
        None => {
            return None;
        },
    };
    proof {
        lemma_rat_mag_self(doubled@);
        lemma_env_mono_add(rat_int(1), rat_mag(doubled@), rat_int(1),
            rat_mul(rat_mag(c@), rat_int(2)));
    }
    let lifted = match one.add(&doubled) {
        Some(v) => v,
        None => {
            return None;
        },
    };
    proof {
        lemma_rat_mag_self(lifted@);
        lemma_env_mono_add(rat_mag(lifted@), rat_mag(tr@),
            rat_add(rat_int(1), rat_mul(rat_mag(c@), rat_int(2))), rat_mag(tr@));
    }
    let res = match lifted.sub(tr) {
        Some(v) => v,
        None => {
            return None;
        },
    };
    proof {
        use_type_invariant(*tr);
        lemma_rat_add_exact(lifted@, one@, doubled@, rat_int(1), rat_mul(c@, rat_int(2)));
        lemma_rat_sub_exact(res@, lifted@, tr@, rat_add(rat_int(1), rat_mul(c@, rat_int(2))),
            tr@);
    }
    Some(res)
}

} // verus!
