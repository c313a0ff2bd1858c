//! Laws of the attitude representations and of the dynamics, proved once
//! and for all inputs.

use vstd::prelude::*;

verus! {

use crate::rational::{
    SRat,
    rat_eq,
    rat_wf,
    rat_pos,
    rat_int,
    rat_mul,
    rat_div,
    lemma_rat_eq_trans,
    lemma_rat_eq_sym,
    lemma_rat_ops_wf,
};
use crate::vector::{SVec3, svec_wf, svec_eq, svec_dot, svec_cross};
use crate::matrix::{SMat3, smat_eq, smat_identity};
use crate::integrate::Integrate;
use crate::quaternion::{
    SQuat,
    squat_eq,
    squat_pos,
    squat_wf,
    squat_identity,
    squat_neg,
    squat_to_dcm,
    sdcm_quat_rel,
    sdcm_quat_raw,
    sdcm_root_ok,
    sdcm_p_sel,
    sdcm_sel_a,
    sdcm_den,
    lemma_squat_eq_trans,
};

/// The identity quaternion converts to the identity direction-cosine matrix.
pub proof fn lemma_identity_quat_to_dcm()
    ensures
        smat_eq(squat_to_dcm(squat_identity()), smat_identity()),
{
    let q = squat_identity();
    let d = squat_to_dcm(q);
    assert(rat_eq(d.c11, rat_int(1)));
    assert(rat_eq(d.c22, rat_int(1)));
    assert(rat_eq(d.c33, rat_int(1)));
    assert(rat_eq(d.c12, rat_int(0)));
    assert(rat_eq(d.c13, rat_int(0)));
    assert(rat_eq(d.c21, rat_int(0)));
    assert(rat_eq(d.c23, rat_int(0)));
    assert(rat_eq(d.c31, rat_int(0)));
    assert(rat_eq(d.c32, rat_int(0)));
}

/// The positive rational square root is unique up to value equality.
proof fn lemma_root_unique(s: SRat, t: SRat)
    requires
        rat_pos(s),
        rat_pos(t),
        s.n > 0,
        t.n > 0,
        rat_eq(rat_mul(s, s), rat_mul(t, t)),
    ensures
        rat_eq(s, t),
{
    let x = s.n * t.d;
    let y = t.n * s.d;
    assert(x * x == y * y) by (nonlinear_arith)
        requires
            (s.n * s.n) * (t.d * t.d) == (t.n * t.n) * (s.d * s.d),
            x == s.n * t.d,
            y == t.n * s.d,
    {
    }
    assert(x > 0 && y > 0) by (nonlinear_arith)
        requires
            x == s.n * t.d,
            y == t.n * s.d,
            s.n > 0,
            t.n > 0,
            s.d > 0,
            t.d > 0,
    {
    }
    assert(x == y) by (nonlinear_arith)
        requires
            x * x == y * y,
            x > 0,
            y > 0,
    {
    }
}

/// The identity direction-cosine matrix converts back to the identity
/// quaternion: any quaternion the conversion relation admits for the
/// identity matrix equals the identity quaternion.
pub proof fn lemma_identity_dcm_to_quat(r: SQuat)
    requires
        sdcm_quat_rel(smat_identity(), r),
        squat_pos(r),
    ensures
        squat_eq(r, squat_identity()),
{
    let m = smat_identity();
    let s = choose|s: SRat|
        #[trigger] sdcm_root_ok(m, s) && (squat_eq(r, sdcm_quat_raw(m, s)) || squat_eq(
            r,
            squat_neg(sdcm_quat_raw(m, s)),
        )) && rat_le_zero_a(r);
    assert(crate::quaternion::smat_tr(m) == rat_int(3));
    assert(crate::quaternion::sdcm_pa(m) == rat_int(4));
    assert(crate::quaternion::sdcm_pb(m) == (SRat { n: 3 * 1 + (-3) * 1, d: (1 * 1) as int }));
    assert(crate::quaternion::sdcm_pc(m) == (SRat { n: 3 * 1 + (-3) * 1, d: (1 * 1) as int }));
    assert(crate::quaternion::sdcm_pd(m) == (SRat { n: 3 * 1 + (-3) * 1, d: (1 * 1) as int }));
    assert(sdcm_sel_a(m));
    assert(sdcm_p_sel(m) == sdcm_pa_of_identity());
    let two = rat_int(2);
    assert(rat_eq(rat_mul(two, two), sdcm_p_sel(m)));
    lemma_rat_ops_wf(two, two);
    lemma_rat_eq_sym(rat_mul(two, two), sdcm_p_sel(m));
    lemma_rat_eq_trans(rat_mul(s, s), sdcm_p_sel(m), rat_mul(two, two));
    lemma_root_unique(s, two);
    let raw = sdcm_quat_raw(m, s);
    // The scalar component is s/2 ~ 1; the vector components have zero
    // numerators over nonzero denominators.
    assert(raw.a == rat_div(s, two));
    assert(rat_eq(raw.a, rat_int(1))) by (nonlinear_arith)
        requires
            raw.a == rat_div(s, two),
            two == rat_int(2),
            rat_eq(s, two),
            s.d > 0,
    {
    }
    assert(sdcm_den(s).n == 4 * (s.n * 1));
    assert(raw.b.n == 0 && raw.c.n == 0 && raw.d.n == 0) by (nonlinear_arith)
        requires
            raw.b.n == (1 * 1 + (-1) * 1) * (1 * (s.d * 2)),
            raw.c.n == (0 * 1 + (-0) * 1) * (1 * (s.d * 2)),
            raw.d.n == (0 * 1 + (-0) * 1) * (1 * (s.d * 2)),
    {
    }
    assert(raw.b.d == (1 * 1) * (4 * (s.n * 1)) && raw.b.d == raw.c.d && raw.b.d == raw.d.d);
    assert(raw.b.d != 0) by (nonlinear_arith)
        requires
            raw.b.d == (1 * 1) * (4 * (s.n * 1)),
            s.n > 0,
    {
    }
    assert(squat_wf(raw));
    assert(rat_eq(raw.b, rat_int(0)) && rat_eq(raw.c, rat_int(0)) && rat_eq(raw.d, rat_int(0)));
    if squat_eq(r, raw) {
        lemma_squat_eq_trans(r, raw, squat_identity());
    } else {
        // The negated branch would put a negative value in the scalar
        // component, against the canonical nonnegative sign.
        assert(squat_eq(r, squat_neg(raw)));
        assert(rat_eq(squat_neg(raw).a, rat_int(-1))) by (nonlinear_arith)
            requires
                squat_neg(raw).a.n == -raw.a.n,
                squat_neg(raw).a.d == raw.a.d,
                rat_eq(raw.a, rat_int(1)),
                raw.a.d > 0,
        {
        }
        assert(raw.a.d > 0) by (nonlinear_arith)
            requires
                raw.a.d == s.d * 2,
                s.d > 0,
        {
        }
        lemma_rat_eq_trans(r.a, squat_neg(raw).a, rat_int(-1));
        assert(r.a.n * 1 == -1 * r.a.d);
        assert(false);
    }
}

/// Helper naming for the canonical-sign conjunct of the conversion relation.
spec fn rat_le_zero_a(r: SQuat) -> bool {
    crate::rational::rat_le(rat_int(0), r.a)
}

/// The candidate the identity matrix selects.
spec fn sdcm_pa_of_identity() -> SRat {
    crate::quaternion::sdcm_pa(smat_identity())
}

/// The gyroscopic orthogonality for vectors written over one common
/// denominator each.
proof fn lemma_gyro_orthogonal_uniform(w1: int, w2: int, w3: int, l1: int, l2: int, l3: int,
    wd: int, ld: int)
    requires
        wd != 0,
        ld != 0,
    ensures
        rat_eq(
            svec_dot(
                svec_cross(
                    (SVec3 {
                        i: SRat { n: w1, d: wd },
                        j: SRat { n: w2, d: wd },
                        k: SRat { n: w3, d: wd },
                    }),
                    (SVec3 {
                        i: SRat { n: l1, d: ld },
                        j: SRat { n: l2, d: ld },
                        k: SRat { n: l3, d: ld },
                    }),
                ),
                (SVec3 {
                    i: SRat { n: l1, d: ld },
                    j: SRat { n: l2, d: ld },
                    k: SRat { n: l3, d: ld },
                }),
            ),
            rat_int(0),
        ),
{
    let wv = SVec3 { i: SRat { n: w1, d: wd }, j: SRat { n: w2, d: wd }, k: SRat { n: w3, d: wd } };
    let lv = SVec3 { i: SRat { n: l1, d: ld }, j: SRat { n: l2, d: ld }, k: SRat { n: l3, d: ld } };
    let c = svec_cross(wv, lv);
    let d = svec_dot(c, lv);
    let p = wd * ld;
    let c1 = w2 * l3 - w3 * l2;
    let c2 = w3 * l1 - w1 * l3;
    let c3 = w1 * l2 - w2 * l1;
    assert(c.i.n == c1 * p && c.j.n == c2 * p && c.k.n == c3 * p) by (nonlinear_arith)
        requires
            c.i.n == w2 * l3 * (wd * ld) + -(w3 * l2) * (wd * ld),
            c.j.n == w3 * l1 * (wd * ld) + -(w1 * l3) * (wd * ld),
            c.k.n == w1 * l2 * (wd * ld) + -(w2 * l1) * (wd * ld),
            c1 == w2 * l3 - w3 * l2,
            c2 == w3 * l1 - w1 * l3,
            c3 == w1 * l2 - w2 * l1,
            p == wd * ld,
    {
    }
    assert(c.i.d == p * p && c.j.d == p * p && c.k.d == p * p) by (nonlinear_arith)
        requires
            c.i.d == (wd * ld) * (wd * ld),
            c.j.d == (wd * ld) * (wd * ld),
            c.k.d == (wd * ld) * (wd * ld),
            p == wd * ld,
    {
    }
    assert(c1 * l1 + c2 * l2 + c3 * l3 == 0) by (nonlinear_arith)
        requires
            c1 == w2 * l3 - w3 * l2,
            c2 == w3 * l1 - w1 * l3,
            c3 == w1 * l2 - w2 * l1,
    {
    }
    let q = (p * p) * ld;
    assert(d.n == ((c1 * p) * l1 * q) * q + ((c2 * p) * l2 * q) * q + ((c3 * p) * l3) * (q * q))
        by (nonlinear_arith)
        requires
            d.n == (c.i.n * l1 * (c.j.d * ld) + c.j.n * l2 * (c.i.d * ld)) * (c.k.d * ld) + c.k.n
                * l3 * ((c.i.d * ld) * (c.j.d * ld)),
            c.i.n == c1 * p,
            c.j.n == c2 * p,
            c.k.n == c3 * p,
            c.i.d == p * p,
            c.j.d == p * p,
            c.k.d == p * p,
            q == (p * p) * ld,
    {
    }
    let x = (p * q) * q;
    assert(((c1 * p) * l1 * q) * q == (c1 * l1) * x && ((c2 * p) * l2 * q) * q == (c2 * l2) * x
        && ((c3 * p) * l3) * (q * q) == (c3 * l3) * x) by (nonlinear_arith)
        requires
            x == (p * q) * q,
    {
    }
    assert((c1 * l1) * x + (c2 * l2) * x + (c3 * l3) * x == (c1 * l1 + c2 * l2 + c3 * l3) * x)
        by (nonlinear_arith);
    assert((c1 * l1 + c2 * l2 + c3 * l3) * x == 0) by (nonlinear_arith)
        requires
            c1 * l1 + c2 * l2 + c3 * l3 == 0,
    {
    }
    assert(d.n * 1 == 0 * d.d);
}

/// The gyroscopic coupling moment is orthogonal to the angular momentum it
/// is built from: `(w x l) . l == 0` for every pair of rational vectors.
/// With `l = I w`, this is the invariant that makes a torque-free body's
/// angular-momentum magnitude constant, and it pins the sign and ordering of
/// the `w x (I w)` term in the dynamics.
pub proof fn lemma_gyro_orthogonal(w: SVec3, l: SVec3)
    requires
        svec_wf(w),
        svec_wf(l),
    ensures
        rat_eq(svec_dot(svec_cross(w, l), l), rat_int(0)),
{
    let wd = (w.i.d * w.j.d) * w.k.d;
    let ld = (l.i.d * l.j.d) * l.k.d;
    let wu = SVec3 {
        i: SRat { n: w.i.n * (w.j.d * w.k.d), d: wd },
        j: SRat { n: w.j.n * (w.i.d * w.k.d), d: wd },
        k: SRat { n: w.k.n * (w.i.d * w.j.d), d: wd },
    };
    let lu = SVec3 {
        i: SRat { n: l.i.n * (l.j.d * l.k.d), d: ld },
        j: SRat { n: l.j.n * (l.i.d * l.k.d), d: ld },
        k: SRat { n: l.k.n * (l.i.d * l.j.d), d: ld },
    };
    assert(wd != 0 && ld != 0 && svec_eq(wu, w) && svec_eq(lu, l) && svec_wf(wu) && svec_wf(lu))
        by (nonlinear_arith)
        requires
            w.i.d != 0 && w.j.d != 0 && w.k.d != 0,
            l.i.d != 0 && l.j.d != 0 && l.k.d != 0,
            wd == (w.i.d * w.j.d) * w.k.d,
            ld == (l.i.d * l.j.d) * l.k.d,
            wu.i == (SRat { n: w.i.n * (w.j.d * w.k.d), d: wd }),
            wu.j == (SRat { n: w.j.n * (w.i.d * w.k.d), d: wd }),
            wu.k == (SRat { n: w.k.n * (w.i.d * w.j.d), d: wd }),
            lu.i == (SRat { n: l.i.n * (l.j.d * l.k.d), d: ld }),
            lu.j == (SRat { n: l.j.n * (l.i.d * l.k.d), d: ld }),
            lu.k == (SRat { n: l.k.n * (l.i.d * l.j.d), d: ld }),
    {
    }
    lemma_gyro_orthogonal_uniform(wu.i.n, wu.j.n, wu.k.n, lu.i.n, lu.j.n, lu.k.n, wd, ld);
    crate::vector::lemma_svec_congr(wu, lu, w, l, rat_int(1));
    crate::vector::lemma_svec_ops_wf(wu, lu);
    crate::vector::lemma_svec_ops_wf(w, l);
    crate::vector::lemma_svec_congr(svec_cross(wu, lu), lu, svec_cross(w, l), l, rat_int(1));
    crate::vector::lemma_svec_ops_wf(svec_cross(wu, lu), lu);
    lemma_rat_eq_sym(svec_dot(svec_cross(wu, lu), lu), svec_dot(svec_cross(w, l), l));
    lemma_rat_eq_trans(
        svec_dot(svec_cross(w, l), l),
        svec_dot(svec_cross(wu, lu), lu),
        rat_int(0),
    );
}

// ---------------------------------------------------------------------------
// Idempotence of zero input: a body with all-zero forces, moments and rates
// is a fixed point of the effects step and of both integrators.
// ---------------------------------------------------------------------------

/// Value-zero scalar.
pub open spec fn zval(a: SRat) -> bool {
    rat_eq(a, rat_int(0))
}

proof fn lemma_zero_scalar_ops(a: SRat, b: SRat, k: SRat)
    requires
        rat_wf(a),
        rat_wf(b),
        rat_wf(k),
    ensures
        zval(a) ==> a.n == 0,
        zval(a) && zval(b) ==> zval(crate::rational::rat_add(a, b)),
        zval(a) && zval(b) ==> zval(crate::rational::rat_sub(a, b)),
        zval(a) ==> zval(rat_mul(a, b)) && zval(rat_mul(b, a)),
        zval(b) ==> zval(rat_mul(a, b)) && zval(rat_mul(b, a)),
        zval(a) ==> zval(rat_div(a, k)),
        zval(a) ==> zval(crate::rational::rat_neg(a)),
        zval(b) ==> rat_eq(crate::rational::rat_add(a, b), a),
        zval(b) ==> rat_eq(crate::rational::rat_sub(a, b), a),
        zval(a) && zval(b) ==> rat_eq(a, b),
{
    assert(zval(a) ==> a.n == 0) by (nonlinear_arith)
        requires
            a.n * 1 == a.n,
    {
    }
    assert(zval(b) ==> b.n == 0) by (nonlinear_arith);
    if a.n == 0 {
        assert(a.n * b.n == 0 && b.n * a.n == 0 && a.n * b.d == 0 && a.n * k.d == 0 && (-a.n)
            == 0) by (nonlinear_arith)
            requires
                a.n == 0,
        {
        }
        assert(rat_mul(a, b).n * 1 == 0 * rat_mul(a, b).d);
        assert(rat_mul(b, a).n * 1 == 0 * rat_mul(b, a).d);
        assert(rat_div(a, k).n * 1 == 0 * rat_div(a, k).d);
        if b.n == 0 {
            assert(crate::rational::rat_add(a, b).n == a.n * b.d + b.n * a.d);
            assert(a.n * b.d + b.n * a.d == 0 && a.n * b.d + (-b.n) * a.d == 0)
                by (nonlinear_arith)
                requires
                    a.n == 0,
                    b.n == 0,
            {
            }
            assert(a.n * b.d == b.n * a.d) by (nonlinear_arith)
                requires
                    a.n == 0,
                    b.n == 0,
            {
            }
        }
    }
    if zval(b) {
        assert(a.n * b.n == 0 && b.n * a.n == 0) by (nonlinear_arith)
            requires
                b.n == 0,
        {
        }
        assert(rat_mul(a, b).n * 1 == 0 * rat_mul(a, b).d);
        assert(rat_mul(b, a).n * 1 == 0 * rat_mul(b, a).d);
        assert((a.n * b.d + b.n * a.d) * a.d == a.n * (a.d * b.d)) by (nonlinear_arith)
            requires
                b.n == 0,
        {
        }
        assert((a.n * b.d + (-b.n) * a.d) * a.d == a.n * (a.d * b.d)) by (nonlinear_arith)
            requires
                b.n == 0,
        {
        }
    }
}

/// Value-zero vector.
pub open spec fn zvec(v: SVec3) -> bool {
    zval(v.i) && zval(v.j) && zval(v.k)
}

proof fn lemma_zero_vec_ops(a: SVec3, b: SVec3, k: SRat)
    requires
        svec_wf(a),
        svec_wf(b),
        rat_wf(k),
    ensures
        zvec(a) && zvec(b) ==> zvec(crate::vector::svec_add(a, b)),
        zvec(a) ==> zvec(crate::vector::svec_scale(a, k)),
        zvec(a) ==> zvec(crate::vector::svec_div(a, k)),
        zvec(b) ==> svec_eq(crate::vector::svec_add(a, b), a),
        zvec(b) ==> svec_eq(crate::vector::svec_sub(a, b), a),
        zvec(a) || zvec(b) ==> zvec(svec_cross(a, b)),
        zvec(a) || zvec(b) ==> zval(svec_dot(a, b)),
        zvec(a) && zvec(b) ==> svec_eq(a, b),
{
    crate::rational::lemma_rat_ops_wf(a.i, b.i);
    crate::rational::lemma_rat_ops_wf(a.j, b.j);
    crate::rational::lemma_rat_ops_wf(a.k, b.k);
    crate::rational::lemma_rat_ops_wf(a.j, b.k);
    crate::rational::lemma_rat_ops_wf(a.k, b.j);
    crate::rational::lemma_rat_ops_wf(a.k, b.i);
    crate::rational::lemma_rat_ops_wf(a.i, b.k);
    crate::rational::lemma_rat_ops_wf(a.i, b.j);
    crate::rational::lemma_rat_ops_wf(a.j, b.i);
    crate::rational::lemma_rat_ops_wf(rat_mul(a.i, b.i), rat_mul(a.j, b.j));
    lemma_zero_scalar_ops(a.i, b.i, k);
    lemma_zero_scalar_ops(a.j, b.j, k);
    lemma_zero_scalar_ops(a.k, b.k, k);
    lemma_zero_scalar_ops(a.j, b.k, k);
    lemma_zero_scalar_ops(a.k, b.j, k);
    lemma_zero_scalar_ops(a.k, b.i, k);
    lemma_zero_scalar_ops(a.i, b.k, k);
    lemma_zero_scalar_ops(a.i, b.j, k);
    lemma_zero_scalar_ops(a.j, b.i, k);
    lemma_zero_scalar_ops(rat_mul(a.j, b.k), rat_mul(a.k, b.j), k);
    lemma_zero_scalar_ops(rat_mul(a.k, b.i), rat_mul(a.i, b.k), k);
    lemma_zero_scalar_ops(rat_mul(a.i, b.j), rat_mul(a.j, b.i), k);
    lemma_zero_scalar_ops(rat_mul(a.i, b.i), rat_mul(a.j, b.j), k);
    lemma_zero_scalar_ops(
        crate::rational::rat_add(rat_mul(a.i, b.i), rat_mul(a.j, b.j)),
        rat_mul(a.k, b.k),
        k,
    );
}

/// Value-zero quaternion.
spec fn zquat(q: SQuat) -> bool {
    zval(q.a) && zval(q.b) && zval(q.c) && zval(q.d)
}

proof fn lemma_zero_quat_ops(p: SQuat, q: SQuat, v: SVec3, k: SRat)
    requires
        squat_wf(p),
        squat_wf(q),
        svec_wf(v),
        rat_wf(k),
    ensures
        zvec(v) ==> zquat(crate::quaternion::squat_vmul(p, v)),
        zvec(v) ==> zquat(crate::quaternion::squat_derivative(p, v)),
        zquat(q) ==> crate::quaternion::squat_eq(crate::quaternion::squat_add(p, q), p),
        zquat(p) ==> zquat(crate::quaternion::squat_scale(p, k)),
        zquat(p) ==> zquat(crate::quaternion::squat_div(p, k)),
        zquat(p) && zquat(q) ==> zquat(crate::quaternion::squat_add(p, q)),
        zquat(p) && zquat(q) ==> crate::quaternion::squat_eq(p, q),
{
    crate::rational::lemma_rat_ops_wf(p.b, p.b);
    crate::rational::lemma_rat_ops_wf(p.c, p.c);
    crate::rational::lemma_rat_ops_wf(p.d, p.d);
    let r1 = SVec3 {
        i: crate::rational::rat_neg(p.b),
        j: crate::rational::rat_neg(p.c),
        k: crate::rational::rat_neg(p.d),
    };
    let r2 = SVec3 { i: p.a, j: crate::rational::rat_neg(p.d), k: p.c };
    let r3 = SVec3 { i: p.d, j: p.a, k: crate::rational::rat_neg(p.b) };
    let r4 = SVec3 { i: crate::rational::rat_neg(p.c), j: p.b, k: p.a };
    lemma_zero_vec_ops(r1, v, k);
    lemma_zero_vec_ops(r2, v, k);
    lemma_zero_vec_ops(r3, v, k);
    lemma_zero_vec_ops(r4, v, k);
    if zvec(v) {
        crate::quaternion::lemma_squat_vmul_wf(p, v);
        let w = crate::quaternion::squat_vmul(p, v);
        lemma_zero_scalar_ops(w.a, w.a, rat_int(2));
        lemma_zero_scalar_ops(w.b, w.b, rat_int(2));
        lemma_zero_scalar_ops(w.c, w.c, rat_int(2));
        lemma_zero_scalar_ops(w.d, w.d, rat_int(2));
    }
    lemma_zero_scalar_ops(p.a, q.a, k);
    lemma_zero_scalar_ops(p.b, q.b, k);
    lemma_zero_scalar_ops(p.c, q.c, k);
    lemma_zero_scalar_ops(p.d, q.d, k);
}

/// Value-zero matrix.
spec fn zmat(m: SMat3) -> bool {
    zval(m.c11) && zval(m.c12) && zval(m.c13) && zval(m.c21) && zval(m.c22) && zval(m.c23)
        && zval(m.c31) && zval(m.c32) && zval(m.c33)
}

proof fn lemma_zero_mat_ops(a: SMat3, b: SMat3, v: SVec3, k: SRat)
    requires
        crate::matrix::smat_wf(a),
        crate::matrix::smat_wf(b),
        svec_wf(v),
        rat_wf(k),
    ensures
        zvec(v) ==> zvec(crate::matrix::smat_vec(a, v)),
        zmat(a) ==> zmat(crate::matrix::smat_scale(a, k)),
        zmat(a) ==> zmat(crate::matrix::smat_div(a, k)),
        zmat(a) && zmat(b) ==> zmat(crate::matrix::smat_add(a, b)),
        zmat(b) ==> crate::matrix::smat_eq(crate::matrix::smat_add(a, b), a),
        zmat(a) && zmat(b) ==> crate::matrix::smat_eq(a, b),
{
    lemma_zero_vec_ops(crate::matrix::srow1(a), v, k);
    lemma_zero_vec_ops(crate::matrix::srow2(a), v, k);
    lemma_zero_vec_ops(crate::matrix::srow3(a), v, k);
    lemma_zero_vec_ops(crate::matrix::srow1(a), crate::matrix::srow1(b), k);
    lemma_zero_vec_ops(crate::matrix::srow2(a), crate::matrix::srow2(b), k);
    lemma_zero_vec_ops(crate::matrix::srow3(a), crate::matrix::srow3(b), k);
}

/// Value-zero rigid-body record.
spec fn zrig(x: crate::rigidbody::SRigid) -> bool {
    zvec(x.intertial_force_n) && zvec(x.intertial_moment_nm) && zvec(x.body_force_n) && zvec(
        x.body_moment_nm,
    ) && zvec(x.inertial_pos_m) && zvec(x.inertial_vel_mps) && zvec(x.inertial_accel_mps2)
        && zquat(x.quat_b2i) && zvec(x.body_ang_vel_radps) && zvec(x.body_ang_accel_radps2)
        && zval(x.mass_cg_kg) && zmat(x.i_tensor_cg_kgpm2) && zmat(x.inv_i_tensor_cg_kgpm2)
}

proof fn lemma_zero_state_ops(x: crate::rigidbody::SRigid, y: crate::rigidbody::SRigid, k: SRat)
    requires
        crate::rigidbody::srigid_wf(x),
        crate::rigidbody::srigid_wf(y),
        rat_wf(k),
    ensures
        zrig(y) ==> crate::rigidbody::srigid_eq(crate::rigidbody::srigid_add(x, y), x),
        zrig(x) ==> zrig(crate::rigidbody::srigid_scale(x, k)),
        zrig(x) ==> zrig(crate::rigidbody::srigid_div(x, k)),
        zrig(x) && zrig(y) ==> zrig(crate::rigidbody::srigid_add(x, y)),
{
    lemma_zero_vec_ops(x.intertial_force_n, y.intertial_force_n, k);
    lemma_zero_vec_ops(x.intertial_moment_nm, y.intertial_moment_nm, k);
    lemma_zero_vec_ops(x.body_force_n, y.body_force_n, k);
    lemma_zero_vec_ops(x.body_moment_nm, y.body_moment_nm, k);
    lemma_zero_vec_ops(x.inertial_pos_m, y.inertial_pos_m, k);
    lemma_zero_vec_ops(x.inertial_vel_mps, y.inertial_vel_mps, k);
    lemma_zero_vec_ops(x.inertial_accel_mps2, y.inertial_accel_mps2, k);
    lemma_zero_quat_ops(x.quat_b2i, y.quat_b2i, x.body_ang_vel_radps, k);
    lemma_zero_vec_ops(x.body_ang_vel_radps, y.body_ang_vel_radps, k);
    lemma_zero_vec_ops(x.body_ang_accel_radps2, y.body_ang_accel_radps2, k);
    lemma_zero_scalar_ops(x.mass_cg_kg, y.mass_cg_kg, k);
    lemma_zero_mat_ops(x.i_tensor_cg_kgpm2, y.i_tensor_cg_kgpm2, x.body_ang_vel_radps, k);
    lemma_zero_mat_ops(x.inv_i_tensor_cg_kgpm2, y.inv_i_tensor_cg_kgpm2, x.body_ang_vel_radps, k);
}

/// A value-zero record through value equality.
proof fn lemma_zrig_transport(x: crate::rigidbody::SRigid, y: crate::rigidbody::SRigid)
    requires
        crate::rigidbody::srigid_wf(y),
        crate::rigidbody::srigid_eq(x, y),
        zrig(y),
    ensures
        zrig(x),
{
    lemma_zrig_field(x.intertial_force_n, y.intertial_force_n);
    lemma_zrig_field(x.intertial_moment_nm, y.intertial_moment_nm);
    lemma_zrig_field(x.body_force_n, y.body_force_n);
    lemma_zrig_field(x.body_moment_nm, y.body_moment_nm);
    lemma_zrig_field(x.inertial_pos_m, y.inertial_pos_m);
    lemma_zrig_field(x.inertial_vel_mps, y.inertial_vel_mps);
    lemma_zrig_field(x.inertial_accel_mps2, y.inertial_accel_mps2);
    lemma_zval_trans(x.quat_b2i.a, y.quat_b2i.a);
    lemma_zval_trans(x.quat_b2i.b, y.quat_b2i.b);
    lemma_zval_trans(x.quat_b2i.c, y.quat_b2i.c);
    lemma_zval_trans(x.quat_b2i.d, y.quat_b2i.d);
    lemma_zrig_field(x.body_ang_vel_radps, y.body_ang_vel_radps);
    lemma_zrig_field(x.body_ang_accel_radps2, y.body_ang_accel_radps2);
    lemma_zval_trans(x.mass_cg_kg, y.mass_cg_kg);
    lemma_zmat_trans(x.i_tensor_cg_kgpm2, y.i_tensor_cg_kgpm2);
    lemma_zmat_trans(x.inv_i_tensor_cg_kgpm2, y.inv_i_tensor_cg_kgpm2);
}

proof fn lemma_zval_trans(a: SRat, b: SRat)
    requires
        rat_wf(b),
        rat_eq(a, b),
        zval(b),
    ensures
        zval(a),
{
    lemma_rat_eq_trans(a, b, rat_int(0));
}

proof fn lemma_zrig_field(a: SVec3, b: SVec3)
    requires
        svec_wf(b),
        svec_eq(a, b),
        zvec(b),
    ensures
        zvec(a),
{
    lemma_zval_trans(a.i, b.i);
    lemma_zval_trans(a.j, b.j);
    lemma_zval_trans(a.k, b.k);
}

proof fn lemma_zmat_trans(a: SMat3, b: SMat3)
    requires
        crate::matrix::smat_wf(b),
        crate::matrix::smat_eq(a, b),
        zmat(b),
    ensures
        zmat(a),
{
    lemma_zval_trans(a.c11, b.c11);
    lemma_zval_trans(a.c12, b.c12);
    lemma_zval_trans(a.c13, b.c13);
    lemma_zval_trans(a.c21, b.c21);
    lemma_zval_trans(a.c22, b.c22);
    lemma_zval_trans(a.c23, b.c23);
    lemma_zval_trans(a.c31, b.c31);
    lemma_zval_trans(a.c32, b.c32);
    lemma_zval_trans(a.c33, b.c33);
}

/// With zero rates and accelerations the state derivative is value-zero.
proof fn lemma_zero_state_derivative(m: crate::rigidbody::SRigid)
    requires
        crate::rigidbody::srigid_wf(m),
        zvec(m.inertial_vel_mps),
        zvec(m.inertial_accel_mps2),
        zvec(m.body_ang_vel_radps),
        zvec(m.body_ang_accel_radps2),
    ensures
        zrig(crate::rigidbody::srigid_derivative(m)),
{
    lemma_zero_quat_ops(m.quat_b2i, m.quat_b2i, m.body_ang_vel_radps, rat_int(1));
}

/// Idempotence of zero input: with all forces, moments, rates and
/// accelerations zero, the effects step leaves the body where it is, and so
/// does a step of either integrator, for every step size. Repeated steps
/// therefore leave it at its initial state.
pub proof fn lemma_zero_input_fixed_point(m: crate::rigidbody::SRigid, dt: SRat)
    requires
        crate::rigidbody::srigid_wf(m),
        m.mass_cg_kg.n != 0,
        rat_wf(dt),
        zvec(m.intertial_force_n),
        zvec(m.intertial_moment_nm),
        zvec(m.body_force_n),
        zvec(m.body_moment_nm),
        zvec(m.inertial_vel_mps),
        zvec(m.inertial_accel_mps2),
        zvec(m.body_ang_vel_radps),
        zvec(m.body_ang_accel_radps2),
    ensures
        crate::rigidbody::srigid_eq(crate::rigidbody::srigid_effects(m), m),
        crate::rigidbody::srigid_eq(crate::integrate::srk4::<crate::rigidbody::RigidBody>(m, dt),
            m),
        crate::rigidbody::srigid_eq(crate::integrate::seuler::<crate::rigidbody::RigidBody>(m,
            dt), m),
{
    // The effects step: both recomputed accelerations are value-zero, like
    // the accelerations they replace.
    let tq = crate::quaternion::squat_transform(m.quat_b2i, m.body_force_n);
    let tmq = crate::quaternion::squat_transform(m.quat_b2i, m.body_moment_nm);
    lemma_zero_quat_ops(m.quat_b2i, m.quat_b2i, m.body_force_n, rat_int(1));
    lemma_zero_quat_ops(m.quat_b2i, m.quat_b2i, m.body_moment_nm, rat_int(1));
    crate::quaternion::lemma_squat_vmul_wf(m.quat_b2i, m.body_force_n);
    crate::quaternion::lemma_squat_vmul_wf(m.quat_b2i, m.body_moment_nm);
    lemma_zero_quat_mul_left(crate::quaternion::squat_vmul(m.quat_b2i, m.body_force_n),
        crate::quaternion::squat_conj(m.quat_b2i));
    lemma_zero_quat_mul_left(crate::quaternion::squat_vmul(m.quat_b2i, m.body_moment_nm),
        crate::quaternion::squat_conj(m.quat_b2i));
    crate::quaternion::lemma_squat_transform_wf(m.quat_b2i, m.body_force_n);
    crate::quaternion::lemma_squat_transform_wf(m.quat_b2i, m.body_moment_nm);
    lemma_zero_vec_ops(m.intertial_force_n, tq, m.mass_cg_kg);
    lemma_zero_vec_ops(m.intertial_moment_nm, tmq, m.mass_cg_kg);
    let tf = crate::rigidbody::srigid_total_force(m);
    let tm = crate::rigidbody::srigid_total_moment(m);
    crate::vector::lemma_svec_ops_wf(m.intertial_force_n, tq);
    crate::vector::lemma_svec_ops_wf(m.intertial_moment_nm, tmq);
    lemma_zero_vec_ops(tf, tf, m.mass_cg_kg);
    crate::matrix::lemma_smat_ops_wf(m.i_tensor_cg_kgpm2, m.i_tensor_cg_kgpm2,
        m.body_ang_vel_radps, rat_int(1));
    let idw = crate::matrix::smat_vec(m.i_tensor_cg_kgpm2, m.body_ang_vel_radps);
    lemma_zero_mat_ops(m.i_tensor_cg_kgpm2, m.i_tensor_cg_kgpm2, m.body_ang_vel_radps,
        rat_int(1));
    lemma_zero_vec_ops(m.body_ang_vel_radps, idw, rat_int(1));
    let gy = crate::rigidbody::srigid_gyro_moment(m);
    crate::vector::lemma_svec_ops_wf(m.body_ang_vel_radps, idw);
    lemma_zero_vec_ops(tm, gy, rat_int(1));
    let mm = crate::vector::svec_sub(tm, gy);
    crate::vector::lemma_svec_ops_wf(tm, gy);
    lemma_zero_mat_ops(m.inv_i_tensor_cg_kgpm2, m.inv_i_tensor_cg_kgpm2, mm, rat_int(1));
    crate::matrix::lemma_smat_ops_wf(m.inv_i_tensor_cg_kgpm2, m.inv_i_tensor_cg_kgpm2, mm,
        rat_int(1));
    crate::vector::lemma_svec_scale_wf(tf, m.mass_cg_kg);
    let eff = crate::rigidbody::srigid_effects(m);
    lemma_zero_vec_ops(eff.inertial_accel_mps2, m.inertial_accel_mps2, rat_int(1));
    lemma_zero_vec_ops(eff.body_ang_accel_radps2, m.body_ang_accel_radps2, rat_int(1));
    assert(crate::rigidbody::srigid_eq(eff, m));

    // One integrator step: every derivative evaluation is value-zero, so
    // every increment is, and the sums return the state unchanged.
    let d1 = crate::rigidbody::srigid_derivative(m);
    crate::rigidbody::RigidBody::lemma_s_ops_wf(m, m, dt);
    lemma_zero_state_derivative(m);
    let st1 = crate::rigidbody::srigid_scale(d1, dt);
    crate::rigidbody::RigidBody::lemma_s_ops_wf(d1, d1, dt);
    let sh1 = crate::rigidbody::srigid_div(st1, rat_int(2));
    crate::rigidbody::RigidBody::lemma_s_ops_wf(st1, st1, rat_int(2));
    lemma_zero_state_ops(d1, d1, dt);
    lemma_zero_state_ops(st1, st1, rat_int(2));
    let sm2 = crate::rigidbody::srigid_add(m, sh1);
    crate::rigidbody::RigidBody::lemma_s_ops_wf(m, sh1, rat_int(2));
    lemma_zero_state_ops(m, sh1, rat_int(2));
    assert(crate::rigidbody::srigid_eq(sm2, m));
    crate::rigidbody::RigidBody::lemma_s_eq_refl(m);
    crate::rigidbody::RigidBody::lemma_s_ops_congr(sm2, sm2, m, m, rat_int(2));
    let k2 = crate::rigidbody::srigid_derivative(sm2);
    crate::rigidbody::RigidBody::lemma_s_ops_wf(sm2, sm2, rat_int(2));
    lemma_zrig_transport(k2, d1);
    let st2 = crate::rigidbody::srigid_scale(k2, dt);
    crate::rigidbody::RigidBody::lemma_s_ops_wf(k2, k2, dt);
    let sh2 = crate::rigidbody::srigid_div(st2, rat_int(2));
    crate::rigidbody::RigidBody::lemma_s_ops_wf(st2, st2, rat_int(2));
    lemma_zero_state_ops(k2, k2, dt);
    lemma_zero_state_ops(st2, st2, rat_int(2));
    let sm3 = crate::rigidbody::srigid_add(m, sh2);
    crate::rigidbody::RigidBody::lemma_s_ops_wf(m, sh2, rat_int(2));
    lemma_zero_state_ops(m, sh2, rat_int(2));
    assert(crate::rigidbody::srigid_eq(sm3, m));
    crate::rigidbody::RigidBody::lemma_s_ops_congr(sm3, sm3, m, m, rat_int(2));
    let k3 = crate::rigidbody::srigid_derivative(sm3);
    crate::rigidbody::RigidBody::lemma_s_ops_wf(sm3, sm3, rat_int(2));
    lemma_zrig_transport(k3, d1);
    let sh3 = crate::rigidbody::srigid_scale(k3, dt);
    crate::rigidbody::RigidBody::lemma_s_ops_wf(k3, k3, dt);
    lemma_zero_state_ops(k3, k3, dt);
    let sm4 = crate::rigidbody::srigid_add(m, sh3);
    crate::rigidbody::RigidBody::lemma_s_ops_wf(m, sh3, rat_int(2));
    lemma_zero_state_ops(m, sh3, rat_int(2));
    assert(crate::rigidbody::srigid_eq(sm4, m));
    crate::rigidbody::RigidBody::lemma_s_ops_congr(sm4, sm4, m, m, rat_int(2));
    let k4 = crate::rigidbody::srigid_derivative(sm4);
    crate::rigidbody::RigidBody::lemma_s_ops_wf(sm4, sm4, rat_int(2));
    lemma_zrig_transport(k4, d1);
    let k2d = crate::rigidbody::srigid_scale(k2, rat_int(2));
    let k3d = crate::rigidbody::srigid_scale(k3, rat_int(2));
    lemma_zero_state_ops(k2, k2, rat_int(2));
    lemma_zero_state_ops(k3, k3, rat_int(2));
    let s1 = crate::rigidbody::srigid_add(d1, k2d);
    crate::rigidbody::RigidBody::lemma_s_ops_wf(k2, k2, rat_int(2));
    crate::rigidbody::RigidBody::lemma_s_ops_wf(k3, k3, rat_int(2));
    crate::rigidbody::RigidBody::lemma_s_ops_wf(d1, k2d, rat_int(2));
    lemma_zero_state_ops(d1, k2d, rat_int(2));
    let s2 = crate::rigidbody::srigid_add(s1, k3d);
    crate::rigidbody::RigidBody::lemma_s_ops_wf(s1, k3d, rat_int(2));
    lemma_zero_state_ops(s1, k3d, rat_int(2));
    let s3 = crate::rigidbody::srigid_add(s2, k4);
    crate::rigidbody::RigidBody::lemma_s_ops_wf(s2, k4, rat_int(2));
    lemma_zero_state_ops(s2, k4, rat_int(2));
    let big = crate::rigidbody::srigid_scale(s3, dt);
    crate::rigidbody::RigidBody::lemma_s_ops_wf(s3, s3, dt);
    lemma_zero_state_ops(s3, s3, dt);
    let incr = crate::rigidbody::srigid_div(big, rat_int(6));
    crate::rigidbody::RigidBody::lemma_s_ops_wf(big, big, rat_int(6));
    lemma_zero_state_ops(big, big, rat_int(6));
    crate::rigidbody::RigidBody::lemma_s_ops_wf(m, incr, rat_int(6));
    lemma_zero_state_ops(m, incr, rat_int(6));
    assert(crate::rigidbody::srigid_eq(
        crate::integrate::srk4::<crate::rigidbody::RigidBody>(m, dt),
        m,
    ));
    // Euler.
    let et = crate::rigidbody::srigid_scale(d1, dt);
    lemma_zero_state_ops(m, et, rat_int(2));
    crate::rigidbody::RigidBody::lemma_s_ops_wf(m, et, rat_int(2));
    assert(crate::rigidbody::srigid_eq(
        crate::integrate::seuler::<crate::rigidbody::RigidBody>(m, dt),
        m,
    ));
}

/// A value-zero left factor makes a quaternion product value-zero.
proof fn lemma_zero_quat_mul_left(p: SQuat, q: SQuat)
    requires
        squat_wf(p),
        squat_wf(q),
        zquat(p),
    ensures
        zquat(crate::quaternion::squat_mul(p, q)),
{
    crate::rational::lemma_rat_ops_wf(p.b, p.b);
    crate::rational::lemma_rat_ops_wf(p.c, p.c);
    crate::rational::lemma_rat_ops_wf(p.d, p.d);
    lemma_zero_sdot4(p.a, q.a, crate::rational::rat_neg(p.b), q.b, crate::rational::rat_neg(p.c),
        q.c, crate::rational::rat_neg(p.d), q.d);
    lemma_zero_sdot4(p.b, q.a, p.a, q.b, crate::rational::rat_neg(p.d), q.c, p.c, q.d);
    lemma_zero_sdot4(p.c, q.a, p.d, q.b, p.a, q.c, crate::rational::rat_neg(p.b), q.d);
    lemma_zero_sdot4(p.d, q.a, crate::rational::rat_neg(p.c), q.b, p.b, q.c, p.a, q.d);
}

/// A four-term inner product with value-zero left factors is value-zero.
proof fn lemma_zero_sdot4(x1: SRat, y1: SRat, x2: SRat, y2: SRat, x3: SRat, y3: SRat, x4: SRat,
    y4: SRat)
    requires
        rat_wf(x1) && rat_wf(y1) && rat_wf(x2) && rat_wf(y2),
        rat_wf(x3) && rat_wf(y3) && rat_wf(x4) && rat_wf(y4),
        zval(x1) && zval(x2) && zval(x3) && zval(x4),
    ensures
        zval(crate::quaternion::sdot4(x1, y1, x2, y2, x3, y3, x4, y4)),
{
    lemma_zero_scalar_ops(x1, y1, rat_int(1));
    lemma_zero_scalar_ops(x2, y2, rat_int(1));
    lemma_zero_scalar_ops(x3, y3, rat_int(1));
    lemma_zero_scalar_ops(x4, y4, rat_int(1));
    crate::rational::lemma_rat_ops_wf(x1, y1);
    crate::rational::lemma_rat_ops_wf(x2, y2);
    crate::rational::lemma_rat_ops_wf(x3, y3);
    crate::rational::lemma_rat_ops_wf(x4, y4);
    let m1 = rat_mul(x1, y1);
    let m2 = rat_mul(x2, y2);
    let m3 = rat_mul(x3, y3);
    let m4 = rat_mul(x4, y4);
    lemma_zero_scalar_ops(m1, m2, rat_int(1));
    crate::rational::lemma_rat_ops_wf(m1, m2);
    lemma_zero_scalar_ops(crate::rational::rat_add(m1, m2), m3, rat_int(1));
    crate::rational::lemma_rat_ops_wf(crate::rational::rat_add(m1, m2), m3);
    lemma_zero_scalar_ops(
        crate::rational::rat_add(crate::rational::rat_add(m1, m2), m3),
        m4,
        rat_int(1),
    );
}

// ---------------------------------------------------------------------------
// The integrators advance the rate fields by exactly `rate + acceleration *
// dt` in one step: accelerations are recomputed only by the effects step, so
// they are constant across the four derivative evaluations, and the
// Runge-Kutta blend of a constant is that constant.
// ---------------------------------------------------------------------------

/// The scalar core: one fourth-order step of a quantity `v` whose derivative
/// is frozen at `a` lands exactly on `v + a * dt`.
proof fn lemma_rk4_rate_scalar(v: SRat, a: SRat, dt: SRat)
    requires
        rat_wf(v),
        rat_wf(a),
        rat_wf(dt),
    ensures
        rat_eq(
            crate::rational::rat_add(
                v,
                rat_div(
                    rat_mul(
                        crate::rational::rat_add(
                            crate::rational::rat_add(
                                crate::rational::rat_add(a, rat_mul(rk4_mid_rate(a, dt),
                                    rat_int(2))),
                                rat_mul(rk4_mid_rate(a, dt), rat_int(2)),
                            ),
                            rk4_end_rate(a, dt),
                        ),
                        dt,
                    ),
                    rat_int(6),
                ),
            ),
            crate::rational::rat_add(v, rat_mul(a, dt)),
        ),
{
    let mid = rk4_mid_rate(a, dt);
    let fin = rk4_end_rate(a, dt);
    let a0 = rat_div(rat_mul(rat_int(0), dt), rat_int(2));
    let a1 = rat_mul(rat_int(0), dt);
    crate::rational::lemma_rat_ops_wf(rat_int(0), dt);
    crate::rational::lemma_rat_ops_wf(rat_mul(rat_int(0), dt), rat_int(2));
    lemma_zero_scalar_ops(a0, a0, rat_int(2));
    lemma_zero_scalar_ops(a1, a1, rat_int(2));
    lemma_zero_scalar_ops(a, a0, rat_int(2));
    lemma_zero_scalar_ops(a, a1, rat_int(2));
    // Every intermediate rate equals `a`.
    assert(rat_eq(mid, a));
    assert(rat_eq(fin, a));
    crate::rational::lemma_rat_ops_wf(a, a0);
    crate::rational::lemma_rat_ops_wf(a, a1);
    // The blend of four copies of `a` is `6 a`.
    crate::rational::lemma_rat_mul_congr(mid, rat_int(2), a, rat_int(2));
    crate::rational::lemma_rat_add_congr(a, rat_mul(mid, rat_int(2)), a, rat_mul(a, rat_int(2)));
    crate::rational::lemma_rat_ops_wf(mid, rat_int(2));
    crate::rational::lemma_rat_ops_wf(a, rat_mul(mid, rat_int(2)));
    let p1 = crate::rational::rat_add(a, rat_mul(mid, rat_int(2)));
    let q1 = crate::rational::rat_add(a, rat_mul(a, rat_int(2)));
    crate::rational::lemma_rat_add_congr(p1, rat_mul(mid, rat_int(2)), q1, rat_mul(a, rat_int(2)));
    let p2 = crate::rational::rat_add(p1, rat_mul(mid, rat_int(2)));
    let q2 = crate::rational::rat_add(q1, rat_mul(a, rat_int(2)));
    crate::rational::lemma_rat_ops_wf(p1, rat_mul(mid, rat_int(2)));
    crate::rational::lemma_rat_add_congr(p2, fin, q2, a);
    let p3 = crate::rational::rat_add(p2, fin);
    let q3 = crate::rational::rat_add(q2, a);
    crate::rational::lemma_rat_ops_wf(p2, fin);
    assert(rat_eq(q3, rat_mul(a, rat_int(6)))) by (nonlinear_arith)
        requires
            q3.n == ((a.n * (a.d * 1) + (a.n * 2) * a.d) * (a.d * 1) + (a.n * 2) * (a.d * (a.d
                * 1))) * a.d + a.n * ((a.d * (a.d * 1)) * (a.d * 1)),
            q3.d == ((a.d * (a.d * 1)) * (a.d * 1)) * a.d,
            rat_mul(a, rat_int(6)) == (SRat { n: a.n * 6, d: a.d * 1 }),
    {
    }
    // So the increment is `a * dt`.
    crate::rational::lemma_rat_ops_wf(a, rat_int(2));
    crate::rational::lemma_rat_ops_wf(a, rat_mul(a, rat_int(2)));
    crate::rational::lemma_rat_ops_wf(q1, rat_mul(a, rat_int(2)));
    crate::rational::lemma_rat_ops_wf(q2, a);
    crate::rational::lemma_rat_eq_trans(p3, q3, rat_mul(a, rat_int(6)));
    crate::rational::lemma_rat_mul_congr(p3, dt, rat_mul(a, rat_int(6)), dt);
    crate::rational::lemma_rat_ops_wf(a, rat_int(6));
    crate::rational::lemma_rat_ops_wf(rat_mul(a, rat_int(6)), dt);
    assert(rat_eq(rat_div(rat_mul(rat_mul(a, rat_int(6)), dt), rat_int(6)), rat_mul(a, dt)))
        by (nonlinear_arith)
        requires
            rat_div(rat_mul(rat_mul(a, rat_int(6)), dt), rat_int(6)) == (SRat {
                n: ((a.n * 6) * dt.n) * 1,
                d: ((a.d * 1) * dt.d) * 6,
            }),
            rat_mul(a, dt) == (SRat { n: a.n * dt.n, d: a.d * dt.d }),
    {
    }
    crate::rational::lemma_rat_div_congr(rat_mul(p3, dt), rat_int(6), rat_mul(rat_mul(a,
        rat_int(6)), dt), rat_int(6));
    crate::rational::lemma_rat_ops_wf(p3, dt);
    crate::rational::lemma_rat_ops_wf(rat_mul(p3, dt), rat_int(6));
    crate::rational::lemma_rat_eq_trans(
        rat_div(rat_mul(p3, dt), rat_int(6)),
        rat_div(rat_mul(rat_mul(a, rat_int(6)), dt), rat_int(6)),
        rat_mul(a, dt),
    );
    crate::rational::lemma_rat_eq_refl(v);
    crate::rational::lemma_rat_add_congr(v, rat_div(rat_mul(p3, dt), rat_int(6)), v, rat_mul(a,
        dt));
}

/// The mid-stage rate the step sees: `a` plus a zero-valued correction.
pub open spec fn rk4_mid_rate(a: SRat, dt: SRat) -> SRat {
    crate::rational::rat_add(a, rat_div(rat_mul(rat_int(0), dt), rat_int(2)))
}

/// The end-stage rate the step sees.
pub open spec fn rk4_end_rate(a: SRat, dt: SRat) -> SRat {
    crate::rational::rat_add(a, rat_mul(rat_int(0), dt))
}

/// One fourth-order step advances the velocity by exactly the acceleration
/// times the step, and the angular velocity by exactly the angular
/// acceleration times the step: the closed form of constant-acceleration
/// motion, at any step size.
pub proof fn lemma_rk4_rate_update(m: crate::rigidbody::SRigid, dt: SRat)
    requires
        crate::rigidbody::srigid_wf(m),
        rat_wf(dt),
    ensures
        svec_eq(
            crate::integrate::srk4::<crate::rigidbody::RigidBody>(m, dt).inertial_vel_mps,
            crate::vector::svec_add(
                m.inertial_vel_mps,
                crate::vector::svec_scale(m.inertial_accel_mps2, dt),
            ),
        ),
        svec_eq(
            crate::integrate::srk4::<crate::rigidbody::RigidBody>(m, dt).body_ang_vel_radps,
            crate::vector::svec_add(
                m.body_ang_vel_radps,
                crate::vector::svec_scale(m.body_ang_accel_radps2, dt),
            ),
        ),
{
    lemma_rk4_rate_scalar(m.inertial_vel_mps.i, m.inertial_accel_mps2.i, dt);
    lemma_rk4_rate_scalar(m.inertial_vel_mps.j, m.inertial_accel_mps2.j, dt);
    lemma_rk4_rate_scalar(m.inertial_vel_mps.k, m.inertial_accel_mps2.k, dt);
    lemma_rk4_rate_scalar(m.body_ang_vel_radps.i, m.body_ang_accel_radps2.i, dt);
    lemma_rk4_rate_scalar(m.body_ang_vel_radps.j, m.body_ang_accel_radps2.j, dt);
    lemma_rk4_rate_scalar(m.body_ang_vel_radps.k, m.body_ang_accel_radps2.k, dt);
}

/// The explicit Euler step advances the velocity and the angular velocity by
/// exactly the acceleration times the step.
pub proof fn lemma_euler_rate_update(m: crate::rigidbody::SRigid, dt: SRat)
    requires
        crate::rigidbody::srigid_wf(m),
        rat_wf(dt),
    ensures
        crate::integrate::seuler::<crate::rigidbody::RigidBody>(m, dt).inertial_vel_mps
            == crate::vector::svec_add(
            m.inertial_vel_mps,
            crate::vector::svec_scale(m.inertial_accel_mps2, dt),
        ),
        crate::integrate::seuler::<crate::rigidbody::RigidBody>(m, dt).body_ang_vel_radps
            == crate::vector::svec_add(
            m.body_ang_vel_radps,
            crate::vector::svec_scale(m.body_ang_accel_radps2, dt),
        ),
{
}

} // verus!
