//! 3x3 matrices over exact rationals: rotation matrices (direction cosines)
//! and inertia tensors.

use vstd::prelude::*;

verus! {

use crate::rational::{
    Rat,
    SRat,
    rat_eq,
    rat_wf,
    rat_pos,
    rat_int,
    rat_add,
    rat_sub,
    rat_neg,
    rat_mul,
    rat_div,
    lemma_rat_mul_exact,
    lemma_rat_div_exact,
    lemma_rat_ops_wf,
    rat_mag,
    rat_under,
    rat_fits_env,
    lemma_rat_mag_self,
    lemma_env_mono_mul,
    lemma_env_mono_div,
};
use crate::vector::{
    Vector3,
    SVec3,
    svec_eq,
    svec_wf,
    svec_pos,
    svec_dot,
    svec_cross,
    svec_add,
    svec_scale,
    svec_div,
    svec_mag,
    svec_env,
    svec_under,
    svec_fits_env,
    svec_dot_fits,
    scross_env,
    lemma_svec_ops_wf,
    lemma_svec_congr,
    lemma_svec_dot_fits_mono,
    lemma_scross_env,
};

/// Mathematical model of a 3x3 matrix, row-major.
pub struct SMat3 {
    pub c11: SRat,
    pub c12: SRat,
    pub c13: SRat,
    pub c21: SRat,
    pub c22: SRat,
    pub c23: SRat,
    pub c31: SRat,
    pub c32: SRat,
    pub c33: SRat,
}

pub open spec fn smat_wf(m: SMat3) -> bool {
    rat_wf(m.c11) && rat_wf(m.c12) && rat_wf(m.c13) && rat_wf(m.c21) && rat_wf(m.c22) && rat_wf(
        m.c23,
    ) && rat_wf(m.c31) && rat_wf(m.c32) && rat_wf(m.c33)
}

pub open spec fn smat_pos(m: SMat3) -> bool {
    rat_pos(m.c11) && rat_pos(m.c12) && rat_pos(m.c13) && rat_pos(m.c21) && rat_pos(m.c22)
        && rat_pos(m.c23) && rat_pos(m.c31) && rat_pos(m.c32) && rat_pos(m.c33)
}

/// Entrywise value equality.
pub open spec fn smat_eq(a: SMat3, b: SMat3) -> bool {
    rat_eq(a.c11, b.c11) && rat_eq(a.c12, b.c12) && rat_eq(a.c13, b.c13) && rat_eq(a.c21, b.c21)
        && rat_eq(a.c22, b.c22) && rat_eq(a.c23, b.c23) && rat_eq(a.c31, b.c31) && rat_eq(
        a.c32,
        b.c32,
    ) && rat_eq(a.c33, b.c33)
}

pub open spec fn smat_identity() -> SMat3 {
    SMat3 {
        c11: rat_int(1),
        c12: rat_int(0),
        c13: rat_int(0),
        c21: rat_int(0),
        c22: rat_int(1),
        c23: rat_int(0),
        c31: rat_int(0),
        c32: rat_int(0),
        c33: rat_int(1),
    }
}

pub open spec fn smat_zero() -> SMat3 {
    SMat3 {
        c11: rat_int(0),
        c12: rat_int(0),
        c13: rat_int(0),
        c21: rat_int(0),
        c22: rat_int(0),
        c23: rat_int(0),
        c31: rat_int(0),
        c32: rat_int(0),
        c33: rat_int(0),
    }
}

pub open spec fn srow1(m: SMat3) -> SVec3 {
    SVec3 { i: m.c11, j: m.c12, k: m.c13 }
}

pub open spec fn srow2(m: SMat3) -> SVec3 {
    SVec3 { i: m.c21, j: m.c22, k: m.c23 }
}

pub open spec fn srow3(m: SMat3) -> SVec3 {
    SVec3 { i: m.c31, j: m.c32, k: m.c33 }
}

pub open spec fn scol1(m: SMat3) -> SVec3 {
    SVec3 { i: m.c11, j: m.c21, k: m.c31 }
}

pub open spec fn scol2(m: SMat3) -> SVec3 {
    SVec3 { i: m.c12, j: m.c22, k: m.c32 }
}

pub open spec fn scol3(m: SMat3) -> SVec3 {
    SVec3 { i: m.c13, j: m.c23, k: m.c33 }
}

pub open spec fn smat_add(a: SMat3, b: SMat3) -> SMat3 {
    SMat3 {
        c11: rat_add(a.c11, b.c11),
        c12: rat_add(a.c12, b.c12),
        c13: rat_add(a.c13, b.c13),
        c21: rat_add(a.c21, b.c21),
        c22: rat_add(a.c22, b.c22),
        c23: rat_add(a.c23, b.c23),
        c31: rat_add(a.c31, b.c31),
        c32: rat_add(a.c32, b.c32),
        c33: rat_add(a.c33, b.c33),
    }
}

pub open spec fn smat_sub(a: SMat3, b: SMat3) -> SMat3 {
    SMat3 {
        c11: rat_sub(a.c11, b.c11),
        c12: rat_sub(a.c12, b.c12),
        c13: rat_sub(a.c13, b.c13),
        c21: rat_sub(a.c21, b.c21),
        c22: rat_sub(a.c22, b.c22),
        c23: rat_sub(a.c23, b.c23),
        c31: rat_sub(a.c31, b.c31),
        c32: rat_sub(a.c32, b.c32),
        c33: rat_sub(a.c33, b.c33),
    }
}

pub open spec fn smat_scale(m: SMat3, s: SRat) -> SMat3 {
    SMat3 {
        c11: rat_mul(m.c11, s),
        c12: rat_mul(m.c12, s),
        c13: rat_mul(m.c13, s),
        c21: rat_mul(m.c21, s),
        c22: rat_mul(m.c22, s),
        c23: rat_mul(m.c23, s),
        c31: rat_mul(m.c31, s),
        c32: rat_mul(m.c32, s),
        c33: rat_mul(m.c33, s),
    }
}

pub open spec fn smat_transpose(m: SMat3) -> SMat3 {
    SMat3 {
        c11: m.c11,
        c12: m.c21,
        c13: m.c31,
        c21: m.c12,
        c22: m.c22,
        c23: m.c32,
        c31: m.c13,
        c32: m.c23,
        c33: m.c33,
    }
}

/// Matrix product: each entry is a row of `a` against a column of `b`.
pub open spec fn smat_mul(a: SMat3, b: SMat3) -> SMat3 {
    SMat3 {
        c11: svec_dot(srow1(a), scol1(b)),
        c12: svec_dot(srow1(a), scol2(b)),
        c13: svec_dot(srow1(a), scol3(b)),
        c21: svec_dot(srow2(a), scol1(b)),
        c22: svec_dot(srow2(a), scol2(b)),
        c23: svec_dot(srow2(a), scol3(b)),
        c31: svec_dot(srow3(a), scol1(b)),
        c32: svec_dot(srow3(a), scol2(b)),
        c33: svec_dot(srow3(a), scol3(b)),
    }
}

/// Matrix-vector product.
pub open spec fn smat_vec(m: SMat3, v: SVec3) -> SVec3 {
    SVec3 { i: svec_dot(srow1(m), v), j: svec_dot(srow2(m), v), k: svec_dot(srow3(m), v) }
}

/// Determinant as the scalar triple product of the rows.
pub open spec fn smat_det(m: SMat3) -> SRat {
    svec_dot(srow1(m), svec_cross(srow2(m), srow3(m)))
}

/// Adjugate (transpose of the cofactor matrix).
pub open spec fn smat_adjugate(m: SMat3) -> SMat3 {
    SMat3 {
        c11: rat_sub(rat_mul(m.c22, m.c33), rat_mul(m.c32, m.c23)),
        c12: rat_sub(rat_mul(m.c32, m.c13), rat_mul(m.c12, m.c33)),
        c13: rat_sub(rat_mul(m.c12, m.c23), rat_mul(m.c22, m.c13)),
        c21: rat_sub(rat_mul(m.c31, m.c23), rat_mul(m.c21, m.c33)),
        c22: rat_sub(rat_mul(m.c11, m.c33), rat_mul(m.c31, m.c13)),
        c23: rat_sub(rat_mul(m.c21, m.c13), rat_mul(m.c11, m.c23)),
        c31: rat_sub(rat_mul(m.c21, m.c32), rat_mul(m.c31, m.c22)),
        c32: rat_sub(rat_mul(m.c31, m.c12), rat_mul(m.c11, m.c32)),
        c33: rat_sub(rat_mul(m.c11, m.c22), rat_mul(m.c21, m.c12)),
    }
}

/// The inverse: the adjugate scaled by the reciprocal of the determinant.
pub open spec fn smat_inverse(m: SMat3) -> SMat3 {
    smat_scale(smat_adjugate(m), rat_div(rat_int(1), smat_det(m)))
}

pub open spec fn smat_div(m: SMat3, s: SRat) -> SMat3 {
    SMat3 {
        c11: rat_div(m.c11, s),
        c12: rat_div(m.c12, s),
        c13: rat_div(m.c13, s),
        c21: rat_div(m.c21, s),
        c22: rat_div(m.c22, s),
        c23: rat_div(m.c23, s),
        c31: rat_div(m.c31, s),
        c32: rat_div(m.c32, s),
        c33: rat_div(m.c33, s),
    }
}

/// Skew-symmetric matrix of a vector, such that `skew(w) * v == w x v`.
pub open spec fn smat_skew(w: SVec3) -> SMat3 {
    SMat3 {
        c11: rat_int(0),
        c12: rat_neg(w.k),
        c13: w.j,
        c21: w.k,
        c22: rat_int(0),
        c23: rat_neg(w.i),
        c31: rat_neg(w.j),
        c32: w.i,
        c33: rat_int(0),
    }
}

/// The model of an array of nine scalars, row-major.
pub open spec fn smat_of_array(a: [Rat; 9]) -> SMat3 {
    SMat3 {
        c11: a[0]@,
        c12: a[1]@,
        c13: a[2]@,
        c21: a[3]@,
        c22: a[4]@,
        c23: a[5]@,
        c31: a[6]@,
        c32: a[7]@,
        c33: a[8]@,
    }
}

/// The entrywise magnitude of a matrix.
pub open spec fn smat_mag(m: SMat3) -> SMat3 {
    SMat3 {
        c11: rat_mag(m.c11),
        c12: rat_mag(m.c12),
        c13: rat_mag(m.c13),
        c21: rat_mag(m.c21),
        c22: rat_mag(m.c22),
        c23: rat_mag(m.c23),
        c31: rat_mag(m.c31),
        c32: rat_mag(m.c32),
        c33: rat_mag(m.c33),
    }
}

pub open spec fn smat_fits_env(e: SMat3) -> bool {
    rat_fits_env(e.c11) && rat_fits_env(e.c12) && rat_fits_env(e.c13) && rat_fits_env(e.c21)
        && rat_fits_env(e.c22) && rat_fits_env(e.c23) && rat_fits_env(e.c31) && rat_fits_env(
        e.c32,
    ) && rat_fits_env(e.c33)
}

/// The matrix product succeeds when every row-against-column dot product
/// does.
pub open spec fn smat_mul_fits(a: SMat3, b: SMat3) -> bool {
    svec_dot_fits(srow1(a), scol1(b)) && svec_dot_fits(srow1(a), scol2(b)) && svec_dot_fits(
        srow1(a),
        scol3(b),
    ) && svec_dot_fits(srow2(a), scol1(b)) && svec_dot_fits(srow2(a), scol2(b)) && svec_dot_fits(
        srow2(a),
        scol3(b),
    ) && svec_dot_fits(srow3(a), scol1(b)) && svec_dot_fits(srow3(a), scol2(b)) && svec_dot_fits(
        srow3(a),
        scol3(b),
    )
}

/// The entrywise envelope of the adjugate: magnitudes add where the
/// cofactors subtract.
pub open spec fn sadj_env(mm: SMat3) -> SMat3 {
    SMat3 {
        c11: rat_add(rat_mul(mm.c22, mm.c33), rat_mul(mm.c32, mm.c23)),
        c12: rat_add(rat_mul(mm.c32, mm.c13), rat_mul(mm.c12, mm.c33)),
        c13: rat_add(rat_mul(mm.c12, mm.c23), rat_mul(mm.c22, mm.c13)),
        c21: rat_add(rat_mul(mm.c31, mm.c23), rat_mul(mm.c21, mm.c33)),
        c22: rat_add(rat_mul(mm.c11, mm.c33), rat_mul(mm.c31, mm.c13)),
        c23: rat_add(rat_mul(mm.c21, mm.c13), rat_mul(mm.c11, mm.c23)),
        c31: rat_add(rat_mul(mm.c21, mm.c32), rat_mul(mm.c31, mm.c22)),
        c32: rat_add(rat_mul(mm.c31, mm.c12), rat_mul(mm.c11, mm.c32)),
        c33: rat_add(rat_mul(mm.c11, mm.c22), rat_mul(mm.c21, mm.c12)),
    }
}

pub open spec fn smat_env(e: SMat3) -> bool {
    crate::rational::rat_env(e.c11) && crate::rational::rat_env(e.c12)
        && crate::rational::rat_env(e.c13) && crate::rational::rat_env(e.c21)
        && crate::rational::rat_env(e.c22) && crate::rational::rat_env(e.c23)
        && crate::rational::rat_env(e.c31) && crate::rational::rat_env(e.c32)
        && crate::rational::rat_env(e.c33)
}

pub open spec fn smat_under(v: SMat3, e: SMat3) -> bool {
    rat_under(v.c11, e.c11) && rat_under(v.c12, e.c12) && rat_under(v.c13, e.c13) && rat_under(
        v.c21,
        e.c21,
    ) && rat_under(v.c22, e.c22) && rat_under(v.c23, e.c23) && rat_under(v.c31, e.c31)
        && rat_under(v.c32, e.c32) && rat_under(v.c33, e.c33)
}

/// The adjugate envelope of an envelope matrix is an envelope matrix.
pub proof fn lemma_sadj_env(mm: SMat3)
    requires
        smat_env(mm),
    ensures
        smat_env(sadj_env(mm)),
{
    lemma_env_mono_mul(mm.c22, mm.c33, mm.c22, mm.c33);
    lemma_env_mono_mul(mm.c32, mm.c23, mm.c32, mm.c23);
    lemma_env_mono_mul(mm.c32, mm.c13, mm.c32, mm.c13);
    lemma_env_mono_mul(mm.c12, mm.c33, mm.c12, mm.c33);
    lemma_env_mono_mul(mm.c12, mm.c23, mm.c12, mm.c23);
    lemma_env_mono_mul(mm.c22, mm.c13, mm.c22, mm.c13);
    lemma_env_mono_mul(mm.c31, mm.c23, mm.c31, mm.c23);
    lemma_env_mono_mul(mm.c21, mm.c33, mm.c21, mm.c33);
    lemma_env_mono_mul(mm.c11, mm.c33, mm.c11, mm.c33);
    lemma_env_mono_mul(mm.c31, mm.c13, mm.c31, mm.c13);
    lemma_env_mono_mul(mm.c21, mm.c13, mm.c21, mm.c13);
    lemma_env_mono_mul(mm.c11, mm.c23, mm.c11, mm.c23);
    lemma_env_mono_mul(mm.c21, mm.c32, mm.c21, mm.c32);
    lemma_env_mono_mul(mm.c31, mm.c22, mm.c31, mm.c22);
    lemma_env_mono_mul(mm.c31, mm.c12, mm.c31, mm.c12);
    lemma_env_mono_mul(mm.c11, mm.c32, mm.c11, mm.c32);
    lemma_env_mono_mul(mm.c11, mm.c22, mm.c11, mm.c22);
    lemma_env_mono_mul(mm.c21, mm.c12, mm.c21, mm.c12);
    crate::rational::lemma_env_mono_add(rat_mul(mm.c22, mm.c33), rat_mul(mm.c32, mm.c23),
        rat_mul(mm.c22, mm.c33), rat_mul(mm.c32, mm.c23));
    crate::rational::lemma_env_mono_add(rat_mul(mm.c32, mm.c13), rat_mul(mm.c12, mm.c33),
        rat_mul(mm.c32, mm.c13), rat_mul(mm.c12, mm.c33));
    crate::rational::lemma_env_mono_add(rat_mul(mm.c12, mm.c23), rat_mul(mm.c22, mm.c13),
        rat_mul(mm.c12, mm.c23), rat_mul(mm.c22, mm.c13));
    crate::rational::lemma_env_mono_add(rat_mul(mm.c31, mm.c23), rat_mul(mm.c21, mm.c33),
        rat_mul(mm.c31, mm.c23), rat_mul(mm.c21, mm.c33));
    crate::rational::lemma_env_mono_add(rat_mul(mm.c11, mm.c33), rat_mul(mm.c31, mm.c13),
        rat_mul(mm.c11, mm.c33), rat_mul(mm.c31, mm.c13));
    crate::rational::lemma_env_mono_add(rat_mul(mm.c21, mm.c13), rat_mul(mm.c11, mm.c23),
        rat_mul(mm.c21, mm.c13), rat_mul(mm.c11, mm.c23));
    crate::rational::lemma_env_mono_add(rat_mul(mm.c21, mm.c32), rat_mul(mm.c31, mm.c22),
        rat_mul(mm.c21, mm.c32), rat_mul(mm.c31, mm.c22));
    crate::rational::lemma_env_mono_add(rat_mul(mm.c31, mm.c12), rat_mul(mm.c11, mm.c32),
        rat_mul(mm.c31, mm.c12), rat_mul(mm.c11, mm.c32));
    crate::rational::lemma_env_mono_add(rat_mul(mm.c11, mm.c22), rat_mul(mm.c21, mm.c12),
        rat_mul(mm.c11, mm.c22), rat_mul(mm.c21, mm.c12));
}

/// The inverse computation succeeds, besides a nonzero determinant, when
/// the determinant, adjugate and scaling envelopes all fit.
pub open spec fn smat_inv_fits(m: SMat3) -> bool {
    smat_det_fits(m) && smat_fits_env(sadj_env(smat_mag(m))) && smat_fits_env(
        smat_scale(sadj_env(smat_mag(m)), rat_div(rat_int(1), sdet_env(smat_mag(m)))),
    )
}

/// The envelope of the determinant expression.
pub open spec fn sdet_env(mm: SMat3) -> SRat {
    svec_dot(srow1(mm), scross_env(srow2(mm), srow3(mm)))
}

/// The determinant computation succeeds when its envelope tree fits.
pub open spec fn smat_det_fits(m: SMat3) -> bool {
    svec_fits_env(scross_env(svec_mag(srow2(m)), svec_mag(srow3(m)))) && rat_fits_env(
        sdet_env(smat_mag(m)),
    )
}

pub proof fn lemma_smat_eq_trans(a: SMat3, b: SMat3, c: SMat3)
    requires
        smat_wf(b),
        smat_eq(a, b),
        smat_eq(b, c),
    ensures
        smat_eq(a, c),
{
    crate::rational::lemma_rat_eq_trans(a.c11, b.c11, c.c11);
    crate::rational::lemma_rat_eq_trans(a.c12, b.c12, c.c12);
    crate::rational::lemma_rat_eq_trans(a.c13, b.c13, c.c13);
    crate::rational::lemma_rat_eq_trans(a.c21, b.c21, c.c21);
    crate::rational::lemma_rat_eq_trans(a.c22, b.c22, c.c22);
    crate::rational::lemma_rat_eq_trans(a.c23, b.c23, c.c23);
    crate::rational::lemma_rat_eq_trans(a.c31, b.c31, c.c31);
    crate::rational::lemma_rat_eq_trans(a.c32, b.c32, c.c32);
    crate::rational::lemma_rat_eq_trans(a.c33, b.c33, c.c33);
}

/// Entrywise matrix operations respect entrywise value equality, as does the
/// matrix-vector product.
pub proof fn lemma_smat_congr(a: SMat3, b: SMat3, a2: SMat3, b2: SMat3, v: SVec3, v2: SVec3,
    k: SRat)
    requires
        smat_eq(a, a2),
        smat_eq(b, b2),
        svec_eq(v, v2),
        smat_wf(a),
        smat_wf(b),
        smat_wf(a2),
        smat_wf(b2),
        svec_wf(v),
        svec_wf(v2),
        rat_wf(k),
    ensures
        smat_eq(smat_add(a, b), smat_add(a2, b2)),
        smat_eq(smat_sub(a, b), smat_sub(a2, b2)),
        smat_eq(smat_scale(a, k), smat_scale(a2, k)),
        k.n != 0 ==> smat_eq(smat_div(a, k), smat_div(a2, k)),
        svec_eq(smat_vec(a, v), smat_vec(a2, v2)),
{
    lemma_svec_congr(srow1(a), srow1(b), srow1(a2), srow1(b2), k);
    lemma_svec_congr(srow2(a), srow2(b), srow2(a2), srow2(b2), k);
    lemma_svec_congr(srow3(a), srow3(b), srow3(a2), srow3(b2), k);
    lemma_svec_congr(srow1(a), v, srow1(a2), v2, k);
    lemma_svec_congr(srow2(a), v, srow2(a2), v2, k);
    lemma_svec_congr(srow3(a), v, srow3(a2), v2, k);
}

/// Well-formedness of the entrywise operations and the matrix-vector
/// product.
pub proof fn lemma_smat_ops_wf(a: SMat3, b: SMat3, v: SVec3, k: SRat)
    requires
        smat_wf(a),
        smat_wf(b),
        svec_wf(v),
        rat_wf(k),
    ensures
        smat_wf(smat_add(a, b)),
        smat_wf(smat_sub(a, b)),
        smat_wf(smat_scale(a, k)),
        k.n != 0 ==> smat_wf(smat_div(a, k)),
        svec_wf(smat_vec(a, v)),
{
    lemma_svec_ops_wf(srow1(a), srow1(b));
    lemma_svec_ops_wf(srow2(a), srow2(b));
    lemma_svec_ops_wf(srow3(a), srow3(b));
    crate::vector::lemma_svec_scale_wf(srow1(a), k);
    crate::vector::lemma_svec_scale_wf(srow2(a), k);
    crate::vector::lemma_svec_scale_wf(srow3(a), k);
    lemma_svec_ops_wf(srow1(a), v);
    lemma_svec_ops_wf(srow2(a), v);
    lemma_svec_ops_wf(srow3(a), v);
}

pub proof fn lemma_smat_det_wf(m: SMat3)
    requires
        smat_wf(m),
    ensures
        rat_wf(smat_det(m)),
{
    lemma_svec_ops_wf(srow2(m), srow3(m));
    lemma_svec_ops_wf(srow1(m), svec_cross(srow2(m), srow3(m)));
}

/// Executable 3x3 matrix with entries `c11` through `c33`, row-major.
#[derive(Debug, Clone, Copy)]
pub struct Matrix3x3 {
    pub c11: Rat,
    pub c12: Rat,
    pub c13: Rat,
    pub c21: Rat,
    pub c22: Rat,
    pub c23: Rat,
    pub c31: Rat,
    pub c32: Rat,
    pub c33: Rat,
}

impl View for Matrix3x3 {
    type V = SMat3;

    open spec fn view(&self) -> SMat3 {
        SMat3 {
            c11: self.c11@,
            c12: self.c12@,
            c13: self.c13@,
            c21: self.c21@,
            c22: self.c22@,
            c23: self.c23@,
            c31: self.c31@,
            c32: self.c32@,
            c33: self.c33@,
        }
    }
}

impl Matrix3x3 {
    pub fn new(
        c11: Rat,
        c12: Rat,
        c13: Rat,
        c21: Rat,
        c22: Rat,
        c23: Rat,
        c31: Rat,
        c32: Rat,
        c33: Rat,
    ) -> (r: Matrix3x3)
        ensures
            r@ == (SMat3 {
                c11: c11@,
                c12: c12@,
                c13: c13@,
                c21: c21@,
                c22: c22@,
                c23: c23@,
                c31: c31@,
                c32: c32@,
                c33: c33@,
            }),
    {
        Matrix3x3 { c11, c12, c13, c21, c22, c23, c31, c32, c33 }
    }

    /// The matrix with `num` in every entry.
    pub fn of(num: Rat) -> (r: Matrix3x3)
        ensures
            r@.c11 == num@ && r@.c12 == num@ && r@.c13 == num@,
            r@.c21 == num@ && r@.c22 == num@ && r@.c23 == num@,
            r@.c31 == num@ && r@.c32 == num@ && r@.c33 == num@,
    {
        Matrix3x3 {
            c11: num,
            c12: num,
            c13: num,
            c21: num,
            c22: num,
            c23: num,
            c31: num,
            c32: num,
            c33: num,
        }
    }

    pub fn identity() -> (r: Matrix3x3)
        ensures
            r@ == smat_identity(),
    {
        let z = Rat::zero();
        let o = Rat::one();
        Matrix3x3 { c11: o, c12: z, c13: z, c21: z, c22: o, c23: z, c31: z, c32: z, c33: o }
    }

    pub fn from_array(array: [Rat; 9]) -> (r: Matrix3x3)
        ensures
            r@ == (SMat3 {
                c11: array[0]@,
                c12: array[1]@,
                c13: array[2]@,
                c21: array[3]@,
                c22: array[4]@,
                c23: array[5]@,
                c31: array[6]@,
                c32: array[7]@,
                c33: array[8]@,
            }),
    {
        Matrix3x3 {
            c11: array[0],
            c12: array[1],
            c13: array[2],
            c21: array[3],
            c22: array[4],
            c23: array[5],
            c31: array[6],
            c32: array[7],
            c33: array[8],
        }
    }

    pub fn to_array(&self) -> (r: [Rat; 9])
        ensures
            r[0]@ == self@.c11 && r[1]@ == self@.c12 && r[2]@ == self@.c13,
            r[3]@ == self@.c21 && r[4]@ == self@.c22 && r[5]@ == self@.c23,
            r[6]@ == self@.c31 && r[7]@ == self@.c32 && r[8]@ == self@.c33,
    {
        [self.c11, self.c12, self.c13, self.c21, self.c22, self.c23, self.c31, self.c32, self.c33]
    }

    pub fn row1(&self) -> (r: Vector3)
        ensures
            r@ == srow1(self@),
    {
        Vector3 { i: self.c11, j: self.c12, k: self.c13 }
    }

    pub fn row2(&self) -> (r: Vector3)
        ensures
            r@ == srow2(self@),
    {
        Vector3 { i: self.c21, j: self.c22, k: self.c23 }
    }

    pub fn row3(&self) -> (r: Vector3)
        ensures
            r@ == srow3(self@),
    {
        Vector3 { i: self.c31, j: self.c32, k: self.c33 }
    }

    pub fn col1(&self) -> (r: Vector3)
        ensures
            r@ == scol1(self@),
    {
        Vector3 { i: self.c11, j: self.c21, k: self.c31 }
    }

    pub fn col2(&self) -> (r: Vector3)
        ensures
            r@ == scol2(self@),
    {
        Vector3 { i: self.c12, j: self.c22, k: self.c32 }
    }

    pub fn col3(&self) -> (r: Vector3)
        ensures
            r@ == scol3(self@),
    {
        Vector3 { i: self.c13, j: self.c23, k: self.c33 }
    }

    /// Exact entrywise sum, or `None` when an entry does not fit; succeeds
    /// whenever the entrywise magnitude envelope of the exact sum fits.
    pub fn add(&self, other: &Matrix3x3) -> (r: Option<Matrix3x3>)
        ensures
            r matches Some(v) ==> smat_eq(v@, smat_add(self@, other@)) && smat_pos(v@),
            r matches Some(v) ==> smat_under(v@, smat_add(smat_mag(self@), smat_mag(other@))),
            smat_fits_env(smat_add(smat_mag(self@), smat_mag(other@))) ==> r is Some,
    {
        let r1 = match self.row1().add(&other.row1()) {
            Some(v) => v,
            None => {
                return None;
            },
        };
        let r2 = match self.row2().add(&other.row2()) {
            Some(v) => v,
            None => {
                return None;
            },
        };
        let r3 = match self.row3().add(&other.row3()) {
            Some(v) => v,
            None => {
                return None;
            },
        };
        Some(Matrix3x3::from_rows(r1, r2, r3))
    }

    /// Exact entrywise difference, or `None` when an entry does not fit;
    /// succeeds whenever the envelope summing the operands' magnitudes fits.
    pub fn sub(&self, other: &Matrix3x3) -> (r: Option<Matrix3x3>)
        ensures
            r matches Some(v) ==> smat_eq(v@, smat_sub(self@, other@)) && smat_pos(v@),
            r matches Some(v) ==> smat_under(v@, smat_add(smat_mag(self@), smat_mag(other@))),
            smat_fits_env(smat_add(smat_mag(self@), smat_mag(other@))) ==> r is Some,
    {
        let r1 = match self.row1().sub(&other.row1()) {
            Some(v) => v,
            None => {
                return None;
            },
        };
        let r2 = match self.row2().sub(&other.row2()) {
            Some(v) => v,
            None => {
                return None;
            },
        };
        let r3 = match self.row3().sub(&other.row3()) {
            Some(v) => v,
            None => {
                return None;
            },
        };
        Some(Matrix3x3::from_rows(r1, r2, r3))
    }

    /// Exact scaling by a rational, or `None` when an entry does not fit;
    /// succeeds whenever the magnitude envelope of the exact scaling fits.
    pub fn scale(&self, s: &Rat) -> (r: Option<Matrix3x3>)
        ensures
            r matches Some(v) ==> smat_eq(v@, smat_scale(self@, s@)) && smat_pos(v@),
            r matches Some(v) ==> smat_under(v@, smat_scale(smat_mag(self@), rat_mag(s@))),
            smat_fits_env(smat_scale(smat_mag(self@), rat_mag(s@))) ==> r is Some,
    {
        let r1 = match self.row1().scale(s) {
            Some(v) => v,
            None => {
                return None;
            },
        };
        let r2 = match self.row2().scale(s) {
            Some(v) => v,
            None => {
                return None;
            },
        };
        let r3 = match self.row3().scale(s) {
            Some(v) => v,
            None => {
                return None;
            },
        };
        Some(Matrix3x3::from_rows(r1, r2, r3))
    }

    fn from_rows(r1: Vector3, r2: Vector3, r3: Vector3) -> (r: Matrix3x3)
        ensures
            srow1(r@) == r1@ && srow2(r@) == r2@ && srow3(r@) == r3@,
            r@ == (SMat3 {
                c11: r1@.i,
                c12: r1@.j,
                c13: r1@.k,
                c21: r2@.i,
                c22: r2@.j,
                c23: r2@.k,
                c31: r3@.i,
                c32: r3@.j,
                c33: r3@.k,
            }),
    {
        Matrix3x3 {
            c11: r1.i,
            c12: r1.j,
            c13: r1.k,
            c21: r2.i,
            c22: r2.j,
            c23: r2.k,
            c31: r3.i,
            c32: r3.j,
            c33: r3.k,
        }
    }

    pub fn transpose(&self) -> (r: Matrix3x3)
        ensures
            r@ == smat_transpose(self@),
    {
        Matrix3x3 {
            c11: self.c11,
            c12: self.c21,
            c13: self.c31,
            c21: self.c12,
            c22: self.c22,
            c23: self.c32,
            c31: self.c13,
            c32: self.c23,
            c33: self.c33,
        }
    }

    /// Exact matrix-vector product, or `None` when an entry does not fit;
    /// succeeds whenever every row-against-vector dot product does.
    pub fn transform(&self, vec: &Vector3) -> (r: Option<Vector3>)
        ensures
            r matches Some(v) ==> svec_eq(v@, smat_vec(self@, vec@)) && svec_pos(v@),
            r matches Some(v) ==> svec_under(
                v@,
                (SVec3 {
                    i: svec_dot(svec_mag(srow1(self@)), svec_mag(vec@)),
                    j: svec_dot(svec_mag(srow2(self@)), svec_mag(vec@)),
                    k: svec_dot(svec_mag(srow3(self@)), svec_mag(vec@)),
                }),
            ),
            svec_dot_fits(srow1(self@), vec@) && svec_dot_fits(srow2(self@), vec@)
                && svec_dot_fits(srow3(self@), vec@) ==> r is Some,
    {
        let i = match self.row1().dot(vec) {
            Some(v) => v,
            None => {
                return None;
            },
        };
        let j = match self.row2().dot(vec) {
            Some(v) => v,
            None => {
                return None;
            },
        };
        let k = match self.row3().dot(vec) {
            Some(v) => v,
            None => {
                return None;
            },
        };
        Some(Vector3 { i, j, k })
    }

    /// Exact matrix-matrix product, or `None` when an entry does not fit;
    /// succeeds whenever every row-against-column dot product does.
    pub fn matmul(&self, other: &Matrix3x3) -> (r: Option<Matrix3x3>)
        ensures
            r matches Some(v) ==> smat_eq(v@, smat_mul(self@, other@)) && smat_pos(v@),
            smat_mul_fits(self@, other@) ==> r is Some,
    {
        let c11 = match self.row1().dot(&other.col1()) {
            Some(v) => v,
            None => {
                return None;
            },
        };
        let c12 = match self.row1().dot(&other.col2()) {
            Some(v) => v,
            None => {
                return None;
            },
        };
        let c13 = match self.row1().dot(&other.col3()) {
            Some(v) => v,
            None => {
                return None;
            },
        };
        let c21 = match self.row2().dot(&other.col1()) {
            Some(v) => v,
            None => {
                return None;
            },
        };
        let c22 = match self.row2().dot(&other.col2()) {
            Some(v) => v,
            None => {
                return None;
            },
        };
        let c23 = match self.row2().dot(&other.col3()) {
            Some(v) => v,
            None => {
                return None;
            },
        };
        let c31 = match self.row3().dot(&other.col1()) {
            Some(v) => v,
            None => {
                return None;
            },
        };
        let c32 = match self.row3().dot(&other.col2()) {
            Some(v) => v,
            None => {
                return None;
            },
        };
        let c33 = match self.row3().dot(&other.col3()) {
            Some(v) => v,
            None => {
                return None;
            },
        };
        Some(Matrix3x3 { c11, c12, c13, c21, c22, c23, c31, c32, c33 })
    }

    /// Exact determinant, or `None` when an intermediate does not fit;
    /// succeeds whenever its envelope tree fits.
    pub fn det(&self) -> (r: Option<Rat>)
        ensures
            r matches Some(v) ==> rat_eq(v@, smat_det(self@)) && rat_pos(v@),
            r matches Some(v) ==> rat_under(v@, sdet_env(smat_mag(self@))),
            smat_det_fits(self@) ==> r is Some,
    {
        proof {
            use_type_invariant(self.c11);
            use_type_invariant(self.c12);
            use_type_invariant(self.c13);
            use_type_invariant(self.c21);
            use_type_invariant(self.c22);
            use_type_invariant(self.c23);
            use_type_invariant(self.c31);
            use_type_invariant(self.c32);
            use_type_invariant(self.c33);
        }
        let ghost cenv = scross_env(svec_mag(srow2(self@)), svec_mag(srow3(self@)));
        let c = match self.row2().cross(&self.row3()) {
            Some(v) => v,
            None => {
                return None;
            },
        };
        proof {
            lemma_rat_mag_self(self@.c21);
            lemma_rat_mag_self(self@.c22);
            lemma_rat_mag_self(self@.c23);
            lemma_rat_mag_self(self@.c31);
            lemma_rat_mag_self(self@.c32);
            lemma_rat_mag_self(self@.c33);
            lemma_scross_env(svec_mag(srow2(self@)), svec_mag(srow3(self@)));
            lemma_svec_dot_fits_mono(srow1(self@), c@, cenv);
        }
        let d = match self.row1().dot(&c) {
            Some(v) => v,
            None => {
                return None;
            },
        };
        proof {
            lemma_svec_ops_wf(srow2(self@), srow3(self@));
            lemma_svec_dot_exact(d@, srow1(self@), c@, svec_cross(srow2(self@), srow3(self@)));
        }
        Some(d)
    }

    /// Exact adjugate, or `None` when an entry does not fit; succeeds
    /// whenever its entrywise envelope fits.
    pub fn adjugate(&self) -> (r: Option<Matrix3x3>)
        ensures
            r matches Some(v) ==> smat_eq(v@, smat_adjugate(self@)) && smat_pos(v@),
            r matches Some(v) ==> smat_under(v@, sadj_env(smat_mag(self@))),
            smat_fits_env(sadj_env(smat_mag(self@))) ==> r is Some,
    {
        let c11 = match crate::vector::cross_term(&self.c22, &self.c33, &self.c32, &self.c23) {
            Some(v) => v,
            None => {
                return None;
            },
        };
        let c12 = match crate::vector::cross_term(&self.c32, &self.c13, &self.c12, &self.c33) {
            Some(v) => v,
            None => {
                return None;
            },
        };
        let c13 = match crate::vector::cross_term(&self.c12, &self.c23, &self.c22, &self.c13) {
            Some(v) => v,
            None => {
                return None;
            },
        };
        let c21 = match crate::vector::cross_term(&self.c31, &self.c23, &self.c21, &self.c33) {
            Some(v) => v,
            None => {
                return None;
            },
        };
        let c22 = match crate::vector::cross_term(&self.c11, &self.c33, &self.c31, &self.c13) {
            Some(v) => v,
            None => {
                return None;
            },
        };
        let c23 = match crate::vector::cross_term(&self.c21, &self.c13, &self.c11, &self.c23) {
            Some(v) => v,
            None => {
                return None;
            },
        };
        let c31 = match crate::vector::cross_term(&self.c21, &self.c32, &self.c31, &self.c22) {
            Some(v) => v,
            None => {
                return None;
            },
        };
        let c32 = match crate::vector::cross_term(&self.c31, &self.c12, &self.c11, &self.c32) {
            Some(v) => v,
            None => {
                return None;
            },
        };
        let c33 = match crate::vector::cross_term(&self.c11, &self.c22, &self.c21, &self.c12) {
            Some(v) => v,
            None => {
                return None;
            },
        };
        Some(Matrix3x3 { c11, c12, c13, c21, c22, c23, c31, c32, c33 })
    }

    /// Exact inverse: the adjugate over the determinant. `None` when the
    /// determinant is zero (the matrix has no inverse) or an entry does not
    /// fit.
    pub fn inv(&self) -> (r: Option<Matrix3x3>)
        ensures
            r matches Some(v) ==> smat_eq(v@, smat_inverse(self@)) && smat_pos(v@) && !rat_eq(
                smat_det(self@),
                rat_int(0),
            ),
            !rat_eq(smat_det(self@), rat_int(0)) && smat_inv_fits(self@) ==> r is Some,
    {
        proof {
            use_type_invariant(self.c11);
            use_type_invariant(self.c12);
            use_type_invariant(self.c13);
            use_type_invariant(self.c21);
            use_type_invariant(self.c22);
            use_type_invariant(self.c23);
            use_type_invariant(self.c31);
            use_type_invariant(self.c32);
            use_type_invariant(self.c33);
        }
        let det = match self.det() {
            Some(v) => v,
            None => {
                return None;
            },
        };
        if det.is_zero() {
            proof {
                det_zero_transfer(det@, smat_det(self@));
            }
            return None;
        }
        let adj = match self.adjugate() {
            Some(v) => v,
            None => {
                return None;
            },
        };
        let one = Rat::one();
        let ghost detenv = sdet_env(smat_mag(self@));
        let ghost recipenv = rat_div(rat_int(1), detenv);
        proof {
            lemma_rat_mag_self(one@);
            lemma_rat_mag_self(det@);
            lemma_env_mono_div(rat_mag(one@), rat_mag(det@), rat_int(1), detenv);
        }
        let recip = match one.div(&det) {
            Some(v) => v,
            None => {
                return None;
            },
        };
        proof {
            lemma_rat_mag_self(self@.c11);
            lemma_rat_mag_self(self@.c12);
            lemma_rat_mag_self(self@.c13);
            lemma_rat_mag_self(self@.c21);
            lemma_rat_mag_self(self@.c22);
            lemma_rat_mag_self(self@.c23);
            lemma_rat_mag_self(self@.c31);
            lemma_rat_mag_self(self@.c32);
            lemma_rat_mag_self(self@.c33);
            lemma_sadj_env(smat_mag(self@));
            lemma_rat_mag_self(recip@);
            let adjenv = sadj_env(smat_mag(self@));
            lemma_rat_mag_self(adj@.c11);
            lemma_rat_mag_self(adj@.c12);
            lemma_rat_mag_self(adj@.c13);
            lemma_rat_mag_self(adj@.c21);
            lemma_rat_mag_self(adj@.c22);
            lemma_rat_mag_self(adj@.c23);
            lemma_rat_mag_self(adj@.c31);
            lemma_rat_mag_self(adj@.c32);
            lemma_rat_mag_self(adj@.c33);
            lemma_env_mono_mul(rat_mag(adj@.c11), rat_mag(recip@), adjenv.c11, recipenv);
            lemma_env_mono_mul(rat_mag(adj@.c12), rat_mag(recip@), adjenv.c12, recipenv);
            lemma_env_mono_mul(rat_mag(adj@.c13), rat_mag(recip@), adjenv.c13, recipenv);
            lemma_env_mono_mul(rat_mag(adj@.c21), rat_mag(recip@), adjenv.c21, recipenv);
            lemma_env_mono_mul(rat_mag(adj@.c22), rat_mag(recip@), adjenv.c22, recipenv);
            lemma_env_mono_mul(rat_mag(adj@.c23), rat_mag(recip@), adjenv.c23, recipenv);
            lemma_env_mono_mul(rat_mag(adj@.c31), rat_mag(recip@), adjenv.c31, recipenv);
            lemma_env_mono_mul(rat_mag(adj@.c32), rat_mag(recip@), adjenv.c32, recipenv);
            lemma_env_mono_mul(rat_mag(adj@.c33), rat_mag(recip@), adjenv.c33, recipenv);
        }
        let scaled = match adj.scale(&recip) {
            Some(v) => v,
            None => {
                return None;
            },
        };
        proof {
            let sd = smat_det(self@);
            lemma_smat_det_wf(self@);
            lemma_rat_div_exact(recip@, rat_int(1), det@, rat_int(1), sd);
            det_nonzero_transfer(det@, sd);
            let sadj = smat_adjugate(self@);
            let srecip = rat_div(rat_int(1), sd);
            lemma_rat_ops_wf(rat_int(1), sd);
            lemma_rat_mul_exact(scaled@.c11, adj@.c11, recip@, sadj.c11, srecip);
            lemma_rat_mul_exact(scaled@.c12, adj@.c12, recip@, sadj.c12, srecip);
            lemma_rat_mul_exact(scaled@.c13, adj@.c13, recip@, sadj.c13, srecip);
            lemma_rat_mul_exact(scaled@.c21, adj@.c21, recip@, sadj.c21, srecip);
            lemma_rat_mul_exact(scaled@.c22, adj@.c22, recip@, sadj.c22, srecip);
            lemma_rat_mul_exact(scaled@.c23, adj@.c23, recip@, sadj.c23, srecip);
            lemma_rat_mul_exact(scaled@.c31, adj@.c31, recip@, sadj.c31, srecip);
            lemma_rat_mul_exact(scaled@.c32, adj@.c32, recip@, sadj.c32, srecip);
            lemma_rat_mul_exact(scaled@.c33, adj@.c33, recip@, sadj.c33, srecip);
        }
        Some(scaled)
    }

    /// Exact entrywise division by a rational; `None` when the divisor is
    /// zero or an entry does not fit.
    pub fn div_scalar(&self, s: &Rat) -> (r: Option<Matrix3x3>)
        ensures
            r matches Some(v) ==> smat_eq(v@, smat_div(self@, s@)) && smat_pos(v@),
            s@.n != 0 && smat_fits_env(smat_div(smat_mag(self@), rat_mag(s@))) ==> r is Some,
    {
        let r1 = match self.row1().div_scalar(s) {
            Some(v) => v,
            None => {
                return None;
            },
        };
        let r2 = match self.row2().div_scalar(s) {
            Some(v) => v,
            None => {
                return None;
            },
        };
        let r3 = match self.row3().div_scalar(s) {
            Some(v) => v,
            None => {
                return None;
            },
        };
        Some(Matrix3x3::from_rows(r1, r2, r3))
    }

    /// Rate of change of a rotation matrix under body rate `vec`: the matrix
    /// times the skew form of the rate; succeeds whenever every
    /// row-against-column dot product does.
    pub fn derivative(&self, vec: &Vector3) -> (r: Option<Matrix3x3>)
        ensures
            r matches Some(v) ==> smat_eq(v@, smat_mul(self@, smat_skew(vec@))) && smat_pos(v@),
            smat_mul_fits(self@, smat_skew(vec@)) ==> r is Some,
    {
        let z = Rat::zero();
        let skew = Matrix3x3 {
            c11: z,
            c12: vec.k.neg(),
            c13: vec.j,
            c21: vec.k,
            c22: z,
            c23: vec.i.neg(),
            c31: vec.j.neg(),
            c32: vec.i,
            c33: z,
        };
        assert(skew@ == smat_skew(vec@));
        self.matmul(&skew)
    }

    /// Error toward a target: `target - self`; succeeds whenever the envelope
    /// summing the operands' magnitudes fits.
    pub fn error(&self, target: &Matrix3x3) -> (r: Option<Matrix3x3>)
        ensures
            r matches Some(v) ==> smat_eq(v@, smat_sub(target@, self@)) && smat_pos(v@),
            smat_fits_env(smat_add(smat_mag(target@), smat_mag(self@))) ==> r is Some,
    {
        target.sub(self)
    }

    /// Exact entrywise value equality test.
    pub fn equals(&self, other: &Matrix3x3) -> (r: bool)
        ensures
            r == smat_eq(self@, other@),
    {
        self.c11.equals(&other.c11) && self.c12.equals(&other.c12) && self.c13.equals(&other.c13)
            && self.c21.equals(&other.c21) && self.c22.equals(&other.c22) && self.c23.equals(
            &other.c23,
        ) && self.c31.equals(&other.c31) && self.c32.equals(&other.c32) && self.c33.equals(
            &other.c33,
        )
    }
}

/// A value equal to zero makes everything it is `rat_eq` to equal zero.
proof fn det_zero_transfer(a: SRat, b: SRat) by (nonlinear_arith)
    requires
        rat_eq(a, b),
        a.n == 0,
        rat_wf(a),
    ensures
        rat_eq(b, rat_int(0)),
{
}

/// A value unequal to zero makes everything it is `rat_eq` to nonzero.
proof fn det_nonzero_transfer(a: SRat, b: SRat) by (nonlinear_arith)
    requires
        rat_eq(a, b),
        a.n != 0,
        rat_pos(a),
        rat_wf(b),
    ensures
        !rat_eq(b, rat_int(0)),
        b.n != 0,
{
}

/// A dot product of values standing for given vectors stands for their dot.
proof fn lemma_svec_dot_exact(v: SRat, a: SVec3, b: SVec3, b2: SVec3)
    requires
        rat_eq(v, svec_dot(a, b)),
        svec_eq(b, b2),
        svec_wf(a),
        svec_wf(b),
        svec_wf(b2),
    ensures
        rat_eq(v, svec_dot(a, b2)),
{
    crate::rational::lemma_rat_mul_exact(rat_mul(a.i, b.i), a.i, b.i, a.i, b2.i);
    crate::rational::lemma_rat_mul_exact(rat_mul(a.j, b.j), a.j, b.j, a.j, b2.j);
    crate::rational::lemma_rat_mul_exact(rat_mul(a.k, b.k), a.k, b.k, a.k, b2.k);
    lemma_rat_ops_wf(a.i, b.i);
    lemma_rat_ops_wf(a.j, b.j);
    lemma_rat_ops_wf(a.k, b.k);
    crate::rational::lemma_rat_add_exact(
        rat_add(rat_mul(a.i, b.i), rat_mul(a.j, b.j)),
        rat_mul(a.i, b.i),
        rat_mul(a.j, b.j),
        rat_mul(a.i, b2.i),
        rat_mul(a.j, b2.j),
    );
    lemma_rat_ops_wf(rat_mul(a.i, b.i), rat_mul(a.j, b.j));
    crate::rational::lemma_rat_add_exact(
        svec_dot(a, b),
        rat_add(rat_mul(a.i, b.i), rat_mul(a.j, b.j)),
        rat_mul(a.k, b.k),
        rat_add(rat_mul(a.i, b2.i), rat_mul(a.j, b2.j)),
        rat_mul(a.k, b2.k),
    );
    crate::rational::lemma_rat_ops_wf(
        rat_add(rat_mul(a.i, b.i), rat_mul(a.j, b.j)),
        rat_mul(a.k, b.k),
    );
    crate::rational::lemma_rat_eq_trans(v, svec_dot(a, b), svec_dot(a, b2));
}

} // verus!
