//! Three-component vectors over exact rationals.

use vstd::prelude::*;

verus! {

use crate::rational::{
    Rat,
    SRat,
    rat_eq,
    rat_wf,
    rat_pos,
    rat_int,
    rat_add,
    rat_sub,
    rat_neg,
    rat_mul,
    rat_div,
    lemma_rat_add_exact,
    lemma_rat_sub_exact,
    lemma_rat_add_congr,
    lemma_rat_sub_congr,
    lemma_rat_neg_congr,
    lemma_rat_mul_congr,
    lemma_rat_div_congr,
    lemma_rat_ops_wf,
    rat_mag,
    rat_env,
    rat_under,
    rat_fits_env,
    lemma_rat_mag_self,
    lemma_env_mono_add,
    lemma_env_mono_mul,
};

/// Mathematical model of a 3-vector: one rational per axis.
pub struct SVec3 {
    pub i: SRat,
    pub j: SRat,
    pub k: SRat,
}

pub open spec fn svec_wf(v: SVec3) -> bool {
    rat_wf(v.i) && rat_wf(v.j) && rat_wf(v.k)
}

pub open spec fn svec_pos(v: SVec3) -> bool {
    rat_pos(v.i) && rat_pos(v.j) && rat_pos(v.k)
}

/// Componentwise value equality.
pub open spec fn svec_eq(a: SVec3, b: SVec3) -> bool {
    rat_eq(a.i, b.i) && rat_eq(a.j, b.j) && rat_eq(a.k, b.k)
}

pub open spec fn svec_zero() -> SVec3 {
    SVec3 { i: rat_int(0), j: rat_int(0), k: rat_int(0) }
}

pub open spec fn svec_add(a: SVec3, b: SVec3) -> SVec3 {
    SVec3 { i: rat_add(a.i, b.i), j: rat_add(a.j, b.j), k: rat_add(a.k, b.k) }
}

pub open spec fn svec_sub(a: SVec3, b: SVec3) -> SVec3 {
    SVec3 { i: rat_sub(a.i, b.i), j: rat_sub(a.j, b.j), k: rat_sub(a.k, b.k) }
}

pub open spec fn svec_neg(a: SVec3) -> SVec3 {
    SVec3 { i: rat_neg(a.i), j: rat_neg(a.j), k: rat_neg(a.k) }
}

pub open spec fn svec_scale(a: SVec3, s: SRat) -> SVec3 {
    SVec3 { i: rat_mul(a.i, s), j: rat_mul(a.j, s), k: rat_mul(a.k, s) }
}

pub open spec fn svec_div(a: SVec3, s: SRat) -> SVec3 {
    SVec3 { i: rat_div(a.i, s), j: rat_div(a.j, s), k: rat_div(a.k, s) }
}

/// Scalar product `a . b`.
pub open spec fn svec_dot(a: SVec3, b: SVec3) -> SRat {
    rat_add(rat_add(rat_mul(a.i, b.i), rat_mul(a.j, b.j)), rat_mul(a.k, b.k))
}

/// Vector product `a x b`.
pub open spec fn svec_cross(a: SVec3, b: SVec3) -> SVec3 {
    SVec3 {
        i: rat_sub(rat_mul(a.j, b.k), rat_mul(a.k, b.j)),
        j: rat_sub(rat_mul(a.k, b.i), rat_mul(a.i, b.k)),
        k: rat_sub(rat_mul(a.i, b.j), rat_mul(a.j, b.i)),
    }
}

/// The componentwise magnitude of a vector.
pub open spec fn svec_mag(v: SVec3) -> SVec3 {
    SVec3 { i: rat_mag(v.i), j: rat_mag(v.j), k: rat_mag(v.k) }
}

pub open spec fn svec_env(e: SVec3) -> bool {
    rat_env(e.i) && rat_env(e.j) && rat_env(e.k)
}

pub open spec fn svec_under(v: SVec3, e: SVec3) -> bool {
    rat_under(v.i, e.i) && rat_under(v.j, e.j) && rat_under(v.k, e.k)
}

pub open spec fn svec_fits_env(e: SVec3) -> bool {
    rat_fits_env(e.i) && rat_fits_env(e.j) && rat_fits_env(e.k)
}

/// The envelope of a vector product: magnitudes add where the product
/// subtracts.
pub open spec fn scross_env(a: SVec3, b: SVec3) -> SVec3 {
    SVec3 {
        i: rat_add(rat_mul(a.j, b.k), rat_mul(a.k, b.j)),
        j: rat_add(rat_mul(a.k, b.i), rat_mul(a.i, b.k)),
        k: rat_add(rat_mul(a.i, b.j), rat_mul(a.j, b.i)),
    }
}

/// The scalar product succeeds when the envelope of its whole expression
/// fits: a sum envelope dominates everything beneath it.
pub open spec fn svec_dot_fits(a: SVec3, b: SVec3) -> bool {
    rat_fits_env(svec_dot(svec_mag(a), svec_mag(b)))
}

/// Sets up the envelope nodes of a dot-product tree: both partial sums are
/// well-formed envelopes dominated by the top.
proof fn lemma_dot_env_tree(am: SVec3, bm: SVec3)
    requires
        svec_env(am),
        svec_env(bm),
    ensures
        rat_env(rat_mul(am.i, bm.i)),
        rat_env(rat_mul(am.j, bm.j)),
        rat_env(rat_mul(am.k, bm.k)),
        rat_env(rat_add(rat_mul(am.i, bm.i), rat_mul(am.j, bm.j))),
        rat_env(svec_dot(am, bm)),
        rat_mul(am.i, bm.i).n <= svec_dot(am, bm).n && rat_mul(am.i, bm.i).d <= svec_dot(
            am,
            bm,
        ).d,
        rat_mul(am.j, bm.j).n <= svec_dot(am, bm).n && rat_mul(am.j, bm.j).d <= svec_dot(
            am,
            bm,
        ).d,
        rat_mul(am.k, bm.k).n <= svec_dot(am, bm).n && rat_mul(am.k, bm.k).d <= svec_dot(
            am,
            bm,
        ).d,
        rat_add(rat_mul(am.i, bm.i), rat_mul(am.j, bm.j)).n <= svec_dot(am, bm).n && rat_add(
            rat_mul(am.i, bm.i),
            rat_mul(am.j, bm.j),
        ).d <= svec_dot(am, bm).d,
{
    lemma_env_mono_mul(am.i, bm.i, am.i, bm.i);
    lemma_env_mono_mul(am.j, bm.j, am.j, bm.j);
    lemma_env_mono_mul(am.k, bm.k, am.k, bm.k);
    let e1 = rat_mul(am.i, bm.i);
    let e2 = rat_mul(am.j, bm.j);
    let e3 = rat_mul(am.k, bm.k);
    lemma_env_mono_add(e1, e2, e1, e2);
    lemma_env_mono_add(rat_add(e1, e2), e3, rat_add(e1, e2), e3);
}

/// A dot product stays under the dot of any envelopes of its operands, and
/// succeeds when that envelope tree fits.
pub proof fn lemma_svec_dot_fits_mono(a: SVec3, b: SVec3, benv: SVec3)
    requires
        svec_pos(a),
        svec_pos(b),
        svec_under(b, benv),
        svec_env(benv),
    ensures
        rat_fits_env(svec_dot(svec_mag(a), benv)) ==> svec_dot_fits(a, b),
        svec_dot(svec_mag(a), svec_mag(b)).n <= svec_dot(svec_mag(a), benv).n,
        svec_dot(svec_mag(a), svec_mag(b)).d <= svec_dot(svec_mag(a), benv).d,
        rat_env(svec_dot(svec_mag(a), benv)),
        rat_env(svec_dot(svec_mag(a), svec_mag(b))),
{
    lemma_rat_mag_self(a.i);
    lemma_rat_mag_self(a.j);
    lemma_rat_mag_self(a.k);
    lemma_rat_mag_self(b.i);
    lemma_rat_mag_self(b.j);
    lemma_rat_mag_self(b.k);
    let am = svec_mag(a);
    let bm = svec_mag(b);
    lemma_dot_env_tree(am, bm);
    lemma_dot_env_tree(am, benv);
    lemma_env_mono_mul(am.i, bm.i, am.i, benv.i);
    lemma_env_mono_mul(am.j, bm.j, am.j, benv.j);
    lemma_env_mono_mul(am.k, bm.k, am.k, benv.k);
    lemma_env_mono_add(
        rat_mul(am.i, bm.i),
        rat_mul(am.j, bm.j),
        rat_mul(am.i, benv.i),
        rat_mul(am.j, benv.j),
    );
    lemma_env_mono_add(
        rat_add(rat_mul(am.i, bm.i), rat_mul(am.j, bm.j)),
        rat_mul(am.k, bm.k),
        rat_add(rat_mul(am.i, benv.i), rat_mul(am.j, benv.j)),
        rat_mul(am.k, benv.k),
    );
}

/// The cross-product envelope of envelopes is an envelope.
pub proof fn lemma_scross_env(am: SVec3, bm: SVec3)
    requires
        svec_env(am),
        svec_env(bm),
    ensures
        svec_env(scross_env(am, bm)),
{
    lemma_env_mono_mul(am.j, bm.k, am.j, bm.k);
    lemma_env_mono_mul(am.k, bm.j, am.k, bm.j);
    lemma_env_mono_mul(am.k, bm.i, am.k, bm.i);
    lemma_env_mono_mul(am.i, bm.k, am.i, bm.k);
    lemma_env_mono_mul(am.i, bm.j, am.i, bm.j);
    lemma_env_mono_mul(am.j, bm.i, am.j, bm.i);
    lemma_env_mono_add(rat_mul(am.j, bm.k), rat_mul(am.k, bm.j), rat_mul(am.j, bm.k), rat_mul(
        am.k, bm.j));
    lemma_env_mono_add(rat_mul(am.k, bm.i), rat_mul(am.i, bm.k), rat_mul(am.k, bm.i), rat_mul(
        am.i, bm.k));
    lemma_env_mono_add(rat_mul(am.i, bm.j), rat_mul(am.j, bm.i), rat_mul(am.i, bm.j), rat_mul(
        am.j, bm.i));
}

pub proof fn lemma_svec_ops_wf(a: SVec3, b: SVec3)
    requires
        svec_wf(a),
        svec_wf(b),
    ensures
        svec_wf(svec_add(a, b)),
        svec_wf(svec_sub(a, b)),
        svec_wf(svec_neg(a)),
        svec_wf(svec_cross(a, b)),
        rat_wf(svec_dot(a, b)),
{
    crate::rational::lemma_rat_ops_wf(a.i, b.i);
    crate::rational::lemma_rat_ops_wf(a.j, b.j);
    crate::rational::lemma_rat_ops_wf(a.k, b.k);
    crate::rational::lemma_rat_ops_wf(a.j, b.k);
    crate::rational::lemma_rat_ops_wf(a.k, b.j);
    crate::rational::lemma_rat_ops_wf(a.k, b.i);
    crate::rational::lemma_rat_ops_wf(a.i, b.k);
    crate::rational::lemma_rat_ops_wf(a.i, b.j);
    crate::rational::lemma_rat_ops_wf(a.j, b.i);
    crate::rational::lemma_rat_ops_wf(rat_mul(a.j, b.k), rat_mul(a.k, b.j));
    crate::rational::lemma_rat_ops_wf(rat_mul(a.k, b.i), rat_mul(a.i, b.k));
    crate::rational::lemma_rat_ops_wf(rat_mul(a.i, b.j), rat_mul(a.j, b.i));
    crate::rational::lemma_rat_ops_wf(rat_mul(a.i, b.i), rat_mul(a.j, b.j));
    crate::rational::lemma_rat_ops_wf(
        rat_add(rat_mul(a.i, b.i), rat_mul(a.j, b.j)),
        rat_mul(a.k, b.k),
    );
}

pub proof fn lemma_svec_scale_wf(a: SVec3, s: SRat)
    requires
        svec_wf(a),
        rat_wf(s),
    ensures
        svec_wf(svec_scale(a, s)),
        s.n != 0 ==> svec_wf(svec_div(a, s)),
{
    crate::rational::lemma_rat_ops_wf(a.i, s);
    crate::rational::lemma_rat_ops_wf(a.j, s);
    crate::rational::lemma_rat_ops_wf(a.k, s);
}

/// The model of an array of three scalars.
pub open spec fn svec_of_array(a: [Rat; 3]) -> SVec3 {
    SVec3 { i: a[0]@, j: a[1]@, k: a[2]@ }
}

pub proof fn lemma_svec_eq_trans(a: SVec3, b: SVec3, c: SVec3)
    requires
        svec_wf(b),
        svec_eq(a, b),
        svec_eq(b, c),
    ensures
        svec_eq(a, c),
{
    crate::rational::lemma_rat_eq_trans(a.i, b.i, c.i);
    crate::rational::lemma_rat_eq_trans(a.j, b.j, c.j);
    crate::rational::lemma_rat_eq_trans(a.k, b.k, c.k);
}

/// All vector operations respect componentwise value equality.
pub proof fn lemma_svec_congr(a: SVec3, b: SVec3, a2: SVec3, b2: SVec3, k: SRat)
    requires
        svec_eq(a, a2),
        svec_eq(b, b2),
        svec_wf(a),
        svec_wf(b),
        svec_wf(a2),
        svec_wf(b2),
        rat_wf(k),
    ensures
        svec_eq(svec_add(a, b), svec_add(a2, b2)),
        svec_eq(svec_sub(a, b), svec_sub(a2, b2)),
        svec_eq(svec_neg(a), svec_neg(a2)),
        svec_eq(svec_scale(a, k), svec_scale(a2, k)),
        k.n != 0 ==> svec_eq(svec_div(a, k), svec_div(a2, k)),
        rat_eq(svec_dot(a, b), svec_dot(a2, b2)),
        svec_eq(svec_cross(a, b), svec_cross(a2, b2)),
{
    lemma_rat_add_congr(a.i, b.i, a2.i, b2.i);
    lemma_rat_add_congr(a.j, b.j, a2.j, b2.j);
    lemma_rat_add_congr(a.k, b.k, a2.k, b2.k);
    lemma_rat_sub_congr(a.i, b.i, a2.i, b2.i);
    lemma_rat_sub_congr(a.j, b.j, a2.j, b2.j);
    lemma_rat_sub_congr(a.k, b.k, a2.k, b2.k);
    lemma_rat_neg_congr(a.i, a2.i);
    lemma_rat_neg_congr(a.j, a2.j);
    lemma_rat_neg_congr(a.k, a2.k);
    lemma_rat_mul_congr(a.i, k, a2.i, k);
    lemma_rat_mul_congr(a.j, k, a2.j, k);
    lemma_rat_mul_congr(a.k, k, a2.k, k);
    if k.n != 0 {
        lemma_rat_div_congr(a.i, k, a2.i, k);
        lemma_rat_div_congr(a.j, k, a2.j, k);
        lemma_rat_div_congr(a.k, k, a2.k, k);
    }
    // dot
    lemma_rat_mul_congr(a.i, b.i, a2.i, b2.i);
    lemma_rat_mul_congr(a.j, b.j, a2.j, b2.j);
    lemma_rat_mul_congr(a.k, b.k, a2.k, b2.k);
    lemma_rat_add_congr(
        rat_mul(a.i, b.i),
        rat_mul(a.j, b.j),
        rat_mul(a2.i, b2.i),
        rat_mul(a2.j, b2.j),
    );
    lemma_rat_add_congr(
        rat_add(rat_mul(a.i, b.i), rat_mul(a.j, b.j)),
        rat_mul(a.k, b.k),
        rat_add(rat_mul(a2.i, b2.i), rat_mul(a2.j, b2.j)),
        rat_mul(a2.k, b2.k),
    );
    // cross
    lemma_rat_mul_congr(a.j, b.k, a2.j, b2.k);
    lemma_rat_mul_congr(a.k, b.j, a2.k, b2.j);
    lemma_rat_mul_congr(a.k, b.i, a2.k, b2.i);
    lemma_rat_mul_congr(a.i, b.k, a2.i, b2.k);
    lemma_rat_mul_congr(a.i, b.j, a2.i, b2.j);
    lemma_rat_mul_congr(a.j, b.i, a2.j, b2.i);
    lemma_rat_sub_congr(rat_mul(a.j, b.k), rat_mul(a.k, b.j), rat_mul(a2.j, b2.k), rat_mul(a2.k,
        b2.j));
    lemma_rat_sub_congr(rat_mul(a.k, b.i), rat_mul(a.i, b.k), rat_mul(a2.k, b2.i), rat_mul(a2.i,
        b2.k));
    lemma_rat_sub_congr(rat_mul(a.i, b.j), rat_mul(a.j, b.i), rat_mul(a2.i, b2.j), rat_mul(a2.j,
        b2.i));
}

/// Executable 3-vector with axis components `i`, `j`, `k`.
#[derive(Debug, Clone, Copy)]
pub struct Vector3 {
    pub i: Rat,
    pub j: Rat,
    pub k: Rat,
}

impl View for Vector3 {
    type V = SVec3;

    open spec fn view(&self) -> SVec3 {
        SVec3 { i: self.i@, j: self.j@, k: self.k@ }
    }
}

impl Vector3 {
    pub fn new(i: Rat, j: Rat, k: Rat) -> (r: Vector3)
        ensures
            r@ == (SVec3 { i: i@, j: j@, k: k@ }),
    {
        Vector3 { i, j, k }
    }

    /// The vector with `num` on every axis.
    pub fn of(num: Rat) -> (r: Vector3)
        ensures
            r@ == (SVec3 { i: num@, j: num@, k: num@ }),
    {
        Vector3 { i: num, j: num, k: num }
    }

    pub fn zeros() -> (r: Vector3)
        ensures
            r@ == svec_zero(),
    {
        Vector3 { i: Rat::zero(), j: Rat::zero(), k: Rat::zero() }
    }

    pub fn from_array(array: [Rat; 3]) -> (r: Vector3)
        ensures
            r@ == (SVec3 { i: array[0]@, j: array[1]@, k: array[2]@ }),
    {
        Vector3 { i: array[0], j: array[1], k: array[2] }
    }

    pub fn to_array(self) -> (r: [Rat; 3])
        ensures
            r[0]@ == self@.i,
            r[1]@ == self@.j,
            r[2]@ == self@.k,
    {
        [self.i, self.j, self.k]
    }

    /// Exact componentwise sum, or `None` when a component does not fit;
    /// succeeds whenever the componentwise magnitude envelope of the exact
    /// sum fits.
    pub fn add(&self, other: &Vector3) -> (r: Option<Vector3>)
        ensures
            r matches Some(v) ==> svec_eq(v@, svec_add(self@, other@)) && svec_pos(v@),
            r matches Some(v) ==> svec_under(v@, svec_add(svec_mag(self@), svec_mag(other@))),
            svec_fits_env(svec_add(svec_mag(self@), svec_mag(other@))) ==> r is Some,
    {
        let i = match self.i.add(&other.i) {
            Some(v) => v,
            None => {
                return None;
            },
        };
        let j = match self.j.add(&other.j) {
            Some(v) => v,
            None => {
                return None;
            },
        };
        let k = match self.k.add(&other.k) {
            Some(v) => v,
            None => {
                return None;
            },
        };
        Some(Vector3 { i, j, k })
    }

    /// Exact componentwise difference, or `None` when a component does not
    /// fit; succeeds whenever the envelope summing the operands' magnitudes
    /// fits.
    pub fn sub(&self, other: &Vector3) -> (r: Option<Vector3>)
        ensures
            r matches Some(v) ==> svec_eq(v@, svec_sub(self@, other@)) && svec_pos(v@),
            r matches Some(v) ==> svec_under(v@, svec_add(svec_mag(self@), svec_mag(other@))),
            svec_fits_env(svec_add(svec_mag(self@), svec_mag(other@))) ==> r is Some,
    {
        let i = match self.i.sub(&other.i) {
            Some(v) => v,
            None => {
                return None;
            },
        };
        let j = match self.j.sub(&other.j) {
            Some(v) => v,
            None => {
                return None;
            },
        };
        let k = match self.k.sub(&other.k) {
            Some(v) => v,
            None => {
                return None;
            },
        };
        Some(Vector3 { i, j, k })
    }

    /// Exact componentwise negation. Always succeeds.
    pub fn neg(&self) -> (r: Vector3)
        ensures
            r@ == svec_neg(self@),
            svec_under(r@, svec_mag(self@)),
    {
        Vector3 { i: self.i.neg(), j: self.j.neg(), k: self.k.neg() }
    }

    /// Exact scaling by a rational, or `None` when a component does not fit;
    /// succeeds whenever the magnitude envelope of the exact scaling fits.
    pub fn scale(&self, s: &Rat) -> (r: Option<Vector3>)
        ensures
            r matches Some(v) ==> svec_eq(v@, svec_scale(self@, s@)) && svec_pos(v@),
            r matches Some(v) ==> svec_under(v@, svec_scale(svec_mag(self@), rat_mag(s@))),
            svec_fits_env(svec_scale(svec_mag(self@), rat_mag(s@))) ==> r is Some,
    {
        let i = match self.i.mul(s) {
            Some(v) => v,
            None => {
                return None;
            },
        };
        let j = match self.j.mul(s) {
            Some(v) => v,
            None => {
                return None;
            },
        };
        let k = match self.k.mul(s) {
            Some(v) => v,
            None => {
                return None;
            },
        };
        Some(Vector3 { i, j, k })
    }

    /// Exact componentwise division by a rational; `None` when the divisor
    /// is zero or a component does not fit.
    pub fn div_scalar(&self, s: &Rat) -> (r: Option<Vector3>)
        ensures
            r matches Some(v) ==> svec_eq(v@, svec_div(self@, s@)) && svec_pos(v@),
            r matches Some(v) ==> svec_under(v@, svec_div(svec_mag(self@), rat_mag(s@))),
            s@.n != 0 && svec_fits_env(svec_div(svec_mag(self@), rat_mag(s@))) ==> r is Some,
            s@.n == 0 ==> r is None,
    {
        let i = match self.i.div(s) {
            Some(v) => v,
            None => {
                return None;
            },
        };
        let j = match self.j.div(s) {
            Some(v) => v,
            None => {
                return None;
            },
        };
        let k = match self.k.div(s) {
            Some(v) => v,
            None => {
                return None;
            },
        };
        Some(Vector3 { i, j, k })
    }

    /// Exact scalar product, or `None` when an intermediate does not fit;
    /// succeeds whenever the magnitude envelope of the whole expression fits.
    pub fn dot(&self, other: &Vector3) -> (r: Option<Rat>)
        ensures
            r matches Some(v) ==> rat_eq(v@, svec_dot(self@, other@)) && rat_pos(v@),
            r matches Some(v) ==> rat_under(v@, svec_dot(svec_mag(self@), svec_mag(other@))),
            svec_dot_fits(self@, other@) ==> r is Some,
    {
        proof {
            use_type_invariant(self.i);
            use_type_invariant(self.j);
            use_type_invariant(self.k);
            use_type_invariant(other.i);
            use_type_invariant(other.j);
            use_type_invariant(other.k);
            lemma_rat_mag_self(self@.i);
            lemma_rat_mag_self(self@.j);
            lemma_rat_mag_self(self@.k);
            lemma_rat_mag_self(other@.i);
            lemma_rat_mag_self(other@.j);
            lemma_rat_mag_self(other@.k);
            lemma_dot_env_tree(svec_mag(self@), svec_mag(other@));
        }
        let ghost e1 = rat_mul(rat_mag(self@.i), rat_mag(other@.i));
        let ghost e2 = rat_mul(rat_mag(self@.j), rat_mag(other@.j));
        let ghost e3 = rat_mul(rat_mag(self@.k), rat_mag(other@.k));
        let m1 = match self.i.mul(&other.i) {
            Some(v) => v,
            None => {
                return None;
            },
        };
        let m2 = match self.j.mul(&other.j) {
            Some(v) => v,
            None => {
                return None;
            },
        };
        let m3 = match self.k.mul(&other.k) {
            Some(v) => v,
            None => {
                return None;
            },
        };
        proof {
            lemma_rat_mag_self(m1@);
            lemma_rat_mag_self(m2@);
            lemma_rat_mag_self(m3@);
            lemma_env_mono_add(rat_mag(m1@), rat_mag(m2@), e1, e2);
        }
        let s1 = match m1.add(&m2) {
            Some(v) => v,
            None => {
                return None;
            },
        };
        proof {
            lemma_rat_mag_self(s1@);
            lemma_env_mono_add(rat_mag(s1@), rat_mag(m3@), rat_add(e1, e2), e3);
        }
        let s2 = match s1.add(&m3) {
            Some(v) => v,
            None => {
                return None;
            },
        };
        proof {
            lemma_rat_add_exact(
                s1@,
                m1@,
                m2@,
                rat_mul(self@.i, other@.i),
                rat_mul(self@.j, other@.j),
            );
            lemma_rat_add_exact(
                s2@,
                s1@,
                m3@,
                rat_add(rat_mul(self@.i, other@.i), rat_mul(self@.j, other@.j)),
                rat_mul(self@.k, other@.k),
            );
        }
        Some(s2)
    }

    /// Exact vector product, or `None` when an intermediate does not fit;
    /// succeeds whenever the componentwise magnitude envelope fits.
    pub fn cross(&self, other: &Vector3) -> (r: Option<Vector3>)
        ensures
            r matches Some(v) ==> svec_eq(v@, svec_cross(self@, other@)) && svec_pos(v@),
            r matches Some(v) ==> svec_under(
                v@,
                scross_env(svec_mag(self@), svec_mag(other@)),
            ),
            svec_fits_env(scross_env(svec_mag(self@), svec_mag(other@))) ==> r is Some,
    {
        let i = cross_term(&self.j, &other.k, &self.k, &other.j);
        let j = cross_term(&self.k, &other.i, &self.i, &other.k);
        let k = cross_term(&self.i, &other.j, &self.j, &other.i);
        let i = match i {
            Some(v) => v,
            None => {
                return None;
            },
        };
        let j = match j {
            Some(v) => v,
            None => {
                return None;
            },
        };
        let k = match k {
            Some(v) => v,
            None => {
                return None;
            },
        };
        Some(Vector3 { i, j, k })
    }

    /// Error toward a target: `target - self`. `None` when a component does
    /// not fit.
    pub fn error(&self, target: &Vector3) -> (r: Option<Vector3>)
        ensures
            r matches Some(v) ==> svec_eq(v@, svec_sub(target@, self@)) && svec_pos(v@),
            svec_fits_env(svec_add(svec_mag(target@), svec_mag(self@))) ==> r is Some,
    {
        target.sub(self)
    }

    /// Exact componentwise value equality test.
    pub fn equals(&self, other: &Vector3) -> (r: bool)
        ensures
            r == svec_eq(self@, other@),
    {
        self.i.equals(&other.i) && self.j.equals(&other.j) && self.k.equals(&other.k)
    }
}

/// One component of a vector product: `a*b - c*d`, exactly; succeeds
/// whenever the envelope summing the products' magnitudes fits.
pub(crate) fn cross_term(a: &Rat, b: &Rat, c: &Rat, d: &Rat) -> (r: Option<Rat>)
    ensures
        r matches Some(v) ==> rat_eq(v@, rat_sub(rat_mul(a@, b@), rat_mul(c@, d@))) && rat_pos(v@),
        r matches Some(v) ==> rat_under(
            v@,
            rat_add(rat_mul(rat_mag(a@), rat_mag(b@)), rat_mul(rat_mag(c@), rat_mag(d@))),
        ),
        rat_fits_env(
            rat_add(rat_mul(rat_mag(a@), rat_mag(b@)), rat_mul(rat_mag(c@), rat_mag(d@))),
        ) ==> r is Some,
{
    proof {
        use_type_invariant(*a);
        use_type_invariant(*b);
        use_type_invariant(*c);
        use_type_invariant(*d);
        lemma_rat_mag_self(a@);
        lemma_rat_mag_self(b@);
        lemma_rat_mag_self(c@);
        lemma_rat_mag_self(d@);
        lemma_env_mono_mul(rat_mag(a@), rat_mag(b@), rat_mag(a@), rat_mag(b@));
        lemma_env_mono_mul(rat_mag(c@), rat_mag(d@), rat_mag(c@), rat_mag(d@));
        lemma_env_mono_add(
            rat_mul(rat_mag(a@), rat_mag(b@)),
            rat_mul(rat_mag(c@), rat_mag(d@)),
            rat_mul(rat_mag(a@), rat_mag(b@)),
            rat_mul(rat_mag(c@), rat_mag(d@)),
        );
    }
    let ghost e1 = rat_mul(rat_mag(a@), rat_mag(b@));
    let ghost e2 = rat_mul(rat_mag(c@), rat_mag(d@));
    let m1 = match a.mul(b) {
        Some(v) => v,
        None => {
            return None;
        },
    };
    let m2 = match c.mul(d) {
        Some(v) => v,
        None => {
            return None;
        },
    };
    proof {
        lemma_rat_mag_self(m1@);
        lemma_rat_mag_self(m2@);
        lemma_env_mono_add(rat_mag(m1@), rat_mag(m2@), e1, e2);
    }
    let s = match m1.sub(&m2) {
        Some(v) => v,
        None => {
            return None;
        },
    };
    proof {
        lemma_rat_sub_exact(s@, m1@, m2@, rat_mul(a@, b@), rat_mul(c@, d@));
    }
    Some(s)
}

} // verus!
