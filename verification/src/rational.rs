//! Exact rational scalars.
//!
//! The simulation core does all of its arithmetic over exact rationals: an
//! `i64` numerator over a positive `i64` denominator, with `i128`
//! intermediates. Every operation either returns the exact mathematical
//! result (reduced by a common divisor so that long simulations keep small
//! representations) or reports, by returning `None`, that the exact result
//! does not fit; no result is ever rounded.
//!
//! Contracts are stated against `SRat`, an unbounded mathematical rational:
//! an `int` numerator over a nonzero `int` denominator, compared by
//! cross-multiplication (`rat_eq`).

use vstd::prelude::*;

verus! {

use vstd::arithmetic::div_mod::{lemma_fundamental_div_mod, lemma_div_basics_5};

/// Whether an integer is a perfect square.
pub open spec fn is_square(x: int) -> bool {
    exists|s: int| #[trigger] (s * s) == x
}

/// A mathematical rational number: numerator `n` over denominator `d`.
/// Meaningful whenever `d != 0`.
pub struct SRat {
    pub n: int,
    pub d: int,
}

/// Well-formed mathematical rational: nonzero denominator.
pub open spec fn rat_wf(a: SRat) -> bool {
    a.d != 0
}

/// Equality of rationals by cross-multiplication: `a.n/a.d == b.n/b.d`.
pub open spec fn rat_eq(a: SRat, b: SRat) -> bool {
    a.n * b.d == b.n * a.d
}

/// The rational `i/1`.
pub open spec fn rat_int(i: int) -> SRat {
    SRat { n: i, d: 1 }
}

pub open spec fn rat_add(a: SRat, b: SRat) -> SRat {
    SRat { n: a.n * b.d + b.n * a.d, d: a.d * b.d }
}

pub open spec fn rat_neg(a: SRat) -> SRat {
    SRat { n: -a.n, d: a.d }
}

pub open spec fn rat_sub(a: SRat, b: SRat) -> SRat {
    rat_add(a, rat_neg(b))
}

pub open spec fn rat_mul(a: SRat, b: SRat) -> SRat {
    SRat { n: a.n * b.n, d: a.d * b.d }
}

/// Division; well-formed only when `b.n != 0`.
pub open spec fn rat_div(a: SRat, b: SRat) -> SRat {
    SRat { n: a.n * b.d, d: a.d * b.n }
}

/// Positive denominator: the form every executable `Rat` maintains.
pub open spec fn rat_pos(a: SRat) -> bool {
    0 < a.d
}

/// Order on rationals with positive denominators.
pub open spec fn rat_le(a: SRat, b: SRat) -> bool {
    a.n * b.d <= b.n * a.d
}

/// Whether both components of the exact (unreduced) rational fit in `i64`
/// (symmetrically, so that negation also fits), which guarantees that an
/// executable operation producing it succeeds.
pub open spec fn rat_fits(a: SRat) -> bool {
    -0x7fff_ffff_ffff_ffff <= a.n <= 0x7fff_ffff_ffff_ffff && -0x7fff_ffff_ffff_ffff <= a.d
        <= 0x7fff_ffff_ffff_ffff
}

/// The magnitude of an integer.
pub open spec fn iabs(x: int) -> int {
    if x < 0 {
        -x
    } else {
        x
    }
}

/// The componentwise magnitude of a rational: the envelope its own
/// representation lies under.
pub open spec fn rat_mag(x: SRat) -> SRat {
    SRat { n: iabs(x.n), d: iabs(x.d) }
}

/// An envelope: a nonnegative numerator bound over a positive denominator
/// bound. Applying the arithmetic spec functions to envelopes bounds the
/// exact (unreduced) results of the corresponding executable operations.
pub open spec fn rat_env(e: SRat) -> bool {
    0 <= e.n && 1 <= e.d
}

/// A representation bounded by an envelope.
pub open spec fn rat_under(v: SRat, e: SRat) -> bool {
    -e.n <= v.n <= e.n && 1 <= v.d <= e.d
}

/// Whether an envelope fits the stored range: an executable operation whose
/// exact result stays under a fitting envelope succeeds.
pub open spec fn rat_fits_env(e: SRat) -> bool {
    e.n <= 0x7fff_ffff_ffff_ffff && e.d <= 0x7fff_ffff_ffff_ffff
}

/// A value with a positive denominator lies under its own magnitude.
pub proof fn lemma_rat_mag_self(x: SRat)
    requires
        rat_pos(x),
    ensures
        rat_under(x, rat_mag(x)),
        rat_env(rat_mag(x)),
{
}

/// Sums of values under envelopes stay under the sum of the envelopes.
pub proof fn lemma_env_add(x: SRat, y: SRat, ex: SRat, ey: SRat)
    requires
        rat_under(x, ex),
        rat_under(y, ey),
        rat_env(ex),
        rat_env(ey),
    ensures
        rat_env(rat_add(ex, ey)),
        rat_env(rat_add(rat_mag(x), rat_mag(y))),
        rat_add(rat_mag(x), rat_mag(y)).n <= rat_add(ex, ey).n,
        rat_add(rat_mag(x), rat_mag(y)).d <= rat_add(ex, ey).d,
{
    assert(0 <= iabs(x.n) * iabs(y.d) + iabs(y.n) * iabs(x.d) && iabs(x.n) * iabs(y.d) + iabs(y.n)
        * iabs(x.d) <= ex.n * ey.d + ey.n * ex.d && 1 <= iabs(x.d) * iabs(y.d) <= ex.d * ey.d
        && 0 <= ex.n * ey.d + ey.n * ex.d && 1 <= ex.d * ey.d) by (nonlinear_arith)
        requires
            0 <= iabs(x.n) <= ex.n,
            0 <= iabs(y.n) <= ey.n,
            1 <= iabs(x.d) <= ex.d,
            1 <= iabs(y.d) <= ey.d,
            0 <= ex.n,
            0 <= ey.n,
            1 <= ex.d,
            1 <= ey.d,
    {
    }
}

/// Products of values under envelopes stay under the product of the
/// envelopes.
pub proof fn lemma_env_mul(x: SRat, y: SRat, ex: SRat, ey: SRat)
    requires
        rat_under(x, ex),
        rat_under(y, ey),
        rat_env(ex),
        rat_env(ey),
    ensures
        rat_env(rat_mul(ex, ey)),
        rat_env(rat_mul(rat_mag(x), rat_mag(y))),
        rat_mul(rat_mag(x), rat_mag(y)).n <= rat_mul(ex, ey).n,
        rat_mul(rat_mag(x), rat_mag(y)).d <= rat_mul(ex, ey).d,
{
    assert(0 <= iabs(x.n) * iabs(y.n) <= ex.n * ey.n && 1 <= iabs(x.d) * iabs(y.d) <= ex.d * ey.d
        && 0 <= ex.n * ey.n && 1 <= ex.d * ey.d) by (nonlinear_arith)
        requires
            0 <= iabs(x.n) <= ex.n,
            0 <= iabs(y.n) <= ey.n,
            1 <= iabs(x.d) <= ex.d,
            1 <= iabs(y.d) <= ey.d,
            0 <= ex.n,
            0 <= ey.n,
            1 <= ex.d,
            1 <= ey.d,
    {
    }
}

/// Quotients of values under envelopes stay under the quotient of the
/// envelopes, for a nonzero divisor.
pub proof fn lemma_env_div(x: SRat, y: SRat, ex: SRat, ey: SRat)
    requires
        rat_under(x, ex),
        rat_under(y, ey),
        rat_env(ex),
        rat_env(ey),
        y.n != 0,
    ensures
        rat_env(rat_div(ex, ey)),
        rat_env(rat_div(rat_mag(x), rat_mag(y))),
        rat_div(rat_mag(x), rat_mag(y)).n <= rat_div(ex, ey).n,
        rat_div(rat_mag(x), rat_mag(y)).d <= rat_div(ex, ey).d,
{
    assert(1 <= iabs(y.n));
    assert(0 <= iabs(x.n) * iabs(y.d) <= ex.n * ey.d && 1 <= iabs(x.d) * iabs(y.n) <= ex.d * ey.n
        && 0 <= ex.n * ey.d && 1 <= ex.d * ey.n) by (nonlinear_arith)
        requires
            0 <= iabs(x.n) <= ex.n,
            1 <= iabs(y.n) <= ey.n,
            1 <= iabs(x.d) <= ex.d,
            1 <= iabs(y.d) <= ey.d,
            0 <= ex.n,
            1 <= ey.n,
            1 <= ex.d,
            1 <= ey.d,
    {
    }
}

/// Envelope arithmetic is monotone, and a sum envelope dominates both of its
/// children.
pub proof fn lemma_env_mono_add(e1: SRat, e2: SRat, f1: SRat, f2: SRat)
    requires
        rat_env(e1),
        rat_env(e2),
        rat_env(f1),
        rat_env(f2),
        e1.n <= f1.n && e1.d <= f1.d,
        e2.n <= f2.n && e2.d <= f2.d,
    ensures
        rat_env(rat_add(e1, e2)),
        rat_env(rat_add(f1, f2)),
        rat_add(e1, e2).n <= rat_add(f1, f2).n && rat_add(e1, e2).d <= rat_add(f1, f2).d,
        f1.n <= rat_add(f1, f2).n && f1.d <= rat_add(f1, f2).d,
        f2.n <= rat_add(f1, f2).n && f2.d <= rat_add(f1, f2).d,
{
    assert(0 <= e1.n * e2.d + e2.n * e1.d && 1 <= e1.d * e2.d && 0 <= f1.n * f2.d + f2.n * f1.d
        && 1 <= f1.d * f2.d && e1.n * e2.d + e2.n * e1.d <= f1.n * f2.d + f2.n * f1.d && e1.d
        * e2.d <= f1.d * f2.d && f1.n <= f1.n * f2.d + f2.n * f1.d && f1.d <= f1.d * f2.d && f2.n
        <= f1.n * f2.d + f2.n * f1.d && f2.d <= f1.d * f2.d) by (nonlinear_arith)
        requires
            0 <= e1.n <= f1.n,
            0 <= e2.n <= f2.n,
            1 <= e1.d <= f1.d,
            1 <= e2.d <= f2.d,
    {
    }
}

pub proof fn lemma_env_mono_mul(e1: SRat, e2: SRat, f1: SRat, f2: SRat)
    requires
        rat_env(e1),
        rat_env(e2),
        rat_env(f1),
        rat_env(f2),
        e1.n <= f1.n && e1.d <= f1.d,
        e2.n <= f2.n && e2.d <= f2.d,
    ensures
        rat_env(rat_mul(e1, e2)),
        rat_env(rat_mul(f1, f2)),
        rat_mul(e1, e2).n <= rat_mul(f1, f2).n && rat_mul(e1, e2).d <= rat_mul(f1, f2).d,
{
    assert(0 <= e1.n * e2.n && 1 <= e1.d * e2.d && 0 <= f1.n * f2.n && 1 <= f1.d * f2.d && e1.n
        * e2.n <= f1.n * f2.n && e1.d * e2.d <= f1.d * f2.d) by (nonlinear_arith)
        requires
            0 <= e1.n <= f1.n,
            0 <= e2.n <= f2.n,
            1 <= e1.d <= f1.d,
            1 <= e2.d <= f2.d,
    {
    }
}

pub proof fn lemma_env_mono_div(e1: SRat, e2: SRat, f1: SRat, f2: SRat)
    requires
        rat_env(e1),
        rat_env(f1),
        1 <= e2.n && 1 <= e2.d,
        1 <= f2.n && 1 <= f2.d,
        e1.n <= f1.n && e1.d <= f1.d,
        e2.n <= f2.n && e2.d <= f2.d,
    ensures
        rat_env(rat_div(e1, e2)),
        rat_env(rat_div(f1, f2)),
        rat_div(e1, e2).n <= rat_div(f1, f2).n && rat_div(e1, e2).d <= rat_div(f1, f2).d,
        f1.n <= rat_div(f1, f2).n,
        f1.d <= rat_div(f1, f2).d,
{
    assert(0 <= e1.n * e2.d && 1 <= e1.d * e2.n && 0 <= f1.n * f2.d && 1 <= f1.d * f2.n && e1.n
        * e2.d <= f1.n * f2.d && e1.d * e2.n <= f1.d * f2.n && f1.n <= f1.n * f2.d && f1.d <= f1.d
        * f2.n) by (nonlinear_arith)
        requires
            0 <= e1.n <= f1.n,
            1 <= e2.n <= f2.n,
            1 <= e1.d <= f1.d,
            1 <= e2.d <= f2.d,
    {
    }
}

// ---------------------------------------------------------------------------
// Algebraic facts about mathematical rationals
// ---------------------------------------------------------------------------

pub proof fn lemma_rat_eq_refl(a: SRat)
    ensures
        rat_eq(a, a),
{
}

pub proof fn lemma_rat_eq_sym(a: SRat, b: SRat)
    requires
        rat_eq(a, b),
    ensures
        rat_eq(b, a),
{
}

pub proof fn lemma_rat_eq_trans(a: SRat, b: SRat, c: SRat) by (nonlinear_arith)
    requires
        rat_wf(b),
        rat_eq(a, b),
        rat_eq(b, c),
    ensures
        rat_eq(a, c),
{
}

/// Product rearrangement: `(x*y)*(z*w) == (x*z)*(y*w)`.
proof fn lemma_mul_shuffle_a(x: int, y: int, z: int, w: int) by (nonlinear_arith)
    ensures
        (x * y) * (z * w) == (x * z) * (y * w),
{
}

/// Product rearrangement: `(x*y)*(z*w) == (x*w)*(y*z)`.
proof fn lemma_mul_shuffle_b(x: int, y: int, z: int, w: int) by (nonlinear_arith)
    ensures
        (x * y) * (z * w) == (x * w) * (y * z),
{
}

/// Distributing a product over a sum: `(p + q) * r == p*r + q*r`.
proof fn lemma_mul_distrib(p: int, q: int, r: int) by (nonlinear_arith)
    ensures
        (p + q) * r == p * r + q * r,
{
}

/// `rat_eq` is a congruence for addition.
pub proof fn lemma_rat_add_congr(a: SRat, b: SRat, a2: SRat, b2: SRat)
    requires
        rat_eq(a, a2),
        rat_eq(b, b2),
    ensures
        rat_eq(rat_add(a, b), rat_add(a2, b2)),
{
    lemma_mul_distrib(a.n * b.d, b.n * a.d, a2.d * b2.d);
    lemma_mul_shuffle_a(a.n, b.d, a2.d, b2.d);
    lemma_mul_shuffle_b(b.n, a.d, a2.d, b2.d);
    assert((a.n * b.d + b.n * a.d) * (a2.d * b2.d) == (a.n * a2.d) * (b.d * b2.d) + (b.n * b2.d)
        * (a.d * a2.d));
    assert((a.n * a2.d) * (b.d * b2.d) + (b.n * b2.d) * (a.d * a2.d) == (a2.n * a.d) * (b.d * b2.d)
        + (b2.n * b.d) * (a.d * a2.d));
    lemma_mul_distrib(a2.n * b2.d, b2.n * a2.d, a.d * b.d);
    lemma_mul_shuffle_a(a2.n, b2.d, a.d, b.d);
    lemma_mul_shuffle_b(b2.n, a2.d, a.d, b.d);
    assert((a2.n * b2.d + b2.n * a2.d) * (a.d * b.d) == (a2.n * a.d) * (b2.d * b.d) + (b2.n * b.d)
        * (a2.d * a.d));
    assert((a2.d * b2.d) == (b2.d * a2.d) && (a.d * b.d) == (b.d * a.d)) by (nonlinear_arith);
    assert((a.d * a2.d) == (a2.d * a.d) && (b.d * b2.d) == (b2.d * b.d)) by (nonlinear_arith);
}

/// `rat_eq` is a congruence for multiplication.
pub proof fn lemma_rat_mul_congr(a: SRat, b: SRat, a2: SRat, b2: SRat)
    requires
        rat_eq(a, a2),
        rat_eq(b, b2),
    ensures
        rat_eq(rat_mul(a, b), rat_mul(a2, b2)),
{
    assert((a.n * b.n) * (a2.d * b2.d) == (a.n * a2.d) * (b.n * b2.d)) by (nonlinear_arith);
    assert((a.n * a2.d) * (b.n * b2.d) == (a2.n * a.d) * (b2.n * b.d));
    assert((a2.n * a.d) * (b2.n * b.d) == (a2.n * b2.n) * (a.d * b.d)) by (nonlinear_arith);
}

pub proof fn lemma_rat_neg_congr(a: SRat, a2: SRat)
    requires
        rat_eq(a, a2),
    ensures
        rat_eq(rat_neg(a), rat_neg(a2)),
{
    assert((-a.n) * a2.d == -(a.n * a2.d) && (-a2.n) * a.d == -(a2.n * a.d)) by (nonlinear_arith);
}

pub proof fn lemma_rat_sub_congr(a: SRat, b: SRat, a2: SRat, b2: SRat)
    requires
        rat_eq(a, a2),
        rat_eq(b, b2),
    ensures
        rat_eq(rat_sub(a, b), rat_sub(a2, b2)),
{
    lemma_rat_neg_congr(b, b2);
    lemma_rat_add_congr(a, rat_neg(b), a2, rat_neg(b2));
}

/// `rat_eq` is a congruence for division by a nonzero rational.
pub proof fn lemma_rat_div_congr(a: SRat, b: SRat, a2: SRat, b2: SRat)
    requires
        rat_eq(a, a2),
        rat_eq(b, b2),
        rat_wf(b),
        rat_wf(b2),
    ensures
        rat_eq(rat_div(a, b), rat_div(a2, b2)),
{
    assert((a.n * b.d) * (a2.d * b2.n) == (a.n * a2.d) * (b2.n * b.d)) by (nonlinear_arith);
    assert((a.n * a2.d) * (b2.n * b.d) == (a2.n * a.d) * (b.n * b2.d));
    assert((a2.n * a.d) * (b.n * b2.d) == (a2.n * b2.d) * (a.d * b.n)) by (nonlinear_arith);
}

pub proof fn lemma_rat_ops_wf(a: SRat, b: SRat) by (nonlinear_arith)
    requires
        rat_wf(a),
        rat_wf(b),
    ensures
        rat_wf(rat_add(a, b)),
        rat_wf(rat_sub(a, b)),
        rat_wf(rat_mul(a, b)),
        rat_wf(rat_neg(a)),
        b.n != 0 ==> rat_wf(rat_div(a, b)),
{
}

/// A nonzero value makes everything it equals nonzero.
pub proof fn lemma_rat_nonzero_transfer(a: SRat, b: SRat) by (nonlinear_arith)
    requires
        rat_eq(a, b),
        a.n != 0,
        rat_pos(a),
        rat_wf(b),
    ensures
        b.n != 0,
{
}

proof fn lemma_mul_le_pos(x: int, y: int, z: int) by (nonlinear_arith)
    requires
        x <= y,
        z >= 0,
    ensures
        x * z <= y * z,
{
}

proof fn lemma_mul_cancel_pos(x: int, y: int, z: int) by (nonlinear_arith)
    requires
        x * z <= y * z,
        z > 0,
    ensures
        x <= y,
{
}

/// The order respects value equality, one direction.
proof fn lemma_rat_le_mono(a: SRat, b: SRat, a2: SRat, b2: SRat)
    requires
        rat_eq(a, a2),
        rat_eq(b, b2),
        rat_pos(a),
        rat_pos(b),
        rat_pos(a2),
        rat_pos(b2),
        rat_le(a, b),
    ensures
        rat_le(a2, b2),
{
    assert(a2.d * b2.d >= 0) by (nonlinear_arith)
        requires
            a2.d > 0,
            b2.d > 0,
    {
    }
    lemma_mul_le_pos(a.n * b.d, b.n * a.d, a2.d * b2.d);
    lemma_mul_shuffle_a(a.n, b.d, a2.d, b2.d);
    lemma_mul_shuffle_b(b.n, a.d, a2.d, b2.d);
    assert((a.n * a2.d) * (b.d * b2.d) == (a2.n * a.d) * (b.d * b2.d));
    assert((b.n * b2.d) * (a.d * a2.d) == (b2.n * b.d) * (a.d * a2.d));
    lemma_mul_shuffle_b(a2.n, a.d, b.d, b2.d);
    lemma_mul_shuffle_b(b2.n, b.d, a.d, a2.d);
    assert((a2.n * b2.d) * (a.d * b.d) == (a2.n * a.d) * (b.d * b2.d)) by (nonlinear_arith);
    assert((b2.n * a2.d) * (a.d * b.d) == (b2.n * b.d) * (a.d * a2.d)) by (nonlinear_arith);
    assert((a2.n * b2.d) * (a.d * b.d) <= (b2.n * a2.d) * (a.d * b.d));
    assert(a.d * b.d > 0) by (nonlinear_arith)
        requires
            a.d > 0,
            b.d > 0,
    {
    }
    lemma_mul_cancel_pos(a2.n * b2.d, b2.n * a2.d, a.d * b.d);
}

/// The order respects value equality of both sides.
pub proof fn lemma_rat_le_congr(a: SRat, b: SRat, a2: SRat, b2: SRat)
    requires
        rat_eq(a, a2),
        rat_eq(b, b2),
        rat_pos(a),
        rat_pos(b),
        rat_pos(a2),
        rat_pos(b2),
    ensures
        rat_le(a, b) == rat_le(a2, b2),
{
    if rat_le(a, b) {
        lemma_rat_le_mono(a, b, a2, b2);
    }
    if rat_le(a2, b2) {
        lemma_rat_eq_sym(a, a2);
        lemma_rat_eq_sym(b, b2);
        lemma_rat_le_mono(a2, b2, a, b);
    }
}

// One-step composition facts: an executable result `v` that equals the
// operation applied to intermediate values also equals the operation applied
// to what those intermediates stand for.

pub proof fn lemma_rat_add_exact(v: SRat, a: SRat, b: SRat, a2: SRat, b2: SRat)
    requires
        rat_eq(v, rat_add(a, b)),
        rat_eq(a, a2),
        rat_eq(b, b2),
        rat_wf(a),
        rat_wf(b),
    ensures
        rat_eq(v, rat_add(a2, b2)),
{
    lemma_rat_ops_wf(a, b);
    lemma_rat_add_congr(a, b, a2, b2);
    lemma_rat_eq_trans(v, rat_add(a, b), rat_add(a2, b2));
}

pub proof fn lemma_rat_sub_exact(v: SRat, a: SRat, b: SRat, a2: SRat, b2: SRat)
    requires
        rat_eq(v, rat_sub(a, b)),
        rat_eq(a, a2),
        rat_eq(b, b2),
        rat_wf(a),
        rat_wf(b),
    ensures
        rat_eq(v, rat_sub(a2, b2)),
{
    lemma_rat_ops_wf(a, b);
    lemma_rat_sub_congr(a, b, a2, b2);
    lemma_rat_eq_trans(v, rat_sub(a, b), rat_sub(a2, b2));
}

pub proof fn lemma_rat_mul_exact(v: SRat, a: SRat, b: SRat, a2: SRat, b2: SRat)
    requires
        rat_eq(v, rat_mul(a, b)),
        rat_eq(a, a2),
        rat_eq(b, b2),
        rat_wf(a),
        rat_wf(b),
    ensures
        rat_eq(v, rat_mul(a2, b2)),
{
    lemma_rat_ops_wf(a, b);
    lemma_rat_mul_congr(a, b, a2, b2);
    lemma_rat_eq_trans(v, rat_mul(a, b), rat_mul(a2, b2));
}

pub proof fn lemma_rat_div_exact(v: SRat, a: SRat, b: SRat, a2: SRat, b2: SRat)
    requires
        rat_eq(v, rat_div(a, b)),
        rat_eq(a, a2),
        rat_eq(b, b2),
        rat_wf(a),
        rat_wf(b),
        b.n != 0,
        rat_wf(b2),
    ensures
        rat_eq(v, rat_div(a2, b2)),
{
    lemma_rat_ops_wf(a, b);
    lemma_rat_div_congr(a, b, a2, b2);
    lemma_rat_eq_trans(v, rat_div(a, b), rat_div(a2, b2));
}

// ---------------------------------------------------------------------------
// Executable rationals
// ---------------------------------------------------------------------------

/// Exact rational scalar: `n / d` with `d > 0`.
#[derive(Debug, Clone, Copy)]
pub struct Rat {
    n: i64,
    d: i64,
}

impl View for Rat {
    type V = SRat;

    closed spec fn view(&self) -> SRat {
        SRat { n: self.n as int, d: self.d as int }
    }
}

/// Every executable `Rat` keeps a positive denominator and a numerator that
/// can be negated; `use_type_invariant` makes this visible to callers.
#[verifier::type_invariant]
pub open spec fn rat_type_inv(r: Rat) -> bool {
    rat_pos(r@) && -0x7fff_ffff_ffff_ffff <= r@.n
}

/// Product of two `i64` values, computed without overflow in `i128`.
fn mul_wide(x: i64, y: i64) -> (r: i128)
    ensures
        r as int == x as int * y as int,
        -0x4000_0000_0000_0000_0000_0000_0000_0000 <= r as int
            <= 0x4000_0000_0000_0000_0000_0000_0000_0000,
{
    proof {
        assert(-0x4000_0000_0000_0000_0000_0000_0000_0000 <= (x as int) * (y as int)
            <= 0x4000_0000_0000_0000_0000_0000_0000_0000) by (nonlinear_arith)
            requires
                -0x8000_0000_0000_0000 <= x as int <= 0x7fff_ffff_ffff_ffff,
                -0x8000_0000_0000_0000 <= y as int <= 0x7fff_ffff_ffff_ffff,
        {
        }
    }
    (x as i128) * (y as i128)
}

/// Greatest common divisor by Euclid's algorithm. Only `1 <= g` is relied
/// upon; divisibility is re-checked at run time where it matters.
fn gcd_u128(a0: u128, b0: u128) -> (g: u128)
    requires
        1 <= b0,
    ensures
        1 <= g,
{
    let mut a: u128 = a0;
    let mut b: u128 = b0;
    while b != 0
        invariant
            1 <= a || 1 <= b,
        decreases b,
    {
        let t: u128 = a % b;
        a = b;
        b = t;
    }
    a
}

/// Builds the reduced, sign-normalized `Rat` equal to `n / d`, or `None`
/// when the result does not fit. Succeeds at least whenever `n` and `d`
/// already fit symmetrically in `i64`.
fn build_rat(n: i128, d: i128) -> (r: Option<Rat>)
    requires
        d != 0,
        -0x7fff_ffff_ffff_ffff_ffff_ffff_ffff_ffff <= n,
        -0x7fff_ffff_ffff_ffff_ffff_ffff_ffff_ffff <= d,
    ensures
        r matches Some(v) ==> rat_eq(v@, (SRat { n: n as int, d: d as int })) && rat_pos(v@),
        r matches Some(v) ==> rat_under(v@, rat_mag((SRat { n: n as int, d: d as int }))),
        rat_fits((SRat { n: n as int, d: d as int })) ==> r is Some,
{
    let neg: bool = (n < 0) != (d < 0);
    let an: u128 = if n < 0 {
        (-n) as u128
    } else {
        n as u128
    };
    let ad: u128 = if d < 0 {
        (-d) as u128
    } else {
        d as u128
    };
    let g: u128 = gcd_u128(an, ad);
    let mut qn: u128 = an;
    let mut qd: u128 = ad;
    let ghost mut k: int = 1;
    if an % g == 0 && ad % g == 0 {
        proof {
            lemma_fundamental_div_mod(an as int, g as int);
            lemma_fundamental_div_mod(ad as int, g as int);
            lemma_div_basics_5(an as int, g as int);
            lemma_div_basics_5(ad as int, g as int);
            k = g as int;
        }
        qn = an / g;
        qd = ad / g;
    }
    assert(an as int == k * (qn as int) && ad as int == k * (qd as int));
    assert(qn <= an && qd <= ad);
    assert(qd != 0) by (nonlinear_arith)
        requires
            ad as int == k * (qd as int),
            1 <= ad,
    {
    }
    assert((qn as int) * (ad as int) == (an as int) * (qd as int)) by (nonlinear_arith)
        requires
            an as int == k * (qn as int),
            ad as int == k * (qd as int),
    {
    }
    if qn <= 0x7fff_ffff_ffff_ffff && qd <= 0x7fff_ffff_ffff_ffff {
        let num: i64 = if neg {
            -(qn as i64)
        } else {
            qn as i64
        };
        let den: i64 = qd as i64;
        let v = Rat { n: num, d: den };
        proof {
            assert((num as int) * (d as int) == (n as int) * (den as int)) by (nonlinear_arith)
                requires
                    (qn as int) * (ad as int) == (an as int) * (qd as int),
                    den as int == qd as int,
                    num as int == (if (n < 0) != (d < 0) {
                        -(qn as int)
                    } else {
                        qn as int
                    }),
                    an as int == (if n < 0 {
                        -(n as int)
                    } else {
                        n as int
                    }),
                    ad as int == (if d < 0 {
                        -(d as int)
                    } else {
                        d as int
                    }),
            {
            }
        }
        Some(v)
    } else {
        None
    }
}

/// The integer square root: the largest `r` with `r*r <= v`.
fn isqrt_u128(v: u128) -> (r: u128)
    ensures
        (r as int) * (r as int) <= v as int,
        (v as int) < ((r as int) + 1) * ((r as int) + 1),
        r <= 0x1_0000_0000_0000_0000,
{
    let mut lo: u128 = 0;
    let mut hi: u128 = 0x1_0000_0000_0000_0000;
    proof {
        assert((v as int) < (hi as int) * (hi as int)) by (nonlinear_arith)
            requires
                hi as int == 0x1_0000_0000_0000_0000,
                v as int <= 0xffff_ffff_ffff_ffff_ffff_ffff_ffff_ffff,
        {
        }
    }
    while lo + 1 < hi
        invariant
            lo < hi <= 0x1_0000_0000_0000_0000,
            (lo as int) * (lo as int) <= v as int,
            (v as int) < (hi as int) * (hi as int),
        decreases hi - lo,
    {
        let mid: u128 = lo + (hi - lo) / 2;
        proof {
            lemma_fundamental_div_mod((hi - lo) as int, 2);
            vstd::arithmetic::div_mod::lemma_mod_division_less_than_divisor((hi - lo) as int, 2);
            assert(mid < hi);
            assert((mid as int) * (mid as int) <= 0xffff_ffff_ffff_ffff_ffff_ffff_ffff_ffff)
                by (nonlinear_arith)
                requires
                    0 <= mid as int,
                    mid as int <= 0xffff_ffff_ffff_ffff,
            {
            }
        }
        if mid * mid <= v {
            lo = mid;
        } else {
            hi = mid;
        }
    }
    lo
}

impl Rat {
    /// The rational `n / d`; `None` exactly when `d == 0`. The extreme value
    /// `i64::MIN` is excluded so that every stored value can be negated.
    pub fn new(n: i64, d: i64) -> (r: Option<Rat>)
        requires
            n > i64::MIN,
            d > i64::MIN,
        ensures
            r is Some <==> d != 0,
            r matches Some(v) ==> rat_eq(v@, (SRat { n: n as int, d: d as int })) && rat_pos(v@),
    {
        if d == 0 {
            None
        } else {
            let r = build_rat(n as i128, d as i128);
            assert(r is Some);
            r
        }
    }

    /// The integer `n` as a rational. `i64::MIN` is excluded so that every
    /// stored value can be negated.
    pub fn from_int(n: i64) -> (r: Rat)
        requires
            n > i64::MIN,
        ensures
            r@ == rat_int(n as int),
            rat_pos(r@),
    {
        Rat { n, d: 1 }
    }

    pub fn zero() -> (r: Rat)
        ensures
            r@ == rat_int(0),
            rat_pos(r@),
    {
        Rat { n: 0, d: 1 }
    }

    pub fn one() -> (r: Rat)
        ensures
            r@ == rat_int(1),
            rat_pos(r@),
    {
        Rat { n: 1, d: 1 }
    }

    /// Numerator of the stored (reduced) representation.
    pub fn num(&self) -> (r: i64)
        ensures
            r as int == self@.n,
    {
        self.n
    }

    /// Denominator of the stored (reduced) representation; always positive.
    pub fn den(&self) -> (r: i64)
        ensures
            r as int == self@.d,
            r > 0,
    {
        proof {
            use_type_invariant(self);
        }
        self.d
    }

    /// Exact sum, or `None` when it does not fit; fits, and so succeeds,
    /// whenever the magnitude envelope of the exact sum does.
    pub fn add(&self, other: &Rat) -> (r: Option<Rat>)
        ensures
            r matches Some(v) ==> rat_eq(v@, rat_add(self@, other@)) && rat_pos(v@),
            r matches Some(v) ==> rat_under(v@, rat_add(rat_mag(self@), rat_mag(other@))),
            rat_fits(rat_add(self@, other@)) ==> r is Some,
            rat_fits_env(rat_add(rat_mag(self@), rat_mag(other@))) ==> r is Some,
    {
        proof {
            use_type_invariant(self);
            use_type_invariant(other);
        }
        let p1: i128 = mul_wide(self.n, other.d);
        let p2: i128 = mul_wide(other.n, self.d);
        let dd: i128 = mul_wide(self.d, other.d);
        proof {
            assert(-0x7fff_ffff_ffff_ffff_ffff_ffff_ffff_ffff <= (p1 as int) + (p2 as int)
                <= 0x7fff_ffff_ffff_ffff_ffff_ffff_ffff_ffff && 0 < dd as int) by (nonlinear_arith)
                requires
                    p1 as int == (self.n as int) * (other.d as int),
                    p2 as int == (other.n as int) * (self.d as int),
                    dd as int == (self.d as int) * (other.d as int),
                    -0x8000_0000_0000_0000 <= self.n as int <= 0x7fff_ffff_ffff_ffff,
                    -0x8000_0000_0000_0000 <= other.n as int <= 0x7fff_ffff_ffff_ffff,
                    0 < self.d as int <= 0x7fff_ffff_ffff_ffff,
                    0 < other.d as int <= 0x7fff_ffff_ffff_ffff,
            {
            }
        }
        proof {
            assert(-(iabs(self@.n) * iabs(other@.d) + iabs(other@.n) * iabs(self@.d)) <= p1 as int
                + p2 as int <= iabs(self@.n) * iabs(other@.d) + iabs(other@.n) * iabs(self@.d)
                && dd as int == iabs(self@.d) * iabs(other@.d)) by (nonlinear_arith)
                requires
                    p1 as int == self@.n * other@.d,
                    p2 as int == other@.n * self@.d,
                    dd as int == self@.d * other@.d,
                    iabs(self@.d) == self@.d,
                    iabs(other@.d) == other@.d,
                    self@.d > 0,
                    other@.d > 0,
                    0 <= iabs(self@.n) && -iabs(self@.n) <= self@.n <= iabs(self@.n),
                    0 <= iabs(other@.n) && -iabs(other@.n) <= other@.n <= iabs(other@.n),
            {
            }
        }
        build_rat(p1 + p2, dd)
    }

    /// Exact negation. Always succeeds.
    pub fn neg(&self) -> (r: Rat)
        ensures
            r@ == rat_neg(self@),
            rat_pos(r@),
            rat_under(r@, rat_mag(self@)),
    {
        proof {
            use_type_invariant(self);
        }
        Rat { n: -self.n, d: self.d }
    }

    /// Exact difference, or `None` when it does not fit; fits, and so
    /// succeeds, whenever the magnitude envelope of the exact sum of the
    /// operands' magnitudes does.
    pub fn sub(&self, other: &Rat) -> (r: Option<Rat>)
        ensures
            r matches Some(v) ==> rat_eq(v@, rat_sub(self@, other@)) && rat_pos(v@),
            r matches Some(v) ==> rat_under(v@, rat_add(rat_mag(self@), rat_mag(other@))),
            rat_fits(rat_sub(self@, other@)) ==> r is Some,
            rat_fits_env(rat_add(rat_mag(self@), rat_mag(other@))) ==> r is Some,
    {
        let r = self.add(&other.neg());
        proof {
            assert(rat_mag(rat_neg(other@)) == rat_mag(other@));
        }
        r
    }

    /// Exact product, or `None` when it does not fit; fits, and so succeeds,
    /// whenever the magnitude envelope of the exact product does.
    pub fn mul(&self, other: &Rat) -> (r: Option<Rat>)
        ensures
            r matches Some(v) ==> rat_eq(v@, rat_mul(self@, other@)) && rat_pos(v@),
            r matches Some(v) ==> rat_under(v@, rat_mul(rat_mag(self@), rat_mag(other@))),
            rat_fits_env(rat_mul(rat_mag(self@), rat_mag(other@))) ==> r is Some,
            rat_fits(rat_mul(self@, other@)) ==> r is Some,
    {
        proof {
            use_type_invariant(self);
            use_type_invariant(other);
        }
        let nn: i128 = mul_wide(self.n, other.n);
        let dd: i128 = mul_wide(self.d, other.d);
        proof {
            assert(0 < dd as int) by (nonlinear_arith)
                requires
                    dd as int == (self.d as int) * (other.d as int),
                    0 < self.d as int,
                    0 < other.d as int,
            {
            }
        }
        proof {
            assert(-(iabs(self@.n) * iabs(other@.n)) <= nn as int <= iabs(self@.n) * iabs(
                other@.n) && dd as int == iabs(self@.d) * iabs(other@.d)) by (nonlinear_arith)
                requires
                    nn as int == self@.n * other@.n,
                    dd as int == self@.d * other@.d,
                    iabs(self@.d) == self@.d,
                    iabs(other@.d) == other@.d,
                    self@.d > 0,
                    other@.d > 0,
                    0 <= iabs(self@.n) && -iabs(self@.n) <= self@.n <= iabs(self@.n),
                    0 <= iabs(other@.n) && -iabs(other@.n) <= other@.n <= iabs(other@.n),
            {
            }
        }
        build_rat(nn, dd)
    }

    /// Exact quotient, or `None` when it does not fit. A zero divisor has no
    /// exact quotient and always yields `None`.
    pub fn div(&self, other: &Rat) -> (r: Option<Rat>)
        ensures
            r matches Some(v) ==> rat_eq(v@, rat_div(self@, other@)) && rat_pos(v@),
            r matches Some(v) ==> rat_under(v@, rat_div(rat_mag(self@), rat_mag(other@))),
            other@.n != 0 && rat_fits(rat_div(self@, other@)) ==> r is Some,
            other@.n != 0 && rat_fits_env(rat_div(rat_mag(self@), rat_mag(other@))) ==> r
                is Some,
            other@.n == 0 ==> r is None,
    {
        proof {
            use_type_invariant(self);
            use_type_invariant(other);
        }
        if other.n == 0 {
            return None;
        }
        let nn: i128 = mul_wide(self.n, other.d);
        let dd: i128 = mul_wide(self.d, other.n);
        proof {
            assert(dd as int != 0) by (nonlinear_arith)
                requires
                    dd as int == (self.d as int) * (other.n as int),
                    0 < self.d as int,
                    other.n as int != 0,
            {
            }
        }
        proof {
            assert(-(iabs(self@.n) * iabs(other@.d)) <= nn as int <= iabs(self@.n) * iabs(
                other@.d) && -(iabs(self@.d) * iabs(other@.n)) <= dd as int <= iabs(self@.d)
                * iabs(other@.n)) by (nonlinear_arith)
                requires
                    nn as int == self@.n * other@.d,
                    dd as int == self@.d * other@.n,
                    iabs(self@.d) == self@.d,
                    iabs(other@.d) == other@.d,
                    self@.d > 0,
                    other@.d > 0,
                    0 <= iabs(self@.n) && -iabs(self@.n) <= self@.n <= iabs(self@.n),
                    0 <= iabs(other@.n) && -iabs(other@.n) <= other@.n <= iabs(other@.n),
            {
            }
        }
        build_rat(nn, dd)
    }

    /// Exact order test: `self <= other`.
    pub fn le(&self, other: &Rat) -> (r: bool)
        ensures
            r == rat_le(self@, other@),
    {
        proof {
            use_type_invariant(self);
            use_type_invariant(other);
        }
        mul_wide(self.n, other.d) <= mul_wide(other.n, self.d)
    }

    /// Exact equality test of the represented values.
    pub fn equals(&self, other: &Rat) -> (r: bool)
        ensures
            r == rat_eq(self@, other@),
    {
        mul_wide(self.num(), other.den()) == mul_wide(other.num(), self.den())
    }

    /// The exact nonnegative square root, when the value has one: `Some(v)`
    /// with `v*v == self` and `v >= 0` exactly when the value is a
    /// nonnegative perfect rational square (equivalently, when the product
    /// of the stored numerator and denominator is a perfect integer square).
    pub fn sqrt(&self) -> (r: Option<Rat>)
        ensures
            r matches Some(v) ==> rat_eq(rat_mul(v@, v@), self@) && v@.n >= 0 && rat_pos(v@),
            r matches Some(v) ==> rat_under(
                v@,
                (SRat { n: iabs(self@.n) * iabs(self@.d), d: iabs(self@.d) }),
            ),
            r is Some <==> self@.n >= 0 && is_square(self@.n * self@.d),
    {
        proof {
            use_type_invariant(self);
        }
        if self.n < 0 {
            proof {
                assert forall|s: int| #[trigger] (s * s) >= 0 by {
                    assert(s * s >= 0) by (nonlinear_arith);
                }
                assert(self@.n * self@.d < 0) by (nonlinear_arith)
                    requires
                        self@.n < 0,
                        self@.d > 0,
                {
                }
            }
            return None;
        }
        let an: u128 = self.n as u128;
        let ad: u128 = self.d as u128;
        proof {
            assert(0 <= (an as int) * (ad as int)
                <= 0x3fff_ffff_ffff_ffff_0000_0000_0000_0001) by (nonlinear_arith)
                requires
                    0 <= an as int <= 0x7fff_ffff_ffff_ffff,
                    0 < ad as int <= 0x7fff_ffff_ffff_ffff,
            {
            }
        }
        let prod: u128 = an * ad;
        let p = isqrt_u128(prod);
        proof {
            assert(p as int <= 0x7fff_ffff_ffff_ffff) by (nonlinear_arith)
                requires
                    (p as int) * (p as int) <= prod as int,
                    prod as int <= 0x3fff_ffff_ffff_ffff_0000_0000_0000_0001,
                    p as int >= 0,
            {
            }
        }
        if p * p == prod {
            let root = build_rat(p as i128, self.d as i128);
            let v = match root {
                Some(v) => v,
                None => {
                    proof {
                        assert(false);
                    }
                    return None;
                },
            };
            proof {
                assert((p as int) <= iabs(self@.n) * iabs(self@.d)) by (nonlinear_arith)
                    requires
                        (p as int) * (p as int) <= (prod as int),
                        prod as int == (an as int) * (ad as int),
                        an as int == iabs(self@.n),
                        ad as int == iabs(self@.d),
                        p as int >= 0,
                {
                }
                let pp = SRat { n: p as int, d: self.d as int };
                assert(rat_eq(rat_mul(pp, pp), self@)) by (nonlinear_arith)
                    requires
                        (p as int) * (p as int) == (self.n as int) * (self.d as int),
                        pp == (SRat { n: p as int, d: self.d as int }),
                        self@ == (SRat { n: self.n as int, d: self.d as int }),
                        self.d as int > 0,
                {
                }
                lemma_rat_mul_congr(v@, v@, pp, pp);
                lemma_rat_ops_wf(pp, pp);
                lemma_rat_eq_trans(rat_mul(v@, v@), rat_mul(pp, pp), self@);
                assert(v@.n >= 0) by (nonlinear_arith)
                    requires
                        rat_eq(v@, pp),
                        pp.n >= 0,
                        pp.d > 0,
                        v@.d > 0,
                {
                }
                assert((p as int) * (p as int) == self@.n * self@.d);
            }
            Some(v)
        } else {
            proof {
                let pr = prod as int;
                let q = p as int;
                assert(q * q <= pr && q * q != pr);
                assert forall|s: int| #[trigger] (s * s) != pr by {
                    let t = if s < 0 {
                        -s
                    } else {
                        s
                    };
                    assert(t * t == s * s && t >= 0) by (nonlinear_arith)
                        requires
                            (s < 0 && t == -s) || (s >= 0 && t == s),
                    {
                    }
                    if t <= q {
                        assert(t * t <= q * q) by (nonlinear_arith)
                            requires
                                0 <= t <= q,
                        {
                        }
                    } else {
                        assert(t * t >= (q + 1) * (q + 1)) by (nonlinear_arith)
                            requires
                                t >= q + 1 >= 0,
                        {
                        }
                    }
                }
            }
            None
        }
    }

    /// Whether the represented value is zero.
    pub fn is_zero(&self) -> (r: bool)
        ensures
            r == (self@.n == 0),
            r == rat_eq(self@, rat_int(0)),
    {
        proof {
            use_type_invariant(self);
            assert((self@.n == 0) == rat_eq(self@, rat_int(0))) by (nonlinear_arith);
        }
        self.n == 0
    }
}

} // verus!
