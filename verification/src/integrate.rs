//! The generic fixed-step integrator: classical fourth-order Runge-Kutta and
//! explicit Euler over any state that supports addition, scaling, and a
//! derivative.

use vstd::prelude::*;

verus! {

use crate::rational::{Rat, SRat, rat_int, rat_wf};

/// A state that the fixed-step integrators can advance.
///
/// An implementation supplies the executable arithmetic together with its
/// mathematical model: `s_add`, `s_scale`, `s_div` and `s_derivative` say
/// what the executable operations compute, `s_eq` is value equality of
/// models, and `s_wf` the well-formedness every model of an executable state
/// enjoys. The proof obligations make `s_eq` an equivalence that the model
/// operations respect, so that the integrators' contracts compose.
pub trait Integrate: Sized + View {
    /// Value equality of state models.
    spec fn s_eq(a: Self::V, b: Self::V) -> bool;

    /// Well-formedness of a state model.
    spec fn s_wf(a: Self::V) -> bool;

    /// Model of the side-effecting pre-step update (`effects`).
    spec fn s_effects(a: Self::V) -> Self::V;

    /// Model of the state derivative.
    spec fn s_derivative(a: Self::V) -> Self::V;

    /// Model of componentwise addition.
    spec fn s_add(a: Self::V, b: Self::V) -> Self::V;

    /// Model of componentwise scaling.
    spec fn s_scale(a: Self::V, k: SRat) -> Self::V;

    /// Model of componentwise division.
    spec fn s_div(a: Self::V, k: SRat) -> Self::V;

    /// When the effects step is guaranteed to succeed.
    spec fn s_effects_ok(a: Self::V) -> bool;

    /// When the derivative is guaranteed to exist.
    spec fn s_derivative_ok(a: Self::V) -> bool;

    /// When the sum is guaranteed to exist.
    spec fn s_add_ok(a: Self::V, b: Self::V) -> bool;

    /// When the scaling is guaranteed to exist.
    spec fn s_scale_ok(a: Self::V, k: SRat) -> bool;

    /// When the division is guaranteed to exist.
    spec fn s_div_ok(a: Self::V, k: SRat) -> bool;

    proof fn lemma_s_eq_refl(a: Self::V)
        requires
            Self::s_wf(a),
        ensures
            Self::s_eq(a, a),
    ;

    proof fn lemma_s_eq_trans(a: Self::V, b: Self::V, c: Self::V)
        requires
            Self::s_wf(b),
            Self::s_eq(a, b),
            Self::s_eq(b, c),
        ensures
            Self::s_eq(a, c),
    ;

    proof fn lemma_s_ops_congr(a: Self::V, b: Self::V, a2: Self::V, b2: Self::V, k: SRat)
        requires
            Self::s_eq(a, a2),
            Self::s_eq(b, b2),
            Self::s_wf(a),
            Self::s_wf(b),
            Self::s_wf(a2),
            Self::s_wf(b2),
            rat_wf(k),
        ensures
            Self::s_eq(Self::s_add(a, b), Self::s_add(a2, b2)),
            Self::s_eq(Self::s_scale(a, k), Self::s_scale(a2, k)),
            k.n != 0 ==> Self::s_eq(Self::s_div(a, k), Self::s_div(a2, k)),
            Self::s_eq(Self::s_derivative(a), Self::s_derivative(a2)),
    ;

    proof fn lemma_s_ops_wf(a: Self::V, b: Self::V, k: SRat)
        requires
            Self::s_wf(a),
            Self::s_wf(b),
            rat_wf(k),
        ensures
            Self::s_wf(Self::s_add(a, b)),
            Self::s_wf(Self::s_scale(a, k)),
            k.n != 0 ==> Self::s_wf(Self::s_div(a, k)),
            Self::s_wf(Self::s_derivative(a)),
    ;

    /// Recomputes the state's internal effects (for a rigid body: the
    /// accelerations) from its current inputs. Runs exactly once per
    /// integration step, before the derivative evaluations. Returns `false`,
    /// leaving the state unchanged, when an exact intermediate does not fit.
    fn effects(&mut self) -> (ok: bool)
        requires
            Self::s_wf(old(self)@),
        ensures
            ok ==> Self::s_eq(final(self)@, Self::s_effects(old(self)@)) && Self::s_wf(
                final(self)@),
            !ok ==> *final(self) == *old(self),
            Self::s_effects_ok(old(self)@) ==> ok,
    ;

    /// The instantaneous state derivative, or `None` when an exact
    /// intermediate does not fit.
    fn get_derivative(&self) -> (r: Option<Self>)
        requires
            Self::s_wf(self@),
        ensures
            r matches Some(v) ==> Self::s_eq(v@, Self::s_derivative(self@)) && Self::s_wf(v@),
            Self::s_derivative_ok(self@) ==> r is Some,
    ;

    /// Exact componentwise sum, or `None` when a component does not fit.
    fn add(&self, other: &Self) -> (r: Option<Self>)
        requires
            Self::s_wf(self@),
            Self::s_wf(other@),
        ensures
            r matches Some(v) ==> Self::s_eq(v@, Self::s_add(self@, other@)) && Self::s_wf(v@),
            Self::s_add_ok(self@, other@) ==> r is Some,
    ;

    /// Exact componentwise scaling, or `None` when a component does not fit.
    fn scale(&self, k: &Rat) -> (r: Option<Self>)
        requires
            Self::s_wf(self@),
        ensures
            r matches Some(v) ==> Self::s_eq(v@, Self::s_scale(self@, k@)) && Self::s_wf(v@),
            Self::s_scale_ok(self@, k@) ==> r is Some,
    ;

    /// Exact componentwise division, or `None` when the divisor is zero or a
    /// component does not fit.
    fn div(&self, k: &Rat) -> (r: Option<Self>)
        requires
            Self::s_wf(self@),
        ensures
            r matches Some(v) ==> Self::s_eq(v@, Self::s_div(self@, k@)) && Self::s_wf(v@),
            Self::s_div_ok(self@, k@) ==> r is Some,
    ;
}

/// The model of one classical fourth-order Runge-Kutta step of size `dt`
/// from the state model `m`, after effects have been applied.
pub open spec fn srk4<S: Integrate>(m: S::V, dt: SRat) -> S::V {
    let k1 = S::s_derivative(m);
    let k2 = S::s_derivative(S::s_add(m, S::s_div(S::s_scale(k1, dt), rat_int(2))));
    let k3 = S::s_derivative(S::s_add(m, S::s_div(S::s_scale(k2, dt), rat_int(2))));
    let k4 = S::s_derivative(S::s_add(m, S::s_scale(k3, dt)));
    let ksum = S::s_add(
        S::s_add(S::s_add(k1, S::s_scale(k2, rat_int(2))), S::s_scale(k3, rat_int(2))),
        k4,
    );
    S::s_add(m, S::s_div(S::s_scale(ksum, dt), rat_int(6)))
}

/// The model of one explicit Euler step of size `dt` from the state model
/// `m`, after effects have been applied.
pub open spec fn seuler<S: Integrate>(m: S::V, dt: SRat) -> S::V {
    S::s_add(m, S::s_scale(S::s_derivative(m), dt))
}

/// An executable scaling that stands for `s_scale(a, k)` also stands for
/// `s_scale` of anything equal to `a`.
proof fn step_scale<S: Integrate>(e: S::V, a: S::V, sa: S::V, k: SRat)
    requires
        S::s_eq(e, S::s_scale(a, k)),
        S::s_eq(a, sa),
        S::s_wf(a),
        S::s_wf(sa),
        rat_wf(k),
    ensures
        S::s_eq(e, S::s_scale(sa, k)),
{
    S::lemma_s_eq_refl(a);
    S::lemma_s_ops_congr(a, a, sa, sa, k);
    S::lemma_s_ops_wf(a, a, k);
    S::lemma_s_eq_trans(e, S::s_scale(a, k), S::s_scale(sa, k));
}

proof fn step_div<S: Integrate>(e: S::V, a: S::V, sa: S::V, k: SRat)
    requires
        S::s_eq(e, S::s_div(a, k)),
        S::s_eq(a, sa),
        S::s_wf(a),
        S::s_wf(sa),
        rat_wf(k),
        k.n != 0,
    ensures
        S::s_eq(e, S::s_div(sa, k)),
{
    S::lemma_s_eq_refl(a);
    S::lemma_s_ops_congr(a, a, sa, sa, k);
    S::lemma_s_ops_wf(a, a, k);
    S::lemma_s_eq_trans(e, S::s_div(a, k), S::s_div(sa, k));
}

proof fn step_add<S: Integrate>(e: S::V, a: S::V, b: S::V, sa: S::V, sb: S::V)
    requires
        S::s_eq(e, S::s_add(a, b)),
        S::s_eq(a, sa),
        S::s_eq(b, sb),
        S::s_wf(a),
        S::s_wf(b),
        S::s_wf(sa),
        S::s_wf(sb),
    ensures
        S::s_eq(e, S::s_add(sa, sb)),
{
    S::lemma_s_ops_congr(a, b, sa, sb, rat_int(1));
    S::lemma_s_ops_wf(a, b, rat_int(1));
    S::lemma_s_eq_trans(e, S::s_add(a, b), S::s_add(sa, sb));
}

proof fn step_deriv<S: Integrate>(e: S::V, a: S::V, sa: S::V)
    requires
        S::s_eq(e, S::s_derivative(a)),
        S::s_eq(a, sa),
        S::s_wf(a),
        S::s_wf(sa),
    ensures
        S::s_eq(e, S::s_derivative(sa)),
{
    S::lemma_s_eq_refl(a);
    S::lemma_s_ops_congr(a, a, sa, sa, rat_int(1));
    S::lemma_s_ops_wf(a, a, rat_int(1));
    S::lemma_s_eq_trans(e, S::s_derivative(a), S::s_derivative(sa));
}

/// One classical fourth-order Runge-Kutta step of size `dt`. Applies
/// `effects` exactly once, then evaluates the derivative four times on one
/// consistent effects snapshot, exactly as the model `srk4` states: the
/// result equals `srk4` of the state left behind in `state`, which itself
/// stands for `s_effects` of the state handed in. `None` when an
/// intermediate does not fit.
pub fn rk4<S: Integrate>(state: &mut S, dt: &Rat) -> (r: Option<S>)
    requires
        S::s_wf(old(state)@),
    ensures
        r is Some ==> S::s_eq(final(state)@, S::s_effects(old(state)@)) && S::s_wf(
            final(state)@),
        r matches Some(v) ==> S::s_eq(v@, srk4::<S>(final(state)@, dt@)) && S::s_wf(v@),
        r is None ==> *final(state) == *old(state) || S::s_eq(
            final(state)@,
            S::s_effects(old(state)@),
        ),
{
    let two = Rat::from_int(2);
    let six = Rat::from_int(6);
    if !state.effects() {
        return None;
    }
    proof {
        use_type_invariant(*dt);
    }
    let ghost m = state@;
    let ghost sk1 = S::s_derivative(m);
    let ghost st1 = S::s_scale(sk1, dt@);
    let ghost sh1 = S::s_div(st1, rat_int(2));
    let ghost sm2 = S::s_add(m, sh1);
    let ghost sk2 = S::s_derivative(sm2);
    let ghost st2 = S::s_scale(sk2, dt@);
    let ghost sh2 = S::s_div(st2, rat_int(2));
    let ghost sm3 = S::s_add(m, sh2);
    let ghost sk3 = S::s_derivative(sm3);
    let ghost sh3 = S::s_scale(sk3, dt@);
    let ghost sm4 = S::s_add(m, sh3);
    let ghost sk4 = S::s_derivative(sm4);
    let ghost sk2d = S::s_scale(sk2, rat_int(2));
    let ghost sk3d = S::s_scale(sk3, rat_int(2));
    let ghost ssum1 = S::s_add(sk1, sk2d);
    let ghost ssum2 = S::s_add(ssum1, sk3d);
    let ghost ssum3 = S::s_add(ssum2, sk4);
    let ghost sbig = S::s_scale(ssum3, dt@);
    let ghost sincr = S::s_div(sbig, rat_int(6));
    proof {
        // Well-formedness of every model intermediate.
        S::lemma_s_ops_wf(m, m, dt@);
        S::lemma_s_ops_wf(sk1, sk1, dt@);
        S::lemma_s_ops_wf(st1, st1, rat_int(2));
        S::lemma_s_ops_wf(m, sh1, dt@);
        S::lemma_s_ops_wf(sm2, sm2, dt@);
        S::lemma_s_ops_wf(sk2, sk2, dt@);
        S::lemma_s_ops_wf(st2, st2, rat_int(2));
        S::lemma_s_ops_wf(m, sh2, dt@);
        S::lemma_s_ops_wf(sm3, sm3, dt@);
        S::lemma_s_ops_wf(sk3, sk3, dt@);
        S::lemma_s_ops_wf(m, sh3, dt@);
        S::lemma_s_ops_wf(sm4, sm4, dt@);
        S::lemma_s_ops_wf(sk2, sk2, rat_int(2));
        S::lemma_s_ops_wf(sk3, sk3, rat_int(2));
        S::lemma_s_ops_wf(sk1, sk2d, dt@);
        S::lemma_s_ops_wf(ssum1, sk3d, dt@);
        S::lemma_s_ops_wf(ssum2, sk4, dt@);
        S::lemma_s_ops_wf(ssum3, ssum3, dt@);
        S::lemma_s_ops_wf(sbig, sbig, rat_int(6));
        S::lemma_s_eq_refl(m);
    }
    let k1 = match state.get_derivative() {
        Some(v) => v,
        None => {
            return None;
        },
    };
    let t1 = match k1.scale(dt) {
        Some(v) => v,
        None => {
            return None;
        },
    };
    let h1 = match t1.div(&two) {
        Some(v) => v,
        None => {
            return None;
        },
    };
    let s2 = match state.add(&h1) {
        Some(v) => v,
        None => {
            return None;
        },
    };
    let k2 = match s2.get_derivative() {
        Some(v) => v,
        None => {
            return None;
        },
    };
    proof {
        step_scale::<S>(t1@, k1@, sk1, dt@);
        step_div::<S>(h1@, t1@, st1, rat_int(2));
        step_add::<S>(s2@, m, h1@, m, sh1);
        step_deriv::<S>(k2@, s2@, sm2);
    }
    let t2 = match k2.scale(dt) {
        Some(v) => v,
        None => {
            return None;
        },
    };
    let h2 = match t2.div(&two) {
        Some(v) => v,
        None => {
            return None;
        },
    };
    let s3 = match state.add(&h2) {
        Some(v) => v,
        None => {
            return None;
        },
    };
    let k3 = match s3.get_derivative() {
        Some(v) => v,
        None => {
            return None;
        },
    };
    proof {
        step_scale::<S>(t2@, k2@, sk2, dt@);
        step_div::<S>(h2@, t2@, st2, rat_int(2));
        step_add::<S>(s3@, m, h2@, m, sh2);
        step_deriv::<S>(k3@, s3@, sm3);
    }
    let t3 = match k3.scale(dt) {
        Some(v) => v,
        None => {
            return None;
        },
    };
    let s4 = match state.add(&t3) {
        Some(v) => v,
        None => {
            return None;
        },
    };
    let k4 = match s4.get_derivative() {
        Some(v) => v,
        None => {
            return None;
        },
    };
    proof {
        step_scale::<S>(t3@, k3@, sk3, dt@);
        step_add::<S>(s4@, m, t3@, m, sh3);
        step_deriv::<S>(k4@, s4@, sm4);
    }
    let k2d = match k2.scale(&two) {
        Some(v) => v,
        None => {
            return None;
        },
    };
    let k3d = match k3.scale(&two) {
        Some(v) => v,
        None => {
            return None;
        },
    };
    let sum1 = match k1.add(&k2d) {
        Some(v) => v,
        None => {
            return None;
        },
    };
    let sum2 = match sum1.add(&k3d) {
        Some(v) => v,
        None => {
            return None;
        },
    };
    let sum3 = match sum2.add(&k4) {
        Some(v) => v,
        None => {
            return None;
        },
    };
    let big = match sum3.scale(dt) {
        Some(v) => v,
        None => {
            return None;
        },
    };
    let incr = match big.div(&six) {
        Some(v) => v,
        None => {
            return None;
        },
    };
    let res = match state.add(&incr) {
        Some(v) => v,
        None => {
            return None;
        },
    };
    proof {
        step_scale::<S>(k2d@, k2@, sk2, rat_int(2));
        step_scale::<S>(k3d@, k3@, sk3, rat_int(2));
        step_add::<S>(sum1@, k1@, k2d@, sk1, sk2d);
        step_add::<S>(sum2@, sum1@, k3d@, ssum1, sk3d);
        step_add::<S>(sum3@, sum2@, k4@, ssum2, sk4);
        step_scale::<S>(big@, sum3@, ssum3, dt@);
        step_div::<S>(incr@, big@, sbig, rat_int(6));
        step_add::<S>(res@, m, incr@, m, sincr);
    }
    Some(res)
}

/// One explicit Euler step of size `dt`: `state + derivative(state) * dt`,
/// after effects have been applied once. `None` when an intermediate does
/// not fit.
pub fn euler<S: Integrate>(state: &mut S, dt: &Rat) -> (r: Option<S>)
    requires
        S::s_wf(old(state)@),
    ensures
        r is Some ==> S::s_eq(final(state)@, S::s_effects(old(state)@)) && S::s_wf(
            final(state)@),
        r matches Some(v) ==> S::s_eq(v@, seuler::<S>(final(state)@, dt@)) && S::s_wf(v@),
        r is None ==> *final(state) == *old(state) || S::s_eq(
            final(state)@,
            S::s_effects(old(state)@),
        ),
{
    if !state.effects() {
        return None;
    }
    proof {
        use_type_invariant(*dt);
    }
    let ghost m = state@;
    let ghost sd = S::s_derivative(m);
    let ghost sdt = S::s_scale(sd, dt@);
    let d = match state.get_derivative() {
        Some(v) => v,
        None => {
            return None;
        },
    };
    let t = match d.scale(dt) {
        Some(v) => v,
        None => {
            return None;
        },
    };
    let res = match state.add(&t) {
        Some(v) => v,
        None => {
            return None;
        },
    };
    proof {
        S::lemma_s_ops_wf(m, m, dt@);
        S::lemma_s_ops_wf(sd, sd, dt@);
        S::lemma_s_eq_refl(m);
        step_scale::<S>(t@, d@, sd, dt@);
        step_add::<S>(res@, m, t@, m, sdt);
    }
    Some(res)
}

} // verus!
