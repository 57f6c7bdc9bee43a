//! Symplectic integrators for systems of second-order ordinary
//! differential equations, given only an acceleration callback.
//!
//! A state vector is split into a position half and a velocity half of
//! equal length; the acceleration evaluated at the current positions is
//! carried between sub-steps, so each step re-evaluates the callback
//! only once ("kick-drift-kick").

use crate::error::Error;
use crate::float::Float;
use crate::general::time_spec;
use crate::matrix::{copy_vec, prepare, Ext, Matrix};
use vstd::prelude::*;

verus! {

/// Symplectic integration methods.
#[derive(Clone, Copy)]
pub enum Integrators {
    /// Leapfrog method.
    Leapfrog,
    /// 4th-order Yoshida method.
    Yoshida4th,
}

/// A symplectic integrator for a system of second-order ODEs.
///
/// Implementors define the system by the acceleration callback
/// `accelerations` together with its two specification twins; the
/// stepping routines of this module then advance any such system.
pub trait Integrator<F: Float> where Self: Sized {
    /// Whether the accelerations are defined at time `t` and
    /// positions `x`.
    spec fn accelerations_ok(&self, t: F, x: Seq<F>) -> bool;

    /// The accelerations at time `t` and positions `x`.
    spec fn accelerations_spec(&self, t: F, x: Seq<F>) -> Seq<F>;

    /// Compute the current values of accelerations as defined by a
    /// system of second-order ODEs: return the acceleration at time `t`
    /// for each of the positions `x`, or the failure that made it
    /// undefined.
    fn accelerations(&self, t: F, x: &Vec<F>) -> (r: Result<Vec<F>, Error<F>>)
        ensures
            r is Ok <==> self.accelerations_ok(t, x@),
            (r matches Ok(v) ==> v@ == self.accelerations_spec(t, x@) && v@.len() == x@.len()),
    ;
}

/// The position half of a state vector.
pub open spec fn positions_spec<F: Float>(x: Seq<F>) -> Seq<F> {
    x.subrange(0, x.len() as int / 2)
}

/// The positions after the drift of one leapfrog step:
/// `p + v * h + 0.5 * a * h^2`, component by component.
pub open spec fn lf_positions_spec<F: Float>(x: Seq<F>, a: Seq<F>, h: F) -> Seq<F> {
    let k = x.len() as int / 2;
    Seq::new(
        k as nat,
        |j: int|
            x[j].add_spec(x[k + j].mul_spec(h)).add_spec(
                F::from_ratio_spec(1, 2).mul_spec(a[j]).mul_spec(h.mul_spec(h)),
            ),
    )
}

/// The accelerations re-evaluated at the drifted positions of one
/// leapfrog step of size `h` taken at time `t`.
pub open spec fn lf_acc_spec<F: Float, S: Integrator<F>>(
    s: &S,
    t: F,
    x: Seq<F>,
    a: Seq<F>,
    h: F,
) -> Seq<F> {
    s.accelerations_spec(t.add_spec(h), lf_positions_spec(x, a, h))
}

/// The velocities after the kick of one leapfrog step:
/// `v + 0.5 * (a + a_new) * h`, component by component.
pub open spec fn lf_velocities_spec<F: Float>(x: Seq<F>, a: Seq<F>, a_new: Seq<F>, h: F) -> Seq<
    F,
> {
    let k = x.len() as int / 2;
    Seq::new(
        k as nat,
        |j: int|
            x[k + j].add_spec(
                F::from_ratio_spec(1, 2).mul_spec(a[j].add_spec(a_new[j])).mul_spec(h),
            ),
    )
}

/// The state after one leapfrog step of size `h` taken at time `t`
/// from state `x` with carried accelerations `a`.
pub open spec fn lf_state_spec<F: Float, S: Integrator<F>>(
    s: &S,
    t: F,
    x: Seq<F>,
    a: Seq<F>,
    h: F,
) -> Seq<F> {
    lf_positions_spec(x, a, h) + lf_velocities_spec(x, a, lf_acc_spec(s, t, x, a, h), h)
}

/// Whether the one acceleration evaluation of a leapfrog step of size
/// `h` taken at time `t` is defined.
pub open spec fn lf_once_ok_spec<F: Float, S: Integrator<F>>(
    s: &S,
    t: F,
    x: Seq<F>,
    a: Seq<F>,
    h: F,
) -> bool {
    s.accelerations_ok(t.add_spec(h), lf_positions_spec(x, a, h))
}

/// The state and the carried accelerations after `i` leapfrog steps of
/// size `h` from the initial state `x_0` at time `t_0`.
pub open spec fn lf_traj_spec<F: Float, S: Integrator<F>>(
    s: &S,
    x_0: Seq<F>,
    t_0: F,
    h: F,
    i: int,
) -> (Seq<F>, Seq<F>)
    decreases i,
{
    if i <= 0 {
        (x_0, s.accelerations_spec(t_0, positions_spec(x_0)))
    } else {
        let prev = lf_traj_spec(s, x_0, t_0, h, i - 1);
        let t = time_spec(t_0, h, i - 1);
        (lf_state_spec(s, t, prev.0, prev.1, h), lf_acc_spec(s, t, prev.0, prev.1, h))
    }
}

/// Whether every acceleration evaluation of an `n`-step leapfrog run
/// from `x_0` at `t_0` is defined.
pub open spec fn lf_ok_spec<F: Float, S: Integrator<F>>(
    s: &S,
    x_0: Seq<F>,
    t_0: F,
    h: F,
    n: int,
) -> bool {
    &&& s.accelerations_ok(t_0, positions_spec(x_0))
    &&& forall|i: int|
        0 <= i < n ==> #[trigger] lf_once_ok_spec(
            s,
            time_spec(t_0, h, i),
            lf_traj_spec(s, x_0, t_0, h, i).0,
            lf_traj_spec(s, x_0, t_0, h, i).1,
            h,
        )
}

/// Copy the position half of a state vector.
#[verifier::loop_isolation(false)]
fn positions<F: Float>(x: &Vec<F>) -> (r: Vec<F>)
    ensures
        r@ == positions_spec(x@),
{
    let k = x.len() / 2;
    let mut r: Vec<F> = Vec::new();
    let mut j: usize = 0;
    while j < k
        invariant
            k == x@.len() as int / 2,
            j <= k,
            r@.len() == j,
            forall|jj: int| 0 <= jj < j ==> r@[jj] == x@[jj],
        decreases k - j,
    {
        r.push(x[j]);
        j = j + 1;
    }
    proof {
        assert(r@ =~= positions_spec(x@));
    }
    r
}

/// Integrate the system once using the leapfrog method: return the new
/// state and the accelerations evaluated at its positions.
///
/// On failure the acceleration callback's error is handed back
/// unchanged; callers add the step context.
#[verifier::loop_isolation(false)]
pub fn leapfrog_once<F: Float, S: Integrator<F>>(
    s: &S,
    t: F,
    x_prev: &Vec<F>,
    a_prev: &Vec<F>,
    h: F,
) -> (r: Result<(Vec<F>, Vec<F>), Error<F>>)
    requires
        x_prev@.len() % 2 == 0,
        a_prev@.len() == x_prev@.len() as int / 2,
    ensures
        (r is Ok <==> lf_once_ok_spec(s, t, x_prev@, a_prev@, h)),
        r matches Ok(p) ==> p.0@ == lf_state_spec(s, t, x_prev@, a_prev@, h) && p.1@ == lf_acc_spec(
            s,
            t,
            x_prev@,
            a_prev@,
            h,
        ) && p.0@.len() == x_prev@.len() && p.1@.len() == a_prev@.len(),
{
    let k = x_prev.len() / 2;
    let half = F::from_ratio(1, 2);
    // Update the positions
    let mut x: Vec<F> = Vec::new();
    let mut j: usize = 0;
    while j < k
        invariant
            k == x_prev@.len() as int / 2,
            j <= k,
            x@.len() == j,
            forall|jj: int| 0 <= jj < j ==> x@[jj] == lf_positions_spec(x_prev@, a_prev@, h)[jj],
        decreases k - j,
    {
        x.push(
            x_prev[j].add(x_prev[k + j].mul(h)).add(half.mul(a_prev[j]).mul(h.mul(h))),
        );
        j = j + 1;
    }
    proof {
        assert(x@ =~= lf_positions_spec(x_prev@, a_prev@, h));
    }
    // Compute new accelerations
    let a = match s.accelerations(t.add(h), &x) {
        Ok(a) => a,
        Err(e) => {
            return Err(e);
        },
    };
    // Update the velocities
    let mut j: usize = 0;
    while j < k
        invariant
            k == x_prev@.len() as int / 2,
            j <= k,
            a@ == lf_acc_spec(s, t, x_prev@, a_prev@, h),
            a@.len() == k,
            x@.len() == k + j,
            forall|jj: int| 0 <= jj < k ==> x@[jj] == lf_positions_spec(x_prev@, a_prev@, h)[jj],
            forall|jj: int|
                0 <= jj < j ==> x@[k + jj] == lf_velocities_spec(x_prev@, a_prev@, a@, h)[jj],
        decreases k - j,
    {
        x.push(x_prev[k + j].add(half.mul(a_prev[j].add(a[j])).mul(h)));
        j = j + 1;
    }
    proof {
        assert(x@ =~= lf_state_spec(s, t, x_prev@, a_prev@, h));
    }
    Ok((x, a))
}

/// Integrate the system using the leapfrog method, writing the state
/// after step `i + 1` into column `i + 1` of the prepared result
/// matrix.
///
/// On success every column holds its trajectory state. On failure the
/// error names the step whose acceleration evaluation failed (stage
/// `0` standing for the evaluation at the initial positions); the
/// columns up to and including the failing step still hold their
/// trajectory states and the columns after it are unchanged.
#[verifier::loop_isolation(false)]
pub fn leapfrog<F: Float, S: Integrator<F>>(
    s: &S,
    t_0: F,
    h: F,
    n: usize,
    result: &mut Matrix<F>,
) -> (r: Result<(), Error<F>>)
    requires
        old(result)@.len() == n + 1,
        old(result).dim() % 2 == 0,
        forall|c: int|
            0 <= c < old(result)@.len() ==> (#[trigger] old(result)@[c]).len() == old(result).dim(),
    ensures
        final(result).dim() == old(result).dim(),
        final(result)@.len() == old(result)@.len(),
        (r is Ok <==> lf_ok_spec(s, old(result)@[0], t_0, h, n as int)),
        r is Ok ==> forall|c: int|
            0 <= c <= n ==> #[trigger] final(result)@[c] == lf_traj_spec(
                s,
                old(result)@[0],
                t_0,
                h,
                c,
            ).0,
        r matches Err(e) ==> (e matches Error::CallbackFailure { step, stage, source } && (
        (!s.accelerations_ok(t_0, positions_spec(old(result)@[0])) && step == 0 && stage == 0
            && final(result)@ == old(result)@) || (s.accelerations_ok(
            t_0,
            positions_spec(old(result)@[0]),
        ) && stage == 1 && exists|i: int|
            0 <= i < n && step == i && !(#[trigger] lf_once_ok_spec(
                s,
                time_spec(t_0, h, i),
                lf_traj_spec(s, old(result)@[0], t_0, h, i).0,
                lf_traj_spec(s, old(result)@[0], t_0, h, i).1,
                h,
            )) && (forall|j: int|
                0 <= j < i ==> #[trigger] lf_once_ok_spec(
                    s,
                    time_spec(t_0, h, j),
                    lf_traj_spec(s, old(result)@[0], t_0, h, j).0,
                    lf_traj_spec(s, old(result)@[0], t_0, h, j).1,
                    h,
                )) && (forall|c: int|
                0 <= c <= i ==> #[trigger] final(result)@[c] == lf_traj_spec(
                    s,
                    old(result)@[0],
                    t_0,
                    h,
                    c,
                ).0) && (forall|c: int| i < c <= n ==> #[trigger] final(result)@[c] == old(
                result,
            )@[c])))),
{
    let ghost x_0 = result@[0];
    // Get the initial state
    let mut x = result.initial_values();
    // Compute the initial accelerations
    let p = positions(&x);
    let mut a = match s.accelerations(t_0, &p) {
        Ok(a) => a,
        Err(e) => {
            return Err(Error::CallbackFailure { step: 0, stage: 0, source: Box::new(e) });
        },
    };
    // Integrate
    let mut i: usize = 0;
    while i < n
        invariant
            i <= n,
            (x@, a@) == lf_traj_spec(s, x_0, t_0, h, i as int),
            x@.len() == result.dim(),
            a@.len() == result.dim() as int / 2,
            result.dim() == old(result).dim(),
            result@.len() == n + 1,
            s.accelerations_ok(t_0, positions_spec(x_0)),
            forall|c: int|
                0 <= c <= i ==> #[trigger] result@[c] == lf_traj_spec(s, x_0, t_0, h, c).0,
            forall|c: int| i < c <= n ==> #[trigger] result@[c] == old(result)@[c],
            forall|j: int|
                0 <= j < i ==> #[trigger] lf_once_ok_spec(
                    s,
                    time_spec(t_0, h, j),
                    lf_traj_spec(s, x_0, t_0, h, j).0,
                    lf_traj_spec(s, x_0, t_0, h, j).1,
                    h,
                ),
        decreases n - i,
    {
        // Compute the time moment
        let t = t_0.add(F::from_usize(i).mul(h));
        // Compute the next state
        match leapfrog_once(s, t, &x, &a, h) {
            Ok(xa) => {
                x = xa.0;
                a = xa.1;
            },
            Err(e) => {
                proof {
                    assert(!lf_once_ok_spec(
                        s,
                        time_spec(t_0, h, i as int),
                        lf_traj_spec(s, x_0, t_0, h, i as int).0,
                        lf_traj_spec(s, x_0, t_0, h, i as int).1,
                        h,
                    ));
                }
                return Err(Error::CallbackFailure { step: i, stage: 1, source: Box::new(e) });
            },
        }
        // Put the new state in the result
        let xc = copy_vec(&x);
        result.set_state(i + 1, xc);
        i = i + 1;
    }
    Ok(())
}

/// The constant the Yoshida coefficients are derived from:
/// the cube root of two, computed as `exp(ln 2 / 3)`.
pub open spec fn yoshida_k_spec<F: Float>() -> F {
    F::from_ratio_spec(2, 1).ln_spec().div_spec(F::from_ratio_spec(3, 1)).exp_spec()
}

/// The first coefficient in the 4th-order Yoshida method:
/// `1 / (2 - 2^(1/3))`.
pub open spec fn yoshida_d_1_spec<F: Float>() -> F {
    F::from_ratio_spec(1, 1).div_spec(F::from_ratio_spec(2, 1).sub_spec(yoshida_k_spec()))
}

/// The second coefficient in the 4th-order Yoshida method:
/// `1 - 2 * d_1`.
pub open spec fn yoshida_d_2_spec<F: Float>() -> F {
    F::from_ratio_spec(1, 1).sub_spec(F::from_ratio_spec(2, 1).mul_spec(yoshida_d_1_spec()))
}

/// The sum of the first two coefficients in the 4th-order Yoshida
/// method.
pub open spec fn yoshida_d_3_spec<F: Float>() -> F {
    yoshida_d_1_spec::<F>().add_spec(yoshida_d_2_spec())
}

/// The state and the carried accelerations after one 4th-order Yoshida
/// step of size `h` taken at time `t`: three leapfrog sub-steps with
/// fractional time increments, each reusing the trailing accelerations
/// of the previous one.
pub open spec fn yoshida_step_spec<F: Float, S: Integrator<F>>(
    s: &S,
    t: F,
    x: Seq<F>,
    a: Seq<F>,
    h: F,
) -> (Seq<F>, Seq<F>) {
    let i_1 = h.mul_spec(yoshida_d_1_spec());
    let i_2 = h.mul_spec(yoshida_d_2_spec());
    let i_3 = h.mul_spec(yoshida_d_3_spec());
    let t_1 = t.add_spec(F::from_ratio_spec(0, 1));
    let t_2 = t.add_spec(i_1);
    let t_3 = t.add_spec(i_3);
    let s_1 = (lf_state_spec(s, t_1, x, a, i_1), lf_acc_spec(s, t_1, x, a, i_1));
    let s_2 = (lf_state_spec(s, t_2, s_1.0, s_1.1, i_2), lf_acc_spec(s, t_2, s_1.0, s_1.1, i_2));
    (lf_state_spec(s, t_3, s_2.0, s_2.1, i_1), lf_acc_spec(s, t_3, s_2.0, s_2.1, i_1))
}

/// Whether the three acceleration evaluations of one 4th-order Yoshida
/// step of size `h` taken at time `t` are defined.
pub open spec fn yoshida_step_ok_spec<F: Float, S: Integrator<F>>(
    s: &S,
    t: F,
    x: Seq<F>,
    a: Seq<F>,
    h: F,
) -> bool {
    let i_1 = h.mul_spec(yoshida_d_1_spec());
    let i_2 = h.mul_spec(yoshida_d_2_spec());
    let i_3 = h.mul_spec(yoshida_d_3_spec());
    let t_1 = t.add_spec(F::from_ratio_spec(0, 1));
    let t_2 = t.add_spec(i_1);
    let t_3 = t.add_spec(i_3);
    let s_1 = (lf_state_spec(s, t_1, x, a, i_1), lf_acc_spec(s, t_1, x, a, i_1));
    let s_2 = (lf_state_spec(s, t_2, s_1.0, s_1.1, i_2), lf_acc_spec(s, t_2, s_1.0, s_1.1, i_2));
    &&& lf_once_ok_spec(s, t_1, x, a, i_1)
    &&& lf_once_ok_spec(s, t_2, s_1.0, s_1.1, i_2)
    &&& lf_once_ok_spec(s, t_3, s_2.0, s_2.1, i_1)
}

/// The state and the carried accelerations after `i` 4th-order Yoshida
/// steps of size `h` from the initial state `x_0` at time `t_0`.
pub open spec fn yoshida_traj_spec<F: Float, S: Integrator<F>>(
    s: &S,
    x_0: Seq<F>,
    t_0: F,
    h: F,
    i: int,
) -> (Seq<F>, Seq<F>)
    decreases i,
{
    if i <= 0 {
        (x_0, s.accelerations_spec(t_0, positions_spec(x_0)))
    } else {
        let prev = yoshida_traj_spec(s, x_0, t_0, h, i - 1);
        yoshida_step_spec(s, time_spec(t_0, h, i - 1), prev.0, prev.1, h)
    }
}

/// Whether every acceleration evaluation of an `n`-step 4th-order
/// Yoshida run from `x_0` at `t_0` is defined.
pub open spec fn yoshida_ok_spec<F: Float, S: Integrator<F>>(
    s: &S,
    x_0: Seq<F>,
    t_0: F,
    h: F,
    n: int,
) -> bool {
    &&& s.accelerations_ok(t_0, positions_spec(x_0))
    &&& forall|i: int|
        0 <= i < n ==> #[trigger] yoshida_step_ok_spec(
            s,
            time_spec(t_0, h, i),
            yoshida_traj_spec(s, x_0, t_0, h, i).0,
            yoshida_traj_spec(s, x_0, t_0, h, i).1,
            h,
        )
}

/// Integrate the system using the 4th-order Yoshida method, writing
/// the state after step `i + 1` into column `i + 1` of the prepared
/// result matrix; sub-step states are not individually recorded.
///
/// On success every column holds its trajectory state. On failure the
/// error names the step and the failing sub-step (stage `0` standing
/// for the evaluation at the initial positions); the columns up to and
/// including the failing step still hold their trajectory states and
/// the columns after it are unchanged.
#[verifier::loop_isolation(false)]
pub fn yoshida_4th<F: Float, S: Integrator<F>>(
    s: &S,
    t_0: F,
    h: F,
    n: usize,
    result: &mut Matrix<F>,
) -> (r: Result<(), Error<F>>)
    requires
        old(result)@.len() == n + 1,
        old(result).dim() % 2 == 0,
        forall|c: int|
            0 <= c < old(result)@.len() ==> (#[trigger] old(result)@[c]).len() == old(result).dim(),
    ensures
        final(result).dim() == old(result).dim(),
        final(result)@.len() == old(result)@.len(),
        (r is Ok <==> yoshida_ok_spec(s, old(result)@[0], t_0, h, n as int)),
        r is Ok ==> forall|c: int|
            0 <= c <= n ==> #[trigger] final(result)@[c] == yoshida_traj_spec(
                s,
                old(result)@[0],
                t_0,
                h,
                c,
            ).0,
        r matches Err(e) ==> (e matches Error::CallbackFailure { step, stage, source } && (
        (!s.accelerations_ok(t_0, positions_spec(old(result)@[0])) && step == 0 && stage == 0
            && final(result)@ == old(result)@) || (s.accelerations_ok(
            t_0,
            positions_spec(old(result)@[0]),
        ) && 1 <= stage <= 3 && exists|i: int|
            0 <= i < n && step == i && !(#[trigger] yoshida_step_ok_spec(
                s,
                time_spec(t_0, h, i),
                yoshida_traj_spec(s, old(result)@[0], t_0, h, i).0,
                yoshida_traj_spec(s, old(result)@[0], t_0, h, i).1,
                h,
            )) && (forall|j: int|
                0 <= j < i ==> #[trigger] yoshida_step_ok_spec(
                    s,
                    time_spec(t_0, h, j),
                    yoshida_traj_spec(s, old(result)@[0], t_0, h, j).0,
                    yoshida_traj_spec(s, old(result)@[0], t_0, h, j).1,
                    h,
                )) && (forall|c: int|
                0 <= c <= i ==> #[trigger] final(result)@[c] == yoshida_traj_spec(
                    s,
                    old(result)@[0],
                    t_0,
                    h,
                    c,
                ).0) && (forall|c: int| i < c <= n ==> #[trigger] final(result)@[c] == old(
                result,
            )@[c])))),
{
    let ghost x_0 = result@[0];
    // Compute the increments
    let one = F::from_ratio(1, 1);
    let two = F::from_ratio(2, 1);
    let zero = F::from_ratio(0, 1);
    let k_2 = two.ln().div(F::from_ratio(3, 1)).exp();
    let d_1 = one.div(two.sub(k_2));
    let d_2 = one.sub(two.mul(d_1));
    let d_3 = d_1.add(d_2);
    let i_1 = h.mul(d_1);
    let i_2 = h.mul(d_2);
    let i_3 = h.mul(d_3);
    // Get the initial state
    let mut x = result.initial_values();
    // Compute the initial accelerations
    let p = positions(&x);
    let mut a = match s.accelerations(t_0, &p) {
        Ok(a) => a,
        Err(e) => {
            return Err(Error::CallbackFailure { step: 0, stage: 0, source: Box::new(e) });
        },
    };
    // Integrate
    let mut i: usize = 0;
    while i < n
        invariant
            i <= n,
            (x@, a@) == yoshida_traj_spec(s, x_0, t_0, h, i as int),
            x@.len() == result.dim(),
            a@.len() == result.dim() as int / 2,
            result.dim() == old(result).dim(),
            result@.len() == n + 1,
            s.accelerations_ok(t_0, positions_spec(x_0)),
            i_1 == h.mul_spec(yoshida_d_1_spec::<F>()),
            i_2 == h.mul_spec(yoshida_d_2_spec::<F>()),
            i_3 == h.mul_spec(yoshida_d_3_spec::<F>()),
            zero == F::from_ratio_spec(0, 1),
            forall|c: int|
                0 <= c <= i ==> #[trigger] result@[c] == yoshida_traj_spec(s, x_0, t_0, h, c).0,
            forall|c: int| i < c <= n ==> #[trigger] result@[c] == old(result)@[c],
            forall|j: int|
                0 <= j < i ==> #[trigger] yoshida_step_ok_spec(
                    s,
                    time_spec(t_0, h, j),
                    yoshida_traj_spec(s, x_0, t_0, h, j).0,
                    yoshida_traj_spec(s, x_0, t_0, h, j).1,
                    h,
                ),
        decreases n - i,
    {
        // Compute the time moment
        let t = t_0.add(F::from_usize(i).mul(h));
        let ghost step_x = x@;
        let ghost step_a = a@;
        // Compute the next states
        match leapfrog_once(s, t.add(zero), &x, &a, i_1) {
            Ok(xa) => {
                x = xa.0;
                a = xa.1;
            },
            Err(e) => {
                proof {
                    assert(!yoshida_step_ok_spec(
                        s,
                        time_spec(t_0, h, i as int),
                        yoshida_traj_spec(s, x_0, t_0, h, i as int).0,
                        yoshida_traj_spec(s, x_0, t_0, h, i as int).1,
                        h,
                    ));
                }
                return Err(Error::CallbackFailure { step: i, stage: 1, source: Box::new(e) });
            },
        }
        match leapfrog_once(s, t.add(i_1), &x, &a, i_2) {
            Ok(xa) => {
                x = xa.0;
                a = xa.1;
            },
            Err(e) => {
                proof {
                    assert(!yoshida_step_ok_spec(
                        s,
                        time_spec(t_0, h, i as int),
                        yoshida_traj_spec(s, x_0, t_0, h, i as int).0,
                        yoshida_traj_spec(s, x_0, t_0, h, i as int).1,
                        h,
                    ));
                }
                return Err(Error::CallbackFailure { step: i, stage: 2, source: Box::new(e) });
            },
        }
        match leapfrog_once(s, t.add(i_3), &x, &a, i_1) {
            Ok(xa) => {
                x = xa.0;
                a = xa.1;
            },
            Err(e) => {
                proof {
                    assert(!yoshida_step_ok_spec(
                        s,
                        time_spec(t_0, h, i as int),
                        yoshida_traj_spec(s, x_0, t_0, h, i as int).0,
                        yoshida_traj_spec(s, x_0, t_0, h, i as int).1,
                        h,
                    ));
                }
                return Err(Error::CallbackFailure { step: i, stage: 3, source: Box::new(e) });
            },
        }
        proof {
            assert((x@, a@) == yoshida_step_spec(s, time_spec(t_0, h, i as int), step_x, step_a, h));
        }
        // Put the new state in the result
        let xc = copy_vec(&x);
        result.set_state(i + 1, xc);
        i = i + 1;
    }
    Ok(())
}

/// The first weight of the second formulation of the 4th-order
/// Yoshida method: `-2^(1/3) / (2 - 2^(1/3))`.
pub open spec fn yoshida_w_0_spec<F: Float>() -> F {
    yoshida_k_spec::<F>().neg_spec().div_spec(
        F::from_ratio_spec(2, 1).sub_spec(yoshida_k_spec()),
    )
}

/// The second weight of the second formulation of the 4th-order
/// Yoshida method: `1 / (2 - 2^(1/3))`.
pub open spec fn yoshida_w_1_spec<F: Float>() -> F {
    F::from_ratio_spec(1, 1).div_spec(F::from_ratio_spec(2, 1).sub_spec(yoshida_k_spec()))
}

/// Half of the second weight of the second formulation.
pub open spec fn yoshida_w_2_spec<F: Float>() -> F {
    yoshida_w_1_spec::<F>().div_spec(F::from_ratio_spec(2, 1))
}

/// The half-sum of the first two weights of the second formulation.
pub open spec fn yoshida_w_3_spec<F: Float>() -> F {
    yoshida_w_0_spec::<F>().add_spec(yoshida_w_1_spec()).div_spec(F::from_ratio_spec(2, 1))
}

/// A drift of the second Yoshida formulation: each position gains
/// `c` times its velocity; the velocity half is unchanged.
pub open spec fn ys2_drift_spec<F: Float>(x: Seq<F>, c: F) -> Seq<F> {
    let k = x.len() as int / 2;
    Seq::new(
        x.len(),
        |j: int|
            if j < k {
                x[j].add_spec(c.mul_spec(x[k + j]))
            } else {
                x[j]
            },
    )
}

/// A kick of the second Yoshida formulation: each velocity gains `d`
/// times its acceleration; the position half is unchanged.
pub open spec fn ys2_kick_spec<F: Float>(x: Seq<F>, d: F, a: Seq<F>) -> Seq<F> {
    let k = x.len() as int / 2;
    Seq::new(
        x.len(),
        |j: int|
            if j >= k {
                x[j].add_spec(d.mul_spec(a[j - k]))
            } else {
                x[j]
            },
    )
}

/// One drift-kick sub-step of the second Yoshida formulation: drift by
/// `c`, evaluate the accelerations at time `t + l`, kick by `d`.
pub open spec fn ys2_sub_spec<F: Float, S: Integrator<F>>(
    s: &S,
    t: F,
    x: Seq<F>,
    c: F,
    d: F,
    l: F,
) -> Seq<F> {
    let xd = ys2_drift_spec(x, c);
    ys2_kick_spec(xd, d, s.accelerations_spec(t.add_spec(l), positions_spec(xd)))
}

/// Whether the acceleration evaluation of one drift-kick sub-step of
/// the second Yoshida formulation is defined.
pub open spec fn ys2_sub_ok_spec<F: Float, S: Integrator<F>>(
    s: &S,
    t: F,
    x: Seq<F>,
    c: F,
    l: F,
) -> bool {
    s.accelerations_ok(t.add_spec(l), positions_spec(ys2_drift_spec(x, c)))
}

/// The state after one step of the second formulation of the 4th-order
/// Yoshida method: three drift-kick sub-steps and a final drift.
pub open spec fn ys2_step_spec<F: Float, S: Integrator<F>>(s: &S, t: F, x: Seq<F>, h: F) -> Seq<
    F,
> {
    let c_1 = yoshida_w_2_spec::<F>().mul_spec(h);
    let c_2 = yoshida_w_3_spec::<F>().mul_spec(h);
    let d_1 = yoshida_w_1_spec::<F>().mul_spec(h);
    let d_2 = yoshida_w_0_spec::<F>().mul_spec(h);
    let i_1 = c_1;
    let i_2 = c_1.add_spec(c_2);
    let i_3 = c_1.add_spec(c_2).add_spec(c_2);
    let x_1 = ys2_sub_spec(s, t, x, c_1, d_1, i_1);
    let x_2 = ys2_sub_spec(s, t, x_1, c_2, d_2, i_2);
    let x_3 = ys2_sub_spec(s, t, x_2, c_2, d_1, i_3);
    ys2_drift_spec(x_3, c_1)
}

/// Whether the three acceleration evaluations of one step of the
/// second Yoshida formulation are defined.
pub open spec fn ys2_step_ok_spec<F: Float, S: Integrator<F>>(
    s: &S,
    t: F,
    x: Seq<F>,
    h: F,
) -> bool {
    let c_1 = yoshida_w_2_spec::<F>().mul_spec(h);
    let c_2 = yoshida_w_3_spec::<F>().mul_spec(h);
    let d_1 = yoshida_w_1_spec::<F>().mul_spec(h);
    let d_2 = yoshida_w_0_spec::<F>().mul_spec(h);
    let i_1 = c_1;
    let i_2 = c_1.add_spec(c_2);
    let i_3 = c_1.add_spec(c_2).add_spec(c_2);
    let x_1 = ys2_sub_spec(s, t, x, c_1, d_1, i_1);
    let x_2 = ys2_sub_spec(s, t, x_1, c_2, d_2, i_2);
    &&& ys2_sub_ok_spec(s, t, x, c_1, i_1)
    &&& ys2_sub_ok_spec(s, t, x_1, c_2, i_2)
    &&& ys2_sub_ok_spec(s, t, x_2, c_2, i_3)
}

/// The state after `i` steps of the second Yoshida formulation.
pub open spec fn ys2_traj_spec<F: Float, S: Integrator<F>>(
    s: &S,
    x_0: Seq<F>,
    t_0: F,
    h: F,
    i: int,
) -> Seq<F>
    decreases i,
{
    if i <= 0 {
        x_0
    } else {
        ys2_step_spec(s, time_spec(t_0, h, i - 1), ys2_traj_spec(s, x_0, t_0, h, i - 1), h)
    }
}

/// Whether every acceleration evaluation of an `n`-step run of the
/// second Yoshida formulation is defined.
pub open spec fn ys2_ok_spec<F: Float, S: Integrator<F>>(
    s: &S,
    x_0: Seq<F>,
    t_0: F,
    h: F,
    n: int,
) -> bool {
    forall|i: int|
        0 <= i < n ==> #[trigger] ys2_step_ok_spec(
            s,
            time_spec(t_0, h, i),
            ys2_traj_spec(s, x_0, t_0, h, i),
            h,
        )
}

/// Apply a drift of the second Yoshida formulation.
#[verifier::loop_isolation(false)]
fn ys2_drift<F: Float>(x: &Vec<F>, c: F) -> (r: Vec<F>)
    requires
        x@.len() % 2 == 0,
    ensures
        r@ == ys2_drift_spec(x@, c),
        r@.len() == x@.len(),
{
    let k = x.len() / 2;
    let mut r: Vec<F> = Vec::new();
    let mut j: usize = 0;
    while j < x.len()
        invariant
            k == x@.len() as int / 2,
            j <= x@.len(),
            r@.len() == j,
            forall|jj: int| 0 <= jj < j ==> r@[jj] == ys2_drift_spec(x@, c)[jj],
        decreases x@.len() - j,
    {
        if j < k {
            r.push(x[j].add(c.mul(x[k + j])));
        } else {
            r.push(x[j]);
        }
        j = j + 1;
    }
    proof {
        assert(r@ =~= ys2_drift_spec(x@, c));
    }
    r
}

/// Apply a kick of the second Yoshida formulation.
#[verifier::loop_isolation(false)]
fn ys2_kick<F: Float>(x: &Vec<F>, d: F, a: &Vec<F>) -> (r: Vec<F>)
    requires
        x@.len() % 2 == 0,
        a@.len() == x@.len() as int / 2,
    ensures
        r@ == ys2_kick_spec(x@, d, a@),
        r@.len() == x@.len(),
{
    let k = x.len() / 2;
    let mut r: Vec<F> = Vec::new();
    let mut j: usize = 0;
    while j < x.len()
        invariant
            k == x@.len() as int / 2,
            j <= x@.len(),
            r@.len() == j,
            forall|jj: int| 0 <= jj < j ==> r@[jj] == ys2_kick_spec(x@, d, a@)[jj],
        decreases x@.len() - j,
    {
        if j < k {
            r.push(x[j]);
        } else {
            r.push(x[j].add(d.mul(a[j - k])));
        }
        j = j + 1;
    }
    proof {
        assert(r@ =~= ys2_kick_spec(x@, d, a@));
    }
    r
}

/// Integrate the system using the second formulation of the 4th-order
/// Yoshida method, writing the state after step `i + 1` into column
/// `i + 1` of the prepared result matrix.
///
/// This formulation exists beside [`yoshida_4th`] so that the two
/// derivations of the same scheme can be cross-validated against each
/// other over identical inputs.
#[verifier::loop_isolation(false)]
pub fn yoshida_4th_2<F: Float, S: Integrator<F>>(
    s: &S,
    t_0: F,
    h: F,
    n: usize,
    result: &mut Matrix<F>,
) -> (r: Result<(), Error<F>>)
    requires
        old(result)@.len() == n + 1,
        old(result).dim() % 2 == 0,
        forall|c: int|
            0 <= c < old(result)@.len() ==> (#[trigger] old(result)@[c]).len() == old(result).dim(),
    ensures
        final(result).dim() == old(result).dim(),
        final(result)@.len() == old(result)@.len(),
        (r is Ok <==> ys2_ok_spec(s, old(result)@[0], t_0, h, n as int)),
        r is Ok ==> forall|c: int|
            0 <= c <= n ==> #[trigger] final(result)@[c] == ys2_traj_spec(
                s,
                old(result)@[0],
                t_0,
                h,
                c,
            ),
        r matches Err(e) ==> (e matches Error::CallbackFailure { step, stage, source } && 1 <= stage
            <= 3 && exists|i: int|
            0 <= i < n && step == i && !(#[trigger] ys2_step_ok_spec(
                s,
                time_spec(t_0, h, i),
                ys2_traj_spec(s, old(result)@[0], t_0, h, i),
                h,
            )) && (forall|j: int|
                0 <= j < i ==> #[trigger] ys2_step_ok_spec(
                    s,
                    time_spec(t_0, h, j),
                    ys2_traj_spec(s, old(result)@[0], t_0, h, j),
                    h,
                )) && (forall|c: int|
                0 <= c <= i ==> #[trigger] final(result)@[c] == ys2_traj_spec(
                    s,
                    old(result)@[0],
                    t_0,
                    h,
                    c,
                )) && (forall|c: int| i < c <= n ==> #[trigger] final(result)@[c] == old(result)@[c])),
{
    let ghost x_0 = result@[0];
    // Compute the coefficients
    let one = F::from_ratio(1, 1);
    let two = F::from_ratio(2, 1);
    let k_2 = two.ln().div(F::from_ratio(3, 1)).exp();
    let w_0 = k_2.neg().div(two.sub(k_2));
    let w_1 = one.div(two.sub(k_2));
    let w_2 = w_1.div(two);
    let w_3 = w_0.add(w_1).div(two);
    let c_1 = w_2.mul(h);
    let c_2 = w_3.mul(h);
    let c_3 = c_2;
    let c_4 = c_1;
    let d_1 = w_1.mul(h);
    let d_2 = w_0.mul(h);
    let d_3 = d_1;
    // Compute the increments
    let i_1 = c_1;
    let i_2 = c_1.add(c_2);
    let i_3 = c_1.add(c_2).add(c_3);
    // Get the initial state
    let mut x = result.initial_values();
    // Integrate
    let mut i: usize = 0;
    while i < n
        invariant
            i <= n,
            x@ == ys2_traj_spec(s, x_0, t_0, h, i as int),
            x@.len() == result.dim(),
            result.dim() % 2 == 0,
            result.dim() == old(result).dim(),
            result@.len() == n + 1,
            c_1 == yoshida_w_2_spec::<F>().mul_spec(h),
            c_2 == yoshida_w_3_spec::<F>().mul_spec(h),
            c_3 == c_2,
            c_4 == c_1,
            d_1 == yoshida_w_1_spec::<F>().mul_spec(h),
            d_2 == yoshida_w_0_spec::<F>().mul_spec(h),
            d_3 == d_1,
            i_1 == c_1,
            i_2 == c_1.add_spec(c_2),
            i_3 == c_1.add_spec(c_2).add_spec(c_2),
            forall|c: int|
                0 <= c <= i ==> #[trigger] result@[c] == ys2_traj_spec(s, x_0, t_0, h, c),
            forall|c: int| i < c <= n ==> #[trigger] result@[c] == old(result)@[c],
            forall|j: int|
                0 <= j < i ==> #[trigger] ys2_step_ok_spec(
                    s,
                    time_spec(t_0, h, j),
                    ys2_traj_spec(s, x_0, t_0, h, j),
                    h,
                ),
        decreases n - i,
    {
        // Compute the time moment
        let t = t_0.add(F::from_usize(i).mul(h));
        let ghost step_x = x@;
        // Compute the next states
        let xd = ys2_drift(&x, c_1);
        let p = positions(&xd);
        let a = match s.accelerations(t.add(i_1), &p) {
            Ok(a) => a,
            Err(e) => {
                proof {
                    assert(!ys2_step_ok_spec(
                        s,
                        time_spec(t_0, h, i as int),
                        ys2_traj_spec(s, x_0, t_0, h, i as int),
                        h,
                    ));
                }
                return Err(Error::CallbackFailure { step: i, stage: 1, source: Box::new(e) });
            },
        };
        x = ys2_kick(&xd, d_1, &a);
        proof {
            assert(x@ == ys2_sub_spec(s, t, step_x, c_1, d_1, i_1));
        }
        let xd = ys2_drift(&x, c_2);
        let p = positions(&xd);
        let a = match s.accelerations(t.add(i_2), &p) {
            Ok(a) => a,
            Err(e) => {
                proof {
                    assert(!ys2_step_ok_spec(
                        s,
                        time_spec(t_0, h, i as int),
                        ys2_traj_spec(s, x_0, t_0, h, i as int),
                        h,
                    ));
                }
                return Err(Error::CallbackFailure { step: i, stage: 2, source: Box::new(e) });
            },
        };
        x = ys2_kick(&xd, d_2, &a);
        let xd = ys2_drift(&x, c_3);
        let p = positions(&xd);
        let a = match s.accelerations(t.add(i_3), &p) {
            Ok(a) => a,
            Err(e) => {
                proof {
                    assert(!ys2_step_ok_spec(
                        s,
                        time_spec(t_0, h, i as int),
                        ys2_traj_spec(s, x_0, t_0, h, i as int),
                        h,
                    ));
                }
                return Err(Error::CallbackFailure { step: i, stage: 3, source: Box::new(e) });
            },
        };
        x = ys2_kick(&xd, d_3, &a);
        // Update the positions for the last time
        x = ys2_drift(&x, c_4);
        proof {
            assert(x@ == ys2_step_spec(s, time_spec(t_0, h, i as int), step_x, h));
        }
        // Put the new state in the result
        let xc = copy_vec(&x);
        result.set_state(i + 1, xc);
        i = i + 1;
    }
    Ok(())
}

/// Integrate the system of second-order ODEs with the chosen method,
/// starting from the state `x` (positions first, then velocities) at
/// time `t_0` and taking `n` steps of size `h`; return the matrix of
/// all visited states.
pub fn integrate<F: Float, S: Integrator<F>>(
    s: &S,
    x: &Vec<F>,
    t_0: F,
    h: F,
    n: usize,
    integrator: Integrators,
) -> (r: Result<Matrix<F>, Error<F>>)
    requires
        n < usize::MAX,
        x@.len() % 2 == 0,
        x@.len() * (n + 1) <= usize::MAX,
    ensures
        (integrator matches Integrators::Leapfrog ==> ((r is Ok <==> lf_ok_spec(
            s,
            x@,
            t_0,
            h,
            n as int,
        )) && (r matches Ok(m) ==> m.dim() == x@.len() && m@.len() == n + 1 && forall|c: int|
            0 <= c <= n ==> #[trigger] m@[c] == lf_traj_spec(s, x@, t_0, h, c).0))),
        (integrator matches Integrators::Yoshida4th ==> ((r is Ok <==> yoshida_ok_spec(
            s,
            x@,
            t_0,
            h,
            n as int,
        )) && (r matches Ok(m) ==> m.dim() == x@.len() && m@.len() == n + 1 && forall|c: int|
            0 <= c <= n ==> #[trigger] m@[c] == yoshida_traj_spec(s, x@, t_0, h, c).0))),
        r matches Err(e) ==> (e matches Error::CallbackFailure { step, stage, source } && stage
            <= 3),
{
    // Prepare a result matrix
    let mut result = prepare(x, n);
    // Call the specified method to perform integration
    match integrator {
        Integrators::Leapfrog => {
            match leapfrog(s, t_0, h, n, &mut result) {
                Ok(u) => u,
                Err(e) => {
                    return Err(e);
                },
            }
        },
        Integrators::Yoshida4th => {
            match yoshida_4th(s, t_0, h, n, &mut result) {
                Ok(u) => u,
                Err(e) => {
                    return Err(e);
                },
            }
        },
    }
    Ok(result)
}

} // verus!
