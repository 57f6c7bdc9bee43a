//! A general integrator for systems of first-order ordinary
//! differential equations, given only a derivative callback.

use crate::error::Error;
use crate::float::Float;
use crate::matrix::{copy_vec, prepare, Ext, Matrix};
use vstd::prelude::*;

verus! {

/// General integration methods.
#[derive(Clone, Copy)]
pub enum Integrators {
    /// 4th-order Runge-Kutta method.
    RungeKutta4th,
}

/// A general integrator for a system of first-order ODEs.
///
/// Implementors define the system by the derivative callback `update`
/// together with its two specification twins; the stepping routines of
/// this module then advance any such system.
pub trait Integrator<F: Float> where Self: Sized {
    /// Whether the derivative is defined at time `t` and state `x`.
    spec fn update_ok(&self, t: F, x: Seq<F>) -> bool;

    /// The derivative of the state at time `t` and state `x`.
    spec fn update_spec(&self, t: F, x: Seq<F>) -> Seq<F>;

    /// Update the current state as defined by a system of first-order
    /// ODEs: return the derivative at time `t` and state `x`, or the
    /// failure that made it undefined.
    fn update(&self, t: F, x: &Vec<F>) -> (r: Result<Vec<F>, Error<F>>)
        ensures
            r is Ok <==> self.update_ok(t, x@),
            (r matches Ok(v) ==> v@ == self.update_spec(t, x@) && v@.len() == x@.len()),
    ;
}

/// The time moment of step `i`: `t_0 + i * h`.
pub open spec fn time_spec<F: Float>(t_0: F, h: F, i: int) -> F {
    t_0.add_spec(F::from_usize_spec(i as usize).mul_spec(h))
}

/// The state probed by a half-increment stage: `x + h * k / 2`,
/// component by component.
pub open spec fn half_increment_state_spec<F: Float>(x: Seq<F>, h: F, k: Seq<F>) -> Seq<F> {
    Seq::new(
        x.len(),
        |j: int| x[j].add_spec(h.mul_spec(k[j]).div_spec(F::from_ratio_spec(2, 1))),
    )
}

/// The state probed by the full-increment stage: `x + h * k`,
/// component by component.
pub open spec fn full_increment_state_spec<F: Float>(x: Seq<F>, h: F, k: Seq<F>) -> Seq<F> {
    Seq::new(x.len(), |j: int| x[j].add_spec(h.mul_spec(k[j])))
}

/// The weighted Runge-Kutta combination of one component:
/// `x + h / 6 * (k_1 + 2 * k_2 + 2 * k_3 + k_4)`.
pub open spec fn rk4_combine_spec<F: Float>(x: F, h: F, k_1: F, k_2: F, k_3: F, k_4: F) -> F {
    let two = F::from_ratio_spec(2, 1);
    x.add_spec(
        h.div_spec(F::from_ratio_spec(6, 1)).mul_spec(
            k_1.add_spec(two.mul_spec(k_2)).add_spec(two.mul_spec(k_3)).add_spec(k_4),
        ),
    )
}

/// The state after one 4th-order Runge-Kutta step of size `h` taken at
/// time `t` from state `x`.
pub open spec fn rk4_step_spec<F: Float, S: Integrator<F>>(s: &S, t: F, x: Seq<F>, h: F) -> Seq<
    F,
> {
    let t_2 = t.add_spec(h.div_spec(F::from_ratio_spec(2, 1)));
    let t_4 = t.add_spec(h);
    let k_1 = s.update_spec(t, x);
    let k_2 = s.update_spec(t_2, half_increment_state_spec(x, h, k_1));
    let k_3 = s.update_spec(t_2, half_increment_state_spec(x, h, k_2));
    let k_4 = s.update_spec(t_4, full_increment_state_spec(x, h, k_3));
    Seq::new(x.len(), |j: int| rk4_combine_spec(x[j], h, k_1[j], k_2[j], k_3[j], k_4[j]))
}

/// Whether all four stage evaluations of one Runge-Kutta step taken at
/// time `t` from state `x` are defined.
pub open spec fn rk4_step_ok_spec<F: Float, S: Integrator<F>>(s: &S, t: F, x: Seq<F>, h: F) -> bool {
    let t_2 = t.add_spec(h.div_spec(F::from_ratio_spec(2, 1)));
    let t_4 = t.add_spec(h);
    let k_1 = s.update_spec(t, x);
    let k_2 = s.update_spec(t_2, half_increment_state_spec(x, h, k_1));
    let k_3 = s.update_spec(t_2, half_increment_state_spec(x, h, k_2));
    &&& s.update_ok(t, x)
    &&& s.update_ok(t_2, half_increment_state_spec(x, h, k_1))
    &&& s.update_ok(t_2, half_increment_state_spec(x, h, k_2))
    &&& s.update_ok(t_4, full_increment_state_spec(x, h, k_3))
}

/// The state after `i` Runge-Kutta steps of size `h` from the initial
/// state `x_0` at time `t_0`.
pub open spec fn rk4_trajectory_spec<F: Float, S: Integrator<F>>(
    s: &S,
    x_0: Seq<F>,
    t_0: F,
    h: F,
    i: int,
) -> Seq<F>
    decreases i,
{
    if i <= 0 {
        x_0
    } else {
        rk4_step_spec(s, time_spec(t_0, h, i - 1), rk4_trajectory_spec(s, x_0, t_0, h, i - 1), h)
    }
}

/// A Runge-Kutta trajectory keeps the dimension of its initial state.
pub proof fn lemma_rk4_trajectory_len<F: Float, S: Integrator<F>>(
    s: &S,
    x_0: Seq<F>,
    t_0: F,
    h: F,
    i: int,
)
    ensures
        rk4_trajectory_spec(s, x_0, t_0, h, i).len() == x_0.len(),
    decreases i,
{
    if i > 0 {
        lemma_rk4_trajectory_len(s, x_0, t_0, h, i - 1);
    }
}

/// Whether every stage evaluation of an `n`-step Runge-Kutta run from
/// `x_0` at `t_0` is defined.
pub open spec fn rk4_ok_spec<F: Float, S: Integrator<F>>(
    s: &S,
    x_0: Seq<F>,
    t_0: F,
    h: F,
    n: int,
) -> bool {
    forall|i: int|
        0 <= i < n ==> #[trigger] rk4_step_ok_spec(
            s,
            time_spec(t_0, h, i),
            rk4_trajectory_spec(s, x_0, t_0, h, i),
            h,
        )
}

/// Compute the state probed by a half-increment stage.
#[verifier::loop_isolation(false)]
fn half_increment_state<F: Float>(x: &Vec<F>, h: F, k: &Vec<F>) -> (r: Vec<F>)
    requires
        k@.len() == x@.len(),
    ensures
        r@ == half_increment_state_spec(x@, h, k@),
{
    let mut r: Vec<F> = Vec::new();
    let mut j: usize = 0;
    while j < x.len()
        invariant
            j <= x@.len(),
            r@.len() == j,
            forall|jj: int|
                0 <= jj < j ==> r@[jj] == x@[jj].add_spec(
                    h.mul_spec(k@[jj]).div_spec(F::from_ratio_spec(2, 1)),
                ),
        decreases x@.len() - j,
    {
        r.push(x[j].add(h.mul(k[j]).div(F::from_ratio(2, 1))));
        j = j + 1;
    }
    proof {
        assert(r@ =~= half_increment_state_spec(x@, h, k@));
    }
    r
}

/// Compute the state probed by the full-increment stage.
#[verifier::loop_isolation(false)]
fn full_increment_state<F: Float>(x: &Vec<F>, h: F, k: &Vec<F>) -> (r: Vec<F>)
    requires
        k@.len() == x@.len(),
    ensures
        r@ == full_increment_state_spec(x@, h, k@),
{
    let mut r: Vec<F> = Vec::new();
    let mut j: usize = 0;
    while j < x.len()
        invariant
            j <= x@.len(),
            r@.len() == j,
            forall|jj: int| 0 <= jj < j ==> r@[jj] == x@[jj].add_spec(h.mul_spec(k@[jj])),
        decreases x@.len() - j,
    {
        r.push(x[j].add(h.mul(k[j])));
        j = j + 1;
    }
    proof {
        assert(r@ =~= full_increment_state_spec(x@, h, k@));
    }
    r
}

/// Combine the four stage increments into the next state.
#[verifier::loop_isolation(false)]
fn rk4_combine_state<F: Float>(
    x: &Vec<F>,
    h: F,
    k_1: &Vec<F>,
    k_2: &Vec<F>,
    k_3: &Vec<F>,
    k_4: &Vec<F>,
) -> (r: Vec<F>)
    requires
        k_1@.len() == x@.len(),
        k_2@.len() == x@.len(),
        k_3@.len() == x@.len(),
        k_4@.len() == x@.len(),
    ensures
        r@ == Seq::new(
            x@.len(),
            |j: int| rk4_combine_spec(x@[j], h, k_1@[j], k_2@[j], k_3@[j], k_4@[j]),
        ),
{
    let two = F::from_ratio(2, 1);
    let six = F::from_ratio(6, 1);
    let mut r: Vec<F> = Vec::new();
    let mut j: usize = 0;
    while j < x.len()
        invariant
            j <= x@.len(),
            r@.len() == j,
            forall|jj: int|
                0 <= jj < j ==> r@[jj] == rk4_combine_spec(
                    x@[jj],
                    h,
                    k_1@[jj],
                    k_2@[jj],
                    k_3@[jj],
                    k_4@[jj],
                ),
        decreases x@.len() - j,
    {
        r.push(
            x[j].add(
                h.div(six).mul(
                    k_1[j].add(two.mul(k_2[j])).add(two.mul(k_3[j])).add(k_4[j]),
                ),
            ),
        );
        j = j + 1;
    }
    proof {
        assert(r@ =~= Seq::new(
            x@.len(),
            |jj: int| rk4_combine_spec(x@[jj], h, k_1@[jj], k_2@[jj], k_3@[jj], k_4@[jj]),
        ));
    }
    r
}

/// Integrate the system using the 4th-order Runge-Kutta method,
/// writing the state after step `i + 1` into column `i + 1` of the
/// prepared result matrix.
///
/// On success every column holds its trajectory state. On failure the
/// error names the step and the stage evaluation that failed; the
/// columns up to and including the failing step still hold their
/// trajectory states and the columns after it are unchanged.
#[verifier::loop_isolation(false)]
pub fn runge_kutta_4th<F: Float, S: Integrator<F>>(
    s: &S,
    t_0: F,
    h: F,
    n: usize,
    result: &mut Matrix<F>,
) -> (r: Result<(), Error<F>>)
    requires
        old(result)@.len() == n + 1,
        forall|c: int|
            0 <= c < old(result)@.len() ==> (#[trigger] old(result)@[c]).len() == old(result).dim(),
    ensures
        final(result).dim() == old(result).dim(),
        final(result)@.len() == old(result)@.len(),
        (r is Ok <==> rk4_ok_spec(s, old(result)@[0], t_0, h, n as int)),
        r is Ok ==> forall|c: int|
            0 <= c <= n ==> #[trigger] final(result)@[c] == rk4_trajectory_spec(
                s,
                old(result)@[0],
                t_0,
                h,
                c,
            ),
        r matches Err(e) ==> (e matches Error::CallbackFailure { step, stage, source }
            && exists|i: int|
            0 <= i < n && step == i && 1 <= stage <= 4 && !(#[trigger] rk4_step_ok_spec(
                s,
                time_spec(t_0, h, i),
                rk4_trajectory_spec(s, old(result)@[0], t_0, h, i),
                h,
            )) && (forall|j: int|
                0 <= j < i ==> #[trigger] rk4_step_ok_spec(
                    s,
                    time_spec(t_0, h, j),
                    rk4_trajectory_spec(s, old(result)@[0], t_0, h, j),
                    h,
                )) && (forall|c: int|
                0 <= c <= i ==> #[trigger] final(result)@[c] == rk4_trajectory_spec(
                    s,
                    old(result)@[0],
                    t_0,
                    h,
                    c,
                )) && (forall|c: int| i < c <= n ==> #[trigger] final(result)@[c] == old(result)@[c])),
{
    let ghost x_0 = result@[0];
    // Get the initial state
    let mut x = result.initial_values();
    // Integrate
    let mut i: usize = 0;
    while i < n
        invariant
            i <= n,
            x@ == rk4_trajectory_spec(s, x_0, t_0, h, i as int),
            x@.len() == result.dim(),
            result.dim() == old(result).dim(),
            result@.len() == n + 1,
            forall|c: int|
                0 <= c <= i ==> #[trigger] result@[c] == rk4_trajectory_spec(s, x_0, t_0, h, c),
            forall|c: int| i < c <= n ==> #[trigger] result@[c] == old(result)@[c],
            forall|j: int|
                0 <= j < i ==> #[trigger] rk4_step_ok_spec(
                    s,
                    time_spec(t_0, h, j),
                    rk4_trajectory_spec(s, x_0, t_0, h, j),
                    h,
                ),
        decreases n - i,
    {
        // Compute the time moments
        let t = t_0.add(F::from_usize(i).mul(h));
        let t_2 = t.add(h.div(F::from_ratio(2, 1)));
        let t_3 = t_2;
        let t_4 = t.add(h);
        // Compute the first increment
        let k_1 = match s.update(t, &x) {
            Ok(k) => k,
            Err(e) => {
                proof {
                    assert(!rk4_step_ok_spec(
                        s,
                        time_spec(t_0, h, i as int),
                        rk4_trajectory_spec(s, x_0, t_0, h, i as int),
                        h,
                    ));
                }
                return Err(Error::CallbackFailure { step: i, stage: 1, source: Box::new(e) });
            },
        };
        // Compute the modified state for the second increment
        let x_m = half_increment_state(&x, h, &k_1);
        // Compute the second increment
        let k_2 = match s.update(t_2, &x_m) {
            Ok(k) => k,
            Err(e) => {
                proof {
                    assert(!rk4_step_ok_spec(
                        s,
                        time_spec(t_0, h, i as int),
                        rk4_trajectory_spec(s, x_0, t_0, h, i as int),
                        h,
                    ));
                }
                return Err(Error::CallbackFailure { step: i, stage: 2, source: Box::new(e) });
            },
        };
        // Compute the modified state for the third increment
        let x_m = half_increment_state(&x, h, &k_2);
        // Compute the third increment
        let k_3 = match s.update(t_3, &x_m) {
            Ok(k) => k,
            Err(e) => {
                proof {
                    assert(!rk4_step_ok_spec(
                        s,
                        time_spec(t_0, h, i as int),
                        rk4_trajectory_spec(s, x_0, t_0, h, i as int),
                        h,
                    ));
                }
                return Err(Error::CallbackFailure { step: i, stage: 3, source: Box::new(e) });
            },
        };
        // Compute the modified state for the fourth increment
        let x_m = full_increment_state(&x, h, &k_3);
        // Compute the fourth increment
        let k_4 = match s.update(t_4, &x_m) {
            Ok(k) => k,
            Err(e) => {
                proof {
                    assert(!rk4_step_ok_spec(
                        s,
                        time_spec(t_0, h, i as int),
                        rk4_trajectory_spec(s, x_0, t_0, h, i as int),
                        h,
                    ));
                }
                return Err(Error::CallbackFailure { step: i, stage: 4, source: Box::new(e) });
            },
        };
        // Compute the final modified state
        x = rk4_combine_state(&x, h, &k_1, &k_2, &k_3, &k_4);
        proof {
            assert(x@ =~= rk4_step_spec(
                s,
                time_spec(t_0, h, i as int),
                rk4_trajectory_spec(s, x_0, t_0, h, i as int),
                h,
            ));
        }
        // Put the new state in the result
        let xc = copy_vec(&x);
        result.set_state(i + 1, xc);
        i = i + 1;
    }
    Ok(())
}

/// Integrate the system of first-order ODEs with the chosen method,
/// starting from the state `x` at time `t_0` and taking `n` steps of
/// size `h`; return the matrix of all visited states.
pub fn integrate<F: Float, S: Integrator<F>>(
    s: &S,
    x: &Vec<F>,
    t_0: F,
    h: F,
    n: usize,
    integrator: Integrators,
) -> (r: Result<Matrix<F>, Error<F>>)
    requires
        n < usize::MAX,
        x@.len() * (n + 1) <= usize::MAX,
    ensures
        (r is Ok <==> rk4_ok_spec(s, x@, t_0, h, n as int)),
        r matches Ok(m) ==> m.dim() == x@.len() && m@.len() == n + 1 && forall|c: int|
            0 <= c <= n ==> #[trigger] m@[c] == rk4_trajectory_spec(s, x@, t_0, h, c),
        r matches Err(e) ==> (e matches Error::CallbackFailure { step, stage, source }
            && 0 <= step < n && 1 <= stage <= 4),
{
    // Prepare a result matrix
    let mut result = prepare(x, n);
    // Call the specified method to perform integration
    match integrator {
        Integrators::RungeKutta4th => {
            match runge_kutta_4th(s, t_0, h, n, &mut result) {
                Ok(u) => u,
                Err(e) => {
                    return Err(e);
                },
            }
        },
    }
    Ok(result)
}

} // verus!
