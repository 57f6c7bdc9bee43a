//! A root finder for scalar nonlinear equations.

use crate::error::Error;
use crate::float::Float;
use crate::function::Function;
use vstd::prelude::*;

verus! {

/// Maximum number of iterations of the root finder.
pub const MAX_ITER: usize = 5000;

/// One Newton-Raphson update: `x - f(x) / f'(x)`.
pub open spec fn nr_next_spec<F: Float, Fun: Function<F>, Der: Function<F>>(
    f: &Fun,
    d: &Der,
    x: F,
) -> F {
    x.sub_spec(f.eval_spec(x).div_spec(d.eval_spec(x)))
}

/// The `k`-th Newton-Raphson iterate started from `initial`.
pub open spec fn nr_iterate_spec<F: Float, Fun: Function<F>, Der: Function<F>>(
    f: &Fun,
    d: &Der,
    initial: F,
    k: nat,
) -> F
    decreases k,
{
    if k == 0 {
        initial
    } else {
        nr_next_spec(f, d, nr_iterate_spec(f, d, initial, (k - 1) as nat))
    }
}

/// The convergence tolerance: ten machine epsilons.
pub open spec fn nr_tolerance_spec<F: Float>() -> F {
    F::epsilon_spec().mul_spec(F::from_ratio_spec(10, 1))
}

/// Whether the search stops right after computing iterate `k + 1`:
/// the last two iterates are closer than the tolerance.
pub open spec fn nr_stops_at_spec<F: Float, Fun: Function<F>, Der: Function<F>>(
    f: &Fun,
    d: &Der,
    initial: F,
    k: nat,
) -> bool {
    nr_iterate_spec(f, d, initial, k).sub_spec(
        nr_iterate_spec(f, d, initial, (k + 1) as nat),
    ).abs_spec().lt_spec(nr_tolerance_spec())
}

/// Whether the initial guess is itself accepted as a root, without
/// any iteration: its absolute value is below the machine epsilon.
pub open spec fn nr_trivial_spec<F: Float>(initial: F) -> bool {
    initial.abs_spec().lt_spec(F::epsilon_spec())
}

/// Whether the search started from `initial` converges within the
/// iteration budget.
pub open spec fn nr_converges_spec<F: Float, Fun: Function<F>, Der: Function<F>>(
    f: &Fun,
    d: &Der,
    initial: F,
) -> bool {
    exists|k: nat| k < MAX_ITER && #[trigger] nr_stops_at_spec(f, d, initial, k)
}

/// The root the search started from `initial` finds: the initial guess
/// itself where it is accepted trivially, else the iterate right after
/// the earliest stop.
///
/// Meaningful whenever the search converges; `find_root_newton_raphson`
/// returns exactly this value then.
pub open spec fn nr_root_spec<F: Float, Fun: Function<F>, Der: Function<F>>(
    f: &Fun,
    d: &Der,
    initial: F,
) -> F {
    if nr_trivial_spec(initial) {
        initial
    } else {
        let k = choose|k: nat|
            k < MAX_ITER && #[trigger] nr_stops_at_spec(f, d, initial, k) && (forall|j: nat|
                j < k ==> !nr_stops_at_spec(f, d, initial, j));
        nr_iterate_spec(f, d, initial, (k + 1) as nat)
    }
}

/// Find a root of a continuous function using the Newton-Raphson method.
///
/// If the initial guess is already smaller in magnitude than the machine
/// epsilon it is returned unchanged. Otherwise the update
/// `x - f(x) / f'(x)` is iterated until two consecutive iterates are
/// closer than ten machine epsilons, in which case the newer iterate is
/// returned, or until the iteration budget is exhausted, in which case
/// the search fails and reports the initial guess it was started from.
pub fn find_root_newton_raphson<F: Float, Fun: Function<F>, Der: Function<F>>(
    f: &Fun,
    d: &Der,
    initial: F,
) -> (r: Result<F, Error<F>>)
    ensures
        nr_trivial_spec(initial) ==> (r matches Ok(x) && x == initial),
        !nr_trivial_spec(initial) && nr_converges_spec(f, d, initial) ==> (r matches Ok(x)
            && exists|k: nat|
            k < MAX_ITER && #[trigger] nr_stops_at_spec(f, d, initial, k) && (forall|j: nat|
                j < k ==> !nr_stops_at_spec(f, d, initial, j)) && x == nr_iterate_spec(
                f,
                d,
                initial,
                (k + 1) as nat,
            ) && x == nr_root_spec(f, d, initial)),
        !nr_trivial_spec(initial) && !nr_converges_spec(f, d, initial) ==> (r matches Err(e)
            && e matches Error::ConvergenceFailure { initial: i } && i == initial),
{
    if initial.abs().lt(F::epsilon()) {
        return Ok(initial);
    }
    let mut x_1 = initial;
    let mut k: usize = 0;
    while k < MAX_ITER
        invariant
            !nr_trivial_spec(initial),
            k <= MAX_ITER,
            x_1 == nr_iterate_spec(f, d, initial, k as nat),
            forall|j: nat| j < k ==> !nr_stops_at_spec(f, d, initial, j),
        decreases MAX_ITER - k,
    {
        // Compute the function and derivative values
        let fv = f.eval(x_1);
        let dv = d.eval(x_1);
        // Compute the next point
        let x_2 = x_1.sub(fv.div(dv));
        proof {
            assert(x_2 == nr_iterate_spec(f, d, initial, (k + 1) as nat));
        }
        // Check if the last two points are close enough
        if x_1.sub(x_2).abs().lt(F::epsilon().mul(F::from_ratio(10, 1))) {
            proof {
                assert(nr_stops_at_spec(f, d, initial, k as nat));
                let k0 = choose|kk: nat|
                    kk < MAX_ITER && #[trigger] nr_stops_at_spec(f, d, initial, kk) && (forall|
                        j: nat,
                    |
                        j < kk ==> !nr_stops_at_spec(f, d, initial, j));
                if k0 < k as nat {
                    assert(!nr_stops_at_spec(f, d, initial, k0));
                }
                if k0 > k as nat {
                    assert(!nr_stops_at_spec(f, d, initial, k as nat));
                }
                assert(k0 == k as nat);
            }
            return Ok(x_2);
        }
        // If not, continue
        x_1 = x_2;
        k = k + 1;
    }
    Err(Error::ConvergenceFailure { initial })
}

} // verus!
