//! Scalar functions handed to the root finder.

use crate::float::Float;
use vstd::prelude::*;

verus! {

/// A scalar function of one scalar argument.
///
/// The root finder takes the equation and its derivative through this
/// trait, so that its contract can name the values the callbacks
/// compute: `eval` must return exactly `eval_spec` at every point.
pub trait Function<F: Float> {
    /// The value of the function at `x`.
    spec fn eval_spec(&self, x: F) -> F;

    /// Evaluate the function at `x`.
    fn eval(&self, x: F) -> (r: F)
        ensures
            r == self.eval_spec(x),
    ;
}

} // verus!
