//! The error taxonomy of the integration core.

use vstd::prelude::*;

verus! {

/// A failure of an integration run or of one of its building blocks.
///
/// No function of this crate retries or salvages partial results: a
/// failure is propagated to the caller with enough context (step index,
/// stage index) to diagnose it, and the run is considered void.
#[derive(Debug)]
pub enum Error<F> {
    /// The root finder exhausted its iteration budget; holds the
    /// initial guess it was started from.
    ConvergenceFailure {
        /// The initial guess of the failed search.
        initial: F,
    },
    /// A user-supplied derivative or acceleration callback failed,
    /// wrapped with the position of the evaluation that triggered it.
    CallbackFailure {
        /// The index of the integration step in which the callback failed.
        step: usize,
        /// The index of the stage evaluation within the step, counted
        /// from one; zero names the evaluation before the first step.
        stage: usize,
        /// The failure the callback reported.
        source: Box<Error<F>>,
    },
    /// A state vector's length is inconsistent with the dimension the
    /// computation expects.
    DimensionMismatch,
    /// An out-of-range or incomplete configuration.
    ConfigurationInvalid,
}

} // verus!
