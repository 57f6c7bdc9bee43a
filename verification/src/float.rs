//! The scalar abstraction all integrators are generic over.

use vstd::prelude::*;

verus! {

/// A general trait for all floating-point type numbers.
///
/// Every integrator, the root finder and the model are generic over this
/// trait, so the algorithms are independent of the scalar representation
/// (32-bit, 64-bit, ...). Each executable operation is paired with a
/// specification function naming its result: `add` must return exactly
/// `self.add_spec(o)`, and so on. All contracts of this crate are stated
/// over these specification functions, so they pin each computed value
/// down to the scalar type's own arithmetic.
///
/// Machine floating-point arithmetic cannot be defined inside this crate,
/// so implementations live with the code that chooses the representation
/// (for example a wrapper around a 64-bit machine float). An
/// implementation is in force only as far as each operation is a function
/// of its arguments and returns, without panicking, the value its
/// specification function names; this is what the standard floating-point
/// operations do.
pub trait Float: Sized + Copy {
    /// The value of `self + o`.
    spec fn add_spec(self, o: Self) -> Self;

    /// The value of `self - o`.
    spec fn sub_spec(self, o: Self) -> Self;

    /// The value of `self * o`.
    spec fn mul_spec(self, o: Self) -> Self;

    /// The value of `self / o`.
    spec fn div_spec(self, o: Self) -> Self;

    /// The value of `self % o`.
    spec fn rem_spec(self, o: Self) -> Self;

    /// The value of `-self`.
    spec fn neg_spec(self) -> Self;

    /// The absolute value of `self`.
    spec fn abs_spec(self) -> Self;

    /// The square root of `self`.
    spec fn sqrt_spec(self) -> Self;

    /// The exponential function at `self`.
    spec fn exp_spec(self) -> Self;

    /// The natural logarithm of `self`.
    spec fn ln_spec(self) -> Self;

    /// The sine of `self`.
    spec fn sin_spec(self) -> Self;

    /// The cosine of `self`.
    spec fn cos_spec(self) -> Self;

    /// The value of `self` raised to the power `p`.
    spec fn powf_spec(self, p: Self) -> Self;

    /// Whether `self` is strictly less than `o`.
    spec fn lt_spec(self, o: Self) -> bool;

    /// Whether `self` is exactly zero.
    spec fn is_zero_spec(self) -> bool;

    /// The scalar closest to the rational number `num / den`.
    spec fn from_ratio_spec(num: i64, den: i64) -> Self;

    /// The scalar closest to the integer `n`.
    spec fn from_usize_spec(n: usize) -> Self;

    /// The scalar closest to the circle constant.
    spec fn pi_spec() -> Self;

    /// The machine epsilon of the representation.
    spec fn epsilon_spec() -> Self;

    /// The nearest integer to `self` as a `usize`, if it is
    /// representable there.
    spec fn round_to_usize_spec(self) -> Option<usize>;

    /// Add `o` to `self`.
    fn add(self, o: Self) -> (r: Self)
        ensures
            r == self.add_spec(o),
    ;

    /// Subtract `o` from `self`.
    fn sub(self, o: Self) -> (r: Self)
        ensures
            r == self.sub_spec(o),
    ;

    /// Multiply `self` by `o`.
    fn mul(self, o: Self) -> (r: Self)
        ensures
            r == self.mul_spec(o),
    ;

    /// Divide `self` by `o`.
    fn div(self, o: Self) -> (r: Self)
        ensures
            r == self.div_spec(o),
    ;

    /// Take the remainder of `self` divided by `o`.
    fn rem(self, o: Self) -> (r: Self)
        ensures
            r == self.rem_spec(o),
    ;

    /// Negate `self`.
    fn neg(self) -> (r: Self)
        ensures
            r == self.neg_spec(),
    ;

    /// Compute the absolute value of `self`.
    fn abs(self) -> (r: Self)
        ensures
            r == self.abs_spec(),
    ;

    /// Compute the square root of `self`.
    fn sqrt(self) -> (r: Self)
        ensures
            r == self.sqrt_spec(),
    ;

    /// Compute the exponential function at `self`.
    fn exp(self) -> (r: Self)
        ensures
            r == self.exp_spec(),
    ;

    /// Compute the natural logarithm of `self`.
    fn ln(self) -> (r: Self)
        ensures
            r == self.ln_spec(),
    ;

    /// Compute the sine of `self`.
    fn sin(self) -> (r: Self)
        ensures
            r == self.sin_spec(),
    ;

    /// Compute the cosine of `self`.
    fn cos(self) -> (r: Self)
        ensures
            r == self.cos_spec(),
    ;

    /// Raise `self` to the power `p`.
    fn powf(self, p: Self) -> (r: Self)
        ensures
            r == self.powf_spec(p),
    ;

    /// Check whether `self` is strictly less than `o`.
    fn lt(self, o: Self) -> (r: bool)
        ensures
            r == self.lt_spec(o),
    ;

    /// Check whether `self` is exactly zero.
    fn is_zero(self) -> (r: bool)
        ensures
            r == self.is_zero_spec(),
    ;

    /// Construct the scalar closest to the rational number `num / den`.
    fn from_ratio(num: i64, den: i64) -> (r: Self)
        requires
            den != 0,
        ensures
            r == Self::from_ratio_spec(num, den),
    ;

    /// Construct the scalar closest to the integer `n`.
    fn from_usize(n: usize) -> (r: Self)
        ensures
            r == Self::from_usize_spec(n),
    ;

    /// Construct the scalar closest to the circle constant.
    fn pi() -> (r: Self)
        ensures
            r == Self::pi_spec(),
    ;

    /// Construct the machine epsilon of the representation.
    fn epsilon() -> (r: Self)
        ensures
            r == Self::epsilon_spec(),
    ;

    /// Round `self` to the nearest integer and convert it to `usize`,
    /// if it is representable there.
    ///
    /// Which values are representable depends on the representation;
    /// the result is the one the specification twin names.
    fn round_to_usize(self) -> (r: Option<usize>)
        ensures
            r == self.round_to_usize_spec(),
    ;

    /// Draw a scalar from a normal distribution centred at `self` with
    /// standard deviation `1 / 10`, advancing the given generator.
    ///
    /// The result depends on the state of the generator, so nothing is
    /// stated about it.
    fn variate(self, rng: &mut rand_xoshiro::Xoshiro256PlusPlus) -> Self;
}

} // verus!
