//! A model of the Sitnikov problem.

use crate::error::Error;
use crate::float::Float;
use crate::function::Function;
use crate::general;
use crate::general::{rk4_ok_spec, rk4_trajectory_spec, time_spec};
use crate::matrix::{lemma_matrix_shape, prepare, Ext, Matrix};
use crate::newton_raphson::{
    find_root_newton_raphson, nr_converges_spec, nr_root_spec, nr_trivial_spec,
};
use crate::rng::seed_rng;
use crate::symplectic;
use crate::symplectic::{
    lf_ok_spec, lf_traj_spec, ys2_ok_spec, ys2_traj_spec, yoshida_ok_spec, yoshida_traj_spec,
};
use vstd::prelude::*;

verus! {

/// Results of integration.
pub struct Results<F> {
    /// The integrated trajectory (-ies).
    pub x: Matrix<F>,
    /// The integrated trajectories and the MEGNO integrals.
    pub m: Matrix<F>,
    /// The MEGNO series accumulated by the trapezoidal rule.
    pub megno: Vec<F>,
    /// The mean MEGNO series accumulated by the trapezoidal rule.
    pub mean_megno: Vec<F>,
}

impl<F: Float> Results<F> {
    /// Initialize empty result stores.
    pub fn new() -> (r: Self)
        ensures
            r.x@.len() == 0,
            r.x.dim() == 0,
            r.m@.len() == 0,
            r.m.dim() == 0,
            r.megno@.len() == 0,
            r.mean_megno@.len() == 0,
    {
        Self {
            x: Matrix::new(0, 0),
            m: Matrix::new(0, 0),
            megno: Vec::new(),
            mean_megno: Vec::new(),
        }
    }
}

/// A model of the Sitnikov problem.
pub struct Model<F: Float> {
    /// Eccentricity.
    pub e: F,
    /// Time at the pericenter.
    pub tau: F,
    /// Initial value of time.
    pub t_0: F,
    /// Vector of initial values: positions first, then velocities.
    pub x_0: Vec<F>,
    /// Time step.
    pub h: F,
    /// Number of iterations.
    pub n: usize,
    /// An index of the first value for MEGNOs.
    pub i_m: usize,
    /// Compute MEGNOs?
    pub compute_megnos: bool,
    /// Results of the integration.
    pub results: Results<F>,
}

/// The left-hand side of Kepler's equation brought to zero:
/// `x - e * sin(x) - m` for the mean anomaly `m`.
pub struct KeplerEquation<F: Float> {
    /// Eccentricity.
    pub e: F,
    /// Mean anomaly.
    pub m: F,
}

impl<F: Float> Function<F> for KeplerEquation<F> {
    open spec fn eval_spec(&self, x: F) -> F {
        x.sub_spec(self.e.mul_spec(x.sin_spec())).sub_spec(self.m)
    }

    fn eval(&self, x: F) -> (r: F) {
        x.sub(self.e.mul(x.sin())).sub(self.m)
    }
}

/// The derivative of Kepler's equation: `1 - e * cos(x)`.
pub struct KeplerDerivative<F: Float> {
    /// Eccentricity.
    pub e: F,
}

impl<F: Float> Function<F> for KeplerDerivative<F> {
    open spec fn eval_spec(&self, x: F) -> F {
        F::from_ratio_spec(1, 1).sub_spec(self.e.mul_spec(x.cos_spec()))
    }

    fn eval(&self, x: F) -> (r: F) {
        F::from_ratio(1, 1).sub(self.e.mul(x.cos()))
    }
}

impl<F: Float> Model<F> {
    /// Kepler's equation of this model for the mean anomaly `m`.
    pub open spec fn kepler_equation_spec(self, m: F) -> KeplerEquation<F> {
        KeplerEquation { e: self.e, m }
    }

    /// The derivative of Kepler's equation of this model.
    pub open spec fn kepler_derivative_spec(self) -> KeplerDerivative<F> {
        KeplerDerivative { e: self.e }
    }

    /// The initial guess of the root search for the mean anomaly `m`:
    /// the mean anomaly itself, or the circle constant for large
    /// eccentricities.
    pub open spec fn eccentric_anomaly_initial_spec(self, m: F) -> F {
        if F::from_ratio_spec(4, 5).lt_spec(self.e) {
            F::pi_spec()
        } else {
            m
        }
    }

    /// Whether the eccentric anomaly for the mean anomaly `m` can be
    /// computed: it always can for a circular orbit, and otherwise
    /// exactly when the root search accepts its guess or converges.
    pub open spec fn eccentric_anomaly_ok_spec(self, m: F) -> bool {
        ||| self.e.is_zero_spec()
        ||| nr_trivial_spec(self.eccentric_anomaly_initial_spec(m))
        ||| nr_converges_spec(
            &self.kepler_equation_spec(m),
            &self.kepler_derivative_spec(),
            self.eccentric_anomaly_initial_spec(m),
        )
    }

    /// The eccentric anomaly for the mean anomaly `m`: the mean anomaly
    /// itself for a circular orbit, else the root of Kepler's equation.
    pub open spec fn eccentric_anomaly_spec(self, m: F) -> F {
        if self.e.is_zero_spec() {
            m
        } else {
            nr_root_spec(
                &self.kepler_equation_spec(m),
                &self.kepler_derivative_spec(),
                self.eccentric_anomaly_initial_spec(m),
            )
        }
    }

    /// Compute the eccentric anomaly from the eccentricity and the mean
    /// anomaly, solving Kepler's equation with the Newton-Raphson
    /// method.
    pub fn eccentric_anomaly(&self, m: F) -> (r: Result<F, Error<F>>)
        ensures
            r is Ok <==> self.eccentric_anomaly_ok_spec(m),
            (r matches Ok(v) ==> v == self.eccentric_anomaly_spec(m)),
            (r matches Err(e) ==> e is ConvergenceFailure),
    {
        // Compute the solution
        if self.e.is_zero() {
            Ok(m)
        } else {
            // Define the initial value
            let initial = if F::from_ratio(4, 5).lt(self.e) {
                F::pi()
            } else {
                m
            };
            // Define the non-linear equation and its derivative
            let fun = KeplerEquation { e: self.e, m };
            let der = KeplerDerivative { e: self.e };
            // Use the Newton-Raphson method as a root-finding algorithm
            match find_root_newton_raphson(&fun, &der, initial) {
                Ok(v) => Ok(v),
                Err(e) => Err(e),
            }
        }
    }

    /// The mean anomaly at time `t`: the time reduced modulo one orbit.
    pub open spec fn mean_anomaly_spec(self, t: F) -> F {
        t.rem_spec(F::from_ratio_spec(2, 1).mul_spec(F::pi_spec()))
    }

    /// Whether the radius at time `t` can be computed.
    pub open spec fn radius_ok_spec(self, t: F) -> bool {
        self.eccentric_anomaly_ok_spec(self.mean_anomaly_spec(t))
    }

    /// The radius at time `t`: `1 - e * cos(E)` for the eccentric
    /// anomaly `E` at that time.
    pub open spec fn radius_spec(self, t: F) -> F {
        F::from_ratio_spec(1, 1).sub_spec(
            self.e.mul_spec(self.eccentric_anomaly_spec(self.mean_anomaly_spec(t)).cos_spec()),
        )
    }

    /// Compute the radius (distance from the focus to either of the
    /// primary bodies) from the eccentricity and time.
    pub fn radius(&self, t: F) -> (r: Result<F, Error<F>>)
        ensures
            r is Ok <==> self.radius_ok_spec(t),
            (r matches Ok(v) ==> v == self.radius_spec(t)),
            (r matches Err(e) ==> e is ConvergenceFailure),
    {
        let e_a = match self.eccentric_anomaly(t.rem(F::from_ratio(2, 1).mul(F::pi()))) {
            Ok(v) => v,
            Err(e) => {
                return Err(e);
            },
        };
        Ok(F::from_ratio(1, 1).sub(self.e.mul(e_a.cos())))
    }

    /// Whether the acceleration at time `t` can be computed.
    pub open spec fn acceleration_ok_spec(self, t: F) -> bool {
        self.radius_ok_spec(t)
    }

    /// The acceleration of the third body at time `t` and position `z`:
    /// `-z / (r^2 + z^2)^1.5` for the radius `r` at that time.
    pub open spec fn acceleration_spec(self, t: F, z: F) -> F {
        let r = self.radius_spec(t);
        z.neg_spec().div_spec(
            r.mul_spec(r).add_spec(z.mul_spec(z)).powf_spec(F::from_ratio_spec(3, 2)),
        )
    }

    /// Compute the acceleration (second derivative) of the third body
    /// at time `t` and position `z`.
    pub fn acceleration(&self, t: F, z: F) -> (r: Result<F, Error<F>>)
        ensures
            r is Ok <==> self.acceleration_ok_spec(t),
            (r matches Ok(v) ==> v == self.acceleration_spec(t, z)),
            (r matches Err(e) ==> e is ConvergenceFailure),
    {
        let rad = match self.radius(t) {
            Ok(v) => v,
            Err(e) => {
                return Err(e);
            },
        };
        Ok(z.neg().div(rad.mul(rad).add(z.mul(z)).powf(F::from_ratio(3, 2))))
    }

    /// Initialize a model from plain values: the step counts are taken
    /// as given and every field is pinned down.
    pub fn new(
        e: F,
        tau: F,
        z_0: F,
        z_v_0: F,
        h: F,
        n: usize,
        i_m: usize,
        compute_megnos: bool,
    ) -> (r: Self)
        ensures
            r.e == e,
            r.tau == tau.mul_spec(F::from_ratio_spec(2, 1)).mul_spec(F::pi_spec()),
            r.t_0 == F::from_ratio_spec(0, 1),
            r.x_0@ == seq![z_0, z_v_0],
            r.h == h.mul_spec(F::pi_spec().div_spec(F::from_ratio_spec(2, 1))),
            r.n == n,
            r.i_m == i_m,
            r.compute_megnos == compute_megnos,
            r.results.x@.len() == 0,
            r.results.m@.len() == 0,
            r.results.megno@.len() == 0,
            r.results.mean_megno@.len() == 0,
    {
        let two = F::from_ratio(2, 1);
        let mut x_0: Vec<F> = Vec::new();
        x_0.push(z_0);
        x_0.push(z_v_0);
        proof {
            assert(x_0@ =~= seq![z_0, z_v_0]);
        }
        Self {
            e,
            // The pericenter phase comes in as a fraction of one orbit
            tau: tau.mul(two).mul(F::pi()),
            // This value is fixed so the place of this zero is known.
            // That's important when computing MEGNOs, because they
            // have a singular point at `t = 0`
            t_0: F::from_ratio(0, 1),
            x_0,
            // The time step comes in as a multiple of a quarter-period
            h: h.mul(F::pi().div(two)),
            n,
            i_m,
            compute_megnos,
            results: Results::new(),
        }
    }

    /// Initialize a model from arguments: `p` periods at `4 / h` steps
    /// per period, with the MEGNO phase offset by a quarter-period.
    ///
    /// Construction succeeds exactly when both derived step counts are
    /// representable under the scalar type's rounding; every field of a
    /// returned model is pinned down.
    pub fn from(
        e: F,
        tau: F,
        z_0: F,
        z_v_0: F,
        h: F,
        p: usize,
        compute_megnos: bool,
    ) -> (r: Result<Self, Error<F>>)
        ensures
            (r is Ok <==> (F::from_usize_spec(p).mul_spec(F::from_ratio_spec(4, 1)).div_spec(
                h,
            ).round_to_usize_spec() is Some && F::from_ratio_spec(1, 1).div_spec(
                h,
            ).round_to_usize_spec() is Some)),
            (r matches Ok(m) ==> m.e == e && m.tau == tau.mul_spec(F::from_ratio_spec(2, 1)).mul_spec(
                F::pi_spec(),
            ) && m.t_0 == F::from_ratio_spec(0, 1) && m.x_0@ == seq![z_0, z_v_0] && m.h
                == h.mul_spec(F::pi_spec().div_spec(F::from_ratio_spec(2, 1))) && Some(m.n)
                == F::from_usize_spec(p).mul_spec(F::from_ratio_spec(4, 1)).div_spec(
                h,
            ).round_to_usize_spec() && Some(m.i_m) == F::from_ratio_spec(1, 1).div_spec(
                h,
            ).round_to_usize_spec() && m.compute_megnos == compute_megnos && m.results.x@.len()
                == 0 && m.results.m@.len() == 0 && m.results.megno@.len() == 0
                && m.results.mean_megno@.len() == 0),
            (r matches Err(err) ==> err is ConfigurationInvalid),
    {
        // Rounded, just in case. The time step validator of the
        // caller should prove this to be an integral value
        let n = match F::from_usize(p).mul(F::from_ratio(4, 1)).div(h).round_to_usize() {
            Some(n) => n,
            None => {
                return Err(Error::ConfigurationInvalid);
            },
        };
        // Skip the first quarter of the period
        let i_m = match F::from_ratio(1, 1).div(h).round_to_usize() {
            Some(v) => v,
            None => {
                return Err(Error::ConfigurationInvalid);
            },
        };
        Ok(Self::new(e, tau, z_0, z_v_0, h, n, i_m, compute_megnos))
    }

    /// Initialize a model with default values set for tests: a circular
    /// orbit sampled at a hundredth of a quarter-period for a thousand
    /// periods.
    pub fn test() -> (r: Self)
        ensures
            r.e == F::from_ratio_spec(0, 1),
            r.tau == F::from_ratio_spec(0, 1).mul_spec(F::from_ratio_spec(2, 1)).mul_spec(
                F::pi_spec(),
            ),
            r.t_0 == F::from_ratio_spec(0, 1),
            r.x_0@.len() == 0,
            r.h == F::from_ratio_spec(1, 100).mul_spec(
                F::pi_spec().div_spec(F::from_ratio_spec(2, 1)),
            ),
            r.n == 400000,
            r.i_m == 0,
            r.compute_megnos == false,
            r.results.x@.len() == 0,
            r.results.m@.len() == 0,
            r.results.megno@.len() == 0,
            r.results.mean_megno@.len() == 0,
    {
        let zero = F::from_ratio(0, 1);
        let mut r = Self::new(zero, zero, zero, zero, F::from_ratio(1, 100), 400000, 0, false);
        r.x_0 = Vec::new();
        r
    }
}

impl<F: Float> symplectic::Integrator<F> for Model<F> {
    // The acceleration law applies to each position on its own; every
    // component fails or succeeds with the one radius at time `t`
    open spec fn accelerations_ok(&self, t: F, x: Seq<F>) -> bool {
        x.len() == 0 || self.radius_ok_spec(t)
    }

    open spec fn accelerations_spec(&self, t: F, x: Seq<F>) -> Seq<F> {
        Seq::new(x.len(), |j: int| self.acceleration_spec(t, x[j]))
    }

    // We integrate the equations of motion for one or two trajectories
    #[verifier::loop_isolation(false)]
    fn accelerations(&self, t: F, x: &Vec<F>) -> (r: Result<Vec<F>, Error<F>>) {
        let mut r: Vec<F> = Vec::new();
        let mut j: usize = 0;
        while j < x.len()
            invariant
                j <= x@.len(),
                r@.len() == j,
                j > 0 ==> self.radius_ok_spec(t),
                forall|jj: int| 0 <= jj < j ==> r@[jj] == self.acceleration_spec(t, x@[jj]),
            decreases x@.len() - j,
        {
            let a = match self.acceleration(t, x[j]) {
                Ok(a) => a,
                Err(e) => {
                    return Err(e);
                },
            };
            r.push(a);
            j = j + 1;
        }
        proof {
            assert(r@ =~= Seq::new(x@.len(), |jj: int| self.acceleration_spec(t, x@[jj])));
        }
        Ok(r)
    }
}

impl<F: Float> general::Integrator<F> for Model<F> {
    open spec fn update_ok(&self, t: F, x: Seq<F>) -> bool {
        x.len() == 6 && self.radius_ok_spec(t)
    }

    open spec fn update_spec(&self, t: F, x: Seq<F>) -> Seq<F> {
        let a_1 = self.acceleration_spec(t, x[0]);
        let a_2 = self.acceleration_spec(t, x[1]);
        let delta_z = x[1].sub_spec(x[0]);
        let delta_z_v = x[3].sub_spec(x[2]);
        let delta_a = a_2.sub_spec(a_1);
        let delta_dot_pr = delta_z_v.mul_spec(delta_z).add_spec(delta_a.mul_spec(delta_z_v));
        let delta_norm_sq = delta_z.mul_spec(delta_z).add_spec(delta_z_v.mul_spec(delta_z_v));
        seq![
            x[2],
            x[3],
            a_1,
            a_2,
            delta_dot_pr.div_spec(delta_norm_sq).mul_spec(t),
            F::from_ratio_spec(2, 1).mul_spec(x[4]).div_spec(t),
        ]
    }

    // We integrate the equations of motion and the MEGNO equations:
    // the state is `[z, z~, z_v, z~_v, I, I~]` for the primary and
    // shadow trajectories and the two running integrals
    fn update(&self, t: F, x: &Vec<F>) -> (r: Result<Vec<F>, Error<F>>) {
        if x.len() != 6 {
            return Err(Error::DimensionMismatch);
        }
        // Compute the accelerations
        let a_1 = match self.acceleration(t, x[0]) {
            Ok(a) => a,
            Err(e) => {
                return Err(e);
            },
        };
        let a_2 = match self.acceleration(t, x[1]) {
            Ok(a) => a,
            Err(e) => {
                return Err(e);
            },
        };
        // Compute the deltas
        let delta_z = x[1].sub(x[0]);
        let delta_z_v = x[3].sub(x[2]);
        let delta_a = a_2.sub(a_1);
        // Compute the scalars
        let delta_dot_pr = delta_z_v.mul(delta_z).add(delta_a.mul(delta_z_v));
        let delta_norm_sq = delta_z.mul(delta_z).add(delta_z_v.mul(delta_z_v));
        // Return the new state. The last two components are the
        // integrands of the MEGNO and mean-MEGNO equations; they scale
        // with `t` rather than `t - t_0` to stay clear of the singular
        // point at the start of the run, which leaves the behaviour for
        // large times unchanged
        let mut r: Vec<F> = Vec::new();
        r.push(x[2]);
        r.push(x[3]);
        r.push(a_1);
        r.push(a_2);
        r.push(delta_dot_pr.div(delta_norm_sq).mul(t));
        r.push(F::from_ratio(2, 1).mul(x[4]).div(t));
        proof {
            assert(r@ =~= self.update_spec(t, x@));
        }
        Ok(r)
    }
}

/// Whether two models agree on everything but the motion matrix
/// `results.x`.
pub open spec fn unchanged_but_results_x<F: Float>(a: Model<F>, b: Model<F>) -> bool {
    &&& b.e == a.e
    &&& b.tau == a.tau
    &&& b.t_0 == a.t_0
    &&& b.x_0@ == a.x_0@
    &&& b.h == a.h
    &&& b.n == a.n
    &&& b.i_m == a.i_m
    &&& b.compute_megnos == a.compute_megnos
    &&& b.results.m@ == a.results.m@
    &&& b.results.m.dim() == a.results.m.dim()
    &&& b.results.megno@ == a.results.megno@
    &&& b.results.mean_megno@ == a.results.mean_megno@
}

impl<F: Float> Model<F> {
    /// Whether the acceleration evaluation of one leapfrog step of
    /// size `h` taken at time `t` is defined.
    pub open spec fn leapfrog_step_ok_spec(self, t: F, h: F) -> bool {
        self.radius_ok_spec(t.add_spec(h))
    }

    /// The position, velocity and acceleration after one leapfrog step
    /// of size `h` taken at time `t` from `(z, z_v)` with the carried
    /// acceleration `a_prev`.
    pub open spec fn leapfrog_step_spec(self, t: F, z: F, z_v: F, h: F, a_prev: F) -> (F, F, F) {
        let half = F::from_ratio_spec(1, 2);
        let z_new = z.add_spec(z_v.mul_spec(h)).add_spec(
            half.mul_spec(a_prev).mul_spec(h.mul_spec(h)),
        );
        let a = self.acceleration_spec(t.add_spec(h), z_new);
        let z_v_new = z_v.add_spec(half.mul_spec(a_prev.add_spec(a)).mul_spec(h));
        (z_new, z_v_new, a)
    }

    /// Do a one-step integration using the leapfrog method: return the
    /// new position and velocity of the third body, and the
    /// acceleration at the new position (to be carried into the next
    /// step).
    pub fn leapfrog_step(&self, t: F, z: F, z_v: F, h: F, a_prev: F) -> (r: Result<
        (F, F, F),
        Error<F>,
    >)
        ensures
            r is Ok <==> self.leapfrog_step_ok_spec(t, h),
            (r matches Ok(p) ==> p == self.leapfrog_step_spec(t, z, z_v, h, a_prev)),
            (r matches Err(e) ==> e is ConvergenceFailure),
    {
        let half = F::from_ratio(1, 2);
        let z_new = z.add(z_v.mul(h)).add(half.mul(a_prev).mul(h.mul(h)));
        let a = match self.acceleration(t.add(h), z_new) {
            Ok(a) => a,
            Err(e) => {
                return Err(e);
            },
        };
        let z_v_new = z_v.add(half.mul(a_prev.add(a)).mul(h));
        Ok((z_new, z_v_new, a))
    }

    /// Integrate the equations of motion using the leapfrog method,
    /// storing the visited states in `results.x`.
    pub fn leapfrog(&mut self) -> (r: Result<(), Error<F>>)
        requires
            old(self).x_0@.len() % 2 == 0,
            old(self).n < usize::MAX,
            old(self).x_0@.len() * (old(self).n + 1) <= usize::MAX,
        ensures
            unchanged_but_results_x(*old(self), *final(self)),
            (r is Ok <==> lf_ok_spec(
                old(self),
                old(self).x_0@,
                old(self).t_0,
                old(self).h,
                old(self).n as int,
            )),
            r is Ok ==> final(self).results.x@.len() == old(self).n + 1 && final(self).results.x.dim() == old(self).x_0@.len() && (forall|c: int|
                0 <= c <= old(self).n ==> #[trigger] final(self).results.x@[c] == lf_traj_spec(
                    old(self),
                    old(self).x_0@,
                    old(self).t_0,
                    old(self).h,
                    c,
                ).0),
            r is Err ==> final(self).results.x@ == old(self).results.x@ && final(self).results.x.dim() == old(self).results.x.dim(),
    {
        let m = match symplectic::integrate(
            &*self,
            &self.x_0,
            self.t_0,
            self.h,
            self.n,
            symplectic::Integrators::Leapfrog,
        ) {
            Ok(m) => m,
            Err(e) => {
                return Err(e);
            },
        };
        self.results.x = m;
        Ok(())
    }

    /// Integrate the equations of motion using the 4th-order Yoshida
    /// method, storing the visited states in `results.x`.
    pub fn yoshida_4th(&mut self) -> (r: Result<(), Error<F>>)
        requires
            old(self).x_0@.len() % 2 == 0,
            old(self).n < usize::MAX,
            old(self).x_0@.len() * (old(self).n + 1) <= usize::MAX,
        ensures
            unchanged_but_results_x(*old(self), *final(self)),
            (r is Ok <==> yoshida_ok_spec(
                old(self),
                old(self).x_0@,
                old(self).t_0,
                old(self).h,
                old(self).n as int,
            )),
            r is Ok ==> final(self).results.x@.len() == old(self).n + 1 && final(self).results.x.dim() == old(self).x_0@.len() && (forall|c: int|
                0 <= c <= old(self).n ==> #[trigger] final(self).results.x@[c] == yoshida_traj_spec(
                    old(self),
                    old(self).x_0@,
                    old(self).t_0,
                    old(self).h,
                    c,
                ).0),
            r is Err ==> final(self).results.x@ == old(self).results.x@ && final(self).results.x.dim() == old(self).results.x.dim(),
    {
        let m = match symplectic::integrate(
            &*self,
            &self.x_0,
            self.t_0,
            self.h,
            self.n,
            symplectic::Integrators::Yoshida4th,
        ) {
            Ok(m) => m,
            Err(e) => {
                return Err(e);
            },
        };
        self.results.x = m;
        Ok(())
    }

    /// Integrate the equations of motion using the second formulation
    /// of the 4th-order Yoshida method, storing the visited states in
    /// `results.x` and returning the final position and velocity of
    /// the third body.
    pub fn yoshida_4th_2(&mut self) -> (r: Result<(F, F), Error<F>>)
        requires
            old(self).x_0@.len() % 2 == 0,
            old(self).x_0@.len() >= 2,
            old(self).n < usize::MAX,
            old(self).x_0@.len() * (old(self).n + 1) <= usize::MAX,
        ensures
            unchanged_but_results_x(*old(self), *final(self)),
            (r is Ok <==> ys2_ok_spec(
                old(self),
                old(self).x_0@,
                old(self).t_0,
                old(self).h,
                old(self).n as int,
            )),
            (r matches Ok(p) ==> final(self).results.x@.len() == old(self).n + 1 && final(self).results.x.dim() == old(self).x_0@.len() && (forall|c: int|
                0 <= c <= old(self).n ==> #[trigger] final(self).results.x@[c] == ys2_traj_spec(
                    old(self),
                    old(self).x_0@,
                    old(self).t_0,
                    old(self).h,
                    c,
                )) && p.0 == ys2_traj_spec(
                old(self),
                old(self).x_0@,
                old(self).t_0,
                old(self).h,
                old(self).n as int,
            )[0] && p.1 == ys2_traj_spec(
                old(self),
                old(self).x_0@,
                old(self).t_0,
                old(self).h,
                old(self).n as int,
            )[old(self).x_0@.len() as int / 2]),
            r is Err ==> final(self).results.x@ == old(self).results.x@ && final(self).results.x.dim() == old(self).results.x.dim(),
    {
        let mut m = prepare(&self.x_0, self.n);
        match symplectic::yoshida_4th_2(&*self, self.t_0, self.h, self.n, &mut m) {
            Ok(u) => u,
            Err(e) => {
                return Err(e);
            },
        }
        self.results.x = m;
        proof {
            crate::matrix::lemma_matrix_shape(&self.results.x);
        }
        let last = self.results.x.state(self.n);
        let k = last.len() / 2;
        let z = last[0];
        let z_v = last[k];
        Ok((z, z_v))
    }
}

impl<F: Float> Model<F> {
    /// Whether the three acceleration evaluations of one Runge-Kutta
    /// step of the equations of motion taken at time `t` are defined.
    pub open spec fn motion_rk4_step_ok_spec(self, t: F) -> bool {
        let two = F::from_ratio_spec(2, 1);
        &&& self.radius_ok_spec(t)
        &&& self.radius_ok_spec(t.add_spec(self.h.div_spec(two)))
        &&& self.radius_ok_spec(t.add_spec(self.h))
    }

    /// The position and velocity after one 4th-order Runge-Kutta step
    /// of the equations of motion taken at time `t` from `(z, z_v)`.
    pub open spec fn motion_rk4_step_spec(self, t: F, z: F, z_v: F) -> (F, F) {
        let two = F::from_ratio_spec(2, 1);
        let h = self.h;
        let k_z_1 = z_v;
        let k_z_v_1 = self.acceleration_spec(t, z);
        let k_z_2 = z_v.add_spec(h.mul_spec(k_z_v_1).div_spec(two));
        let k_z_v_2 = self.acceleration_spec(
            t.add_spec(h.div_spec(two)),
            z.add_spec(h.mul_spec(k_z_1).div_spec(two)),
        );
        let k_z_3 = z_v.add_spec(h.mul_spec(k_z_v_2).div_spec(two));
        let k_z_v_3 = self.acceleration_spec(
            t.add_spec(h.div_spec(two)),
            z.add_spec(h.mul_spec(k_z_2).div_spec(two)),
        );
        let k_z_4 = z_v.add_spec(h.mul_spec(k_z_v_3));
        let k_z_v_4 = self.acceleration_spec(t.add_spec(h), z.add_spec(h.mul_spec(k_z_3)));
        (
            crate::general::rk4_combine_spec(z, h, k_z_1, k_z_2, k_z_3, k_z_4),
            crate::general::rk4_combine_spec(z_v, h, k_z_v_1, k_z_v_2, k_z_v_3, k_z_v_4),
        )
    }

    /// The position and velocity after `i` Runge-Kutta steps of the
    /// equations of motion from the initial values.
    pub open spec fn motion_rk4_traj_spec(self, i: int) -> (F, F)
        decreases i,
    {
        if i <= 0 {
            (self.x_0@[0], self.x_0@[1])
        } else {
            let prev = self.motion_rk4_traj_spec(i - 1);
            self.motion_rk4_step_spec(time_spec(self.t_0, self.h, i - 1), prev.0, prev.1)
        }
    }

    /// Whether every acceleration evaluation of an `n`-step Runge-Kutta
    /// run of the equations of motion is defined.
    pub open spec fn motion_rk4_ok_spec(self) -> bool {
        forall|i: int|
            0 <= i < self.n ==> #[trigger] self.motion_rk4_step_ok_spec(
                time_spec(self.t_0, self.h, i),
            )
    }

    /// Do an integration of the equations of motion using the 4th-order
    /// Runge-Kutta method, storing the visited states in `results.x`.
    ///
    /// The general integrator advances the same scheme for any
    /// first-order system; this method spells it out for the
    /// second-order equations of motion alone, with the velocity as the
    /// derivative of the position.
    #[verifier::loop_isolation(false)]
    pub fn runge_kutta_4th(&mut self) -> (r: Result<(), Error<F>>)
        requires
            old(self).x_0@.len() == 2,
            old(self).n < usize::MAX,
            2 * (old(self).n + 1) <= usize::MAX,
        ensures
            unchanged_but_results_x(*old(self), *final(self)),
            (r is Ok <==> old(self).motion_rk4_ok_spec()),
            r is Ok ==> final(self).results.x@.len() == old(self).n + 1 && final(self).results.x.dim() == 2 && (forall|c: int|
                0 <= c <= old(self).n ==> #[trigger] final(self).results.x@[c] == seq![
                    old(self).motion_rk4_traj_spec(c).0,
                    old(self).motion_rk4_traj_spec(c).1,
                ]),
            r is Err ==> final(self).results.x@ == old(self).results.x@ && final(self).results.x.dim() == old(self).results.x.dim(),
            r matches Err(e) ==> (e matches Error::CallbackFailure { step, stage, source } && 1
                <= stage <= 4 && exists|i: int|
                0 <= i < old(self).n && step == i && !(#[trigger] old(
                    self,
                ).motion_rk4_step_ok_spec(time_spec(old(self).t_0, old(self).h, i))) && (forall|
                    j: int,
                |
                    0 <= j < i ==> #[trigger] old(self).motion_rk4_step_ok_spec(
                        time_spec(old(self).t_0, old(self).h, j),
                    ))),
    {
        let ghost pre = *self;
        let two = F::from_ratio(2, 1);
        // Prepare a result matrix
        let mut result = prepare(&self.x_0, self.n);
        // Get the initial values
        let mut z = self.x_0[0];
        let mut z_v = self.x_0[1];
        // Integrate
        let mut i: usize = 0;
        while i < self.n
            invariant
                *self == pre,
                i <= pre.n,
                (z, z_v) == pre.motion_rk4_traj_spec(i as int),
                result.dim() == 2,
                result@.len() == pre.n + 1,
                forall|c: int|
                    0 <= c <= i ==> #[trigger] result@[c] == seq![
                        pre.motion_rk4_traj_spec(c).0,
                        pre.motion_rk4_traj_spec(c).1,
                    ],
                forall|j: int|
                    0 <= j < i ==> #[trigger] pre.motion_rk4_step_ok_spec(
                        time_spec(pre.t_0, pre.h, j),
                    ),
            decreases pre.n - i,
        {
            // Compute the time moment
            let t = self.t_0.add(F::from_usize(i).mul(self.h));
            // Compute the increments
            let k_z_1 = z_v;
            let k_z_v_1 = match self.acceleration(t, z) {
                Ok(a) => a,
                Err(e) => {
                    proof {
                        assert(!pre.motion_rk4_step_ok_spec(time_spec(pre.t_0, pre.h, i as int)));
                    }
                    return Err(
                        Error::CallbackFailure { step: i, stage: 1, source: Box::new(e) },
                    );
                },
            };
            let k_z_2 = z_v.add(self.h.mul(k_z_v_1).div(two));
            let k_z_v_2 = match self.acceleration(
                t.add(self.h.div(two)),
                z.add(self.h.mul(k_z_1).div(two)),
            ) {
                Ok(a) => a,
                Err(e) => {
                    proof {
                        assert(!pre.motion_rk4_step_ok_spec(time_spec(pre.t_0, pre.h, i as int)));
                    }
                    return Err(
                        Error::CallbackFailure { step: i, stage: 2, source: Box::new(e) },
                    );
                },
            };
            let k_z_3 = z_v.add(self.h.mul(k_z_v_2).div(two));
            let k_z_v_3 = match self.acceleration(
                t.add(self.h.div(two)),
                z.add(self.h.mul(k_z_2).div(two)),
            ) {
                Ok(a) => a,
                Err(e) => {
                    proof {
                        assert(!pre.motion_rk4_step_ok_spec(time_spec(pre.t_0, pre.h, i as int)));
                    }
                    return Err(
                        Error::CallbackFailure { step: i, stage: 3, source: Box::new(e) },
                    );
                },
            };
            let k_z_4 = z_v.add(self.h.mul(k_z_v_3));
            let k_z_v_4 = match self.acceleration(t.add(self.h), z.add(self.h.mul(k_z_3))) {
                Ok(a) => a,
                Err(e) => {
                    proof {
                        assert(!pre.motion_rk4_step_ok_spec(time_spec(pre.t_0, pre.h, i as int)));
                    }
                    return Err(
                        Error::CallbackFailure { step: i, stage: 4, source: Box::new(e) },
                    );
                },
            };
            // Compute the results
            let six = F::from_ratio(6, 1);
            z = z.add(
                self.h.div(six).mul(
                    k_z_1.add(two.mul(k_z_2)).add(two.mul(k_z_3)).add(k_z_4),
                ),
            );
            z_v = z_v.add(
                self.h.div(six).mul(
                    k_z_v_1.add(two.mul(k_z_v_2)).add(two.mul(k_z_v_3)).add(k_z_v_4),
                ),
            );
            // Put the new state in the result
            let mut state: Vec<F> = Vec::new();
            state.push(z);
            state.push(z_v);
            proof {
                assert(state@ =~= seq![
                    pre.motion_rk4_traj_spec(i + 1).0,
                    pre.motion_rk4_traj_spec(i + 1).1,
                ]);
            }
            result.set_state(i + 1, state);
            i = i + 1;
        }
        self.results.x = result;
        Ok(())
    }

    /// The state the motion integration of the MEGNO computation
    /// starts from: the primary initial position and velocity
    /// interleaved with their perturbed shadow values.
    pub open spec fn megno_motion_start_spec(self, zt: F, zvt: F) -> Seq<F> {
        seq![self.x_0@[0], zt, self.x_0@[1], zvt]
    }

    /// The time at which the combined motion and MEGNO system takes
    /// over: `i_m` steps past the origin.
    pub open spec fn megno_t0m_spec(self) -> F {
        time_spec(self.t_0, self.h, self.i_m as int)
    }

    /// The state the combined motion and MEGNO system starts from: the
    /// positions and velocities reached after `i_m` steps, with both
    /// running integrals at zero.
    pub open spec fn megno_rk4_start_spec(self, zt: F, zvt: F) -> Seq<F> {
        let s = yoshida_traj_spec(
            &self,
            self.megno_motion_start_spec(zt, zvt),
            self.t_0,
            self.h,
            self.i_m as int,
        ).0;
        seq![s[0], s[1], s[2], s[3], F::from_ratio_spec(0, 1), F::from_ratio_spec(0, 1)]
    }

    /// Whether the whole MEGNO integration, for the given perturbed
    /// initial values, runs to completion.
    pub open spec fn integrate_megnos_ok_spec(self, zt: F, zvt: F) -> bool {
        &&& yoshida_ok_spec(
            &self,
            self.megno_motion_start_spec(zt, zvt),
            self.t_0,
            self.h,
            self.i_m as int,
        )
        &&& rk4_ok_spec(
            &self,
            self.megno_rk4_start_spec(zt, zvt),
            self.megno_t0m_spec(),
            self.h,
            self.n - self.i_m,
        )
    }

    /// Column `c` of the combined system's result before the final
    /// scaling.
    pub open spec fn megno_m_raw_spec(self, zt: F, zvt: F, c: int) -> Seq<F> {
        rk4_trajectory_spec(
            &self,
            self.megno_rk4_start_spec(zt, zvt),
            self.megno_t0m_spec(),
            self.h,
            c,
        )
    }

    /// Column `c` of the combined system's result after the final
    /// scaling: the MEGNO row is `2 I / t` and the mean-MEGNO row is
    /// `I~ / t` for the raw integrals `I`, `I~`.
    pub open spec fn megno_m_col_spec(self, zt: F, zvt: F, c: int) -> Seq<F> {
        let raw = self.megno_m_raw_spec(zt, zvt, c);
        let t = time_spec(self.t_0, self.h, c + self.i_m);
        raw.update(4, F::from_ratio_spec(2, 1).mul_spec(raw[4]).div_spec(t)).update(
            5,
            raw[5].div_spec(t),
        )
    }
}

/// How a finished MEGNO integration relates the model before the call
/// (`pre`) to the model after it (`post`), given the perturbed initial
/// values `zt`, `zvt` and whether the call succeeded.
pub open spec fn megno_outcome_spec<F: Float>(
    pre: Model<F>,
    post: Model<F>,
    ok: bool,
    zt: F,
    zvt: F,
) -> bool {
    let n_m = pre.n - pre.i_m;
    let sh_ok = yoshida_ok_spec(
        &pre,
        pre.megno_motion_start_spec(zt, zvt),
        pre.t_0,
        pre.h,
        pre.i_m as int,
    );
    &&& (ok <==> pre.integrate_megnos_ok_spec(zt, zvt))
    &&& post.e == pre.e
    &&& post.tau == pre.tau
    &&& post.t_0 == pre.t_0
    &&& post.x_0@ == pre.x_0@
    &&& post.h == pre.h
    &&& post.n == pre.n
    &&& post.i_m == pre.i_m
    &&& post.compute_megnos == pre.compute_megnos
    &&& post.results.megno@ == pre.results.megno@
    &&& post.results.mean_megno@ == pre.results.mean_megno@
    &&& (ok ==> post.results.x@.len() == pre.i_m + 1 && post.results.x.dim() == 4 && (forall|
        c: int,
    |
        0 <= c <= pre.i_m ==> #[trigger] post.results.x@[c] == yoshida_traj_spec(
            &pre,
            pre.megno_motion_start_spec(zt, zvt),
            pre.t_0,
            pre.h,
            c,
        ).0) && post.results.m@.len() == n_m + 1 && post.results.m.dim() == 6 && (forall|c: int|
        0 <= c <= n_m ==> #[trigger] post.results.m@[c] == pre.megno_m_col_spec(zt, zvt, c)))
    &&& (!sh_ok ==> post.results.x@ == pre.results.x@ && post.results.x.dim()
        == pre.results.x.dim())
    &&& (!ok ==> post.results.m@ == pre.results.m@ && post.results.m.dim()
        == pre.results.m.dim())
}

impl<F: Float> Model<F> {
    /// Integrate the equations of motion and compute the MEGNO
    /// integrals, starting the shadow trajectory from the given
    /// perturbed initial position and velocity.
    ///
    /// The motion alone is first advanced `i_m` steps with the
    /// 4th-order Yoshida method, to stay clear of the MEGNO singularity
    /// at the time origin; the combined motion and MEGNO system is then
    /// advanced over the remaining steps with the 4th-order Runge-Kutta
    /// method, and the integral rows are scaled into the MEGNO and mean
    /// MEGNO.
    #[verifier::loop_isolation(false)]
    pub fn integrate_megnos_from(&mut self, z_0_tilda: F, z_v_0_tilda: F) -> (r: Result<
        (),
        Error<F>,
    >)
        requires
            old(self).x_0@.len() == 2,
            old(self).i_m <= old(self).n,
            old(self).n < usize::MAX,
            4 * (old(self).i_m + 1) <= usize::MAX,
            6 * (old(self).n - old(self).i_m + 1) <= usize::MAX,
        ensures
            megno_outcome_spec(*old(self), *final(self), r is Ok, z_0_tilda, z_v_0_tilda),
    {
        let ghost pre = *self;
        // Interleave the primary and the displaced initial values
        let mut x4: Vec<F> = Vec::new();
        x4.push(self.x_0[0]);
        x4.push(z_0_tilda);
        x4.push(self.x_0[1]);
        x4.push(z_v_0_tilda);
        proof {
            assert(x4@ =~= pre.megno_motion_start_spec(z_0_tilda, z_v_0_tilda));
        }
        // Integrate the equations of motion using the 4th-order
        // Yoshida method (`i_m` iterations)
        let mx = match symplectic::integrate(
            &*self,
            &x4,
            self.t_0,
            self.h,
            self.i_m,
            symplectic::Integrators::Yoshida4th,
        ) {
            Ok(m) => m,
            Err(e) => {
                return Err(e);
            },
        };
        proof {
            lemma_matrix_shape(&mx);
        }
        // Get the `i_m`-th state of the system of the equations of motion
        let s = mx.state(self.i_m);
        // Compute the time moment
        let t_0m = self.t_0.add(F::from_usize(self.i_m).mul(self.h));
        // Compute the next number of iterations
        let n_m = self.n - self.i_m;
        // Compute the integrals in the MEGNO equations using the
        // 4th-order Runge-Kutta method (`n - i_m` iterations)
        let zero = F::from_ratio(0, 1);
        let mut x6: Vec<F> = Vec::new();
        x6.push(s[0]);
        x6.push(s[1]);
        x6.push(s[2]);
        x6.push(s[3]);
        x6.push(zero);
        x6.push(zero);
        proof {
            assert(x6@ =~= pre.megno_rk4_start_spec(z_0_tilda, z_v_0_tilda));
        }
        let mut mm = match general::integrate(
            &*self,
            &x6,
            t_0m,
            self.h,
            n_m,
            general::Integrators::RungeKutta4th,
        ) {
            Ok(m) => m,
            Err(e) => {
                self.results.x = mx;
                return Err(e);
            },
        };
        // Compute the MEGNOs from the raw integrals
        let mut i: usize = 0;
        while i <= n_m
            invariant
                *self == pre,
                i <= n_m + 1,
                mm@.len() == n_m + 1,
                mm.dim() == 6,
                forall|c: int|
                    0 <= c < i ==> #[trigger] mm@[c] == pre.megno_m_col_spec(
                        z_0_tilda,
                        z_v_0_tilda,
                        c,
                    ),
                forall|c: int|
                    i <= c <= n_m ==> #[trigger] mm@[c] == pre.megno_m_raw_spec(
                        z_0_tilda,
                        z_v_0_tilda,
                        c,
                    ),
            decreases n_m + 1 - i,
        {
            // Compute the time moment (from the original time origin)
            let t = self.t_0.add(F::from_usize(i + self.i_m).mul(self.h));
            // Compute the MEGNO
            let v4 = mm.get(4, i);
            mm.set(4, i, F::from_ratio(2, 1).mul(v4).div(t));
            // Compute the mean MEGNO
            let v5 = mm.get(5, i);
            mm.set(5, i, v5.div(t));
            proof {
                crate::general::lemma_rk4_trajectory_len(
                    &pre,
                    pre.megno_rk4_start_spec(z_0_tilda, z_v_0_tilda),
                    pre.megno_t0m_spec(),
                    pre.h,
                    i as int,
                );
                assert(mm@[i as int] =~= pre.megno_m_col_spec(z_0_tilda, z_v_0_tilda, i as int));
            }
            i = i + 1;
        }
        self.results.x = mx;
        self.results.m = mm;
        Ok(())
    }

    /// Integrate the equations of motion and (optionally) compute
    /// MEGNOs.
    ///
    /// Without MEGNOs the motion is advanced with the 4th-order Yoshida
    /// method. With MEGNOs a shadow trajectory is started from
    /// normally-perturbed initial values drawn from a fixed-seed
    /// generator, so that repeated runs under identical parameters give
    /// identical results.
    pub fn integrate(&mut self) -> (r: Result<(), Error<F>>)
        requires
            old(self).n < usize::MAX,
            old(self).compute_megnos ==> old(self).x_0@.len() == 2 && old(self).i_m <= old(self).n
                && 4 * (old(self).i_m + 1) <= usize::MAX && 6 * (old(self).n - old(self).i_m + 1)
                <= usize::MAX,
            !old(self).compute_megnos ==> old(self).x_0@.len() % 2 == 0 && old(self).x_0@.len() * (
            old(self).n + 1) <= usize::MAX,
        ensures
            old(self).compute_megnos ==> (exists|zt: F, zvt: F|
                #[trigger] megno_outcome_spec(*old(self), *final(self), r is Ok, zt, zvt)),
            !old(self).compute_megnos ==> unchanged_but_results_x(*old(self), *final(self)) && (r
                is Ok <==> yoshida_ok_spec(
                old(self),
                old(self).x_0@,
                old(self).t_0,
                old(self).h,
                old(self).n as int,
            )) && (r is Ok ==> final(self).results.x@.len() == old(self).n + 1 && final(self).results.x.dim() == old(self).x_0@.len() && (forall|c: int|
                0 <= c <= old(self).n ==> #[trigger] final(self).results.x@[c] == yoshida_traj_spec(
                    old(self),
                    old(self).x_0@,
                    old(self).t_0,
                    old(self).h,
                    c,
                ).0)) && (r is Err ==> final(self).results.x@ == old(self).results.x@ && final(self).results.x.dim() == old(self).results.x.dim()),
    {
        // If a user wants to compute MEGNOs
        if self.compute_megnos {
            // Prepare a random number generator with a fixed seed
            let mut rng = seed_rng(1);
            // Variate (displace) the initial values
            let z_0_tilda = self.x_0[0].variate(&mut rng);
            let z_v_0_tilda = self.x_0[1].variate(&mut rng);
            // Integrate the equations of motion and the MEGNO equations
            self.integrate_megnos_from(z_0_tilda, z_v_0_tilda)
            // Otherwise,
        } else {
            // Integrate the equations of motion using the 4th-order
            // Yoshida method
            self.yoshida_4th()
        }
    }
}

impl<F: Float> Model<F> {
    /// The integrand of the MEGNO expression at time `t`, for the
    /// primary position `z` and the components `dis_z`, `dis_z_v` of
    /// the displacement between the primary and shadow trajectories:
    /// the projection of the displacement onto the linearized flow,
    /// scaled by `t`.
    pub open spec fn integrand_spec(self, t: F, z: F, dis_z: F, dis_z_v: F) -> F {
        let dis_norm = dis_z.mul_spec(dis_z).add_spec(dis_z_v.mul_spec(dis_z_v)).sqrt_spec();
        let r = self.radius_spec(t);
        let tan_z = dis_z.mul_spec(
            F::from_ratio_spec(2, 1).mul_spec(z.mul_spec(z)).sub_spec(r.mul_spec(r)),
        ).div_spec(r.mul_spec(r).add_spec(z.mul_spec(z)).powf_spec(F::from_ratio_spec(5, 2)));
        let tan_z_v = dis_z_v;
        let tan_norm = tan_z.mul_spec(dis_z).add_spec(tan_z_v.mul_spec(dis_z_v)).div_spec(
            dis_norm,
        );
        tan_norm.div_spec(dis_norm).mul_spec(t)
    }

    /// Compute the integrand from the MEGNO expression.
    pub fn integrand(&self, t: F, z: F, dis_z: F, dis_z_v: F) -> (r: Result<F, Error<F>>)
        ensures
            r is Ok <==> self.radius_ok_spec(t),
            (r matches Ok(v) ==> v == self.integrand_spec(t, z, dis_z, dis_z_v)),
            (r matches Err(e) ==> e is ConvergenceFailure),
    {
        // Compute the norm of the infinitesimal displacement
        let dis_norm = dis_z.mul(dis_z).add(dis_z_v.mul(dis_z_v)).sqrt();
        // Compute the radius
        let rad = match self.radius(t) {
            Ok(v) => v,
            Err(e) => {
                return Err(e);
            },
        };
        // Compute the elements of the tangent vector
        let tan_z = dis_z.mul(F::from_ratio(2, 1).mul(z.mul(z)).sub(rad.mul(rad))).div(
            rad.mul(rad).add(z.mul(z)).powf(F::from_ratio(5, 2)),
        );
        let tan_z_v = dis_z_v;
        // Compute the norm of the tangent vector
        let tan_norm = tan_z.mul(dis_z).add(tan_z_v.mul(dis_z_v)).div(dis_norm);
        Ok(tan_norm.div(dis_norm).mul(t))
    }

    /// The incremental trapezoidal-rule update of a running integral:
    /// the first step adds the full trapezoid, a later step `i`
    /// rescales the running integral by `(i - 1) / i` while folding the
    /// two newest integrand values in.
    pub open spec fn trapezoidal_spec(self, i: int, integral: F, integrand_prev: F, integrand: F) -> F {
        let two = F::from_ratio_spec(2, 1);
        if i == 1 {
            integral.add_spec(self.h.mul_spec(integrand_prev.add_spec(integrand)).div_spec(two))
        } else {
            let i_f = F::from_usize_spec(i as usize);
            let one = F::from_ratio_spec(1, 1);
            integral.add_spec(
                self.h.mul_spec(integrand_prev).div_spec(two).div_spec(i_f.sub_spec(one)),
            ).mul_spec(i_f.sub_spec(one)).div_spec(i_f).add_spec(
                self.h.mul_spec(integrand).div_spec(two).div_spec(i_f),
            )
        }
    }

    /// Compute the integral (incrementally), using the trapezoidal rule.
    pub fn trapezoidal(&self, i: usize, integral: F, integrand_prev: F, integrand: F) -> (r: F)
        ensures
            r == self.trapezoidal_spec(i as int, integral, integrand_prev, integrand),
    {
        let two = F::from_ratio(2, 1);
        if i == 1 {
            integral.add(self.h.mul(integrand_prev.add(integrand)).div(two))
        } else {
            let i_f = F::from_usize(i);
            let one = F::from_ratio(1, 1);
            integral.add(self.h.mul(integrand_prev).div(two).div(i_f.sub(one))).mul(
                i_f.sub(one),
            ).div(i_f).add(self.h.mul(integrand).div(two).div(i_f))
        }
    }

    /// The MEGNO integrand of step `i` over the primary position series
    /// `z` and the displacement series `dz`, `dzv`; step `0` stands for
    /// the zero value the accumulation starts from.
    pub open spec fn megno_integrand_at_spec(self, z: Seq<F>, dz: Seq<F>, dzv: Seq<F>, i: int) -> F {
        if i == 0 {
            F::from_ratio_spec(0, 1)
        } else {
            self.integrand_spec(time_spec(self.t_0, self.h, i), z[i], dz[i], dzv[i])
        }
    }

    /// The running MEGNO integral after step `i`.
    pub open spec fn megno_integral_spec(self, z: Seq<F>, dz: Seq<F>, dzv: Seq<F>, i: int) -> F
        decreases i,
    {
        if i <= 0 {
            F::from_ratio_spec(0, 1)
        } else {
            self.trapezoidal_spec(
                i,
                self.megno_integral_spec(z, dz, dzv, i - 1),
                self.megno_integrand_at_spec(z, dz, dzv, i - 1),
                self.megno_integrand_at_spec(z, dz, dzv, i),
            )
        }
    }

    /// The MEGNO of step `i`: `2 / t` times the running integral.
    pub open spec fn megno_at_spec(self, z: Seq<F>, dz: Seq<F>, dzv: Seq<F>, i: int) -> F {
        F::from_ratio_spec(2, 1).div_spec(time_spec(self.t_0, self.h, i)).mul_spec(
            self.megno_integral_spec(z, dz, dzv, i),
        )
    }

    /// The running mean-MEGNO integral after step `i`: it accumulates
    /// the MEGNO series itself, folding in the newest MEGNO value.
    pub open spec fn mean_megno_integral_spec(self, z: Seq<F>, dz: Seq<F>, dzv: Seq<F>, i: int) -> F
        decreases i,
    {
        if i <= 0 {
            F::from_ratio_spec(0, 1)
        } else {
            self.trapezoidal_spec(
                i,
                self.mean_megno_integral_spec(z, dz, dzv, i - 1),
                self.megno_at_spec(z, dz, dzv, i),
                self.megno_at_spec(z, dz, dzv, i),
            )
        }
    }

    /// The mean MEGNO of step `i`: `1 / t` times the running
    /// mean-MEGNO integral.
    pub open spec fn mean_megno_at_spec(self, z: Seq<F>, dz: Seq<F>, dzv: Seq<F>, i: int) -> F {
        F::from_ratio_spec(1, 1).div_spec(time_spec(self.t_0, self.h, i)).mul_spec(
            self.mean_megno_integral_spec(z, dz, dzv, i),
        )
    }
}

/// How a finished trapezoidal MEGNO accumulation relates the model
/// before the call (`pre`) to the model after it (`post`), given the
/// perturbed initial values `zt`, `zvt` and whether the call
/// succeeded.
pub open spec fn compute_megnos_outcome_spec<F: Float>(
    pre: Model<F>,
    post: Model<F>,
    ok: bool,
    zt: F,
    zvt: F,
) -> bool {
    let n = pre.n as int;
    let start = seq![zt, zvt];
    let sh_ok = yoshida_ok_spec(&pre, start, pre.t_0, pre.h, n);
    let z = Seq::new((n + 1) as nat, |c: int| pre.results.x@[c][0]);
    let zv = Seq::new((n + 1) as nat, |c: int| pre.results.x@[c][1]);
    let dz = Seq::new(
        (n + 1) as nat,
        |c: int|
            yoshida_traj_spec(&pre, start, pre.t_0, pre.h, c).0[0].sub_spec(z[c]).abs_spec(),
    );
    let dzv = Seq::new(
        (n + 1) as nat,
        |c: int|
            yoshida_traj_spec(&pre, start, pre.t_0, pre.h, c).0[1].sub_spec(zv[c]).abs_spec(),
    );
    let acc_ok = forall|i: int|
        1 <= i <= n ==> #[trigger] pre.radius_ok_spec(time_spec(pre.t_0, pre.h, i));
    &&& (ok <==> sh_ok && acc_ok)
    &&& (!ok ==> post == pre)
    &&& (ok ==> {
        &&& post.e == pre.e
        &&& post.tau == pre.tau
        &&& post.t_0 == pre.t_0
        &&& post.x_0@ == pre.x_0@
        &&& post.h == pre.h
        &&& post.n == pre.n
        &&& post.i_m == pre.i_m
        &&& post.compute_megnos == pre.compute_megnos
        &&& post.results.x@ == pre.results.x@
        &&& post.results.x.dim() == pre.results.x.dim()
        &&& post.results.m@ == pre.results.m@
        &&& post.results.m.dim() == pre.results.m.dim()
        &&& post.results.megno@ == Seq::new(
            pre.n as nat,
            |j: int| pre.megno_at_spec(z, dz, dzv, j + 1),
        )
        &&& post.results.mean_megno@ == Seq::new(
            pre.n as nat,
            |j: int| pre.mean_megno_at_spec(z, dz, dzv, j + 1),
        )
    })
}

impl<F: Float> Model<F> {
    /// Accumulate the MEGNO and mean-MEGNO series by the incremental
    /// trapezoidal rule, from the primary position series and the
    /// displacement series between the primary and shadow trajectories.
    #[verifier::loop_isolation(false)]
    fn accumulate_megnos(&self, z_res: &Vec<F>, z_delta: &Vec<F>, z_v_delta: &Vec<F>) -> (r:
        Result<(Vec<F>, Vec<F>), Error<F>>)
        requires
            self.n < usize::MAX,
            z_res@.len() == self.n + 1,
            z_delta@.len() == self.n + 1,
            z_v_delta@.len() == self.n + 1,
        ensures
            (r is Ok <==> forall|i: int|
                1 <= i <= self.n ==> #[trigger] self.radius_ok_spec(time_spec(self.t_0, self.h, i))),
            (r matches Ok(p) ==> p.0@ == Seq::new(
                self.n as nat,
                |j: int| self.megno_at_spec(z_res@, z_delta@, z_v_delta@, j + 1),
            ) && p.1@ == Seq::new(
                self.n as nat,
                |j: int| self.mean_megno_at_spec(z_res@, z_delta@, z_v_delta@, j + 1),
            )),
            (r matches Err(e) ==> e is ConvergenceFailure),
    {
        let ghost z = z_res@;
        let ghost dz = z_delta@;
        let ghost dzv = z_v_delta@;
        // Put initial values to the integrals and to the previous
        // evaluation of the integrand
        let zero = F::from_ratio(0, 1);
        let mut megno_vec: Vec<F> = Vec::new();
        let mut mean_vec: Vec<F> = Vec::new();
        let mut megno_integral = zero;
        let mut mean_megno_integral = zero;
        let mut integrand_prev = zero;
        // Compute
        let mut i: usize = 1;
        while i <= self.n
            invariant
                1 <= i <= self.n + 1,
                megno_vec@.len() == i - 1,
                mean_vec@.len() == i - 1,
                forall|j: int|
                    0 <= j < i - 1 ==> #[trigger] megno_vec@[j] == self.megno_at_spec(
                        z,
                        dz,
                        dzv,
                        j + 1,
                    ),
                forall|j: int|
                    0 <= j < i - 1 ==> #[trigger] mean_vec@[j] == self.mean_megno_at_spec(
                        z,
                        dz,
                        dzv,
                        j + 1,
                    ),
                megno_integral == self.megno_integral_spec(z, dz, dzv, i - 1),
                mean_megno_integral == self.mean_megno_integral_spec(z, dz, dzv, i - 1),
                integrand_prev == self.megno_integrand_at_spec(z, dz, dzv, i - 1),
                forall|j: int|
                    1 <= j < i ==> #[trigger] self.radius_ok_spec(time_spec(self.t_0, self.h, j)),
            decreases self.n + 1 - i,
        {
            // Compute the time moment
            let t = self.t_0.add(F::from_usize(i).mul(self.h));
            // Get the result value of position
            let zz = z_res[i];
            // Get the delta values of position and velocity
            let dis_z = z_delta[i];
            let dis_z_v = z_v_delta[i];
            // Compute the new integrand
            let integrand = match self.integrand(t, zz, dis_z, dis_z_v) {
                Ok(v) => v,
                Err(e) => {
                    proof {
                        assert(!self.radius_ok_spec(time_spec(self.t_0, self.h, i as int)));
                    }
                    return Err(e);
                },
            };
            proof {
                assert(integrand == self.megno_integrand_at_spec(z, dz, dzv, i as int));
            }
            // Compute the integral for MEGNO, using the trapezoidal rule
            megno_integral = self.trapezoidal(i, megno_integral, integrand_prev, integrand);
            // Compute the MEGNO
            let megno = F::from_ratio(2, 1).div(t).mul(megno_integral);
            megno_vec.push(megno);
            // Compute the integral for mean MEGNO, using the
            // trapezoidal rule over the MEGNO series itself
            let prev_megno = megno_vec[i - 1];
            mean_megno_integral = self.trapezoidal(i, mean_megno_integral, prev_megno, megno);
            // Compute the mean MEGNO
            let mean_megno = F::from_ratio(1, 1).div(t).mul(mean_megno_integral);
            mean_vec.push(mean_megno);
            // Update the previous values
            integrand_prev = integrand;
            i = i + 1;
        }
        proof {
            assert(megno_vec@ =~= Seq::new(
                self.n as nat,
                |j: int| self.megno_at_spec(z, dz, dzv, j + 1),
            ));
            assert(mean_vec@ =~= Seq::new(
                self.n as nat,
                |j: int| self.mean_megno_at_spec(z, dz, dzv, j + 1),
            ));
        }
        Ok((megno_vec, mean_vec))
    }

    /// Compute the Mean Exponential Growth factors of Nearby Orbits
    /// (MEGNOs) by the incremental trapezoidal rule, after the primary
    /// trajectory has been integrated into `results.x`.
    ///
    /// A shadow trajectory is integrated with the 4th-order Yoshida
    /// method from normally-perturbed initial values drawn from a
    /// fixed-seed generator; the two running integrals are then
    /// accumulated step by step from the displacement between the two
    /// trajectories, and the MEGNO and mean-MEGNO series are stored in
    /// `results.megno` and `results.mean_megno`.
    #[verifier::loop_isolation(false)]
    #[verifier::rlimit(100)]
    pub fn compute_megnos(&mut self) -> (r: Result<(), Error<F>>)
        requires
            old(self).x_0@.len() == 2,
            old(self).results.x@.len() == old(self).n + 1,
            old(self).results.x.dim() == 2,
            old(self).n < usize::MAX,
            2 * (old(self).n + 1) <= usize::MAX,
        ensures
            r is Ok ==> (exists|zt: F, zvt: F|
                #[trigger] compute_megnos_outcome_spec(*old(self), *final(self), true, zt, zvt)),
            r is Err ==> (exists|zt: F, zvt: F|
                #[trigger] compute_megnos_outcome_spec(*old(self), *final(self), false, zt, zvt)),
    {
        let ghost pre = *self;
        // Prepare a random number generator with a fixed seed
        let mut rng = seed_rng(1);
        // Variate (displace) the initial values
        let z_0_tilda = self.x_0[0].variate(&mut rng);
        let z_v_0_tilda = self.x_0[1].variate(&mut rng);
        let ghost start = seq![z_0_tilda, z_v_0_tilda];
        let ghost n = pre.n as int;
        let ghost z = Seq::new((n + 1) as nat, |c: int| pre.results.x@[c][0]);
        let ghost zv = Seq::new((n + 1) as nat, |c: int| pre.results.x@[c][1]);
        let ghost dz = Seq::new(
            (n + 1) as nat,
            |c: int|
                yoshida_traj_spec(&pre, start, pre.t_0, pre.h, c).0[0].sub_spec(z[c]).abs_spec(),
        );
        let ghost dzv = Seq::new(
            (n + 1) as nat,
            |c: int|
                yoshida_traj_spec(&pre, start, pre.t_0, pre.h, c).0[1].sub_spec(zv[c]).abs_spec(),
        );
        // Integrate the shadow trajectory
        let mut xs: Vec<F> = Vec::new();
        xs.push(z_0_tilda);
        xs.push(z_v_0_tilda);
        proof {
            assert(xs@ =~= start);
        }
        let shadow = match symplectic::integrate(
            &*self,
            &xs,
            self.t_0,
            self.h,
            self.n,
            symplectic::Integrators::Yoshida4th,
        ) {
            Ok(m) => m,
            Err(e) => {
                proof {
                    assert(compute_megnos_outcome_spec(
                        pre,
                        *self,
                        false,
                        z_0_tilda,
                        z_v_0_tilda,
                    ));
                }
                return Err(e);
            },
        };
        proof {
            lemma_matrix_shape(&shadow);
        }
        // Save the previous results
        let z_res = self.results.x.result(0);
        let z_v_res = self.results.x.result(1);
        proof {
            assert(z_res@ =~= z);
            assert(z_v_res@ =~= zv);
        }
        // Compute the differences in position and velocity
        let mut z_delta: Vec<F> = Vec::new();
        let mut z_v_delta: Vec<F> = Vec::new();
        let mut c: usize = 0;
        while c <= self.n
            invariant
                *self == pre,
                c <= pre.n + 1,
                shadow@.len() == pre.n + 1,
                shadow.dim() == 2,
                forall|cc: int|
                    0 <= cc <= n ==> #[trigger] shadow@[cc] == yoshida_traj_spec(
                        &pre,
                        start,
                        pre.t_0,
                        pre.h,
                        cc,
                    ).0,
                z_res@ == z,
                z_v_res@ == zv,
                z_delta@.len() == c,
                z_v_delta@.len() == c,
                forall|cc: int| 0 <= cc < c ==> z_delta@[cc] == dz[cc],
                forall|cc: int| 0 <= cc < c ==> z_v_delta@[cc] == dzv[cc],
            decreases pre.n + 1 - c,
        {
            z_delta.push(shadow.get(0, c).sub(z_res[c]).abs());
            z_v_delta.push(shadow.get(1, c).sub(z_v_res[c]).abs());
            c = c + 1;
        }
        // Accumulate the two series
        let (megno_vec, mean_vec) = match self.accumulate_megnos(&z_res, &z_delta, &z_v_delta) {
            Ok(p) => p,
            Err(e) => {
                proof {
                    assert(compute_megnos_outcome_spec(
                        pre,
                        *self,
                        false,
                        z_0_tilda,
                        z_v_0_tilda,
                    ));
                }
                return Err(e);
            },
        };
        // Store the result series
        self.results.megno = megno_vec;
        self.results.mean_megno = mean_vec;
        proof {
            assert(z_delta@ =~= dz);
            assert(z_v_delta@ =~= dzv);
            assert(compute_megnos_outcome_spec(pre, *self, true, z_0_tilda, z_v_0_tilda));
        }
        Ok(())
    }
}

} // verus!
