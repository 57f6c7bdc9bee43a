//! Tests of the integration core over 64-bit floating-point scalars.

use rand_distr::Distribution;
use sitnikov::general;
use sitnikov::matrix::{prepare, Ext, Matrix};
use sitnikov::model::Model;
use sitnikov::symplectic;
use sitnikov::Error;
use sitnikov::Float;
use sitnikov::Function;
use sitnikov::find_root_newton_raphson;

/// A 64-bit floating-point scalar.
#[derive(Clone, Copy, Debug, PartialEq)]
struct F64(f64);

impl Float for F64 {
    // The `..._spec` methods exist only for verification; nothing
    // calls them at run time.
    fn add_spec(self, _o: Self) -> Self {
        unreachable!()
    }

    fn sub_spec(self, _o: Self) -> Self {
        unreachable!()
    }

    fn mul_spec(self, _o: Self) -> Self {
        unreachable!()
    }

    fn div_spec(self, _o: Self) -> Self {
        unreachable!()
    }

    fn rem_spec(self, _o: Self) -> Self {
        unreachable!()
    }

    fn neg_spec(self) -> Self {
        unreachable!()
    }

    fn abs_spec(self) -> Self {
        unreachable!()
    }

    fn sqrt_spec(self) -> Self {
        unreachable!()
    }

    fn exp_spec(self) -> Self {
        unreachable!()
    }

    fn ln_spec(self) -> Self {
        unreachable!()
    }

    fn sin_spec(self) -> Self {
        unreachable!()
    }

    fn cos_spec(self) -> Self {
        unreachable!()
    }

    fn powf_spec(self, _p: Self) -> Self {
        unreachable!()
    }

    fn lt_spec(self, _o: Self) -> bool {
        unreachable!()
    }

    fn is_zero_spec(self) -> bool {
        unreachable!()
    }

    fn from_ratio_spec(_num: i64, _den: i64) -> Self {
        unreachable!()
    }

    fn from_usize_spec(_n: usize) -> Self {
        unreachable!()
    }

    fn pi_spec() -> Self {
        unreachable!()
    }

    fn epsilon_spec() -> Self {
        unreachable!()
    }

    fn round_to_usize_spec(self) -> Option<usize> {
        unreachable!()
    }

    fn add(self, o: Self) -> Self {
        F64(self.0 + o.0)
    }

    fn sub(self, o: Self) -> Self {
        F64(self.0 - o.0)
    }

    fn mul(self, o: Self) -> Self {
        F64(self.0 * o.0)
    }

    fn div(self, o: Self) -> Self {
        F64(self.0 / o.0)
    }

    fn rem(self, o: Self) -> Self {
        F64(self.0 % o.0)
    }

    fn neg(self) -> Self {
        F64(-self.0)
    }

    fn abs(self) -> Self {
        F64(self.0.abs())
    }

    fn sqrt(self) -> Self {
        F64(self.0.sqrt())
    }

    fn exp(self) -> Self {
        F64(self.0.exp())
    }

    fn ln(self) -> Self {
        F64(self.0.ln())
    }

    fn sin(self) -> Self {
        F64(self.0.sin())
    }

    fn cos(self) -> Self {
        F64(self.0.cos())
    }

    fn powf(self, p: Self) -> Self {
        F64(self.0.powf(p.0))
    }

    fn lt(self, o: Self) -> bool {
        self.0 < o.0
    }

    fn is_zero(self) -> bool {
        self.0 == 0.0
    }

    fn from_ratio(num: i64, den: i64) -> Self {
        F64(num as f64 / den as f64)
    }

    fn from_usize(n: usize) -> Self {
        F64(n as f64)
    }

    fn pi() -> Self {
        F64(std::f64::consts::PI)
    }

    fn epsilon() -> Self {
        F64(f64::EPSILON)
    }

    fn round_to_usize(self) -> Option<usize> {
        let r = self.0.round();
        if r >= 0.0 && r <= usize::MAX as f64 {
            Some(r as usize)
        } else {
            None
        }
    }

    fn variate(self, rng: &mut rand_xoshiro::Xoshiro256PlusPlus) -> Self {
        let normal = rand_distr::Normal::new(self.0, 1e-1)
            .expect("Couldn't construct a normal distribution");
        F64(normal.sample(rng))
    }
}

/// A test model with the eccentricity of the standard scenario.
fn test_model(e: f64) -> Model<F64> {
    let mut model = Model::<F64>::test();
    model.e = F64(e);
    model
}

#[test]
fn prepare_test() {
    // Prepare a matrix with initial data
    let x = vec![F64(1.), F64(2.), F64(3.), F64(4.), F64(5.)];
    let x_0 = x.clone();
    let result = prepare(&x, 0);

    // Check the first column of the matrix
    let x: Vec<F64> = result.initial_values();
    assert!(
        x == x_0,
        "The first column of the matrix is not the same as initial values"
    );
}

#[test]
fn test_acceleration() {
    // Initialize a test model
    let model = test_model(0.6);

    // Compute the acceleration
    let a = model
        .acceleration(F64(std::f64::consts::FRAC_PI_2), F64(1.0))
        .expect("Couldn't compute the acceleration");

    // Compare to the known result
    let a_0 = -0.227_182_975_639_198_54;
    assert!(
        (a.0 - a_0).abs() < f64::EPSILON,
        "The value of the acceleration is incorrect: {a_0} vs {a}",
        a = a.0
    );
}

#[test]
fn test_radius() {
    // Initialize a test model
    let model = test_model(0.6);

    // Compute the radius
    let r = model
        .radius(F64(std::f64::consts::FRAC_PI_2))
        .expect("Couldn't compute the radius");

    // Compare to the known result
    let r_0 = 1.298_405_381_130_942_2;
    assert!(
        (r.0 - r_0).abs() < f64::EPSILON,
        "The value of the radius is incorrect: {r_0} vs {r}",
        r = r.0
    );
}

#[test]
fn test_circular_case() {
    // Initialize a test model
    let model = Model::<F64>::test();

    // Compute the eccentric anomaly
    let e = model
        .eccentric_anomaly(F64(1.0))
        .expect("Couldn't compute the eccentric anomaly");

    // Compare to the known result
    assert!(
        (e.0 - 1.).abs() < f64::EPSILON,
        "The value of the eccentric anomaly is incorrect (radians): 1.0 vs. {e}",
        e = e.0
    );
}

#[test]
fn test_elliptic_case_small_e() {
    // Initialize a test model
    let model = test_model(0.00001);

    // Compute the eccentric anomaly
    let m = std::f64::consts::FRAC_PI_6;
    let e_a = model
        .eccentric_anomaly(F64(m))
        .expect("Couldn't compute the eccentric anomaly");

    // Compare to the known result
    let e_a_0 = 0.523_603_8;
    assert!(
        (e_a.0 - e_a_0).abs() < 1e-7,
        "The value of the eccentric anomaly is incorrect (radians): {e_a_0} vs. {e_a}",
        e_a = e_a.0
    );
}

#[test]
fn test_elliptic_case_moderate_e() {
    // Initialize a test model
    let model = test_model(0.6);

    // Compute the eccentric anomaly
    let m = std::f64::consts::FRAC_PI_2;
    let e_a = model
        .eccentric_anomaly(F64(m))
        .expect("Couldn't compute the eccentric anomaly")
        .0
        .to_degrees();

    // Compare to the known result
    let e_a_0 = 119.824_323_327_144_34;
    assert!(
        (e_a - e_a_0).abs() < f64::EPSILON,
        "The value of the eccentric anomaly is incorrect (degrees): {e_a_0} vs. {e_a}"
    );
}

#[test]
fn test_elliptic_case_big_e() {
    // Initialize a test model
    let model = test_model(0.9);

    // Compute the eccentric anomaly
    let m = 3. * std::f64::consts::FRAC_PI_2;
    let e_a = model
        .eccentric_anomaly(F64(m))
        .expect("Couldn't compute the eccentric anomaly")
        .0
        .to_degrees();

    // Compare to the known result
    let e_a_0 = 230.315_867_119_592_8;
    assert!(
        (e_a - e_a_0).abs() < f64::EPSILON,
        "The value of the eccentric anomaly is incorrect (degrees): {e_a_0} vs. {e_a}"
    );
}

/// The quadratic `x^2 + 3 x + 2`.
struct Quadratic;

impl Function<F64> for Quadratic {
    // Never called at run time
    fn eval_spec(&self, _x: F64) -> F64 {
        unreachable!()
    }

    fn eval(&self, x: F64) -> F64 {
        F64(x.0.powi(2) + 3. * x.0 + 2.)
    }
}

/// The derivative of the quadratic: `2 x + 3`.
struct QuadraticDerivative;

impl Function<F64> for QuadraticDerivative {
    // Never called at run time
    fn eval_spec(&self, _x: F64) -> F64 {
        unreachable!()
    }

    fn eval(&self, x: F64) -> F64 {
        F64(2. * x.0 + 3.)
    }
}

#[test]
fn test_find_roots() {
    // Define the functions
    let f = Quadratic;
    let d = QuadraticDerivative;

    // Find the roots
    let x_1 = find_root_newton_raphson(&f, &d, F64(-0.85)).expect("Couldn't find the first root");
    let x_2 = find_root_newton_raphson(&f, &d, F64(-2.15)).expect("Couldn't find the second root");

    // Compare to the known results
    assert!(
        (x_1.0 + 1.).abs() < f64::EPSILON * 10.,
        "The first root is incorrect: -1.0 vs. {x_1}",
        x_1 = x_1.0
    );
    assert!(
        (x_2.0 + 2.).abs() < f64::EPSILON * 10.,
        "The second root is incorrect: -2.0 vs. {x_2}",
        x_2 = x_2.0
    );
}

/// Read the final position and velocity of the third body.
fn last_state(model: &Model<F64>) -> (f64, f64) {
    let last = model.results.x.state(model.n);
    (last[0].0, last[1].0)
}

#[test]
fn test_time_reversibility() {
    // Initialize a test model
    let mut model = test_model(0.6);
    model.h = F64(1e-6);
    model.n = 1000;
    model.x_0 = vec![F64(1.0), F64(0.0)];

    // Save the initial values
    let z_0 = model.x_0[0].0;
    let z_v_0 = model.x_0[1].0;

    // Integrate forward
    model.leapfrog().expect("Couldn't integrate forward");

    // Change the direction of integration
    model.t_0 = F64(model.n as f64 * model.h.0);
    let (z, z_v) = last_state(&model);
    model.x_0 = vec![F64(z), F64(z_v)];
    model.h = F64(-model.h.0);

    // Integrate backward
    model.leapfrog().expect("Couldn't integrate backward");

    // Save the results
    let (z, z_v) = last_state(&model);

    // Compare the results with the initial values
    assert!(
        (z - z_0).abs() < model.h.0.powi(2),
        "The value of the position isn't the same: {z_0} vs. {z}"
    );
    assert!(
        (z_v - z_v_0).abs() < model.h.0.powi(2),
        "The value of the velocity isn't the same: {z_v_0} vs. {z_v}"
    );
}

#[test]
fn yoshida_4th_test_time_reversibility() {
    // Initialize a test model
    let mut model = test_model(0.6);
    model.h = F64(1e-3);
    model.n = 1000;
    model.x_0 = vec![F64(1.0), F64(0.0)];

    // Save the initial values
    let z_0 = model.x_0[0].0;
    let z_v_0 = model.x_0[1].0;

    // Integrate forward
    model.yoshida_4th().expect("Couldn't integrate forward");

    // Change the direction of integration
    model.t_0 = F64(model.n as f64 * model.h.0);
    let (z, z_v) = last_state(&model);
    model.x_0 = vec![F64(z), F64(z_v)];
    model.h = F64(-model.h.0);

    // Integrate backward
    model.yoshida_4th().expect("Couldn't integrate backward");

    // Save the results
    let (z, z_v) = last_state(&model);

    // Compare the results with the initial values
    assert!(
        (z - z_0).abs() < model.h.0.powi(4),
        "The value of the position isn't the same: {z_0} vs. {z}"
    );
    assert!(
        (z_v - z_v_0).abs() < model.h.0.powi(4),
        "The value of the velocity isn't the same: {z_v_0} vs. {z_v}"
    );
}

#[test]
fn compare_with_leapfrog() {
    // Initialize a test model
    let mut model = test_model(0.6);
    model.h = F64(1e-6);
    model.n = 1_000_000;
    model.x_0 = vec![F64(1.0), F64(0.0)];

    // Integrate using the leapfrog method
    model
        .leapfrog()
        .expect("Couldn't integrate with the leapfrog method");

    // Save the results
    let (z_1, z_v_1) = last_state(&model);

    // Change the parameters of the model
    model.h = F64(1e-3);
    model.n = 1000;

    // Integrate using the 4th-order Yoshida method
    model
        .yoshida_4th()
        .expect("Couldn't integrate with the 4th-order Yoshida method");

    // Save the results
    let (z_2, z_v_2) = last_state(&model);

    // Compare the results between implementations
    assert!(
        (z_1 - z_2).abs() < model.h.0.powi(4),
        "The value of the position isn't the same: {z_1} vs. {z_2}"
    );
    assert!(
        (z_v_1 - z_v_2).abs() < model.h.0.powi(4),
        "The value of the velocity isn't the same: {z_v_1} vs. {z_v_2}"
    );
}

#[test]
fn compare_implementations() {
    // Initialize a test model
    let mut model = test_model(0.6);
    model.h = F64(1e-3);
    model.n = 1000;
    model.x_0 = vec![F64(1.0), F64(0.0)];

    // Integrate using the first implementation
    model.yoshida_4th().expect("Couldn't integrate");

    // Save the results
    let (z_1, z_v_1) = last_state(&model);

    // Integrate using the second implementation
    let (z_2, z_v_2) = model.yoshida_4th_2().expect("Couldn't integrate");

    // Compare the results between implementations
    assert!(
        (z_1 - z_2.0).abs() < model.h.0.powi(4),
        "The value of the position isn't the same: {z_1} vs. {z_2}",
        z_2 = z_2.0
    );
    assert!(
        (z_v_1 - z_v_2.0).abs() < model.h.0.powi(4),
        "The value of the velocity isn't the same: {z_v_1} vs. {z_v_2}",
        z_v_2 = z_v_2.0
    );
}

#[test]
fn runge_kutta_4th_test_time_reversibility() {
    // Initialize a test model
    let mut model = test_model(0.6);
    model.h = F64(1e-3);
    model.n = 1000;
    model.x_0 = vec![F64(1.0), F64(0.0)];

    // Save the initial values
    let z_0 = model.x_0[0].0;
    let z_v_0 = model.x_0[1].0;

    // Integrate forward
    model.runge_kutta_4th().expect("Couldn't integrate forward");

    // Change the direction of integration
    model.t_0 = F64(model.n as f64 * model.h.0);
    let (z, z_v) = last_state(&model);
    model.x_0 = vec![F64(z), F64(z_v)];
    model.h = F64(-model.h.0);

    // Integrate backward
    model.runge_kutta_4th().expect("Couldn't integrate backward");

    // Save the results
    let (z, z_v) = last_state(&model);

    // Compare the results with the initial values
    assert!(
        (z - z_0).abs() < model.h.0.powi(4),
        "The value of the position isn't the same: {z_0} vs. {z}"
    );
    assert!(
        (z_v - z_v_0).abs() < model.h.0.powi(4),
        "The value of the velocity isn't the same: {z_v_0} vs. {z_v}"
    );
}

/// A driven oscillator with a closed-form solution: `z'' = t - z`.
struct DrivenOscillator;

impl symplectic::Integrator<F64> for DrivenOscillator {
    // The `..._ok` and `..._spec` methods exist only for verification;
    // nothing calls them at run time
    fn accelerations_ok(&self, _t: F64, _x: vstd::seq::Seq<F64>) -> bool {
        unreachable!()
    }

    fn accelerations_spec(&self, _t: F64, _x: vstd::seq::Seq<F64>) -> vstd::seq::Seq<F64> {
        unreachable!()
    }

    fn accelerations(&self, t: F64, x: &Vec<F64>) -> Result<Vec<F64>, Error<F64>> {
        Ok(vec![F64(t.0 - x[0].0)])
    }
}

/// Integrate the driven oscillator with the given symplectic method
/// and check the result against the closed-form solution and for time
/// reversibility, within `10 h^order`.
fn check_symplectic_analytic(integrator: symplectic::Integrators, order: i32) {
    let system = DrivenOscillator;
    let x = vec![F64(1.), F64(0.)];
    let t_0 = 0.;
    let h = 1e-2;
    let n = 3000;
    let t = t_0 + h * n as f64;

    // Integrate forward
    let result = symplectic::integrate(&system, &x, F64(t_0), F64(h), n, integrator)
        .expect("Couldn't integrate forward");

    // Check the results against the closed-form solution
    let x_0 = [t - t.sin() + t.cos(), 1. - t.sin() - t.cos()];
    let last = result.state(n);
    for (l, e) in last.iter().zip(x_0.iter()) {
        assert!(
            (l.0 - e).abs() < 10. * h.powi(order),
            "The result of integration is not the same as expected: {x_0:?} vs {last:?}"
        );
    }

    // Integrate backward
    let result = symplectic::integrate(&system, &last, F64(t), F64(-h), n, integrator)
        .expect("Couldn't integrate backward");

    // Check the results against the initial values
    let last = result.state(n);
    let x_0 = [1., 0.];
    for (l, e) in last.iter().zip(x_0.iter()) {
        assert!(
            (l.0 - e).abs() < 10. * h.powi(order),
            "The integrator doesn't have time reversibility: {x_0:?} vs {last:?}"
        );
    }
}

#[test]
fn leapfrog_analytic() {
    check_symplectic_analytic(symplectic::Integrators::Leapfrog, 2);
}

#[test]
fn yoshida_4th_analytic() {
    check_symplectic_analytic(symplectic::Integrators::Yoshida4th, 4);
}

/// The test system of the general integrator with a closed-form
/// solution: `dx/dt = [t, x_0 * sin(t)]`.
struct AnalyticSystem;

impl general::Integrator<F64> for AnalyticSystem {
    // The `..._ok` and `..._spec` methods exist only for verification;
    // nothing calls them at run time
    fn update_ok(&self, _t: F64, _x: vstd::seq::Seq<F64>) -> bool {
        unreachable!()
    }

    fn update_spec(&self, _t: F64, _x: vstd::seq::Seq<F64>) -> vstd::seq::Seq<F64> {
        unreachable!()
    }

    fn update(&self, t: F64, x: &Vec<F64>) -> Result<Vec<F64>, Error<F64>> {
        Ok(vec![t, F64(x[0].0 * t.0.sin())])
    }
}

#[test]
fn runge_kutta_4th_analytic() {
    let system = AnalyticSystem;
    let x = vec![F64(0.), F64(0.)];
    let t_0 = 0.;
    let h = 1e-2;
    let n = 3000;
    let t = t_0 + h * n as f64;

    // Integrate forward, using the 4th-order Runge-Kutta method
    let result = general::integrate(
        &system,
        &x,
        F64(t_0),
        F64(h),
        n,
        general::Integrators::RungeKutta4th,
    )
    .expect("Couldn't integrate forward");

    // Check the results against the closed-form solution
    let x_0 = [
        t.powi(2) / 2.,
        -t.powi(2) / 2. * t.cos() + t * t.sin() + t.cos() - 1.,
    ];
    let last = result.state(n);
    for (l, e) in last.iter().zip(x_0.iter()) {
        assert!(
            (l.0 - e).abs() < h.powi(4),
            "The result of integration is not the same as expected: {x_0:?} vs {last:?}"
        );
    }
}

#[test]
fn matrix_state_roundtrip() {
    let mut m: Matrix<F64> = Matrix::new(2, 3);
    m.set_state(1, vec![F64(1.5), F64(-2.5)]);
    m.set(0, 2, F64(7.0));
    assert_eq!(m.state(1), vec![F64(1.5), F64(-2.5)]);
    assert_eq!(m.state(0), vec![F64(0.0), F64(0.0)]);
    assert_eq!(m.get(0, 2), F64(7.0));
    assert_eq!(m.result(0), vec![F64(0.0), F64(1.5), F64(7.0)]);
    assert_eq!(m.nrows(), 2);
    assert_eq!(m.ncols(), 3);
}

#[test]
fn initial_values_after_prepare_dims() {
    // The first column of a prepared matrix equals the vector passed
    // in, for all dimensions
    for dim in 0..6 {
        let x: Vec<F64> = (0..dim).map(|j| F64(j as f64 + 0.5)).collect();
        let result = prepare(&x, 3);
        assert_eq!(result.initial_values(), x);
        assert_eq!(result.ncols(), 4);
    }
}

/// A function with no root: its iteration never converges.
struct NoRoot;

impl Function<F64> for NoRoot {
    // Never called at run time
    fn eval_spec(&self, _x: F64) -> F64 {
        unreachable!()
    }

    fn eval(&self, _x: F64) -> F64 {
        F64(1.0)
    }
}

/// A vanishing derivative.
struct ZeroDerivative;

impl Function<F64> for ZeroDerivative {
    // Never called at run time
    fn eval_spec(&self, _x: F64) -> F64 {
        unreachable!()
    }

    fn eval(&self, _x: F64) -> F64 {
        F64(0.0)
    }
}

#[test]
fn find_root_does_not_converge() {
    let r = find_root_newton_raphson(&NoRoot, &ZeroDerivative, F64(1.0));
    assert!(matches!(
        r,
        Err(Error::ConvergenceFailure { initial: F64(i) }) if i == 1.0
    ));
}

#[test]
fn update_dimension_mismatch() {
    let model = test_model(0.6);
    let r = general::Integrator::update(&model, F64(1.0), &vec![F64(1.0)]);
    assert!(matches!(r, Err(Error::DimensionMismatch)));
}

#[test]
fn from_rejects_unrepresentable_counts() {
    let r = Model::<F64>::from(F64(0.6), F64(0.0), F64(1.0), F64(0.0), F64(0.0), 1000, false);
    assert!(matches!(r, Err(Error::ConfigurationInvalid)));
}

#[test]
fn integrate_megnos_deterministic() {
    // Two identical runs with MEGNOs must agree bit for bit: the
    // shadow trajectory is drawn from a fixed-seed generator
    let run = || {
        let mut model = test_model(0.6);
        model.h = F64(1e-2);
        model.n = 400;
        model.i_m = 100;
        model.compute_megnos = true;
        model.x_0 = vec![F64(1.0), F64(0.0)];
        model.integrate().expect("Couldn't integrate the model");
        (model.results.m.result(4), model.results.m.result(5))
    };
    let (megno_1, mean_1) = run();
    let (megno_2, mean_2) = run();
    assert_eq!(megno_1.len(), 301);
    assert_eq!(megno_1, megno_2);
    assert_eq!(mean_1, mean_2);
    assert!(megno_1.iter().all(|v| v.0.is_finite()));
}

#[test]
fn compute_megnos_series() {
    // Integrate the motion, then accumulate the MEGNO series by the
    // trapezoidal rule; the runs must be deterministic
    let run = || {
        let mut model = test_model(0.6);
        model.h = F64(1e-2);
        model.n = 400;
        model.x_0 = vec![F64(1.0), F64(0.0)];
        model.yoshida_4th().expect("Couldn't integrate the model");
        model.compute_megnos().expect("Couldn't compute MEGNOs");
        (model.results.megno.clone(), model.results.mean_megno.clone())
    };
    let (megno_1, mean_1) = run();
    let (megno_2, mean_2) = run();
    assert_eq!(megno_1.len(), 400);
    assert_eq!(mean_1.len(), 400);
    assert_eq!(megno_1, megno_2);
    assert_eq!(mean_1, mean_2);
    assert!(megno_1.iter().all(|v| v.0.is_finite()));
}

#[test]
fn model_test_values() {
    let model = Model::<F64>::test();
    assert_eq!(model.e, F64(0.0));
    assert_eq!(model.h.0, 1e-2 * std::f64::consts::FRAC_PI_2);
    assert_eq!(model.n, 400000);
    assert!(!model.compute_megnos);
}

/// A system whose derivative is undefined from time `2` on.
struct FailsLate;

impl general::Integrator<F64> for FailsLate {
    // The `..._ok` and `..._spec` methods exist only for verification;
    // nothing calls them at run time
    fn update_ok(&self, _t: F64, _x: vstd::seq::Seq<F64>) -> bool {
        unreachable!()
    }

    fn update_spec(&self, _t: F64, _x: vstd::seq::Seq<F64>) -> vstd::seq::Seq<F64> {
        unreachable!()
    }

    fn update(&self, t: F64, x: &Vec<F64>) -> Result<Vec<F64>, Error<F64>> {
        if t.0 >= 2.0 {
            Err(Error::DimensionMismatch)
        } else {
            Ok(vec![F64(1.0); x.len()])
        }
    }
}

#[test]
fn integrate_names_failing_step_and_stage() {
    // With a unit step the system fails first at the fourth stage
    // evaluation of the second step (taken at time `1 + h`); the error
    // must name that step and stage, wrapping the callback's failure
    let r = general::integrate(
        &FailsLate,
        &vec![F64(0.0)],
        F64(0.0),
        F64(1.0),
        5,
        general::Integrators::RungeKutta4th,
    );
    match r {
        Ok(_) => panic!("The integration was expected to fail"),
        Err(Error::CallbackFailure { step, stage, source }) => {
            assert_eq!(step, 1);
            assert_eq!(stage, 4);
            assert!(matches!(*source, Error::DimensionMismatch));
        },
        Err(e) => panic!("Unexpected error: {e:?}"),
    }
}

#[test]
fn leapfrog_step_formula() {
    // One leapfrog step must compute exactly the advertised
    // kick-drift-kick update
    let model = test_model(0.6);
    let h = 1e-3;
    let a_0 = model
        .acceleration(F64(0.0), F64(1.0))
        .expect("Couldn't compute the initial acceleration");
    let (z, z_v, a) = model
        .leapfrog_step(F64(0.0), F64(1.0), F64(0.0), F64(h), a_0)
        .expect("Couldn't do a leapfrog step");

    let z_e = 1.0 + 0.0 * h + 0.5 * a_0.0 * (h * h);
    let a_e = model
        .acceleration(F64(0.0 + h), F64(z_e))
        .expect("Couldn't compute the new acceleration");
    let z_v_e = 0.0 + 0.5 * (a_0.0 + a_e.0) * h;
    assert_eq!(z.0, z_e);
    assert_eq!(a.0, a_e.0);
    assert_eq!(z_v.0, z_v_e);
}

#[test]
fn zero_steps_yields_initial_column_only() {
    // Zero iterations are legal and yield a buffer of just the
    // initial column
    let system = DrivenOscillator;
    let x = vec![F64(1.), F64(0.)];
    let result = symplectic::integrate(
        &system,
        &x,
        F64(0.),
        F64(1e-2),
        0,
        symplectic::Integrators::Yoshida4th,
    )
    .expect("Couldn't integrate");
    assert_eq!(result.ncols(), 1);
    assert_eq!(result.state(0), x);
}
