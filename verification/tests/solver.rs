use secant::solver::{Builder, Samples, Solver};
use secant::Error;

/// The iteration written out on `f64`, to compare results bit for bit.
fn reference(
    tol: f64,
    step: f64,
    max_iter: usize,
    mut x0: f64,
    f: fn(f64) -> f64,
) -> Result<(f64, usize), usize> {
    let mut x1 = if x0 >= 0.0 {
        (1.0 + step) * x0 + step
    } else {
        (1.0 + step) * x0 - step
    };
    let mut y0 = f(x0);
    let mut y1 = f(x1);
    for iter in 0..max_iter {
        if y1 == y0 {
            return Ok((0.5 * (x1 + x0), iter));
        }
        let dx = y1 * (x1 - x0) / (y1 - y0);
        let x = x1 - dx;
        if dx.abs() < tol {
            return Ok((x, iter));
        }
        x0 = x1;
        y0 = y1;
        x1 = x;
        y1 = f(x1);
    }
    Err(max_iter)
}

fn square(x: f64) -> f64 {
    x.powi(2)
}

fn cos_minus_x(x: f64) -> f64 {
    x.cos() - x
}

fn cubic(x: f64) -> f64 {
    x * x * x - 2.0 * x - 5.0
}

fn no_root(x: f64) -> f64 {
    x * x + 1.0
}

#[test]
fn solve_square() {
    let solver = Solver::default();
    let expected = 0.0;
    let result = solver.solve(1.0, |x: f64| x.powi(2)).unwrap();

    println!("output: {:#?}", result);

    assert!((result.x - expected).abs() < 1.0_e-6);
}

#[test]
fn solve_square_lower_tol() {
    let solver = Builder::default().tol(1.0_e-9).build();
    let expected = 0.0;
    let result = solver.solve(1.0, |x: f64| x.powi(2)).unwrap();

    println!("output: {:#?}", result);

    assert!((result.x - expected).abs() < 1.0_e-8);
}

#[test]
fn solve_cos_x_minus_x() {
    let solver = Solver::default();
    let expected = 0.739085;
    let result = solver.solve(1.0, |x: f64| x.cos() - x).unwrap();

    println!("output: {:#?}", result);

    assert!((result.x - expected).abs() < 1.0_e-6);
}

#[test]
fn defaults_are_the_documented_values() {
    let solver: Solver<f64> = Solver::default();
    assert_eq!(solver.tolerance(), 1.48e-8);
    assert_eq!(solver.step(), 1.0e-4);
    assert_eq!(solver.max_iterations(), 50);
}

#[test]
fn defaults_in_single_precision() {
    let solver: Solver<f32> = Solver::default();
    assert_eq!(solver.tolerance(), 1.48e-8_f64 as f32);
    assert_eq!(solver.step(), 1.0e-4_f64 as f32);
    assert_eq!(solver.max_iterations(), 50);
}

#[test]
fn empty_builder_builds_the_default_solver() {
    let built: Solver<f64> = Builder::default().build();
    let default: Solver<f64> = Solver::default();
    assert_eq!(built.tolerance(), default.tolerance());
    assert_eq!(built.step(), default.step());
    assert_eq!(built.max_iterations(), default.max_iterations());
}

#[test]
fn overrides_are_stored_verbatim() {
    let solver = Builder::default().tol(-3.0_f64).step(0.25).max_iter(0).build();
    assert_eq!(solver.tolerance(), -3.0);
    assert_eq!(solver.step(), 0.25);
    assert_eq!(solver.max_iterations(), 0);

    let odd = Builder::default().tol(f64::INFINITY).step(f64::NAN).build();
    assert_eq!(odd.tolerance(), f64::INFINITY);
    assert!(odd.step().is_nan());
    assert_eq!(odd.max_iterations(), 50);
}

#[test]
fn unset_fields_fall_back_one_by_one() {
    let only_tol = Builder::default().tol(1.0e-3_f64).build();
    assert_eq!(only_tol.tolerance(), 1.0e-3);
    assert_eq!(only_tol.step(), 1.0e-4);
    assert_eq!(only_tol.max_iterations(), 50);

    let only_step = Builder::default().step(0.5_f64).build();
    assert_eq!(only_step.tolerance(), 1.48e-8);
    assert_eq!(only_step.step(), 0.5);
    assert_eq!(only_step.max_iterations(), 50);

    let only_cap: Solver<f64> = Builder::default().max_iter(7).build();
    assert_eq!(only_cap.tolerance(), 1.48e-8);
    assert_eq!(only_cap.step(), 1.0e-4);
    assert_eq!(only_cap.max_iterations(), 7);
}

#[test]
fn a_later_override_replaces_an_earlier_one() {
    let solver = Builder::default().tol(1.0_f64).tol(2.0).max_iter(3).max_iter(4).build();
    assert_eq!(solver.tolerance(), 2.0);
    assert_eq!(solver.max_iterations(), 4);
}

#[test]
fn override_order_does_not_matter() {
    let a = Builder::default().tol(1.0e-10_f64).step(1.0e-3).max_iter(30).build();
    let b = Builder::default().max_iter(30).step(1.0e-3).tol(1.0e-10_f64).build();
    assert_eq!(a.tolerance(), b.tolerance());
    assert_eq!(a.step(), b.step());
    assert_eq!(a.max_iterations(), b.max_iterations());
    let ra = a.solve(1.0, cos_minus_x).unwrap();
    let rb = b.solve(1.0, cos_minus_x).unwrap();
    assert_eq!(ra.x, rb.x);
    assert_eq!(ra.iter, rb.iter);
}

#[test]
fn second_point_moves_away_from_zero() {
    let solver: Solver<f64> = Solver::default();
    assert_eq!(solver.second_point(0.0), 1.0e-4);
    assert_eq!(solver.second_point(1.0), (1.0 + 1.0e-4) * 1.0 + 1.0e-4);
    assert_eq!(solver.second_point(-2.0), (1.0 + 1.0e-4) * -2.0 - 1.0e-4);
    assert!(solver.second_point(-2.0) < -2.0);
    assert!(solver.second_point(3.0) > 3.0);
    for x0 in [0.0, -0.0, 1.0, -1.0, 1.0e-300, -1.0e-300, 123456.789, -1.0e12] {
        assert_ne!(solver.second_point(x0), x0);
    }
}

#[test]
fn a_step_too_small_to_show_leaves_the_guess_where_it_is() {
    let solver = Builder::default().step(1.0e-17_f64).build();
    assert_eq!(solver.second_point(1.0), 1.0);
    let out = solver.solve(1.0, |x: f64| x - 3.0).unwrap();
    assert_eq!(out.iter, 0);
    assert_eq!(out.x, 1.0);
}

#[test]
fn second_point_uses_the_given_step() {
    let solver = Builder::default().step(0.5_f64).build();
    assert_eq!(solver.second_point(0.0), 0.5);
    assert_eq!(solver.second_point(2.0), 3.5);
    assert_eq!(solver.second_point(-2.0), -3.5);
}

#[test]
fn window_formulas() {
    let w = Samples { x0: 1.0_f64, y0: -1.0, x1: 2.0, y1: 1.0 };
    assert!(!w.is_flat());
    assert_eq!(w.midpoint(), 1.5);
    assert_eq!(w.update(), 0.5);

    let w = Samples { x0: 1.0_f64, y0: 3.0, x1: 4.0, y1: 9.0 };
    assert_eq!(w.update(), 4.5);
    let next = w.shift(-0.5, 0.25);
    assert_eq!(next.x0, 4.0);
    assert_eq!(next.y0, 9.0);
    assert_eq!(next.x1, -0.5);
    assert_eq!(next.y1, 0.25);

    let flat = Samples { x0: 0.0_f64, y0: 7.0, x1: 1.0, y1: 7.0 };
    assert!(flat.is_flat());
    assert_eq!(flat.midpoint(), 0.5);
    let signed_zeros = Samples { x0: 0.0_f64, y0: 0.0, x1: 1.0, y1: -0.0 };
    assert!(signed_zeros.is_flat());
    let nan = Samples { x0: 0.0_f64, y0: f64::NAN, x1: 1.0, y1: f64::NAN };
    assert!(!nan.is_flat());
}

#[test]
fn constant_function_ends_at_the_midpoint_in_round_zero() {
    let solver: Solver<f64> = Solver::default();
    let out = solver.solve(1.0, |_x: f64| 3.0).unwrap();
    let x1 = (1.0 + 1.0e-4) * 1.0 + 1.0e-4;
    assert_eq!(out.iter, 0);
    assert_eq!(out.x, 0.5 * (x1 + 1.0));

    let out = solver.solve(0.0, |_x: f64| -1.0).unwrap();
    assert_eq!(out.iter, 0);
    assert_eq!(out.x, 0.5 * 1.0e-4);
}

#[test]
fn exhaustion_gives_the_cap() {
    let solver = Builder::default().max_iter(1).build();
    let err = solver.solve(1.0, no_root).unwrap_err();
    assert_eq!(err, Error::MaxIter(1));
    assert_eq!(err.limit(), 1);

    let solver: Solver<f64> = Solver::default();
    let err = solver.solve(1.0, no_root).unwrap_err();
    assert_eq!(err, Error::MaxIter(50));
}

#[test]
fn zero_cap_fails_at_once() {
    let solver = Builder::default().max_iter(0).build();
    let mut calls = 0;
    let r = solver.solve(1.0, |x: f64| {
        calls += 1;
        x
    });
    assert_eq!(r.unwrap_err(), Error::MaxIter(0));
    assert_eq!(calls, 2);
}

#[test]
fn function_is_called_at_most_cap_plus_two_times() {
    let solver = Builder::default().max_iter(5).build();
    let mut calls = 0;
    let r = solver.solve(1.0, |x: f64| {
        calls += 1;
        x * x + 1.0
    });
    assert_eq!(r.unwrap_err(), Error::MaxIter(5));
    assert_eq!(calls, 7);
}

#[test]
fn nan_valued_function_uses_up_the_rounds() {
    let solver: Solver<f64> = Solver::default();
    let err = solver.solve(1.0, |_x: f64| f64::NAN).unwrap_err();
    assert_eq!(err, Error::MaxIter(50));
}

fn line(x: f64) -> f64 {
    2.0 * x - 4.0
}

#[test]
fn negative_tolerance_is_met_by_no_update() {
    // No update is small enough, so the search can only end where the two
    // values are equal: one round later than with the default tolerance.
    let solver = Builder::default().tol(-1.0_f64).max_iter(20).build();
    let out = solver.solve(1.0, line).unwrap();
    let (x, iter) = reference(-1.0, 1.0e-4, 20, 1.0, line).unwrap();
    assert_eq!(out.x.to_bits(), x.to_bits());
    assert_eq!(out.iter, iter);
    assert_eq!(out.iter, 2);

    let err = solver.solve(1.0, no_root).unwrap_err();
    assert_eq!(err, Error::MaxIter(20));
}

#[test]
fn negative_update_is_judged_by_its_magnitude() {
    let solver = Builder::default().tol(0.5_f64).step(1.0).build();
    // window (1, -2), (3, 2): dx = 2 * 2 / 4 = 1, not small; next window (3, 2), (2, 0):
    // dx = 0 * -1 / -2 = 0, small.
    let out = solver.solve(1.0, |x: f64| 2.0 * x - 4.0).unwrap();
    assert_eq!(out.iter, 1);
    assert_eq!(out.x, 2.0);
    // from -5 the second point is -11: window (-5, -1), (-11, -7), dx = -7 * -6 / -6 = -7.
    let out = solver.solve(-5.0, |x: f64| x + 4.0).unwrap();
    assert_eq!(out.iter, 1);
    assert_eq!(out.x, -4.0);
}

#[test]
fn linear_function_is_solved_in_round_one() {
    let solver: Solver<f64> = Solver::default();
    let out = solver.solve(1.0, |x: f64| 2.0 * x - 4.0).unwrap();
    assert_eq!(out.iter, 1);
    assert!((out.x - 2.0).abs() < 1.0e-12);
}

#[test]
fn results_agree_with_the_iteration_written_out() {
    let cases: [(fn(f64) -> f64, f64); 6] = [
        (square, 1.0),
        (cos_minus_x, 1.0),
        (cubic, 2.0),
        (cubic, -3.0),
        (no_root, 1.0),
        (square, 0.0),
    ];
    for (f, x0) in cases {
        for (tol, step, max_iter) in [(1.48e-8, 1.0e-4, 50), (1.0e-12, 1.0e-2, 8), (0.5, 1.0, 3)] {
            let solver = Builder::default().tol(tol).step(step).max_iter(max_iter).build();
            let got = solver.solve(x0, f);
            match reference(tol, step, max_iter, x0, f) {
                Ok((x, iter)) => {
                    let out = got.unwrap();
                    assert_eq!(out.x.to_bits(), x.to_bits());
                    assert_eq!(out.iter, iter);
                }
                Err(limit) => assert_eq!(got.unwrap_err(), Error::MaxIter(limit)),
            }
        }
    }
}

#[test]
fn results_agree_with_defaults_written_out() {
    for (f, x0) in [(square as fn(f64) -> f64, 1.0), (cos_minus_x, 1.0), (cubic, 2.0)] {
        let solver: Solver<f64> = Solver::default();
        let out = solver.solve(x0, f).unwrap();
        let (x, iter) = reference(1.48e-8, 1.0e-4, 50, x0, f).unwrap();
        assert_eq!(out.x.to_bits(), x.to_bits());
        assert_eq!(out.iter, iter);
    }
}

#[test]
fn single_precision_converges() {
    let solver: Solver<f32> = Builder::default().tol(1.0e-5).build();
    let out = solver.solve(1.0_f32, |x: f32| x.cos() - x).unwrap();
    assert!((out.x - 0.739085).abs() < 1.0e-4);
}
