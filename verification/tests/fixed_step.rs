use numerics_ode::fixed_step::{adams_bashforth_march, march};

#[test]
fn march_records_n_plus_one_states() {
    let pts = march(100u64, 3, |x: &u64| *x / 2);
    assert_eq!(pts, vec![100, 50, 25, 12]);
}

#[test]
fn march_single_step() {
    let pts = march(7i32, 1, |x: &i32| *x + 1);
    assert_eq!(pts, vec![7, 8]);
}

#[test]
fn march_euler_single_step() {
    // dy/dx = y from (0, 1) with one step of size 1: y = 1 + 1 * 1 = 2
    let h = 1.0_f64;
    let pts = march((0.0_f64, 1.0_f64), 1, |s: &(f64, f64)| (s.0 + h, s.1 + h * s.1));
    assert_eq!(pts.len(), 2);
    assert!((pts[1].0 - 1.0).abs() < 1e-12);
    assert!((pts[1].1 - 2.0).abs() < 1e-12);
}

#[test]
fn march_rk4_single_step() {
    // dy/dx = y from (0, 1), one classical Runge-Kutta step of size 1
    let f = |_x: f64, y: f64| y;
    let h = 1.0_f64;
    let step = |s: &(f64, f64)| {
        let (x, y) = *s;
        let k1 = f(x, y);
        let k2 = f(x + h / 2.0, y + h * k1 / 2.0);
        let k3 = f(x + h / 2.0, y + h * k2 / 2.0);
        let k4 = f(x + h, y + h * k3);
        (x + h, y + (h / 6.0) * (k1 + 2.0 * k2 + 2.0 * k3 + k4))
    };
    let pts = march((0.0, 1.0), 1, step);
    let expected = 1.0 + (1.0 / 6.0) * (1.0 + 2.0 * 1.5 + 2.0 * 1.75 + 2.75);
    assert!((pts[1].1 - expected).abs() < 1e-12);
}

#[test]
fn march_system_state_keeps_its_dimension() {
    let pts = march(vec![1i64, 0], 50, |y: &Vec<i64>| vec![y[1], -y[0]]);
    assert_eq!(pts.len(), 51);
    assert_eq!(pts[0].len(), 2);
    assert_eq!(pts[1], vec![0, -1]);
    assert_eq!(pts[2], vec![-1, 0]);
    assert_eq!(pts[4], vec![1, 0]);
}

#[test]
fn adams_bashforth_single_step_uses_the_single_rule() {
    let pts = adams_bashforth_march(1u64, 1, |x: &u64| *x + 10, |x: &u64| *x + 100, |x: &u64| *x + 1000);
    assert_eq!(pts, vec![1, 11]);
}

#[test]
fn adams_bashforth_starts_then_uses_the_multistep_rule() {
    let pts = adams_bashforth_march(1u64, 3, |x: &u64| *x + 10, |x: &u64| *x + 100, |x: &u64| *x + 1000);
    assert_eq!(pts, vec![1, 101, 1101, 2101]);
}

#[test]
fn adams_bashforth_carries_the_previous_slope() {
    // dy/dx = 3 (constant): the state is (x, y, slope at the previous point)
    let h = 0.5_f64;
    let f = |_x: f64, _y: f64| 3.0_f64;
    let pts = adams_bashforth_march(
        (0.0_f64, 0.0_f64, 0.0_f64),
        4,
        |s: &(f64, f64, f64)| (s.0 + h, s.1 + h * f(s.0, s.1), 0.0),
        |s: &(f64, f64, f64)| {
            let k1 = f(s.0, s.1);
            (s.0 + h, s.1 + h * k1, k1)
        },
        |s: &(f64, f64, f64)| {
            let fc = f(s.0, s.1);
            (s.0 + h, s.1 + (h / 2.0) * (3.0 * fc - s.2), fc)
        },
    );
    assert_eq!(pts.len(), 5);
    assert!((pts[4].0 - 2.0).abs() < 1e-12);
    assert!((pts[4].1 - 6.0).abs() < 1e-12);
}
