use nrho_engine::propagation::trajectory;

#[test]
fn trajectory_doubles() {
    let h = trajectory(1u64, 5, |x: u64| x * 2);
    assert_eq!(h, vec![1, 2, 4, 8, 16, 32]);
}

#[test]
fn trajectory_zero_steps_is_initial_only() {
    let h = trajectory((0i32, 7i32), 0, |(a, b): (i32, i32)| (a + 1, b));
    assert_eq!(h, vec![(0, 7)]);
}

#[test]
fn trajectory_time_and_state() {
    let dt = 0.5_f64;
    let h = trajectory((0.0_f64, 10.0_f64), 4, |(t, x): (f64, f64)| (t + dt, x - 1.0));
    assert_eq!(h.len(), 5);
    assert_eq!(h[0], (0.0, 10.0));
    assert_eq!(h[4], (2.0, 6.0));
}
