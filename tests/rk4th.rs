use std::cell::{Cell, RefCell};

use rungekutta::rk4th::{advance, average_slope, next_value, RungeKutta4thOrder2nd};
use rungekutta::vector::Vector3;

fn parts(v: Vector3<i64>) -> (i64, i64, i64) {
    (v.x, v.y, v.z)
}

#[test]
fn next_value_test() {
    let v = next_value(&Vector3::new(1i64, 2, 3), &Vector3::new(10, 20, 30), 2);
    assert_eq!(v.x, 21);
    assert_eq!(v.y, 42);
    assert_eq!(v.z, 63);
}

#[test]
fn average_slope_test() {
    let v = average_slope(
        6i64,
        &Vector3::new(1, 2, 3),
        &Vector3::new(10, 20, 30),
        &Vector3::new(100, 200, 300),
        &Vector3::new(1000, 2000, 3000),
    );
    assert_eq!(v.x, 1221);
    assert_eq!(v.y, 2442);
    assert_eq!(v.z, 3663);
}

#[test]
fn free_fall_matches_closed_form() {
    let g = Vector3::new(0i64, 0, -10);
    let to_velocity = |_t: i64, _p: Vector3<i64>, v: Vector3<i64>| v;
    let to_accel = |_t: i64, _p: Vector3<i64>, _v: Vector3<i64>| g;
    let mut state = RungeKutta4thOrder2nd::new(Vector3::zeros(), Vector3::zeros(), 2i64);
    let mut t: i64 = 0;
    for _ in 0..3 {
        state.solve(t, &to_velocity, &to_accel);
        t += state.delta_time();
    }
    assert_eq!(t, 6);
    assert_eq!(parts(*state.position()), (0, 0, -180));
    assert_eq!(parts(*state.velocity()), (0, 0, -60));
}

#[test]
fn zero_step_leaves_state_unchanged() {
    let to_velocity = |t: i64, _p: Vector3<i64>, v: Vector3<i64>| v * (t + 3);
    let to_accel = |_t: i64, p: Vector3<i64>, _v: Vector3<i64>| p * -5;
    let p = Vector3::new(4i64, -2, 9);
    let v = Vector3::new(1i64, 7, -3);
    let (dp, dv) = advance(11, 0, &p, &v, &to_velocity, &to_accel);
    assert_eq!(parts(dp), (0, 0, 0));
    assert_eq!(parts(dv), (0, 0, 0));
    let mut state = RungeKutta4thOrder2nd::new(p, v, 0i64);
    state.solve(11, &to_velocity, &to_accel);
    assert_eq!(parts(*state.position()), (4, -2, 9));
    assert_eq!(parts(*state.velocity()), (1, 7, -3));
}

#[test]
fn each_derivative_is_evaluated_four_times() {
    let velocity_calls = Cell::new(0u32);
    let accel_calls = Cell::new(0u32);
    let times = RefCell::new(Vec::new());
    let to_velocity = |t: i64, _p: Vector3<i64>, v: Vector3<i64>| {
        velocity_calls.set(velocity_calls.get() + 1);
        times.borrow_mut().push(t);
        v
    };
    let to_accel = |_t: i64, _p: Vector3<i64>, _v: Vector3<i64>| {
        accel_calls.set(accel_calls.get() + 1);
        Vector3::new(1, 0, 0)
    };
    let mut state = RungeKutta4thOrder2nd::new(Vector3::zeros(), Vector3::zeros(), 4i64);
    state.solve(10, &to_velocity, &to_accel);
    assert_eq!(velocity_calls.get(), 4);
    assert_eq!(accel_calls.get(), 4);
    assert_eq!(*times.borrow(), vec![10, 12, 12, 14]);
    state.solve(14, &to_velocity, &to_accel);
    assert_eq!(velocity_calls.get(), 8);
    assert_eq!(accel_calls.get(), 8);
}

#[test]
fn step_delta_keeps_state_and_matches_solve() {
    let to_velocity = |_t: i64, _p: Vector3<i64>, v: Vector3<i64>| v;
    let to_accel = |_t: i64, p: Vector3<i64>, _v: Vector3<i64>| p * -1;
    let state = RungeKutta4thOrder2nd::new(Vector3::new(6i64, 0, 0), Vector3::new(0i64, 6, 0), 2i64);
    let (dp, dv) = state.step_delta(0, &to_velocity, &to_accel);
    assert_eq!(parts(state.position), (6, 0, 0));
    assert_eq!(parts(state.velocity), (0, 6, 0));
    let mut moved = state;
    moved.solve(0, &to_velocity, &to_accel);
    assert_eq!(parts(moved.position), parts(state.position + dp));
    assert_eq!(parts(moved.velocity), parts(state.velocity + dv));
}

#[test]
fn add_position_and_velocity_accumulate() {
    let mut state = RungeKutta4thOrder2nd::new(Vector3::new(1i64, 1, 1), Vector3::new(2i64, 2, 2), 1i64);
    state.add_position(Vector3::new(3, 4, 5));
    state.add_velocity(Vector3::new(-2, 0, 2));
    assert_eq!(parts(state.position), (4, 5, 6));
    assert_eq!(parts(state.velocity), (0, 2, 4));
    assert_eq!(state.delta_time(), 1);
}
