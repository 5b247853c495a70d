use drivingsim::dynamics::VehicleState;
use drivingsim::reward::{RewardEntry, CAPTURE_RADIUS};
use drivingsim::sim::{Action, Simulator, DEFAULT_MAX_ACCELERATOR, DEFAULT_MAX_ANGLE};
use drivingsim::vec2::Vec2;

fn entry(x: i64, y: i64, value: i64) -> RewardEntry {
    RewardEntry::new(Vec2::new(x, y), value)
}

#[test]
fn default_limits() {
    let sim = Simulator::new(VehicleState::default(), Vec::new());
    assert_eq!(sim.max_accelerator, DEFAULT_MAX_ACCELERATOR);
    assert_eq!(sim.max_angle, DEFAULT_MAX_ANGLE);
    assert_eq!(CAPTURE_RADIUS, 50_000);
}

#[test]
fn reward_is_captured_once() {
    // One marker of value 100 at (1000, 700); the vehicle sits within the
    // capture radius, so the first advance pays 100 and removes the marker,
    // and a second advance at the same position pays nothing.
    let vehicle = VehicleState::new(1_000_000, 700_000, 0, 0, 10_000, 10_000);
    let mut sim = Simulator::new(vehicle, vec![entry(1_000_000, 700_000, 100_000)]);
    let first = sim.advance(Action::new(0, 0), 0);
    assert_eq!(first, 100_000);
    assert_eq!(sim.get_state().reward_points.len(), 0);
    let second = sim.advance(Action::new(0, 0), 0);
    assert_eq!(second, 0);
}

#[test]
fn capture_requires_strictly_less_than_the_radius() {
    // A marker exactly 50 units away stays; one tick closer is captured.
    let vehicle = VehicleState::new(0, 0, 0, 0, 10_000, 10_000);
    let mut sim = Simulator::new(vehicle, vec![entry(50_000, 0, 7_000), entry(49_999, 0, 5_000)]);
    let reward = sim.advance(Action::new(0, 0), 0);
    assert_eq!(reward, 5_000);
    let state = sim.get_state();
    assert_eq!(state.reward_points.len(), 1);
    assert_eq!(state.reward_points[0], entry(50_000, 0, 7_000));
}

#[test]
fn simultaneous_captures_are_summed_and_order_is_kept() {
    let vehicle = VehicleState::new(0, 0, 0, 0, 10_000, 10_000);
    let mut sim = Simulator::new(
        vehicle,
        vec![
            entry(10_000, 0, 100_000),
            entry(900_000, 0, 1_000),
            entry(0, 20_000, 5_000),
            entry(0, 800_000, 2_000),
        ],
    );
    let reward = sim.advance(Action::new(0, 0), 0);
    assert_eq!(reward, 105_000);
    let state = sim.get_state();
    assert_eq!(state.reward_points.len(), 2);
    assert_eq!(state.reward_points[0], entry(900_000, 0, 1_000));
    assert_eq!(state.reward_points[1], entry(0, 800_000, 2_000));
}

#[test]
fn acceleration_requests_are_clamped() {
    // The default limit is 100; requesting 500 applies 100, so one second
    // from rest reaches speed 100.
    let vehicle = VehicleState::default();
    let mut sim = Simulator::new(vehicle, Vec::new());
    sim.advance(Action::new(500_000, 0), 1_000);
    assert_eq!(sim.get_state().vehicle_state.speed, 100_000);
}

#[test]
fn steer_requests_are_clamped() {
    // A huge steer request behaves exactly like one at the limit.
    let vehicle = VehicleState::new(0, 0, 1_000, 0, 10_000, 10_000);
    let mut clamped = Simulator::with_limits(vehicle.clone(), Vec::new(), 0, 785);
    let mut at_limit = Simulator::with_limits(vehicle, Vec::new(), 0, 785);
    clamped.advance(Action::new(0, 1_000_000), 1_000);
    at_limit.advance(Action::new(0, 785), 1_000);
    assert_eq!(
        clamped.get_state().vehicle_state,
        at_limit.get_state().vehicle_state
    );
    assert_eq!(clamped.get_state().vehicle_state.angle, 100);
}

#[test]
fn advance_s_counts_whole_seconds() {
    let vehicle = VehicleState::default();
    let mut by_seconds = Simulator::new(vehicle.clone(), Vec::new());
    let mut by_ticks = Simulator::new(vehicle, Vec::new());
    by_seconds.advance_s(Action::new(40_000, 0), 2);
    by_ticks.advance(Action::new(40_000, 0), 2_000);
    assert_eq!(
        by_seconds.get_state().vehicle_state,
        by_ticks.get_state().vehicle_state
    );
}

#[test]
fn replay_is_deterministic() {
    let vehicle = VehicleState::new(700_000, 400_000, 0, 0, 100_000, 1_000_000);
    let rewards = vec![entry(10_000, 10_000, 10_000), entry(1_000_000, 700_000, 100_000)];
    let mut left = Simulator::new(vehicle.clone(), rewards.clone());
    let mut right = Simulator::new(vehicle, rewards);
    let script = [
        (50_000, 0, 100),
        (50_000, 200, 100),
        (-30_000, -785, 250),
        (0, 785, 1_000),
        (100_000, 0, 500),
        (0, 0, 0),
    ];
    let mut left_total = 0i64;
    let mut right_total = 0i64;
    for (acceleration, steer, delta_t) in script {
        left_total = left_total.saturating_add(left.advance(Action::new(acceleration, steer), delta_t));
        right_total =
            right_total.saturating_add(right.advance(Action::new(acceleration, steer), delta_t));
        assert_eq!(left.get_state().vehicle_state, right.get_state().vehicle_state);
        assert_eq!(left.get_state().reward_points, right.get_state().reward_points);
    }
    assert_eq!(left_total, right_total);
}

#[test]
fn snapshots_copy_the_state() {
    let vehicle = VehicleState::new(1, 2, 3, 4, 10_000, 10_000);
    let sim = Simulator::new(vehicle, vec![entry(5, 6, 7)]);
    let snapshot = sim.get_state_clone();
    assert_eq!(snapshot.vehicle_state, sim.get_state().vehicle_state);
    assert_eq!(snapshot.reward_points, sim.get_state().reward_points);
    let vehicle_copy = snapshot.get_vehicle_state_clone();
    assert_eq!(vehicle_copy, snapshot.vehicle_state);
}
