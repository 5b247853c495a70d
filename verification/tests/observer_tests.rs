use drivingsim::dynamics::VehicleState;
use drivingsim::observer::{
    observe_heading_relative, HeadingRelativeObserver, Observer, SelectionPolicy,
};
use drivingsim::reward::RewardEntry;
use drivingsim::sim::Simulator;
use drivingsim::vec2::Vec2;

fn entry(x: i64, y: i64, value: i64) -> RewardEntry {
    RewardEntry::new(Vec2::new(x, y), value)
}

fn snapshot(vehicle: VehicleState, rewards: Vec<RewardEntry>) -> drivingsim::sim::SimState {
    Simulator::new(vehicle, rewards).get_state_clone()
}

#[test]
fn empty_field_observes_zeros() {
    let vehicle = VehicleState::new(123, 456, 2_000, 300, 10_000, 10_000);
    let state = snapshot(vehicle, Vec::new());
    let obs = observe_heading_relative(&state, SelectionPolicy::Farthest);
    assert_eq!(obs.speed, 2_000);
    assert_eq!(obs.distance_to_reward, 0);
    assert_eq!(obs.angle_to_reward, 0);
}

#[test]
fn distance_and_angle_to_a_single_marker() {
    // A 3-4-5 triangle seen from the origin, heading along x: distance 5
    // units, angle atan(4/3), which the approximation puts at 932 ticks.
    let vehicle = VehicleState::new(0, 0, 1_500, 0, 10_000, 10_000);
    let state = snapshot(vehicle, vec![entry(3_000, 4_000, 1_000)]);
    let obs = observe_heading_relative(&state, SelectionPolicy::Farthest);
    assert_eq!(obs.speed, 1_500);
    assert_eq!(obs.distance_to_reward, 5_000);
    assert_eq!(obs.angle_to_reward, 932);
}

#[test]
fn marker_straight_ahead_has_angle_zero() {
    // Facing backwards along x, with the marker behind the origin too.
    let vehicle = VehicleState::new(0, 0, 0, 3_142, 10_000, 10_000);
    let state = snapshot(vehicle, vec![entry(-5_000, 0, 1_000)]);
    let obs = observe_heading_relative(&state, SelectionPolicy::Farthest);
    assert_eq!(obs.distance_to_reward, 5_000);
    assert_eq!(obs.angle_to_reward, 0);
}

#[test]
fn policy_picks_farthest_or_nearest() {
    let vehicle = VehicleState::new(0, 0, 0, 0, 10_000, 10_000);
    let rewards = vec![entry(10_000, 0, 1_000), entry(3_000, 4_000, 2_000)];
    let state = snapshot(vehicle, rewards);
    let far = observe_heading_relative(&state, SelectionPolicy::Farthest);
    assert_eq!(far.distance_to_reward, 10_000);
    assert_eq!(far.angle_to_reward, 0);
    let near = observe_heading_relative(&state, SelectionPolicy::Nearest);
    assert_eq!(near.distance_to_reward, 5_000);
    assert_eq!(near.angle_to_reward, 932);
}

#[test]
fn ties_keep_the_earlier_marker() {
    // Two markers at the same distance on opposite sides: the fold only
    // replaces on a strict improvement, so the first one wins.
    let vehicle = VehicleState::new(0, 0, 0, 0, 10_000, 10_000);
    let rewards = vec![entry(0, 7_000, 1_000), entry(0, -7_000, 2_000)];
    let state = snapshot(vehicle, rewards);
    let obs = observe_heading_relative(&state, SelectionPolicy::Farthest);
    assert_eq!(obs.distance_to_reward, 7_000);
    assert_eq!(obs.angle_to_reward, 1_571);
}

#[test]
fn observer_trait_matches_the_function() {
    let vehicle = VehicleState::new(0, 0, 900, 0, 10_000, 10_000);
    let state = snapshot(vehicle, vec![entry(3_000, 4_000, 1_000)]);
    let through_trait = HeadingRelativeObserver::new(SelectionPolicy::Nearest).observe(&state);
    let direct = observe_heading_relative(&state, SelectionPolicy::Nearest);
    assert_eq!(through_trait, direct);
}
