use drivingsim::dynamics::{
    car_segment_points, VehicleState, DEFAULT_BASE_LENGTH, DEFAULT_MAX_SPEED,
};
use drivingsim::vec2::Vec2;

#[test]
fn default_vehicle_configuration() {
    let v = VehicleState::default();
    assert_eq!(v.position_x, 0);
    assert_eq!(v.position_y, 0);
    assert_eq!(v.speed, 0);
    assert_eq!(v.angle, 0);
    assert_eq!(v.base_length, DEFAULT_BASE_LENGTH);
    assert_eq!(v.max_speed, DEFAULT_MAX_SPEED);
}

#[test]
fn acceleration_from_rest_leaves_position_alone() {
    // One second at acceleration 5 from rest: the speed becomes 5 units per
    // second, while position and heading keep their pre-step values.
    let mut v = VehicleState::new(0, 0, 0, 0, 10_000, 10_000);
    v.step(5_000, 0, 1_000);
    assert_eq!(v.speed, 5_000);
    assert_eq!(v.position_x, 0);
    assert_eq!(v.position_y, 0);
    assert_eq!(v.angle, 0);
}

#[test]
fn zero_time_step_changes_nothing() {
    let mut v = VehicleState::new(7_000, -3_000, 2_500, 600, 10_000, 10_000);
    let before = v.clone();
    v.step(123_456, -654_321, 0);
    assert_eq!(v, before);
}

#[test]
fn speed_is_clamped_to_the_limit() {
    let mut v = VehicleState::new(0, 0, 0, 0, 10_000, 10_000);
    v.step(i64::MAX, 0, 1_000);
    assert_eq!(v.speed, 10_000);
    v.step(i64::MIN, 0, 1_000);
    assert_eq!(v.speed, -10_000);
    v.step(i64::MIN, 0, 1_000);
    assert_eq!(v.speed, -10_000);
}

#[test]
fn straight_motion_advances_along_the_heading() {
    // Speed 4 units per second, heading 0, half a second: 2 units of x.
    let mut v = VehicleState::new(0, 0, 4_000, 0, 10_000, 10_000);
    v.step(0, 0, 500);
    assert_eq!(v.position_x, 2_000);
    assert_eq!(v.position_y, 0);
}

#[test]
fn steering_turns_the_heading() {
    // Yaw rate is speed * tan(steer) / wheelbase: at speed 1, steer pi/4
    // (tangent one) and wheelbase 10, one second turns 0.1 radians.
    let mut v = VehicleState::new(0, 0, 1_000, 0, 10_000, 10_000);
    v.step(0, 785, 1_000);
    assert_eq!(v.angle, 100);
}

#[test]
fn heading_update_uses_pre_step_speed() {
    // From rest, even with full steer, the heading cannot turn in the same
    // step that first builds up speed.
    let mut v = VehicleState::new(0, 0, 0, 0, 10_000, 10_000);
    v.step(5_000, 785, 1_000);
    assert_eq!(v.angle, 0);
    // The next step turns: speed is now 5.
    v.step(0, 785, 1_000);
    assert_eq!(v.angle, 500);
}

#[test]
fn segment_points_along_the_x_axis() {
    let (start, mid, end) = car_segment_points(Vec2::new(100, 200), 0, 10_000);
    assert_eq!(start, Vec2::new(100, 200));
    assert_eq!(mid, Vec2::new(5_100, 200));
    assert_eq!(end, Vec2::new(10_100, 200));
}

#[test]
fn segment_points_facing_backwards() {
    let (start, mid, end) = car_segment_points(Vec2::new(0, 0), 3142, 10_000);
    assert_eq!(start, Vec2::new(0, 0));
    assert_eq!(mid, Vec2::new(-5_000, 0));
    assert_eq!(end, Vec2::new(-10_000, 0));
}
