//! The vehicle's physical state and its one-step kinematic integrator.
//!
//! The model is a planar kinematic bicycle: position advances along the
//! heading, the heading turns at a yaw rate proportional to speed and the
//! tangent of the steer angle and inversely proportional to the wheelbase,
//! and speed follows the commanded acceleration, clamped to the vehicle's
//! speed limit. The step is explicit first-order Euler: position and heading
//! updates read the speed and heading from the start of the step, never the
//! step's own results.

use vstd::prelude::*;

use crate::fixed::{clamp_s, div_trunc, fx_div_s, fx_mul_s, sat_add_s, SCALE};
use crate::fixed::{clamp_fx, fx_div, fx_mul, sat_add};
use crate::trig::{cos_fx, cos_fx_s, sin_fx, sin_fx_s, tan_fx, tan_fx_s};
use crate::vec2::Vec2;

verus! {

/// Physical state of the vehicle. Coordinates, speed and angles are
/// fixed-point scalars (`SCALE` raw ticks per unit); `base_length` is the
/// wheelbase and `max_speed` the speed limit, both constant per vehicle.
#[derive(Clone, Copy, Debug, PartialEq, Eq, Structural)]
pub struct VehicleState {
    pub position_x: i64,
    pub position_y: i64,
    pub speed: i64,
    pub angle: i64,
    pub base_length: i64,
    pub max_speed: i64,
}

impl VehicleState {
    /// The vehicle's constants are usable: a positive wheelbase (the yaw
    /// rate divides by it) and a nonnegative speed limit.
    pub open spec fn wf(self) -> bool {
        self.base_length > 0 && self.max_speed >= 0
    }

    /// The speed lies within the vehicle's limit.
    pub open spec fn speed_bounded(self) -> bool {
        -self.max_speed <= self.speed <= self.max_speed
    }
}

/// Displacement of the position along the heading: `speed * cos/sin(angle) *
/// delta_t`, one coordinate at a time.
pub open spec fn step_position_x_s(s: VehicleState, delta_t: int) -> int {
    sat_add_s(s.position_x as int, fx_mul_s(fx_mul_s(s.speed as int, cos_fx_s(s.angle as int)), delta_t))
}

/// See [`step_position_x_s`].
pub open spec fn step_position_y_s(s: VehicleState, delta_t: int) -> int {
    sat_add_s(s.position_y as int, fx_mul_s(fx_mul_s(s.speed as int, sin_fx_s(s.angle as int)), delta_t))
}

/// The heading after one step: it turns by `speed * tan(steer_angle) /
/// base_length * delta_t`, with the speed read before the step.
pub open spec fn step_angle_s(s: VehicleState, steer_angle: int, delta_t: int) -> int {
    sat_add_s(
        s.angle as int,
        fx_mul_s(fx_div_s(fx_mul_s(s.speed as int, tan_fx_s(steer_angle)), s.base_length as int), delta_t),
    )
}

/// The speed after one step: `speed + acceleration * delta_t`, clamped to
/// the vehicle's speed limit.
pub open spec fn step_speed_s(s: VehicleState, acceleration: int, delta_t: int) -> int {
    clamp_s(
        sat_add_s(s.speed as int, fx_mul_s(acceleration, delta_t)),
        -(s.max_speed as int),
        s.max_speed as int,
    )
}

/// The whole state one Euler step later. The constants are untouched.
pub open spec fn vehicle_step_s(
    s: VehicleState,
    acceleration: int,
    steer_angle: int,
    delta_t: int,
) -> VehicleState {
    VehicleState {
        position_x: step_position_x_s(s, delta_t) as i64,
        position_y: step_position_y_s(s, delta_t) as i64,
        speed: step_speed_s(s, acceleration, delta_t) as i64,
        angle: step_angle_s(s, steer_angle, delta_t) as i64,
        base_length: s.base_length,
        max_speed: s.max_speed,
    }
}

/// Wheelbase a default vehicle is built with: 100 units.
pub const DEFAULT_BASE_LENGTH: i64 = 100 * SCALE;

/// Speed limit a default vehicle is built with: 1000 units per second.
pub const DEFAULT_MAX_SPEED: i64 = 1000 * SCALE;

impl Default for VehicleState {
    /// A vehicle at rest at the origin, heading along the x axis, with the
    /// default wheelbase and speed limit.
    fn default() -> (s: VehicleState)
        ensures
            s == (VehicleState {
                position_x: 0,
                position_y: 0,
                speed: 0,
                angle: 0,
                base_length: DEFAULT_BASE_LENGTH,
                max_speed: DEFAULT_MAX_SPEED,
            }),
            s.wf(),
    {
        VehicleState {
            position_x: 0,
            position_y: 0,
            speed: 0,
            angle: 0,
            base_length: DEFAULT_BASE_LENGTH,
            max_speed: DEFAULT_MAX_SPEED,
        }
    }
}

impl VehicleState {
    /// A vehicle from its full configuration: pose, speed, and the two
    /// per-vehicle constants.
    pub fn new(
        position_x: i64,
        position_y: i64,
        speed: i64,
        angle: i64,
        base_length: i64,
        max_speed: i64,
    ) -> (s: VehicleState)
        requires
            base_length > 0,
            max_speed >= 0,
        ensures
            s == (VehicleState { position_x, position_y, speed, angle, base_length, max_speed }),
            s.wf(),
    {
        VehicleState { position_x, position_y, speed, angle, base_length, max_speed }
    }

    /// The position as a vector.
    pub fn position(&self) -> (p: Vec2)
        ensures
            p.x == self.position_x,
            p.y == self.position_y,
    {
        Vec2 { x: self.position_x, y: self.position_y }
    }

    /// One integration step. Time steps are nonnegative, as the original
    /// clock's duration type enforces. The update order is load-bearing:
    /// position first, then heading, then speed, all from start-of-step
    /// values.
    pub fn step(&mut self, acceleration: i64, wheel_steer_angle: i64, delta_t: i64)
        requires
            old(self).wf(),
            delta_t >= 0,
        ensures
            *final(self) == vehicle_step_s(
                *old(self),
                acceleration as int,
                wheel_steer_angle as int,
                delta_t as int,
            ),
            final(self).wf(),
            final(self).speed_bounded(),
    {
        let cos_h: i64 = cos_fx(self.angle);
        let sin_h: i64 = sin_fx(self.angle);
        let dx: i64 = fx_mul(fx_mul(self.speed, cos_h), delta_t);
        let dy: i64 = fx_mul(fx_mul(self.speed, sin_h), delta_t);
        self.position_x = sat_add(self.position_x, dx);
        self.position_y = sat_add(self.position_y, dy);
        let steer_tan: i64 = tan_fx(wheel_steer_angle);
        let yaw_rate: i64 = fx_div(fx_mul(self.speed, steer_tan), self.base_length);
        self.angle = sat_add(self.angle, fx_mul(yaw_rate, delta_t));
        let unclamped: i64 = sat_add(self.speed, fx_mul(acceleration, delta_t));
        self.speed = clamp_fx(unclamped, -self.max_speed, self.max_speed);
    }
}

/// The three points a renderer draws the vehicle with: the rear reference
/// point, the midpoint, and the front point one wheelbase ahead along the
/// heading. The midpoint halves the extent with truncation toward zero.
pub fn car_segment_points(position: Vec2, angle: i64, base_length: i64) -> (pts: (
    Vec2,
    Vec2,
    Vec2,
))
    ensures
        pts.0 == position,
        pts.1.x as int == sat_add_s(
            position.x as int,
            div_trunc(fx_mul_s(base_length as int, cos_fx_s(angle as int)), 2),
        ),
        pts.1.y as int == sat_add_s(
            position.y as int,
            div_trunc(fx_mul_s(base_length as int, sin_fx_s(angle as int)), 2),
        ),
        pts.2.x as int == sat_add_s(
            position.x as int,
            fx_mul_s(base_length as int, cos_fx_s(angle as int)),
        ),
        pts.2.y as int == sat_add_s(
            position.y as int,
            fx_mul_s(base_length as int, sin_fx_s(angle as int)),
        ),
{
    let lx: i64 = fx_mul(base_length, cos_fx(angle));
    let ly: i64 = fx_mul(base_length, sin_fx(angle));
    let hx: i64 = lx / 2;
    let hy: i64 = ly / 2;
    (
        position,
        Vec2 { x: sat_add(position.x, hx), y: sat_add(position.y, hy) },
        Vec2 { x: sat_add(position.x, lx), y: sat_add(position.y, ly) },
    )
}

/// After a step the speed lies within `[-max_speed, max_speed]`, from every
/// state and for every acceleration.
pub proof fn lemma_step_speed_bounded(
    s: VehicleState,
    acceleration: int,
    steer_angle: int,
    delta_t: int,
)
    requires
        s.wf(),
    ensures
        vehicle_step_s(s, acceleration, steer_angle, delta_t).speed_bounded(),
{
}

/// A step over a zero time step changes nothing: position, heading and
/// speed keep their values.
pub proof fn lemma_step_zero_dt(s: VehicleState, acceleration: int, steer_angle: int)
    requires
        s.wf(),
        s.speed_bounded(),
    ensures
        vehicle_step_s(s, acceleration, steer_angle, 0) == s,
{
}

} // verus!
