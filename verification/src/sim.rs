//! The simulator: one vehicle, one reward field, fixed actuation limits.
//!
//! Each call to `advance` clamps the requested action to the simulator's
//! limits, advances the vehicle by one integration step, then sweeps the
//! reward field around the vehicle's new position and pays out every marker
//! captured there. There are no other transitions and no error paths: all
//! inputs are numeric and every operation is total.

use vstd::prelude::*;

use crate::dynamics::{lemma_step_speed_bounded, lemma_step_zero_dt, vehicle_step_s, VehicleState};
use crate::fixed::{clamp_fx, clamp_s, sat64, seconds_to_fx, seconds_to_fx_s, SCALE};
use crate::reward::{
    lemma_rewards_consumed_once, retained_after_s, sweep_rewards, sweep_value_s, RewardEntry,
};
use crate::trig::QUARTER_PI_FX;
use crate::vec2::Vec2;

verus! {

/// Acceleration limit a simulator is built with by default: 100 units.
pub const DEFAULT_MAX_ACCELERATOR: i64 = 100 * SCALE;

/// Steer-angle limit a simulator is built with by default: a quarter of
/// `pi`, conservatively below the tangent singularity at half `pi`.
pub const DEFAULT_MAX_ANGLE: i64 = QUARTER_PI_FX;

/// A control request: acceleration and wheel steer angle, unconstrained at
/// construction. Limits are enforced at the simulator boundary.
#[derive(Clone, Copy, Debug, PartialEq, Eq, Structural)]
pub struct Action {
    pub acceleration: i64,
    pub wheel_steer_angle: i64,
}

impl Action {
    /// An action from the requested acceleration and steer angle.
    pub fn new(acceleration: i64, wheel_steer_angle: i64) -> (a: Action)
        ensures
            a == (Action { acceleration, wheel_steer_angle }),
    {
        Action { acceleration, wheel_steer_angle }
    }
}

/// A read-only snapshot of the simulation: the vehicle and the remaining
/// reward markers.
#[derive(Debug)]
pub struct SimState {
    pub vehicle_state: VehicleState,
    pub reward_points: Vec<RewardEntry>,
}

impl Clone for SimState {
    /// A by-value copy of the snapshot.
    fn clone(&self) -> (r: SimState)
        ensures
            r.vehicle_state == self.vehicle_state,
            r.reward_points@ == self.reward_points@,
    {
        let n: usize = self.reward_points.len();
        let mut pts: Vec<RewardEntry> = Vec::new();
        let mut i: usize = 0;
        while i < n
            invariant
                i <= n,
                n == self.reward_points@.len(),
                pts@ == self.reward_points@.take(i as int),
            decreases n - i,
        {
            pts.push(self.reward_points[i]);
            proof {
                assert(self.reward_points@.take(i as int + 1) =~= self.reward_points@.take(
                    i as int,
                ).push(self.reward_points@[i as int]));
            }
            i = i + 1;
        }
        proof {
            assert(self.reward_points@.take(n as int) =~= self.reward_points@);
        }
        SimState { vehicle_state: self.vehicle_state, reward_points: pts }
    }
}

impl Default for SimState {
    /// A default vehicle with no reward markers.
    fn default() -> (s: SimState)
        ensures
            s.vehicle_state == (VehicleState {
                position_x: 0,
                position_y: 0,
                speed: 0,
                angle: 0,
                base_length: crate::dynamics::DEFAULT_BASE_LENGTH,
                max_speed: crate::dynamics::DEFAULT_MAX_SPEED,
            }),
            s.reward_points@ == Seq::<RewardEntry>::empty(),
    {
        SimState { vehicle_state: VehicleState::default(), reward_points: Vec::new() }
    }
}

impl SimState {
    /// A by-value copy of the vehicle state.
    pub fn get_vehicle_state_clone(&self) -> (v: VehicleState)
        ensures
            v == self.vehicle_state,
    {
        self.vehicle_state
    }
}

/// The effect of one `advance` on the model: the stepped vehicle, the
/// markers that survive the sweep at its new position, and the reward paid.
pub open spec fn step_model_s(
    v: VehicleState,
    entries: Seq<RewardEntry>,
    max_accelerator: int,
    max_angle: int,
    action: Action,
    delta_t: int,
) -> (VehicleState, Seq<RewardEntry>, int) {
    let v2 = vehicle_step_s(
        v,
        clamp_s(action.acceleration as int, -max_accelerator, max_accelerator),
        clamp_s(action.wheel_steer_angle as int, -max_angle, max_angle),
        delta_t,
    );
    let pos = Vec2 { x: v2.position_x, y: v2.position_y };
    (v2, retained_after_s(entries, pos), sweep_value_s(entries, pos))
}

/// The model after a whole run: `inputs` applied in order from the given
/// state, with the per-step rewards summed left to right, each addition
/// saturating at the `i64` range.
pub open spec fn replay_s(
    v: VehicleState,
    entries: Seq<RewardEntry>,
    max_accelerator: int,
    max_angle: int,
    inputs: Seq<(Action, i64)>,
) -> (VehicleState, Seq<RewardEntry>, int)
    decreases inputs.len(),
{
    if inputs.len() == 0 {
        (v, entries, 0)
    } else {
        let prev = replay_s(v, entries, max_accelerator, max_angle, inputs.drop_last());
        let stepped = step_model_s(
            prev.0,
            prev.1,
            max_accelerator,
            max_angle,
            inputs.last().0,
            inputs.last().1 as int,
        );
        (stepped.0, stepped.1, sat64(prev.2 + stepped.2))
    }
}

/// The simulation environment: a vehicle, the remaining reward markers, and
/// the actuation limits, fixed for the simulator's lifetime.
#[derive(Debug)]
pub struct Simulator {
    pub state: SimState,
    pub max_accelerator: i64,
    pub max_angle: i64,
}

impl Clone for Simulator {
    /// An independent copy of the whole environment.
    fn clone(&self) -> (r: Simulator)
        ensures
            r.state.vehicle_state == self.state.vehicle_state,
            r.state.reward_points@ == self.state.reward_points@,
            r.max_accelerator == self.max_accelerator,
            r.max_angle == self.max_angle,
    {
        Simulator {
            state: self.state.clone(),
            max_accelerator: self.max_accelerator,
            max_angle: self.max_angle,
        }
    }
}

impl Simulator {
    /// The vehicle's constants are usable and the limits are magnitudes.
    pub open spec fn wf(self) -> bool {
        self.state.vehicle_state.wf() && self.max_accelerator >= 0 && self.max_angle >= 0
    }

    /// The acceleration `advance` will actually apply for `action`.
    pub open spec fn effective_acceleration_s(self, action: Action) -> int {
        clamp_s(
            action.acceleration as int,
            -(self.max_accelerator as int),
            self.max_accelerator as int,
        )
    }

    /// The steer angle `advance` will actually apply for `action`.
    pub open spec fn effective_steer_angle_s(self, action: Action) -> int {
        clamp_s(action.wheel_steer_angle as int, -(self.max_angle as int), self.max_angle as int)
    }

    /// A simulator from an initial vehicle and reward field, with the
    /// default actuation limits.
    pub fn new(initial_vehicle_state: VehicleState, reward_points: Vec<RewardEntry>) -> (sim:
        Simulator)
        requires
            initial_vehicle_state.wf(),
        ensures
            sim.state.vehicle_state == initial_vehicle_state,
            sim.state.reward_points@ == reward_points@,
            sim.max_accelerator == DEFAULT_MAX_ACCELERATOR,
            sim.max_angle == DEFAULT_MAX_ANGLE,
            sim.wf(),
    {
        Simulator {
            state: SimState { vehicle_state: initial_vehicle_state, reward_points },
            max_accelerator: DEFAULT_MAX_ACCELERATOR,
            max_angle: DEFAULT_MAX_ANGLE,
        }
    }

    /// A simulator with explicit actuation limits.
    pub fn with_limits(
        initial_vehicle_state: VehicleState,
        reward_points: Vec<RewardEntry>,
        max_accelerator: i64,
        max_angle: i64,
    ) -> (sim: Simulator)
        requires
            initial_vehicle_state.wf(),
            max_accelerator >= 0,
            max_angle >= 0,
        ensures
            sim.state.vehicle_state == initial_vehicle_state,
            sim.state.reward_points@ == reward_points@,
            sim.max_accelerator == max_accelerator,
            sim.max_angle == max_angle,
            sim.wf(),
    {
        Simulator {
            state: SimState { vehicle_state: initial_vehicle_state, reward_points },
            max_accelerator,
            max_angle,
        }
    }

    /// The current snapshot, borrowed.
    pub fn get_state(&self) -> (s: &SimState)
        ensures
            s.vehicle_state == self.state.vehicle_state,
            s.reward_points@ == self.state.reward_points@,
    {
        &self.state
    }

    /// The current snapshot, by value.
    pub fn get_state_clone(&self) -> (s: SimState)
        ensures
            s.vehicle_state == self.state.vehicle_state,
            s.reward_points@ == self.state.reward_points@,
    {
        self.state.clone()
    }

    /// One control tick: clamp the action to the limits, step the vehicle,
    /// sweep the reward field at the new position, and pay the captured
    /// values, `0` when none was captured. The limits never change.
    pub fn advance(&mut self, action: Action, delta_t: i64) -> (reward: i64)
        requires
            old(self).wf(),
            delta_t >= 0,
        ensures
            (final(self).state.vehicle_state, final(self).state.reward_points@, reward as int)
                == step_model_s(
                old(self).state.vehicle_state,
                old(self).state.reward_points@,
                old(self).max_accelerator as int,
                old(self).max_angle as int,
                action,
                delta_t as int,
            ),
            final(self).max_accelerator == old(self).max_accelerator,
            final(self).max_angle == old(self).max_angle,
            final(self).wf(),
            final(self).state.vehicle_state.speed_bounded(),
    {
        let acceleration: i64 = clamp_fx(
            action.acceleration,
            -self.max_accelerator,
            self.max_accelerator,
        );
        let wheel_steer_angle: i64 = clamp_fx(
            action.wheel_steer_angle,
            -self.max_angle,
            self.max_angle,
        );
        self.state.vehicle_state.step(acceleration, wheel_steer_angle, delta_t);
        let pos: Vec2 = self.state.vehicle_state.position();
        sweep_rewards(&mut self.state.reward_points, pos)
    }

    /// `advance` with the time step given in whole seconds.
    pub fn advance_s(&mut self, action: Action, delta_t_s: i64) -> (reward: i64)
        requires
            old(self).wf(),
            delta_t_s >= 0,
        ensures
            (final(self).state.vehicle_state, final(self).state.reward_points@, reward as int)
                == step_model_s(
                old(self).state.vehicle_state,
                old(self).state.reward_points@,
                old(self).max_accelerator as int,
                old(self).max_angle as int,
                action,
                seconds_to_fx_s(delta_t_s as int),
            ),
            final(self).max_accelerator == old(self).max_accelerator,
            final(self).max_angle == old(self).max_angle,
            final(self).wf(),
    {
        let delta_t: i64 = seconds_to_fx(delta_t_s);
        self.advance(action, delta_t)
    }
}

/// Clamping enforces the limits before integration: whatever magnitudes an
/// action requests, the applied acceleration and steer angle lie within
/// `[-max_accelerator, max_accelerator]` and `[-max_angle, max_angle]`.
pub proof fn lemma_action_clamped(sim: Simulator, action: Action)
    requires
        sim.wf(),
    ensures
        -sim.max_accelerator <= sim.effective_acceleration_s(action) <= sim.max_accelerator,
        -sim.max_angle <= sim.effective_steer_angle_s(action) <= sim.max_angle,
{
}

/// Captured markers never pay twice: after any `advance`, an idle revisit of
/// the same position (zero action over a zero time step) pays nothing and
/// leaves both the vehicle and the remaining markers exactly as they were.
pub proof fn lemma_idle_revisit_pays_nothing(
    v: VehicleState,
    entries: Seq<RewardEntry>,
    max_accelerator: int,
    max_angle: int,
    action: Action,
    delta_t: int,
)
    requires
        v.wf(),
        max_accelerator >= 0,
        max_angle >= 0,
    ensures
        ({
            let first = step_model_s(v, entries, max_accelerator, max_angle, action, delta_t);
            let second = step_model_s(
                first.0,
                first.1,
                max_accelerator,
                max_angle,
                Action { acceleration: 0, wheel_steer_angle: 0 },
                0,
            );
            second.2 == 0 && second.1 == first.1 && second.0 == first.0
        }),
{
    let first = step_model_s(v, entries, max_accelerator, max_angle, action, delta_t);
    lemma_step_speed_bounded(
        v,
        clamp_s(action.acceleration as int, -max_accelerator, max_accelerator),
        clamp_s(action.wheel_steer_angle as int, -max_angle, max_angle),
        delta_t,
    );
    lemma_step_zero_dt(first.0, 0, 0);
    let pos = Vec2 { x: first.0.position_x, y: first.0.position_y };
    lemma_rewards_consumed_once(entries, pos);
}

/// Determinism: replaying an identical `(action, delta_t)` sequence from an
/// identical initial state and identical limits reproduces an identical
/// final state and identical cumulative reward. `advance` pins its result
/// to `step_model_s` of its inputs, so runs of the simulator follow
/// `replay_s` exactly.
pub proof fn lemma_replay_deterministic(
    v1: VehicleState,
    entries1: Seq<RewardEntry>,
    max_accelerator1: int,
    max_angle1: int,
    inputs1: Seq<(Action, i64)>,
    v2: VehicleState,
    entries2: Seq<RewardEntry>,
    max_accelerator2: int,
    max_angle2: int,
    inputs2: Seq<(Action, i64)>,
)
    requires
        v1 == v2,
        entries1 == entries2,
        max_accelerator1 == max_accelerator2,
        max_angle1 == max_angle2,
        inputs1 == inputs2,
    ensures
        replay_s(v1, entries1, max_accelerator1, max_angle1, inputs1) == replay_s(
            v2,
            entries2,
            max_accelerator2,
            max_angle2,
            inputs2,
        ),
{
}

} // verus!

