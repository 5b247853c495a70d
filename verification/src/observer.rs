//! Pluggable observation extraction.
//!
//! An observer maps a read-only snapshot to a task-specific observation
//! without the simulator depending on the observation's shape. The
//! reference observer reports the vehicle's speed together with the
//! distance and the signed heading-relative angle to one selected reward
//! marker. Which marker is selected is an explicit, named policy: the
//! fold keeps the first marker whose distance beats the best so far
//! strictly, so ties keep the earlier marker and the scan is
//! deterministic.

use vstd::prelude::*;

use crate::dynamics::VehicleState;
use crate::fixed::{isqrt, sat64, sqrt_floor};
use crate::reward::RewardEntry;
use crate::sim::SimState;
use crate::trig::{atan2_fx, atan2_fx_s, cos_fx, cos_fx_s, sin_fx, sin_fx_s};
use crate::vec2::{dist2_sat, dist2_sat_s, Vec2};

verus! {

/// Which reward marker the reference observer reports on.
///
/// `Farthest` keeps the marker with the largest distance, as the fold it
/// replaces did; `Nearest` keeps the smallest. Both are provided so the
/// choice is a visible, tested decision rather than an accident of the
/// fold's comparison.
#[derive(Clone, Copy, Debug, PartialEq, Eq, Structural)]
pub enum SelectionPolicy {
    Nearest,
    Farthest,
}

/// What an observer hands back: the vehicle's speed, the distance to the
/// selected marker, and the signed angle from the heading vector to the
/// vector toward that marker. With no markers left, distance and angle are
/// both zero (the zero-vector case is defined, not an error).
#[derive(Clone, Copy, Debug, PartialEq, Eq, Structural)]
pub struct Observation {
    pub speed: i64,
    pub distance_to_reward: i64,
    pub angle_to_reward: i64,
}

/// Whether a candidate at squared distance `cand` beats the best so far at
/// squared distance `best`, strictly, under `policy`.
pub open spec fn better_candidate_s(policy: SelectionPolicy, cand: int, best: int) -> bool {
    match policy {
        SelectionPolicy::Nearest => cand < best,
        SelectionPolicy::Farthest => cand > best,
    }
}

/// The marker the observer selects: a left-to-right fold keeping the first
/// marker that strictly beats the best so far; `None` on an empty field.
/// Distances are compared squared, saturated at the `u128` range.
pub open spec fn select_target_s(
    entries: Seq<RewardEntry>,
    p: Vec2,
    policy: SelectionPolicy,
) -> Option<RewardEntry>
    decreases entries.len(),
{
    if entries.len() == 0 {
        None
    } else {
        let prev = select_target_s(entries.drop_last(), p, policy);
        let e = entries.last();
        match prev {
            None => Some(e),
            Some(b) => if better_candidate_s(
                policy,
                dist2_sat_s(e.position, p),
                dist2_sat_s(b.position, p),
            ) {
                Some(e)
            } else {
                Some(b)
            },
        }
    }
}

/// The distance the observer reports: the rounded-down Euclidean distance
/// to the selected marker, `0` with no marker left.
pub open spec fn distance_observed_s(
    v: VehicleState,
    entries: Seq<RewardEntry>,
    policy: SelectionPolicy,
) -> int {
    let pos = Vec2 { x: v.position_x, y: v.position_y };
    match select_target_s(entries, pos, policy) {
        None => 0,
        Some(e) => sat64(sqrt_floor(dist2_sat_s(e.position, pos))),
    }
}

/// The angle the observer reports: the signed angle from the heading
/// vector `(cos(angle), sin(angle))` to the vector toward the selected
/// marker, in `(-PI_FX, PI_FX]`; `0` with no marker left.
pub open spec fn angle_observed_s(
    v: VehicleState,
    entries: Seq<RewardEntry>,
    policy: SelectionPolicy,
) -> int {
    let pos = Vec2 { x: v.position_x, y: v.position_y };
    match select_target_s(entries, pos, policy) {
        None => 0,
        Some(e) => {
            let vx = e.position.x - pos.x;
            let vy = e.position.y - pos.y;
            let ch = cos_fx_s(v.angle as int);
            let sh = sin_fx_s(v.angle as int);
            atan2_fx_s(ch * vy - sh * vx, ch * vx + sh * vy)
        },
    }
}

/// The fold selects a marker of the field, and none in the field beats it
/// under the policy: the farthest (or nearest) marker is indeed selected.
pub proof fn lemma_selected_is_extreme(entries: Seq<RewardEntry>, p: Vec2, policy: SelectionPolicy)
    ensures
        select_target_s(entries, p, policy) matches Some(b) ==> entries.contains(b) && forall|
            j: int,
        |
            0 <= j < entries.len() ==> !better_candidate_s(
                policy,
                dist2_sat_s(#[trigger] entries[j].position, p),
                dist2_sat_s(b.position, p),
            ),
        select_target_s(entries, p, policy) is None ==> entries.len() == 0,
    decreases entries.len(),
{
    if entries.len() > 0 {
        lemma_selected_is_extreme(entries.drop_last(), p, policy);
        let e = entries.last();
        if let Some(b) = select_target_s(entries, p, policy) {
            if entries.drop_last().contains(b) {
                let i = choose|i: int|
                    0 <= i < entries.drop_last().len() && entries.drop_last()[i] == b;
                assert(entries[i] == b);
            }
            assert forall|j: int| 0 <= j < entries.len() implies !better_candidate_s(
                policy,
                dist2_sat_s(#[trigger] entries[j].position, p),
                dist2_sat_s(b.position, p),
            ) by {
                if j < entries.len() - 1 {
                    assert(entries.drop_last()[j] == entries[j]);
                }
            }
        }
    }
}

fn better_candidate(policy: SelectionPolicy, cand: u128, best: u128) -> (r: bool)
    ensures
        r == better_candidate_s(policy, cand as int, best as int),
{
    match policy {
        SelectionPolicy::Nearest => cand < best,
        SelectionPolicy::Farthest => cand > best,
    }
}

/// The marker the observer reports on, under `policy`.
pub fn select_target(entries: &Vec<RewardEntry>, p: Vec2, policy: SelectionPolicy) -> (r: Option<
    RewardEntry,
>)
    ensures
        r == select_target_s(entries@, p, policy),
{
    let n: usize = entries.len();
    let mut best: Option<RewardEntry> = None;
    let mut best_d2: u128 = 0;
    let mut i: usize = 0;
    while i < n
        invariant
            i <= n,
            n == entries@.len(),
            best == select_target_s(entries@.take(i as int), p, policy),
            best matches Some(b) ==> best_d2 as int == dist2_sat_s(b.position, p),
        decreases n - i,
    {
        let e: RewardEntry = entries[i];
        proof {
            assert(entries@.take(i as int + 1).drop_last() =~= entries@.take(i as int));
            assert(entries@.take(i as int + 1).last() == entries@[i as int]);
        }
        let d2: u128 = dist2_sat(e.position, p);
        match best {
            None => {
                best = Some(e);
                best_d2 = d2;
            },
            Some(_) => {
                if better_candidate(policy, d2, best_d2) {
                    best = Some(e);
                    best_d2 = d2;
                }
            },
        }
        i = i + 1;
    }
    proof {
        assert(entries@.take(n as int) =~= entries@);
    }
    best
}

/// The reference observation for a snapshot, under an explicit selection
/// policy: speed, distance to the selected marker, and the signed
/// heading-relative angle toward it.
pub fn observe_heading_relative(state: &SimState, policy: SelectionPolicy) -> (obs: Observation)
    ensures
        obs.speed == state.vehicle_state.speed,
        obs.distance_to_reward as int == distance_observed_s(
            state.vehicle_state,
            state.reward_points@,
            policy,
        ),
        obs.angle_to_reward as int == angle_observed_s(
            state.vehicle_state,
            state.reward_points@,
            policy,
        ),
{
    let pos: Vec2 = state.vehicle_state.position();
    let sel: Option<RewardEntry> = select_target(&state.reward_points, pos, policy);
    match sel {
        None => Observation {
            speed: state.vehicle_state.speed,
            distance_to_reward: 0,
            angle_to_reward: 0,
        },
        Some(e) => {
            let d2: u128 = dist2_sat(e.position, pos);
            let n: u64 = isqrt(d2);
            let distance: i64 = if n > i64::MAX as u64 {
                i64::MAX
            } else {
                n as i64
            };
            let ch: i64 = cos_fx(state.vehicle_state.angle);
            let sh: i64 = sin_fx(state.vehicle_state.angle);
            let vx: i128 = (e.position.x as i128) - (pos.x as i128);
            let vy: i128 = (e.position.y as i128) - (pos.y as i128);
            proof {
                assert(-18446744073709551616000 <= (ch as int) * (vy as int)
                    <= 18446744073709551616000 && -18446744073709551616000 <= (sh as int) * (
                vx as int) <= 18446744073709551616000 && -18446744073709551616000 <= (ch as int) * (
                vx as int) <= 18446744073709551616000 && -18446744073709551616000 <= (sh as int) * (
                vy as int) <= 18446744073709551616000) by (nonlinear_arith)
                    requires
                        -1000 <= ch <= 1000,
                        -1000 <= sh <= 1000,
                        -18446744073709551616 <= vx <= 18446744073709551616,
                        -18446744073709551616 <= vy <= 18446744073709551616,
                ;
            }
            let cross: i128 = (ch as i128) * vy - (sh as i128) * vx;
            let dot: i128 = (ch as i128) * vx + (sh as i128) * vy;
            let angle: i64 = atan2_fx(cross, dot);
            Observation {
                speed: state.vehicle_state.speed,
                distance_to_reward: distance,
                angle_to_reward: angle,
            }
        },
    }
}

/// Anything that can turn a snapshot into an observation. The simulator
/// never depends on a concrete observation shape; tasks plug in their own
/// extractor.
pub trait Observer {
    /// The observation for the given snapshot.
    fn observe(&self, state: &SimState) -> Observation;
}

/// The reference observer: heading-relative distance and angle to one
/// marker, selected by the configured policy.
#[derive(Clone, Copy, Debug, PartialEq, Eq, Structural)]
pub struct HeadingRelativeObserver {
    pub policy: SelectionPolicy,
}

impl HeadingRelativeObserver {
    /// An observer with the given selection policy. The fold this observer
    /// replaces kept the farthest marker; build with
    /// `SelectionPolicy::Farthest` to match it.
    pub fn new(policy: SelectionPolicy) -> (o: HeadingRelativeObserver)
        ensures
            o.policy == policy,
    {
        HeadingRelativeObserver { policy }
    }
}

impl Observer for HeadingRelativeObserver {
    fn observe(&self, state: &SimState) -> Observation {
        observe_heading_relative(state, self.policy)
    }
}

} // verus!
