//! Reward markers with consume-on-capture semantics.
//!
//! A marker is captured the first time the vehicle's position lies strictly
//! within the capture radius of the marker's position; captured markers are
//! removed and never reappear. One sweep removes every captured marker and
//! sums their values; the remaining markers keep their relative order.

use vstd::prelude::*;

use crate::fixed::{sat64, sat_add, SCALE};
use crate::vec2::{dist2_s, within_radius, Vec2};

verus! {

/// Distance within which a marker is collected, in raw ticks (50 units).
pub const CAPTURE_RADIUS: i64 = 50 * SCALE;

/// A stationary marker: a position and the value it pays when captured.
#[derive(Clone, Copy, Debug, PartialEq, Eq, Structural)]
pub struct RewardEntry {
    pub position: Vec2,
    pub value: i64,
}

impl RewardEntry {
    /// A marker from its position and value.
    pub fn new(position: Vec2, value: i64) -> (e: RewardEntry)
        ensures
            e == (RewardEntry { position, value }),
    {
        RewardEntry { position, value }
    }
}

/// Whether the vehicle at `p` captures the marker `e`.
pub open spec fn captured_s(e: RewardEntry, p: Vec2) -> bool {
    dist2_s(e.position, p) < (CAPTURE_RADIUS as int) * (CAPTURE_RADIUS as int)
}

/// The markers that survive a sweep at `p`, in their original order.
pub open spec fn retained_after_s(entries: Seq<RewardEntry>, p: Vec2) -> Seq<RewardEntry>
    decreases entries.len(),
{
    if entries.len() == 0 {
        Seq::empty()
    } else {
        let rest = retained_after_s(entries.drop_last(), p);
        if captured_s(entries.last(), p) {
            rest
        } else {
            rest.push(entries.last())
        }
    }
}

/// The reward paid by a sweep at `p`: the captured values summed left to
/// right, each addition saturating at the `i64` range.
pub open spec fn sweep_value_s(entries: Seq<RewardEntry>, p: Vec2) -> int
    decreases entries.len(),
{
    if entries.len() == 0 {
        0
    } else {
        let acc = sweep_value_s(entries.drop_last(), p);
        if captured_s(entries.last(), p) {
            sat64(acc + entries.last().value)
        } else {
            acc
        }
    }
}

/// One sweep: removes every captured marker from `entries` and returns the
/// sum of their values, `0` when none is captured.
pub fn sweep_rewards(entries: &mut Vec<RewardEntry>, p: Vec2) -> (reward: i64)
    ensures
        final(entries)@ == retained_after_s(old(entries)@, p),
        reward as int == sweep_value_s(old(entries)@, p),
{
    let n: usize = entries.len();
    let mut kept: Vec<RewardEntry> = Vec::new();
    let mut total: i64 = 0;
    let mut i: usize = 0;
    while i < n
        invariant
            i <= n,
            n == entries@.len(),
            entries@ == old(entries)@,
            kept@ == retained_after_s(entries@.take(i as int), p),
            total as int == sweep_value_s(entries@.take(i as int), p),
        decreases n - i,
    {
        let e: RewardEntry = entries[i];
        proof {
            assert(entries@.take(i as int + 1).drop_last() =~= entries@.take(i as int));
            assert(entries@.take(i as int + 1).last() == entries@[i as int]);
        }
        if within_radius(e.position, p, CAPTURE_RADIUS) {
            total = sat_add(total, e.value);
        } else {
            kept.push(e);
        }
        i = i + 1;
    }
    proof {
        assert(entries@.take(n as int) =~= entries@);
    }
    *entries = kept;
    total
}

/// No marker that survives a sweep at `p` is within capture range of `p`.
pub proof fn lemma_retained_not_captured(entries: Seq<RewardEntry>, p: Vec2)
    ensures
        forall|j: int|
            0 <= j < retained_after_s(entries, p).len() ==> !captured_s(
                #[trigger] retained_after_s(entries, p)[j],
                p,
            ),
    decreases entries.len(),
{
    if entries.len() > 0 {
        lemma_retained_not_captured(entries.drop_last(), p);
        let rest = retained_after_s(entries.drop_last(), p);
        let e = entries.last();
        assert forall|j: int|
            0 <= j < retained_after_s(entries, p).len() implies !captured_s(
            retained_after_s(entries, p)[j],
            p,
        ) by {
            if captured_s(e, p) {
                assert(retained_after_s(entries, p)[j] == rest[j]);
            } else {
                if j < rest.len() {
                    assert(retained_after_s(entries, p)[j] == rest[j]);
                } else {
                    assert(retained_after_s(entries, p)[j] == e);
                }
            }
        }
    }
}

/// The sweep retains exactly the markers outside capture range, as a filter
/// of the original sequence; removal never reorders.
pub proof fn lemma_retained_is_filter(entries: Seq<RewardEntry>, p: Vec2)
    ensures
        retained_after_s(entries, p) == entries.filter(|e: RewardEntry| !captured_s(e, p)),
    decreases entries.len(),
{
    reveal(Seq::filter);
    if entries.len() == 0 {
        assert(retained_after_s(entries, p) =~= entries.filter(
            |e: RewardEntry| !captured_s(e, p),
        ));
    } else {
        lemma_retained_is_filter(entries.drop_last(), p);
    }
}

/// Markers are consumed at most once: sweeping again at the same position
/// pays nothing and removes nothing.
pub proof fn lemma_rewards_consumed_once(entries: Seq<RewardEntry>, p: Vec2)
    ensures
        sweep_value_s(retained_after_s(entries, p), p) == 0,
        retained_after_s(retained_after_s(entries, p), p) == retained_after_s(entries, p),
    decreases entries.len(),
{
    if entries.len() == 0 {
    } else {
        lemma_rewards_consumed_once(entries.drop_last(), p);
        let rest = retained_after_s(entries.drop_last(), p);
        let e = entries.last();
        if !captured_s(e, p) {
            assert(rest.push(e).drop_last() =~= rest);
            assert(rest.push(e).last() == e);
            assert(retained_after_s(rest, p).push(e) =~= rest.push(e));
        }
    }
}

} // verus!
