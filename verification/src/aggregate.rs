//! The motion aggregator: reduces a bounded batch of raw pointer-motion
//! samples to one summary record, so that a motion-heavy burst costs one
//! persistence write instead of hundreds.
use vstd::prelude::*;

use crate::errors::AggregationError;
use crate::event::BaseEvent;
use crate::event::MouseMoveEvent;
use vstd::arithmetic::div_mod::lemma_div_is_ordered;
use vstd::arithmetic::div_mod::lemma_div_multiples_vanish;

verus! {

/// One raw pointer-motion sample, as the capture shim hands it over:
/// distances in pixels and millimetres, the direction in whole degrees,
/// the speed in the shim's fixed-point scale.
#[derive(Clone, Copy, Debug, PartialEq, Eq, Structural)]
pub struct RawMotionSample {
    pub distance_px: u32,
    pub distance_mm: u32,
    /// Direction of motion in whole degrees.
    pub angle: u16,
    pub velocity_kph: u32,
}

/// The batch's total pixel distance.
pub open spec fn batch_distance_px(s: Seq<RawMotionSample>) -> int
    decreases s.len(),
{
    if s.len() == 0 {
        0
    } else {
        batch_distance_px(s.drop_last()) + s.last().distance_px
    }
}

/// The batch's total millimetre distance.
pub open spec fn batch_distance_mm(s: Seq<RawMotionSample>) -> int
    decreases s.len(),
{
    if s.len() == 0 {
        0
    } else {
        batch_distance_mm(s.drop_last()) + s.last().distance_mm
    }
}

/// The largest per-sample velocity in the batch, 0 for an empty batch.
pub open spec fn batch_max_velocity(s: Seq<RawMotionSample>) -> int
    decreases s.len(),
{
    if s.len() == 0 {
        0
    } else if s.last().velocity_kph >= batch_max_velocity(s.drop_last()) {
        s.last().velocity_kph as int
    } else {
        batch_max_velocity(s.drop_last())
    }
}

/// The sum of each sample's angle weighted by its pixel distance.
pub open spec fn batch_weighted_angle_sum(s: Seq<RawMotionSample>) -> int
    decreases s.len(),
{
    if s.len() == 0 {
        0
    } else {
        batch_weighted_angle_sum(s.drop_last()) + s.last().angle * s.last().distance_px
    }
}

/// The batch's distance-weighted circular mean angle, defined as 0 when
/// the total distance is 0.
pub open spec fn batch_angle(s: Seq<RawMotionSample>) -> int {
    if batch_distance_px(s) == 0 {
        0
    } else {
        batch_weighted_angle_sum(s) / batch_distance_px(s)
    }
}

/// Every partial sum stays within what the batch length allows: the
/// distances within `len * u32::MAX`, the weighted angle sum within
/// `len * u16::MAX * u32::MAX`, and the weighted angle sum within
/// `u16::MAX` times the pixel distance.
proof fn lemma_batch_bounds(s: Seq<RawMotionSample>)
    ensures
        0 <= batch_distance_px(s) <= s.len() * u32::MAX,
        0 <= batch_distance_mm(s) <= s.len() * u32::MAX,
        0 <= batch_weighted_angle_sum(s) <= s.len() * (u16::MAX as int * u32::MAX as int),
        batch_weighted_angle_sum(s) <= u16::MAX * batch_distance_px(s),
        0 <= batch_max_velocity(s) <= u32::MAX,
    decreases s.len(),
{
    if s.len() > 0 {
        lemma_batch_bounds(s.drop_last());
        assert(s.last().angle * s.last().distance_px <= u16::MAX as int * u32::MAX as int) by (
        nonlinear_arith)
            requires
                s.last().angle <= u16::MAX,
                s.last().distance_px <= u32::MAX,
                s.last().angle >= 0,
                s.last().distance_px >= 0,
        ;
        assert(s.last().angle * s.last().distance_px <= u16::MAX * s.last().distance_px) by (
        nonlinear_arith)
            requires
                s.last().angle <= u16::MAX,
                s.last().distance_px >= 0,
        ;
        assert((s.len() - 1) * u32::MAX + u32::MAX == s.len() * u32::MAX) by (nonlinear_arith);
        assert((s.len() - 1) * (u16::MAX as int * u32::MAX as int) + u16::MAX as int
            * u32::MAX as int == s.len() * (u16::MAX as int * u32::MAX as int)) by (
        nonlinear_arith);
    }
}

/// The aggregate angle never exceeds the largest possible sample angle.
proof fn lemma_batch_angle_bound(s: Seq<RawMotionSample>)
    ensures
        0 <= batch_angle(s) <= u16::MAX,
{
    lemma_batch_bounds(s);
    if batch_distance_px(s) != 0 {
        let w = batch_weighted_angle_sum(s);
        let d = batch_distance_px(s);
        lemma_div_is_ordered(w, u16::MAX * d, d);
        lemma_div_multiples_vanish(u16::MAX as int, d);
        vstd::arithmetic::div_mod::lemma_div_pos_is_pos(w, d);
    }
}

/// Reduces a batch of at most 255 motion samples, captured in one
/// callback window, to the one summary event that reaches persistence:
/// distances are summed, the velocity is the per-sample maximum, the
/// angle is the distance-weighted mean (0 when the batch covered no
/// distance), and the base is kept with the batch length as its
/// aggregate count. An empty batch is the caller breaking its contract
/// and is refused loudly.
pub fn aggregate_motion(base: BaseEvent, samples: &Vec<RawMotionSample>) -> (r: Result<
    MouseMoveEvent,
    AggregationError,
>)
    requires
        samples@.len() <= 255,
    ensures
        r is Err <==> samples@.len() == 0,
        r is Err ==> r == Err::<MouseMoveEvent, AggregationError>(AggregationError::EmptyBatch),
        r matches Ok(e) ==> {
            &&& e.distance_px == batch_distance_px(samples@)
            &&& e.distance_mm == batch_distance_mm(samples@)
            &&& e.velocity_kph == batch_max_velocity(samples@)
            &&& e.angle == batch_angle(samples@)
            &&& e.base == (BaseEvent { aggregate_count: Some(samples@.len() as u8), ..base })
        },
{
    if samples.len() == 0 {
        return Err(AggregationError::EmptyBatch);
    }
    let ghost all = samples@;
    let mut sum_px: u64 = 0;
    let mut sum_mm: u64 = 0;
    let mut weighted: u64 = 0;
    let mut max_v: u32 = 0;
    let n = samples.len();
    for i in 0..n
        invariant
            n == all.len(),
            all.len() <= 255,
            all == samples@,
            sum_px == batch_distance_px(all.take(i as int)),
            sum_mm == batch_distance_mm(all.take(i as int)),
            weighted == batch_weighted_angle_sum(all.take(i as int)),
            max_v == batch_max_velocity(all.take(i as int)),
    {
        proof {
            assert(all.take(i + 1).drop_last() =~= all.take(i as int));
            assert(all.take(i + 1).last() == all[i as int]);
            lemma_batch_bounds(all.take(i + 1));
        }
        let s = samples[i];
        sum_px = sum_px + s.distance_px as u64;
        sum_mm = sum_mm + s.distance_mm as u64;
        weighted = weighted + (s.angle as u64) * (s.distance_px as u64);
        if s.velocity_kph > max_v {
            max_v = s.velocity_kph;
        }
    }
    proof {
        assert(all.take(n as int) =~= all);
        lemma_batch_angle_bound(all);
    }
    let angle: u16 = if sum_px == 0 {
        0
    } else {
        (weighted / sum_px) as u16
    };
    Ok(
        MouseMoveEvent {
            base: BaseEvent { aggregate_count: Some(n as u8), ..base },
            distance_px: sum_px,
            distance_mm: sum_mm,
            angle,
            velocity_kph: max_v,
        },
    )
}

} // verus!
