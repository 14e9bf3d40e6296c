//! Poses as weighted sums of clip samples.
//!
//! A pose says which clips are sampled, at which position, and with which
//! share each enters the result. Turning the samples into bone transforms is
//! left to whoever owns the skeleton.

use vstd::arithmetic::div_mod::{lemma_div_is_ordered, lemma_div_multiples_vanish};
use vstd::prelude::*;

verus! {

/// The whole of a pose: a weight of one, in millionths.
pub const WEIGHT_ONE: u32 = 1_000_000;

/// One clip sample in a pose.
#[derive(Copy, Clone, Debug, PartialEq, Eq, Structural)]
pub struct PoseTerm {
    /// Which clip is sampled.
    pub clip: usize,
    /// The position at which it is sampled, in microseconds.
    pub time: u64,
    /// The share of the sample in millionths.
    pub weight: u32,
}

/// A weight held to at most the whole.
pub open spec fn clamp_weight(weight: u32) -> u32 {
    if weight > WEIGHT_ONE {
        WEIGHT_ONE
    } else {
        weight
    }
}

/// The share `by` of the weight `weight`, rounded down.
pub open spec fn scale_weight(weight: u32, by: u32) -> u32 {
    ((weight as int * clamp_weight(by) as int) / (WEIGHT_ONE as int)) as u32
}

/// The pose `pose` with each of its weights scaled by `by`.
pub open spec fn scaled(pose: Seq<PoseTerm>, by: u32) -> Seq<PoseTerm> {
    Seq::new(
        pose.len(),
        |i: int| PoseTerm { weight: scale_weight(pose[i].weight, by), ..pose[i] },
    )
}

/// How far a blend that takes `duration` has come after `elapsed`: nothing
/// at its start, the whole at its end, and in proportion between.
pub open spec fn fade_weight(elapsed: u32, duration: u32) -> u32 {
    if duration == 0 || elapsed >= duration {
        WEIGHT_ONE
    } else {
        ((elapsed as int * WEIGHT_ONE as int) / (duration as int)) as u32
    }
}

/// The time that a blend has run after a frame of `dt`: it does not run
/// beyond its duration.
pub open spec fn elapsed_after(elapsed: u32, dt: u32, duration: u32) -> u32 {
    if elapsed + dt >= duration {
        duration
    } else {
        (elapsed + dt) as u32
    }
}

/// The mix of two poses in which `second` has the share `weight` and `first`
/// has the rest.
pub open spec fn mixed(first: Seq<PoseTerm>, second: Seq<PoseTerm>, weight: u32) -> Seq<PoseTerm> {
    scaled(first, (WEIGHT_ONE - clamp_weight(weight)) as u32) + scaled(second, weight)
}

/// A scaled weight is no larger than the weight.
pub proof fn lemma_scale_weight_bound(weight: u32, by: u32)
    ensures
        (weight as int * clamp_weight(by) as int) / (WEIGHT_ONE as int) <= weight,
        0 <= (weight as int * clamp_weight(by) as int) / (WEIGHT_ONE as int),
        by >= WEIGHT_ONE ==> scale_weight(weight, by) == weight,
        by == 0 ==> scale_weight(weight, by) == 0,
{
    let k = clamp_weight(by) as int;
    let one = WEIGHT_ONE as int;
    assert(0 <= weight as int * k <= weight as int * one) by (nonlinear_arith)
        requires
            0 <= k <= one,
            0 <= weight as int,
    ;
    lemma_div_is_ordered(weight as int * k, weight as int * one, one);
    lemma_div_is_ordered(0, weight as int * k, one);
    lemma_div_multiples_vanish(weight as int, one);
    assert(weight as int * one == one * weight as int) by (nonlinear_arith);
    if by == 0 {
        assert(weight as int * k == 0) by (nonlinear_arith)
            requires
                k == 0,
        ;
    }
}

/// A blend's weight lies between nothing and the whole; it is nothing when
/// the blend begins and the whole when its duration is over.
pub proof fn lemma_fade_weight_bounds(elapsed: u32, duration: u32)
    ensures
        0 <= fade_weight(elapsed, duration) <= WEIGHT_ONE,
        duration > 0 ==> fade_weight(0, duration) == 0,
        elapsed >= duration ==> fade_weight(elapsed, duration) == WEIGHT_ONE,
        elapsed < duration ==> fade_weight(elapsed, duration) == (elapsed as int * WEIGHT_ONE as int)
            / (duration as int),
        elapsed < duration ==> fade_weight(elapsed, duration) < WEIGHT_ONE,
{
    let one = WEIGHT_ONE as int;
    if duration > 0 && elapsed < duration {
        let d = duration as int;
        let e = elapsed as int;
        assert(0 <= e * one <= (d - 1) * one) by (nonlinear_arith)
            requires
                0 <= e <= d - 1,
                one >= 0,
        ;
        lemma_div_is_ordered(0, e * one, d);
        lemma_div_is_ordered(e * one, (d - 1) * one, d);
        assert((d - 1) * one == one * d - one) by (nonlinear_arith);
        assert((one * d - one) / d < one) by {
            if (one * d - one) / d >= one {
                vstd::arithmetic::div_mod::lemma_fundamental_div_mod(one * d - one, d);
                let q = (one * d - one) / d;
                assert(d * q >= d * one) by (nonlinear_arith)
                    requires
                        q >= one,
                        d > 0,
                ;
                assert(d * one == one * d) by (nonlinear_arith);
            }
        }
    }
    if duration > 0 {
        assert(0int * one == 0);
        vstd::arithmetic::div_mod::lemma_div_basics_1(duration as int);
    }
}

/// A blend's weight never falls while the blend runs.
pub proof fn lemma_fade_weight_monotone(earlier: u32, later: u32, duration: u32)
    requires
        earlier <= later,
    ensures
        fade_weight(earlier, duration) <= fade_weight(later, duration),
{
    lemma_fade_weight_bounds(earlier, duration);
    lemma_fade_weight_bounds(later, duration);
    if duration > 0 && later < duration {
        let one = WEIGHT_ONE as int;
        assert(earlier as int * one <= later as int * one) by (nonlinear_arith)
            requires
                earlier <= later,
                one >= 0,
        ;
        lemma_div_is_ordered(earlier as int * one, later as int * one, duration as int);
    }
}

/// Holds a weight to at most the whole.
pub fn clamped(weight: u32) -> (w: u32)
    ensures
        w == clamp_weight(weight),
{
    if weight > WEIGHT_ONE {
        WEIGHT_ONE
    } else {
        weight
    }
}

/// Computes how far a blend has come.
pub fn blend_weight(elapsed: u32, duration: u32) -> (w: u32)
    ensures
        w == fade_weight(elapsed, duration),
        w <= WEIGHT_ONE,
{
    proof {
        lemma_fade_weight_bounds(elapsed, duration);
    }
    if duration == 0 || elapsed >= duration {
        WEIGHT_ONE
    } else {
        ((elapsed as u64 * WEIGHT_ONE as u64) / (duration as u64)) as u32
    }
}

/// Computes the time a blend has run after one more frame.
pub fn run_on(elapsed: u32, dt: u32, duration: u32) -> (e: u32)
    ensures
        e == elapsed_after(elapsed, dt, duration),
{
    if elapsed as u64 + dt as u64 >= duration as u64 {
        duration
    } else {
        elapsed + dt
    }
}

/// Appends to `into` the terms of `pose`, each weight scaled by `by`.
pub fn append_scaled(into: &mut Vec<PoseTerm>, pose: &Vec<PoseTerm>, by: u32)
    ensures
        final(into)@ == old(into)@ + scaled(pose@, by),
{
    let k: u64 = clamped(by) as u64;
    let mut i: usize = 0;
    while i < pose.len()
        invariant
            i <= pose@.len(),
            k == clamp_weight(by),
            into@ == old(into)@ + scaled(pose@, by).take(i as int),
        decreases pose@.len() - i,
    {
        let term = pose[i];
        proof {
            lemma_scale_weight_bound(term.weight, by);
            assert(term.weight as int * k as int <= 0xffff_ffff * 1_000_000) by (nonlinear_arith)
                requires
                    0 <= term.weight as int <= 0xffff_ffff,
                    0 <= k as int <= 1_000_000,
            ;
        }
        let weight: u32 = ((term.weight as u64 * k) / (WEIGHT_ONE as u64)) as u32;
        into.push(PoseTerm { clip: term.clip, time: term.time, weight });
        i += 1;
        assert(into@ =~= old(into)@ + scaled(pose@, by).take(i as int));
    }
    assert(scaled(pose@, by).take(i as int) =~= scaled(pose@, by));
}

/// Mixes two poses: `second` gets the share `weight`, `first` the rest.
pub fn mix(first: &Vec<PoseTerm>, second: &Vec<PoseTerm>, weight: u32) -> (pose: Vec<PoseTerm>)
    ensures
        pose@ == mixed(first@, second@, weight),
{
    let mut pose: Vec<PoseTerm> = Vec::new();
    append_scaled(&mut pose, first, WEIGHT_ONE - clamped(weight));
    append_scaled(&mut pose, second, weight);
    assert(pose@ =~= mixed(first@, second@, weight));
    pose
}

/// Copies a pose.
pub fn copy_pose(pose: &Vec<PoseTerm>) -> (copy: Vec<PoseTerm>)
    ensures
        copy@ == pose@,
{
    let mut copy: Vec<PoseTerm> = Vec::new();
    let mut i: usize = 0;
    while i < pose.len()
        invariant
            i <= pose@.len(),
            copy@ == pose@.take(i as int),
        decreases pose@.len() - i,
    {
        copy.push(pose[i]);
        i += 1;
        assert(copy@ =~= pose@.take(i as int));
    }
    assert(pose@.take(i as int) =~= pose@);
    copy
}

} // verus!
