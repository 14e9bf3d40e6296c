//! Animation clips: a position that runs along a length of time, and
//! signals that fire when the position passes them.
//!
//! A position and a signal's place are counted in microseconds from the
//! start of the clip. A frame's time step is given in milliseconds and a
//! clip's speed in thousandths, so that in a frame of `dt` milliseconds a clip
//! of speed `s` travels `dt * s` microseconds.

use vstd::arithmetic::div_mod::{
    lemma_add_mod_noop,
    lemma_basic_div,
    lemma_div_is_ordered,
    lemma_div_nonincreasing,
    lemma_div_plus_one,
    lemma_fundamental_div_mod,
    lemma_fundamental_div_mod_converse,
    lemma_mod_twice,
    lemma_small_mod,
};
use vstd::prelude::*;

verus! {

/// The speed at which a clip travels one millisecond per millisecond.
pub const SPEED_UNIT: u32 = 1000;

/// How far a clip of speed `speed` travels in a frame of `dt` milliseconds.
pub open spec fn travel(dt: u32, speed: u32) -> nat {
    (dt * speed) as nat
}

/// Whether `time` is a position that a clip of this length can be at.
/// A looped clip is never at its end: it is at its start instead.
pub open spec fn position_ok(time: nat, length: nat, looped: bool) -> bool {
    time <= length && (looped && length > 0 ==> time < length)
}

/// Where a clip stands after it has travelled `travel` from `time`:
/// a looped clip wraps round its length, another stops at its end.
pub open spec fn position_after(time: nat, travel: nat, length: nat, looped: bool) -> nat {
    if looped {
        if length == 0 {
            0
        } else {
            (time + travel) % length
        }
    } else if time + travel >= length {
        length
    } else {
        time + travel
    }
}

/// Whether a clip at `time` has played to its end. A looped clip never has.
pub open spec fn ended(time: nat, length: nat, looped: bool) -> bool {
    !looped && time == length
}

/// The number of the lap in which the place `at` was last passed when a
/// looped clip has travelled to `x` on a time line that does not wrap;
/// -1 before the place is first reached.
pub open spec fn lap_index(x: int, at: int, length: int) -> int {
    (x - at) / length
}

/// How often a clip passes the place `at` while it travels `travel` from
/// `time`. The place is passed when the position moves from before it to it
/// or beyond; a looped clip passes it once in every lap. A place beyond the
/// end of the clip is never passed.
pub open spec fn crossings(time: nat, travel: nat, at: nat, length: nat, looped: bool) -> nat {
    if at > length {
        0
    } else if looped {
        if length == 0 {
            0
        } else {
            (lap_index((time + travel) as int, at as int, length as int) - lap_index(
                time as int,
                at as int,
                length as int,
            )) as nat
        }
    } else if time < at && at <= time + travel {
        1
    } else {
        0
    }
}

/// The sum of a list of distances.
pub open spec fn total(travels: Seq<nat>) -> nat
    decreases travels.len(),
{
    if travels.len() == 0 {
        0
    } else {
        total(travels.drop_last()) + travels.last()
    }
}

/// Where a clip stands after it has travelled each of `travels` in turn.
pub open spec fn position_after_all(time: nat, travels: Seq<nat>, length: nat, looped: bool) -> nat
    decreases travels.len(),
{
    if travels.len() == 0 {
        time
    } else {
        position_after(
            position_after_all(time, travels.drop_last(), length, looped),
            travels.last(),
            length,
            looped,
        )
    }
}

/// How often a clip passes the place `at` while it travels each of
/// `travels` in turn.
pub open spec fn crossings_over(
    time: nat,
    travels: Seq<nat>,
    at: nat,
    length: nat,
    looped: bool,
) -> nat
    decreases travels.len(),
{
    if travels.len() == 0 {
        0
    } else {
        crossings_over(time, travels.drop_last(), at, length, looped) + crossings(
            position_after_all(time, travels.drop_last(), length, looped),
            travels.last(),
            at,
            length,
            looped,
        )
    }
}

/// Travelling keeps a clip at a position it can be at.
pub proof fn lemma_position_after_ok(time: nat, travel: nat, length: nat, looped: bool)
    requires
        position_ok(time, length, looped),
    ensures
        position_ok(position_after(time, travel, length, looped), length, looped),
{
    if looped && length > 0 {
        lemma_fundamental_div_mod((time + travel) as int, length as int);
        assert(0 <= (time + travel) as int % (length as int) < length);
    }
}

/// Two journeys in a row end where one journey of their joint length ends.
pub proof fn lemma_position_after_sum(
    time: nat,
    first: nat,
    second: nat,
    length: nat,
    looped: bool,
)
    requires
        position_ok(time, length, looped),
    ensures
        position_after(position_after(time, first, length, looped), second, length, looped)
            == position_after(time, first + second, length, looped),
{
    if looped && length > 0 {
        let l = length as int;
        let x = (time + first) as int;
        lemma_add_mod_noop(x, second as int, l);
        lemma_add_mod_noop(x % l, second as int, l);
        lemma_mod_twice(x, l);
    }
}

/// A looped clip's lap index falls by `laps` when the time line is moved
/// back by that many laps.
proof fn lemma_lap_index_shift(x: int, at: int, length: int, laps: int)
    requires
        length > 0,
    ensures
        lap_index(x - laps * length, at, length) == lap_index(x, at, length) - laps,
{
    let q = (x - at) / length;
    let r = (x - at) % length;
    lemma_fundamental_div_mod(x - at, length);
    assert(0 <= r < length);
    assert(x - laps * length - at == (q - laps) * length + r) by (nonlinear_arith)
        requires
            x - at == length * q + r,
    ;
    lemma_fundamental_div_mod_converse(x - laps * length - at, length, q - laps, r);
}

/// The lap index does not fall as the clip travels on.
proof fn lemma_lap_index_monotone(x: int, y: int, at: int, length: int)
    requires
        length > 0,
        x <= y,
    ensures
        lap_index(x, at, length) <= lap_index(y, at, length),
{
    lemma_div_is_ordered(x - at, y - at, length);
}

/// The lap index of a position inside the clip: 0 from the place on, -1
/// before it.
proof fn lemma_lap_index_inside(time: int, at: int, length: int)
    requires
        length > 0,
        0 <= time < length,
        0 <= at <= length,
    ensures
        lap_index(time, at, length) == (if time >= at {
            0int
        } else {
            -1int
        }),
{
    if time >= at {
        lemma_basic_div(time - at, length);
    } else {
        assert(time - at == (-1) * length + (time - at + length));
        lemma_fundamental_div_mod_converse(time - at, length, -1, time - at + length);
    }
}

/// Two journeys in a row pass a place as often as one journey of their
/// joint length does.
pub proof fn lemma_crossings_sum(
    time: nat,
    first: nat,
    second: nat,
    at: nat,
    length: nat,
    looped: bool,
)
    requires
        position_ok(time, length, looped),
    ensures
        crossings(time, first, at, length, looped) + crossings(
            position_after(time, first, length, looped),
            second,
            at,
            length,
            looped,
        ) == crossings(time, first + second, at, length, looped),
{
    if at <= length {
        if looped {
            if length > 0 {
                let l = length as int;
                let a = at as int;
                let x = (time + first) as int;
                let laps = x / l;
                lemma_fundamental_div_mod(x, l);
                assert(x % l == x - laps * l) by (nonlinear_arith)
                    requires
                        x == l * laps + x % l,
                ;
                lemma_lap_index_shift(x, a, l, laps);
                lemma_lap_index_shift(x + second, a, l, laps);
                assert(x + second - laps * l == x % l + second);
                lemma_lap_index_monotone(time as int, x, a, l);
                lemma_lap_index_monotone(x, x + second, a, l);
                lemma_lap_index_monotone(time as int, x + second, a, l);
            }
        } else {
        }
    }
}

/// A looped clip that travels `laps` whole laps passes every place on it
/// exactly `laps` times, wherever it starts.
pub proof fn lemma_crossings_whole_laps(time: nat, laps: nat, at: nat, length: nat)
    requires
        length > 0,
        time < length,
        at <= length,
    ensures
        crossings(time, laps * length, at, length, true) == laps,
{
    lemma_lap_index_shift((time + laps * length) as int, at as int, length as int, laps as int);
    assert((time + laps * length) as int - laps as int * length as int == time as int)
        by (nonlinear_arith);
}

/// A clip that makes several journeys in a row stands where one journey of
/// their joint length would have taken it, at a position it can be at.
pub proof fn lemma_position_after_all(time: nat, travels: Seq<nat>, length: nat, looped: bool)
    requires
        position_ok(time, length, looped),
    ensures
        position_after_all(time, travels, length, looped) == position_after(
            time,
            total(travels),
            length,
            looped,
        ),
        position_ok(position_after_all(time, travels, length, looped), length, looped),
    decreases travels.len(),
{
    if travels.len() == 0 {
        if looped && length > 0 {
            lemma_small_mod(time, length);
        }
    } else {
        lemma_position_after_all(time, travels.drop_last(), length, looped);
        lemma_position_after_ok(time, total(travels.drop_last()), length, looped);
        lemma_position_after_sum(
            time,
            total(travels.drop_last()),
            travels.last(),
            length,
            looped,
        );
        lemma_position_after_ok(time, total(travels), length, looped);
    }
}

/// Over several journeys in a row a place is passed as often as over one
/// journey of their joint length: no crossing is lost or counted twice at
/// the seams between frames.
pub proof fn lemma_crossings_over(time: nat, travels: Seq<nat>, at: nat, length: nat, looped: bool)
    requires
        position_ok(time, length, looped),
    ensures
        crossings_over(time, travels, at, length, looped) == crossings(
            time,
            total(travels),
            at,
            length,
            looped,
        ),
    decreases travels.len(),
{
    if travels.len() == 0 {
        if at <= length && looped && length > 0 {
        }
    } else {
        lemma_crossings_over(time, travels.drop_last(), at, length, looped);
        lemma_position_after_all(time, travels.drop_last(), length, looped);
        lemma_crossings_sum(
            time,
            total(travels.drop_last()),
            travels.last(),
            at,
            length,
            looped,
        );
    }
}

/// A looped clip never reports that it has ended, however it is played.
pub proof fn lemma_looped_never_ends(time: nat, travels: Seq<nat>, length: nat)
    ensures
        !ended(position_after_all(time, travels, length, true), length, true),
{
}

/// A clip that is not looped has ended exactly when the journeys it has
/// made reach its end.
pub proof fn lemma_ended_when_played_through(time: nat, travels: Seq<nat>, length: nat)
    requires
        time <= length,
    ensures
        ended(position_after_all(time, travels, length, false), length, false) <==> time + total(
            travels,
        ) >= length,
{
    lemma_position_after_all(time, travels, length, false);
}

/// Once a clip has ended it stays ended while it is played on: in one
/// playthrough the end is reported from one frame on, and so begins once.
pub proof fn lemma_ends_once(time: nat, travels: Seq<nat>, length: nat, early: int, late: int)
    requires
        time <= length,
        0 <= early <= late <= travels.len(),
        ended(position_after_all(time, travels.take(early), length, false), length, false),
    ensures
        ended(position_after_all(time, travels.take(late), length, false), length, false),
    decreases late - early,
{
    if early < late {
        lemma_ends_once(time, travels, length, early, late - 1);
        assert(travels.take(late).drop_last() =~= travels.take(late - 1));
    }
}

/// A named mark on a clip's time line.
#[derive(Debug)]
pub struct Signal {
    /// What the signal is known by to those who wait for it.
    pub id: u128,
    /// A name for people.
    pub name: String,
    /// The place of the signal, in microseconds from the start of the clip.
    pub time: u64,
}

/// A clip: a length of time, a position on it, and how the position moves.
pub struct Clip {
    /// The length of the clip in microseconds.
    pub length: u64,
    /// The position in microseconds from the start.
    pub time: u64,
    /// Whether the clip starts again when it reaches its end.
    pub looped: bool,
    /// The speed in thousandths.
    pub speed: u32,
    /// Whether the clip moves at all.
    pub enabled: bool,
    /// The marks on the time line, in the order in which they were added.
    pub signals: Vec<Signal>,
}

impl Clip {
    /// The clip is at a position it can be at.
    pub open spec fn wf(&self) -> bool {
        position_ok(self.time as nat, self.length as nat, self.looped)
    }

    /// Whether the clip has played to its end.
    pub open spec fn spec_has_ended(&self) -> bool {
        ended(self.time as nat, self.length as nat, self.looped)
    }

    /// How far the clip travels in a frame of `dt` milliseconds.
    pub open spec fn spec_travel(&self, dt: u32) -> nat {
        if self.enabled {
            travel(dt, self.speed)
        } else {
            0
        }
    }

    /// Where the clip stands after a frame of `dt` milliseconds.
    pub open spec fn spec_time_after(&self, dt: u32) -> nat {
        if self.enabled {
            position_after(
                self.time as nat,
                travel(dt, self.speed),
                self.length as nat,
                self.looped,
            )
        } else {
            self.time as nat
        }
    }

    /// How often signal number `i` fires in a frame of `dt` milliseconds.
    pub open spec fn spec_fires(&self, i: int, dt: u32) -> nat {
        if self.enabled {
            crossings(
                self.time as nat,
                travel(dt, self.speed),
                self.signals@[i].time as nat,
                self.length as nat,
                self.looped,
            )
        } else {
            0
        }
    }

    /// Whether `after` is this clip with nothing changed but its position.
    pub open spec fn same_but_time(&self, after: &Clip) -> bool {
        &&& after.length == self.length
        &&& after.looped == self.looped
        &&& after.speed == self.speed
        &&& after.enabled == self.enabled
        &&& after.signals == self.signals
    }

    /// A clip of the given length at its start: looped, enabled, at unit
    /// speed, without signals.
    pub fn new(length: u64) -> (clip: Clip)
        ensures
            clip.wf(),
            clip.length == length,
            clip.time == 0,
            clip.looped,
            clip.enabled,
            clip.speed == SPEED_UNIT,
            clip.signals@.len() == 0,
    {
        Clip { length, time: 0, looped: true, speed: SPEED_UNIT, enabled: true, signals: Vec::new() }
    }

    /// Tells whether the clip is at a position it can be at.
    pub fn check(&self) -> (ok: bool)
        ensures
            ok == self.wf(),
    {
        self.time <= self.length && (!(self.looped && self.length > 0) || self.time < self.length)
    }

    /// The length of the clip in microseconds.
    pub fn length(&self) -> (length: u64)
        ensures
            length == self.length,
    {
        self.length
    }

    /// The position in microseconds from the start.
    pub fn time_position(&self) -> (time: u64)
        ensures
            time == self.time,
    {
        self.time
    }

    /// Whether the clip starts again at its end.
    pub fn is_loop(&self) -> (looped: bool)
        ensures
            looped == self.looped,
    {
        self.looped
    }

    /// Whether the clip moves.
    pub fn is_enabled(&self) -> (enabled: bool)
        ensures
            enabled == self.enabled,
    {
        self.enabled
    }

    /// The speed in thousandths.
    pub fn speed(&self) -> (speed: u32)
        ensures
            speed == self.speed,
    {
        self.speed
    }

    /// Tells whether the clip has played to its end. A looped clip never has.
    pub fn has_ended(&self) -> (ended: bool)
        ensures
            ended == self.spec_has_ended(),
            self.looped ==> !ended,
    {
        !self.looped && self.time == self.length
    }

    /// Sets the speed in thousandths.
    pub fn set_speed(&mut self, speed: u32)
        ensures
            final(self).speed == speed,
            final(self).length == old(self).length,
            final(self).time == old(self).time,
            final(self).looped == old(self).looped,
            final(self).enabled == old(self).enabled,
            final(self).signals == old(self).signals,
    {
        self.speed = speed;
    }

    /// Lets the clip move or holds it where it is.
    pub fn set_enabled(&mut self, enabled: bool)
        ensures
            final(self).enabled == enabled,
            final(self).length == old(self).length,
            final(self).time == old(self).time,
            final(self).looped == old(self).looped,
            final(self).speed == old(self).speed,
            final(self).signals == old(self).signals,
    {
        self.enabled = enabled;
    }

    /// Makes the clip looped or not. A clip that stands at its end when it
    /// becomes looped goes to its start.
    pub fn set_loop(&mut self, looped: bool)
        requires
            old(self).wf(),
        ensures
            final(self).wf(),
            final(self).looped == looped,
            final(self).time == (if looped && old(self).time == old(self).length {
                0
            } else {
                old(self).time
            }),
            final(self).length == old(self).length,
            final(self).speed == old(self).speed,
            final(self).enabled == old(self).enabled,
            final(self).signals == old(self).signals,
    {
        self.looped = looped;
        if looped && self.time == self.length {
            self.time = 0;
        }
    }

    /// Puts the clip back at its start.
    pub fn rewind(&mut self)
        requires
            old(self).wf(),
        ensures
            final(self).wf(),
            final(self).time == 0,
            old(self).same_but_time(final(self)),
    {
        self.time = 0;
    }

    /// Adds a signal after those that are there.
    pub fn add_signal(&mut self, signal: Signal)
        ensures
            final(self).signals@ == old(self).signals@.push(signal),
            final(self).length == old(self).length,
            final(self).time == old(self).time,
            final(self).looped == old(self).looped,
            final(self).speed == old(self).speed,
            final(self).enabled == old(self).enabled,
    {
        self.signals.push(signal);
    }

    /// How often a signal at `at` fires while the clip travels `step`.
    fn count_crossings(&self, step: u64, at: u64) -> (count: u64)
        requires
            self.wf(),
            step <= 0xffff_ffff * 0xffff_ffff,
        ensures
            count == crossings(
                self.time as nat,
                step as nat,
                at as nat,
                self.length as nat,
                self.looped,
            ),
    {
        if at > self.length {
            0
        } else if self.looped {
            if self.length == 0 {
                0
            } else {
                let reach: u128 = self.time as u128 + step as u128;
                proof {
                    lemma_lap_index_inside(self.time as int, at as int, self.length as int);
                }
                if self.time >= at {
                    let laps: u128 = (reach - at as u128) / (self.length as u128);
                    proof {
                        let l = self.length as int;
                        lemma_div_is_ordered(reach - at, step + l, l);
                        lemma_div_plus_one(step as int, l);
                        lemma_div_nonincreasing(step as int, l);
                    }
                    laps as u64
                } else if reach < at as u128 {
                    proof {
                        let l = self.length as int;
                        assert(reach - at == (-1) * l + (reach - at + l));
                        lemma_fundamental_div_mod_converse(reach - at, l, -1, reach - at + l);
                    }
                    0
                } else {
                    let laps: u128 = (reach - at as u128) / (self.length as u128);
                    proof {
                        let l = self.length as int;
                        lemma_div_is_ordered(reach - at, step as int, l);
                        lemma_div_nonincreasing(step as int, l);
                    }
                    (laps + 1) as u64
                }
            }
        } else if self.time < at && at as u128 <= self.time as u128 + step as u128 {
            1
        } else {
            0
        }
    }

    /// Moves the clip through a frame of `dt` milliseconds and tells, for each
    /// signal in turn, how often it fired in that frame. A clip that is not
    /// enabled stays where it is and fires nothing.
    pub fn advance(&mut self, dt: u32) -> (fired: Vec<u64>)
        requires
            old(self).wf(),
        ensures
            final(self).wf(),
            old(self).same_but_time(final(self)),
            final(self).time == old(self).spec_time_after(dt),
            fired@.len() == old(self).signals@.len(),
            forall|i: int|
                0 <= i < fired@.len() ==> #[trigger] fired@[i] == old(self).spec_fires(i, dt),
    {
        let mut fired: Vec<u64> = Vec::new();
        let count: usize = self.signals.len();
        assert(dt * self.speed <= 0xffff_ffff * 0xffff_ffff) by (nonlinear_arith)
            requires
                0 <= dt <= 0xffff_ffff,
                0 <= self.speed <= 0xffff_ffff,
        ;
        let step: u64 = if self.enabled {
            dt as u64 * self.speed as u64
        } else {
            0
        };
        let mut i: usize = 0;
        while i < count
            invariant
                i <= count,
                count == self.signals@.len(),
                self.wf(),
                *self == *old(self),
                fired@.len() == i,
                step == self.spec_travel(dt),
                step <= 0xffff_ffff * 0xffff_ffff,
                forall|k: int| 0 <= k < i ==> #[trigger] fired@[k] == self.spec_fires(k, dt),
            decreases count - i,
        {
            let times: u64 = if self.enabled {
                self.count_crossings(step, self.signals[i].time)
            } else {
                0
            };
            fired.push(times);
            i += 1;
        }
        if self.enabled {
            proof {
                lemma_position_after_ok(
                    self.time as nat,
                    step as nat,
                    self.length as nat,
                    self.looped,
                );
            }
            if self.looped {
                if self.length > 0 {
                    self.time = ((self.time as u128 + step as u128) % (self.length as u128)) as u64;
                }
            } else if self.time as u128 + step as u128 >= self.length as u128 {
                self.time = self.length;
            } else {
                self.time = self.time + step;
            }
        }
        fired
    }
}

} // verus!
