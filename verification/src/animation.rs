use vstd::prelude::*;

use crate::components::{AnimationIndices, Velocity};

verus! {

// ---------------------------------------------------------------------------
// Frames
// ---------------------------------------------------------------------------

/// Whether an entity with velocity `v` is moving.
pub fn is_moving(v: Velocity) -> (moving: bool)
    ensures
        moving == (v.x != 0 || v.y != 0),
{
    v.x != 0 || v.y != 0
}

/// The frame shown after `index` when the animation timer fires: the next
/// frame, or back to the first one after the last.
pub open spec fn frame_after(index: int, indices: AnimationIndices) -> int {
    if index == indices.last {
        indices.first as int
    } else {
        index + 1
    }
}

/// Steps an animation by one frame, going back to the first frame after the
/// last one.
pub fn next_animation_frame(index: usize, indices: AnimationIndices) -> (next: usize)
    requires
        index != indices.last ==> index < usize::MAX,
    ensures
        next == frame_after(index as int, indices),
        index == indices.last ==> next == indices.first,
        index != indices.last ==> next == index + 1,
{
    if index == indices.last {
        indices.first
    } else {
        index + 1
    }
}

/// The frame shown after `n` firings of the animation timer.
pub open spec fn frames_after(index: int, indices: AnimationIndices, n: nat) -> int
    decreases n,
{
    if n == 0 {
        index
    } else {
        frames_after(frame_after(index, indices), indices, (n - 1) as nat)
    }
}

proof fn lemma_frames_after_add(index: int, indices: AnimationIndices, a: nat, b: nat)
    ensures
        frames_after(index, indices, a + b) == frames_after(
            frames_after(index, indices, a),
            indices,
            b,
        ),
    decreases a,
{
    if a > 0 {
        lemma_frames_after_add(frame_after(index, indices), indices, (a - 1) as nat, b);
        assert((a + b - 1) as nat == ((a - 1) as nat + b) as nat);
    }
}

proof fn lemma_frames_count_up(index: int, indices: AnimationIndices, k: nat)
    requires
        index + k <= indices.last,
    ensures
        frames_after(index, indices, k) == index + k,
    decreases k,
{
    if k > 0 {
        lemma_frames_count_up(frame_after(index, indices), indices, (k - 1) as nat);
    }
}

/// One animation step: the frame after the last is the first, and after any
/// other frame comes the one numbered one higher.
pub proof fn lemma_frame_after(index: int, indices: AnimationIndices)
    ensures
        index == indices.last ==> frame_after(index, indices) == indices.first,
        index != indices.last ==> frame_after(index, indices) == index + 1,
{
}

/// An animation stays within its frames and loops: from any frame between
/// the first and the last, the next frame is again between them, and after
/// as many steps as there are frames the animation is back where it started.
pub proof fn lemma_animation_loops(index: int, indices: AnimationIndices)
    requires
        indices.first <= index <= indices.last,
    ensures
        indices.first <= frame_after(index, indices) <= indices.last,
        frames_after(index, indices, (indices.last - indices.first + 1) as nat) == index,
{
    let to_last = (indices.last - index) as nat;
    let from_first = (index - indices.first) as nat;
    lemma_frames_count_up(index, indices, to_last);
    lemma_frames_after_add(index, indices, to_last, 1);
    assert(frames_after(indices.last as int, indices, 1) == indices.first) by {
        reveal_with_fuel(frames_after, 2);
    }
    lemma_frames_count_up(indices.first as int, indices, from_first);
    lemma_frames_after_add(index, indices, to_last + 1, from_first);
    assert(to_last + 1 + from_first == indices.last - indices.first + 1);
}



/// However often the clock fires, an animation that starts on one of its
/// frames never shows a frame outside them.
pub proof fn lemma_animation_stays_on_its_frames(index: int, indices: AnimationIndices, n: nat)
    requires
        indices.first <= index <= indices.last,
    ensures
        indices.first <= frames_after(index, indices, n) <= indices.last,
    decreases n,
{
    if n > 0 {
        lemma_animation_loops(index, indices);
        lemma_animation_stays_on_its_frames(frame_after(index, indices), indices, (n - 1) as nat);
    }
}

// ---------------------------------------------------------------------------
// The animation clock
// ---------------------------------------------------------------------------

/// A repeating clock that paces an animation: it fires every `period_nanos`
/// nanoseconds, and `elapsed_nanos` have passed since it last fired.
#[derive(Clone, Copy, Debug, PartialEq, Eq, Structural)]
pub struct AnimationClock {
    pub period_nanos: u64,
    pub elapsed_nanos: u64,
}

impl AnimationClock {
    /// A clock that fires every `period_nanos` nanoseconds, started now.
    pub fn repeating(period_nanos: u64) -> (clock: AnimationClock)
        ensures
            clock.period_nanos == period_nanos,
            clock.elapsed_nanos == 0,
    {
        AnimationClock { period_nanos, elapsed_nanos: 0 }
    }

    /// A clock that fires now and then: its period is not zero and less time
    /// than a period has passed since it last fired.
    pub open spec fn wf(self) -> bool {
        0 < self.elapsed_nanos + 1 <= self.period_nanos
    }
}

/// What a running repeating timer of `period` nanoseconds, with `elapsed`
/// nanoseconds passed, reports after `delta` more nanoseconds: the time
/// passed since it last fired, and how often it fired in this tick, cut to
/// 32 bits. Once the time passed reaches the period the timer fires, as
/// often as whole periods have passed, and keeps the remainder; a timer of
/// period zero fires `u32::MAX` times and keeps nothing.
pub open spec fn repeating_tick(period: int, elapsed: int, delta: int) -> (int, int) {
    let total = elapsed + delta;
    if total < period {
        (total, 0)
    } else if period == 0 {
        (0, u32::MAX as int)
    } else {
        (total % period, ((total / period) as u32) as int)
    }
}

/// Ticks a repeating bevy timer of `period_nanos` nanoseconds, with
/// `elapsed_nanos` passed since it last fired, by `delta_nanos`, and returns
/// the time passed since it last fired and how often it fired in the tick.
///
/// Trusted: calls `bevy::time::Timer::tick` on a repeating timer built with
/// `Timer::new` and `Timer::set_elapsed`, and reads `Timer::elapsed` and
/// `Timer::times_finished_this_tick`. Its contract restates that code
/// (bevy_time 0.13 `Timer::tick`, repeating and not paused): it adds the
/// delta, and when the period is reached it counts the whole periods passed
/// (`u32::MAX` for a period of zero, else cut to `u32`) and keeps the
/// remainder. The durations built from `u64` nanoseconds add without
/// overflow, so the call does not panic.
#[verifier::external_body]
fn timer_tick(period_nanos: u64, elapsed_nanos: u64, delta_nanos: u64) -> (res: (u64, u32))
    ensures
        res.0 as int == repeating_tick(period_nanos as int, elapsed_nanos as int, delta_nanos as int).0,
        res.1 as int == repeating_tick(period_nanos as int, elapsed_nanos as int, delta_nanos as int).1,
{
    let mut timer = bevy::time::Timer::new(
        std::time::Duration::from_nanos(period_nanos),
        bevy::time::TimerMode::Repeating,
    );
    timer.set_elapsed(std::time::Duration::from_nanos(elapsed_nanos));
    timer.tick(std::time::Duration::from_nanos(delta_nanos));
    (timer.elapsed().as_nanos() as u64, timer.times_finished_this_tick())
}

/// An animation after one frame of the game: its clock, the frame it shows,
/// and whether it stepped to that frame in this one.
#[derive(Clone, Copy, Debug, PartialEq, Eq, Structural)]
pub struct AnimationStep {
    pub clock: AnimationClock,
    pub frame: usize,
    pub stepped: bool,
}

/// Whether the animation clock fires in a frame of `delta_nanos`
/// nanoseconds, for an entity that is moving or not: only a moving entity's
/// clock runs.
pub open spec fn clock_fires(clock: AnimationClock, delta_nanos: u64, moving: bool) -> bool {
    moving && repeating_tick(
        clock.period_nanos as int,
        clock.elapsed_nanos as int,
        delta_nanos as int,
    ).1 > 0
}

/// The animation clock after a frame of `delta_nanos` nanoseconds, for an
/// entity that is moving or not.
pub open spec fn clock_after(clock: AnimationClock, delta_nanos: u64, moving: bool) -> AnimationClock {
    if moving {
        AnimationClock {
            period_nanos: clock.period_nanos,
            elapsed_nanos: repeating_tick(
                clock.period_nanos as int,
                clock.elapsed_nanos as int,
                delta_nanos as int,
            ).0 as u64,
        }
    } else {
        clock
    }
}

/// The animation after a frame of `delta_nanos` nanoseconds, as `animate`
/// says.
pub open spec fn animation_after(
    clock: AnimationClock,
    delta_nanos: u64,
    moving: bool,
    frame: usize,
    indices: AnimationIndices,
) -> AnimationStep {
    AnimationStep {
        clock: clock_after(clock, delta_nanos, moving),
        frame: if clock_fires(clock, delta_nanos, moving) {
            frame_after(frame as int, indices) as usize
        } else {
            frame
        },
        stepped: clock_fires(clock, delta_nanos, moving),
    }
}

/// Runs the animation clock of an entity with velocity `velocity` for one
/// frame of the game that lasted `delta_nanos` nanoseconds, and tells whether
/// it fired. The clock of an entity standing still does not run.
pub fn tick_animation_clock(clock: AnimationClock, delta_nanos: u64, velocity: Velocity) -> (res: (
    AnimationClock,
    bool,
))
    ensures
        res.0 == clock_after(clock, delta_nanos, velocity.x != 0 || velocity.y != 0),
        res.1 == clock_fires(clock, delta_nanos, velocity.x != 0 || velocity.y != 0),
        velocity.x == 0 && velocity.y == 0 ==> res == (clock, false),
        res.0.period_nanos == clock.period_nanos,
{
    if !is_moving(velocity) {
        return (clock, false);
    }
    let (elapsed, fired) = timer_tick(clock.period_nanos, clock.elapsed_nanos, delta_nanos);
    (AnimationClock { period_nanos: clock.period_nanos, elapsed_nanos: elapsed }, fired > 0)
}

/// Runs the hero's walking animation for one frame of the game that lasted
/// `delta_nanos` nanoseconds.
///
/// A hero standing still is not animated: its clock does not run and its
/// frame stays. A moving hero's clock runs, and when it fires the animation
/// steps to the next frame, back to the first after the last; at most one
/// step is taken per frame of the game, however long it lasted.
pub fn animate(
    clock: AnimationClock,
    delta_nanos: u64,
    velocity: Velocity,
    frame: usize,
    indices: AnimationIndices,
) -> (step: AnimationStep)
    requires
        clock_fires(clock, delta_nanos, velocity.x != 0 || velocity.y != 0) && frame
            != indices.last ==> frame < usize::MAX,
    ensures
        step == animation_after(clock, delta_nanos, velocity.x != 0 || velocity.y != 0, frame, indices),
        step.stepped && frame == indices.last ==> step.frame == indices.first,
        step.stepped && frame != indices.last ==> step.frame == frame + 1,
        !step.stepped ==> step.frame == frame,
        velocity.x == 0 && velocity.y == 0 ==> step == (AnimationStep { clock, frame, stepped: false }),
        indices.first <= frame <= indices.last ==> indices.first <= step.frame <= indices.last,
{
    let (clock, fired) = tick_animation_clock(clock, delta_nanos, velocity);
    if fired {
        AnimationStep { clock, frame: next_animation_frame(frame, indices), stepped: true }
    } else {
        AnimationStep { clock, frame, stepped: false }
    }
}

/// What one frame of the game does to an animation: when its clock fires
/// the animation shows the next frame, or the first one after the last; when
/// it does not fire, or the entity stands still, the frame stays, and a
/// still entity's clock does not run either. An animation showing one of its
/// frames keeps showing one of them.
pub proof fn lemma_one_frame_of_animation(
    clock: AnimationClock,
    delta_nanos: u64,
    moving: bool,
    frame: usize,
    indices: AnimationIndices,
)
    requires
        frame < usize::MAX,
    ensures
        ({
            let step = animation_after(clock, delta_nanos, moving, frame, indices);
            &&& step.stepped && frame == indices.last ==> step.frame == indices.first
            &&& step.stepped && frame != indices.last ==> step.frame == frame + 1
            &&& !step.stepped ==> step.frame == frame
            &&& !moving ==> step == AnimationStep { clock, frame, stepped: false }
            &&& step.clock.period_nanos == clock.period_nanos
            &&& indices.first <= frame <= indices.last ==> indices.first <= step.frame
                <= indices.last
        }),
{
}

/// The clock keeps time: while the hero moves, the time since the clock
/// last fired stays below its period, and no time is lost or made up — the
/// new remainder plus the periods that fired is the old remainder plus the
/// frame's time, the animation stepping once exactly when a period was
/// reached. This holds while a frame lasts fewer than 2^32 periods; past
/// that the count of periods is cut to 32 bits, and at a multiple of 2^32
/// periods the animation does not step.
pub proof fn lemma_clock_keeps_time(
    clock: AnimationClock,
    delta_nanos: u64,
    frame: usize,
    indices: AnimationIndices,
)
    requires
        clock.wf(),
        (clock.elapsed_nanos + delta_nanos) / (clock.period_nanos as int) <= u32::MAX,
    ensures
        ({
            let step = animation_after(clock, delta_nanos, true, frame, indices);
            let next = step.clock;
            let (_, fired) = repeating_tick(
                clock.period_nanos as int,
                clock.elapsed_nanos as int,
                delta_nanos as int,
            );
            &&& next.wf()
            &&& next.period_nanos == clock.period_nanos
            &&& next.elapsed_nanos + fired * clock.period_nanos == clock.elapsed_nanos + delta_nanos
            &&& (step.stepped <==> fired > 0)
            &&& (step.stepped <==> clock.elapsed_nanos + delta_nanos >= clock.period_nanos)
        }),
{
    let p = clock.period_nanos as int;
    let total = clock.elapsed_nanos + delta_nanos;
    vstd::arithmetic::div_mod::lemma_fundamental_div_mod(total, p);
    vstd::arithmetic::div_mod::lemma_mod_bound(total, p);
    vstd::arithmetic::mul::lemma_mul_is_commutative(p, total / p);
    if total >= p {
        assert(((total / p) as u32) as int == total / p);
        assert(total / p >= 1) by {
            vstd::arithmetic::div_mod::lemma_div_is_ordered(p, total, p);
            vstd::arithmetic::div_mod::lemma_div_by_self(p);
        }
    }
}

} // verus!
