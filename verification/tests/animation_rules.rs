use topdown_rpg::animation::{
    animate, is_moving, next_animation_frame, tick_animation_clock, AnimationClock, AnimationStep,
};
use topdown_rpg::components::{AnimationIndices, Velocity};

#[test]
fn moving_means_a_nonzero_axis() {
    assert!(!is_moving(Velocity { x: 0, y: 0 }));
    assert!(is_moving(Velocity { x: -1, y: 0 }));
    assert!(is_moving(Velocity { x: 0, y: 1 }));
}

#[test]
fn animation_steps_and_wraps() {
    let walk = AnimationIndices { first: 0, last: 5 };
    assert_eq!(next_animation_frame(0, walk), 1);
    assert_eq!(next_animation_frame(4, walk), 5);
    assert_eq!(next_animation_frame(5, walk), 0);
    let idle = AnimationIndices { first: 0, last: 2 };
    assert_eq!(next_animation_frame(2, idle), 0);
}

#[test]
fn animation_loops_after_as_many_steps_as_frames() {
    let indices = AnimationIndices { first: 3, last: 7 };
    for start in 3..=7usize {
        let mut frame = start;
        for _ in 0..5 {
            frame = next_animation_frame(frame, indices);
            assert!((3..=7).contains(&frame));
        }
        assert_eq!(frame, start);
    }
}

const WALK: AnimationIndices = AnimationIndices { first: 0, last: 5 };

#[test]
fn still_hero_is_not_animated() {
    let clock = AnimationClock { period_nanos: 100, elapsed_nanos: 90 };
    let step = animate(clock, 50, Velocity { x: 0, y: 0 }, 3, WALK);
    assert_eq!(step, AnimationStep { clock, frame: 3, stepped: false });
}

#[test]
fn clock_runs_without_firing() {
    let clock = AnimationClock { period_nanos: 100, elapsed_nanos: 30 };
    let step = animate(clock, 50, Velocity { x: 1, y: 0 }, 3, WALK);
    assert_eq!(
        step,
        AnimationStep {
            clock: AnimationClock { period_nanos: 100, elapsed_nanos: 80 },
            frame: 3,
            stepped: false
        }
    );
}

#[test]
fn clock_fires_and_keeps_the_remainder() {
    let clock = AnimationClock { period_nanos: 100, elapsed_nanos: 90 };
    let step = animate(clock, 20, Velocity { x: 0, y: -1 }, 3, WALK);
    assert_eq!(
        step,
        AnimationStep {
            clock: AnimationClock { period_nanos: 100, elapsed_nanos: 10 },
            frame: 4,
            stepped: true
        }
    );
}

#[test]
fn reaching_the_period_exactly_fires() {
    let clock = AnimationClock { period_nanos: 100, elapsed_nanos: 40 };
    let step = animate(clock, 60, Velocity { x: 1, y: 1 }, 5, WALK);
    assert_eq!(step.clock.elapsed_nanos, 0);
    assert_eq!(step.frame, 0);
    assert!(step.stepped);
}

#[test]
fn a_long_frame_still_steps_once() {
    let clock = AnimationClock { period_nanos: 100, elapsed_nanos: 0 };
    let step = animate(clock, 350, Velocity { x: -1, y: 0 }, 1, WALK);
    assert_eq!(step.clock.elapsed_nanos, 50);
    assert_eq!(step.frame, 2);
}

#[test]
fn period_of_a_tenth_of_a_second() {
    let mut clock = AnimationClock::repeating(100_000_000);
    let mut frame = 0usize;
    let moving = Velocity { x: 1, y: 0 };
    // Sixty frames of a sixtieth of a second each: one second of walking.
    for _ in 0..60 {
        let step = animate(clock, 16_666_667, moving, frame, WALK);
        clock = step.clock;
        frame = step.frame;
        assert!(clock.elapsed_nanos < clock.period_nanos);
    }
    // Ten periods fired, so the six-frame walk went round once and four more.
    assert_eq!(frame, 4);
}

#[test]
fn a_new_clock_starts_at_zero() {
    assert_eq!(
        AnimationClock::repeating(7),
        AnimationClock { period_nanos: 7, elapsed_nanos: 0 }
    );
}

#[test]
fn last_possible_frame_is_fine_while_the_clock_does_not_fire() {
    let clock = AnimationClock { period_nanos: 100, elapsed_nanos: 0 };
    let step = animate(clock, 10, Velocity { x: 1, y: 0 }, usize::MAX, WALK);
    assert_eq!(step.frame, usize::MAX);
    assert!(!step.stepped);
    assert_eq!(step.clock.elapsed_nanos, 10);
}

#[test]
fn ticking_the_clock_alone() {
    let clock = AnimationClock { period_nanos: 100, elapsed_nanos: 95 };
    assert_eq!(
        tick_animation_clock(clock, 10, Velocity { x: 0, y: 1 }),
        (AnimationClock { period_nanos: 100, elapsed_nanos: 5 }, true)
    );
    assert_eq!(tick_animation_clock(clock, 10, Velocity { x: 0, y: 0 }), (clock, false));
}
