use side_scroller::actor::Actor;
use side_scroller::input::{Dir, Signal};
use side_scroller::pose::{AnimFrame, Pose};
use side_scroller::SUSTAIN_CEILING;

fn fresh() -> Actor {
    Actor::new(640, 360)
}

#[test]
fn new_actor_starts_centered_at_quarter_width() {
    let a = fresh();
    assert_eq!(a.x, 640 / 4 - 8);
    assert_eq!(a.y, 360 / 2 - 8);
    assert!(!a.up && !a.down && !a.left && !a.right);
    assert_eq!(a.sustain_up, 0);
    assert_eq!(a.sustain_down, 0);
    assert_eq!(a.thrust_phase, 0);
    assert_eq!(a.pose, Pose::Neutral);
    assert!(!a.quit);
}

#[test]
fn holding_up_saturates_sustain_and_tilts_full() {
    let mut a = fresh();
    a.apply_signal(Signal::Press(Dir::Up));
    for frame in 1..=20u32 {
        a.tick();
        if frame < SUSTAIN_CEILING {
            assert_eq!(a.sustain_up, frame);
            assert_eq!(a.pose, Pose::TiltUpPartial);
        } else {
            assert_eq!(a.sustain_up, SUSTAIN_CEILING);
            assert_eq!(a.pose, Pose::TiltUpFull);
        }
    }
    a.apply_signal(Signal::Release(Dir::Up));
    for frame in 1..=16u32 {
        a.tick();
        assert_eq!(a.sustain_up, SUSTAIN_CEILING - frame);
    }
    assert_eq!(a.sustain_up, 0);
    assert_eq!(a.pose, Pose::Neutral);
}

#[test]
fn holding_right_cycles_thrust_frames() {
    let mut a = fresh();
    a.apply_signal(Signal::Press(Dir::Right));
    let mut seen = Vec::new();
    for _ in 0..18 {
        a.tick();
        seen.push(a.frame);
    }
    let expected = [
        AnimFrame::ThrustLow,
        AnimFrame::ThrustLow,
        AnimFrame::ThrustLow,
        AnimFrame::ThrustLow,
        AnimFrame::ThrustLow,
        AnimFrame::ThrustLow,
        AnimFrame::ThrustHigh,
        AnimFrame::ThrustHigh,
        AnimFrame::ThrustHigh,
        AnimFrame::ThrustHigh,
        AnimFrame::ThrustHigh,
        AnimFrame::ThrustHigh,
        AnimFrame::ThrustHigh,
        AnimFrame::ThrustLow,
        AnimFrame::ThrustLow,
        AnimFrame::ThrustLow,
        AnimFrame::ThrustLow,
        AnimFrame::ThrustLow,
    ];
    assert_eq!(seen.as_slice(), expected.as_slice());
    assert!(seen.contains(&AnimFrame::ThrustLow));
    assert!(seen.contains(&AnimFrame::ThrustHigh));
}

#[test]
fn press_up_then_down_on_one_frame_keeps_intents_exclusive() {
    let mut a = fresh();
    a.apply_signal(Signal::Press(Dir::Up));
    a.apply_signal(Signal::Press(Dir::Down));
    // Setting one vertical intent clears the other: they are never both
    // asserted, and the later press is the one that stands.
    assert!(!(a.up && a.down));
    assert!(!a.up);
    assert!(a.down);
    assert_eq!(a.sustain_down, 0);
}

#[test]
fn key_repeat_does_not_reset_sustain() {
    let mut a = fresh();
    a.apply_signal(Signal::Press(Dir::Up));
    for _ in 0..3 {
        a.tick();
    }
    assert_eq!(a.sustain_up, 3);
    // A repeated press of a direction already asserted is not a rising
    // edge: the counter keeps its value.
    a.apply_signal(Signal::Press(Dir::Up));
    assert_eq!(a.sustain_up, 3);
    assert!(a.up);
}

#[test]
fn release_clears_only_its_own_direction() {
    let mut a = fresh();
    a.apply_signal(Signal::Press(Dir::Left));
    a.apply_signal(Signal::Press(Dir::Up));
    a.apply_signal(Signal::Release(Dir::Up));
    assert!(!a.up);
    assert!(a.left);
    a.apply_signal(Signal::Release(Dir::Left));
    assert!(!a.left);
}

#[test]
fn opposite_press_damps_lingering_sustain() {
    let mut a = fresh();
    a.apply_signal(Signal::Press(Dir::Down));
    for _ in 0..8 {
        a.tick();
    }
    assert_eq!(a.sustain_down, 8);
    assert_eq!(a.pose, Pose::TiltDownPartial);
    a.apply_signal(Signal::Press(Dir::Up));
    assert!(a.up && !a.down);
    // First frame after the reversal: the up counter starts rising, the
    // stale down counter decays one step and is then halved, and the pose
    // is neutral while both counters are positive.
    a.tick();
    assert_eq!(a.sustain_up, 1);
    assert_eq!(a.sustain_down, 3);
    assert_eq!(a.pose, Pose::Neutral);
    a.tick();
    assert_eq!(a.sustain_down, 1);
    assert_eq!(a.pose, Pose::Neutral);
    a.tick();
    assert_eq!(a.sustain_down, 0);
    assert_eq!(a.pose, Pose::TiltUpPartial);
}

#[test]
fn quit_signal_raises_terminate_flag() {
    let mut a = fresh();
    assert!(!a.quit);
    a.apply_signal(Signal::Other);
    assert!(!a.quit);
    a.apply_signal(Signal::Quit);
    assert!(a.quit);
    a.tick();
    assert!(a.quit);
}

#[test]
fn identical_inputs_give_identical_runs() {
    let signals = [
        Some(Signal::Press(Dir::Up)),
        None,
        Some(Signal::Press(Dir::Right)),
        None,
        None,
        Some(Signal::Release(Dir::Up)),
        Some(Signal::Press(Dir::Down)),
        None,
        Some(Signal::Press(Dir::Left)),
        None,
    ];
    let mut a = fresh();
    let mut b = fresh();
    for s in signals.iter().cycle().take(200) {
        if let Some(s) = s {
            a.apply_signal(*s);
            b.apply_signal(*s);
        }
        a.tick();
        b.tick();
        assert_eq!(a.pose, b.pose);
        assert_eq!(a, b);
    }
}
