use side_scroller::pacing::{on_schedule, overruns_budget, FRAME_BUDGET_MICROS, OVERRUN_MICROS};
use side_scroller::pose::{AnimFrame, Pose};
use side_scroller::SPRITE_W;

#[test]
fn pose_sheet_columns_match_the_ship_sheet() {
    assert_eq!(Pose::TiltUpFull.column(), 0);
    assert_eq!(Pose::TiltUpPartial.column(), 1);
    assert_eq!(Pose::Neutral.column(), 2);
    assert_eq!(Pose::TiltDownPartial.column(), 3);
    assert_eq!(Pose::TiltDownFull.column(), 4);
    assert_eq!(Pose::TiltDownFull.sheet_x(), 4 * SPRITE_W);
}

#[test]
fn anim_sheet_columns_match_the_flame_sheet() {
    assert_eq!(AnimFrame::Reverse.column(), 0);
    assert_eq!(AnimFrame::Idle.column(), 1);
    assert_eq!(AnimFrame::ThrustLow.column(), 2);
    assert_eq!(AnimFrame::ThrustHigh.column(), 3);
    assert_eq!(AnimFrame::ThrustHigh.sheet_x(), 3 * SPRITE_W);
}

#[test]
fn loop_sleeps_only_when_on_schedule() {
    // After one second, sixty frames are ahead of the fifty-nine whole
    // frame budgets that fit in the elapsed time.
    assert!(on_schedule(60, 1_000_000));
    assert_eq!(1_000_000 / FRAME_BUDGET_MICROS, 59);
    assert!(on_schedule(59, 1_000_000));
    assert!(!on_schedule(58, 1_000_000));
    assert!(on_schedule(0, 0));
    assert!(!on_schedule(0, FRAME_BUDGET_MICROS));
}

#[test]
fn only_frames_past_the_budget_threshold_are_reported() {
    assert!(!overruns_budget(OVERRUN_MICROS));
    assert!(overruns_budget(OVERRUN_MICROS + 1));
    assert!(!overruns_budget(0));
    assert!(overruns_budget(1_000_000));
}
