//! Discrete visual states of the sprite: the five-way tilt pose derived
//! from the vertical sustain counters, and the animation frame selecting a
//! cel of the flame sheet.

use vstd::prelude::*;

use crate::{SPRITE_W, SUSTAIN_CEILING};

verus! {

/// The sprite's visible orientation, derived each frame from the two
/// vertical sustain counters alone.
#[derive(Clone, Copy, Debug, PartialEq, Eq, Structural)]
pub enum Pose {
    /// Level flight: both counters zero, or both positive (fighting inputs).
    Neutral,
    /// Nose up, counter still below the ceiling.
    TiltUpPartial,
    /// Nose fully up: the up counter has saturated.
    TiltUpFull,
    /// Nose down, counter still below the ceiling.
    TiltDownPartial,
    /// Nose fully down: the down counter has saturated.
    TiltDownFull,
}

/// The flame/leg animation cel currently displayed.
#[derive(Clone, Copy, Debug, PartialEq, Eq, Structural)]
pub enum AnimFrame {
    /// Moving backward (left): flame off.
    Reverse,
    /// No horizontal intent.
    Idle,
    /// Forward thrust, first half of the cycle.
    ThrustLow,
    /// Forward thrust, second half of the cycle.
    ThrustHigh,
}

/// The pose selected by a pair of sustain counter values: neutral when the
/// counters agree (both zero or both positive), otherwise a partial or full
/// tilt toward the single held direction, full once the counter has reached
/// the saturation ceiling.
pub open spec fn pose_of(sustain_up: nat, sustain_down: nat) -> Pose {
    if (sustain_up == 0 && sustain_down == 0) || (sustain_up > 0 && sustain_down > 0) {
        Pose::Neutral
    } else if sustain_up > 0 {
        if sustain_up < SUSTAIN_CEILING {
            Pose::TiltUpPartial
        } else {
            Pose::TiltUpFull
        }
    } else {
        if sustain_down < SUSTAIN_CEILING {
            Pose::TiltDownPartial
        } else {
            Pose::TiltDownFull
        }
    }
}

/// The pose is a pure function of the sustain counters: two frames (or two
/// independent runs) that reach the same counter values show the same pose.
pub proof fn lemma_pose_deterministic(
    sustain_up_a: nat,
    sustain_down_a: nat,
    sustain_up_b: nat,
    sustain_down_b: nat,
)
    requires
        sustain_up_a == sustain_up_b,
        sustain_down_a == sustain_down_b,
    ensures
        pose_of(sustain_up_a, sustain_down_a) == pose_of(sustain_up_b, sustain_down_b),
{
}

impl Pose {
    /// Column of this pose in the ship sprite sheet.
    pub open spec fn spec_column(self) -> u32 {
        match self {
            Pose::TiltUpFull => 0u32,
            Pose::TiltUpPartial => 1u32,
            Pose::Neutral => 2u32,
            Pose::TiltDownPartial => 3u32,
            Pose::TiltDownFull => 4u32,
        }
    }

    /// Column of this pose in the ship sprite sheet.
    pub fn column(self) -> (c: u32)
        ensures
            c == self.spec_column(),
    {
        match self {
            Pose::TiltUpFull => 0,
            Pose::TiltUpPartial => 1,
            Pose::Neutral => 2,
            Pose::TiltDownPartial => 3,
            Pose::TiltDownFull => 4,
        }
    }

    /// Pixel x offset of this pose's cel in the ship sprite sheet.
    pub fn sheet_x(self) -> (x: u32)
        ensures
            x == self.spec_column() * SPRITE_W,
    {
        self.column() * SPRITE_W
    }
}

impl AnimFrame {
    /// Column of this frame in the flame sprite sheet.
    pub open spec fn spec_column(self) -> u32 {
        match self {
            AnimFrame::Reverse => 0u32,
            AnimFrame::Idle => 1u32,
            AnimFrame::ThrustLow => 2u32,
            AnimFrame::ThrustHigh => 3u32,
        }
    }

    /// Column of this frame in the flame sprite sheet.
    pub fn column(self) -> (c: u32)
        ensures
            c == self.spec_column(),
    {
        match self {
            AnimFrame::Reverse => 0,
            AnimFrame::Idle => 1,
            AnimFrame::ThrustLow => 2,
            AnimFrame::ThrustHigh => 3,
        }
    }

    /// Pixel x offset of this frame's cel in the flame sprite sheet.
    pub fn sheet_x(self) -> (x: u32)
        ensures
            x == self.spec_column() * SPRITE_W,
    {
        self.column() * SPRITE_W
    }
}

} // verus!
