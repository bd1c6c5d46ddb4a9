//! The controlled sprite: one owned record holding position, directional
//! intents, sustain counters, thrust phase, pose and animation frame, with
//! the per-frame transition functions that drive it.
//!
//! Every transition is specified by a spec-level twin (`spec_vertical`,
//! `spec_settle_pose`, `spec_horizontal`, `spec_tick`), so a frame update
//! is a pure function of the previous state.

use vstd::prelude::*;

use crate::pose::{pose_of, AnimFrame, Pose};
use crate::{
    BOTTOM_MARGIN, SPRITE_H, SPRITE_W, SUSTAIN_CEILING, THRUST_LOW_BAND, THRUST_WRAP, TOP_BOUND,
};

verus! {

/// The full per-session mutable state of the controlled sprite.
#[derive(Clone, Copy, Debug, PartialEq, Eq, Structural)]
pub struct Actor {
    /// Viewport width in pixels, fixed at creation.
    pub viewport_w: u32,
    /// Viewport height in pixels, fixed at creation.
    pub viewport_h: u32,
    /// Sprite x position (left edge), in viewport pixel coordinates.
    pub x: i32,
    /// Sprite y position (top edge), in viewport pixel coordinates.
    pub y: i32,
    /// Whether the up control is currently held.
    pub up: bool,
    /// Whether the down control is currently held.
    pub down: bool,
    /// Whether the left control is currently held.
    pub left: bool,
    /// Whether the right control is currently held.
    pub right: bool,
    /// Consecutive frames the up intent has been held, saturating.
    pub sustain_up: u32,
    /// Consecutive frames the down intent has been held, saturating.
    pub sustain_down: u32,
    /// Cyclic counter advancing while thrusting forward.
    pub thrust_phase: u32,
    /// Current visible tilt of the sprite.
    pub pose: Pose,
    /// Current animation cel.
    pub frame: AnimFrame,
    /// Session-terminate flag, set by the quit signal.
    pub quit: bool,
}

impl Actor {
    /// Well-formedness: the viewport is large enough for the sprite and
    /// small enough for pixel arithmetic, the position is inside its
    /// clamped band, the counters are within their bounds, and opposing
    /// intents are never both asserted.
    pub open spec fn wf(self) -> bool {
        &&& SPRITE_W <= self.viewport_w <= 0x7fff_ffff
        &&& SPRITE_H <= self.viewport_h <= 0x7fff_0000
        &&& 0 <= self.x <= self.viewport_w - SPRITE_W
        &&& TOP_BOUND <= self.y < BOTTOM_MARGIN + self.viewport_h - SPRITE_H
        &&& self.sustain_up <= SUSTAIN_CEILING
        &&& self.sustain_down <= SUSTAIN_CEILING
        &&& self.thrust_phase <= THRUST_WRAP
        &&& !(self.up && self.down)
        &&& !(self.left && self.right)
    }

    /// The vertical half-step: while a vertical intent is held the sprite
    /// drifts one pixel that way, clamped to the margin band, and the
    /// matching sustain counter rises (saturating at the ceiling); while
    /// it is not held the counter decays one step toward zero.
    pub open spec fn spec_vertical(self) -> Actor {
        let after_up = if self.up {
            Actor {
                y: if self.y - 1 >= TOP_BOUND {
                    (self.y - 1) as i32
                } else {
                    self.y
                },
                sustain_up: if self.sustain_up < SUSTAIN_CEILING {
                    (self.sustain_up + 1) as u32
                } else {
                    self.sustain_up
                },
                ..self
            }
        } else if self.sustain_up > 0 {
            Actor { sustain_up: (self.sustain_up - 1) as u32, ..self }
        } else {
            self
        };
        if after_up.down {
            Actor {
                y: if after_up.y + 1 < BOTTOM_MARGIN + after_up.viewport_h - SPRITE_H {
                    (after_up.y + 1) as i32
                } else {
                    after_up.y
                },
                sustain_down: if after_up.sustain_down < SUSTAIN_CEILING {
                    (after_up.sustain_down + 1) as u32
                } else {
                    after_up.sustain_down
                },
                ..after_up
            }
        } else if after_up.sustain_down > 0 {
            Actor { sustain_down: (after_up.sustain_down - 1) as u32, ..after_up }
        } else {
            after_up
        }
    }

    /// The pose half-step: the pose is re-derived from the two sustain
    /// counters, and while the held intent opposes a lingering counter of
    /// the other direction, that counter is halved so the pose answers a
    /// reversal instead of fighting stale momentum.
    pub open spec fn spec_settle_pose(self) -> Actor {
        let settled = Actor { pose: pose_of(self.sustain_up as nat, self.sustain_down as nat), ..self };
        if (self.sustain_up > 0 && self.sustain_down > 0) || (self.sustain_up == 0
            && self.sustain_down == 0) {
            if self.up {
                Actor { sustain_down: (self.sustain_down / 2) as u32, ..settled }
            } else if self.down {
                Actor { sustain_up: (self.sustain_up / 2) as u32, ..settled }
            } else {
                settled
            }
        } else {
            settled
        }
    }

    /// The horizontal half-step: thrusting right advances the position one
    /// pixel (clamped to the right edge), steps the cyclic thrust phase
    /// and selects the flame cel by thresholding the phase into bands;
    /// moving left retreats one pixel (clamped at zero) with the reverse
    /// cel; no horizontal intent shows the idle cel.
    pub open spec fn spec_horizontal(self) -> Actor {
        if self.right {
            Actor {
                x: if self.x + 1 < self.viewport_w - SPRITE_W {
                    (self.x + 1) as i32
                } else {
                    self.x
                },
                thrust_phase: if self.thrust_phase >= THRUST_WRAP {
                    1u32
                } else {
                    (self.thrust_phase + 1) as u32
                },
                frame: if self.thrust_phase < THRUST_LOW_BAND {
                    AnimFrame::ThrustLow
                } else if self.thrust_phase < THRUST_WRAP {
                    AnimFrame::ThrustHigh
                } else {
                    self.frame
                },
                ..self
            }
        } else if self.left {
            Actor {
                x: if self.x - 1 > 0 {
                    (self.x - 1) as i32
                } else {
                    self.x
                },
                frame: AnimFrame::Reverse,
                ..self
            }
        } else {
            Actor { frame: AnimFrame::Idle, ..self }
        }
    }

    /// One full simulation frame: vertical motion and sustain bookkeeping,
    /// then pose settling, then horizontal motion and thrust animation.
    pub open spec fn spec_tick(self) -> Actor {
        self.spec_vertical().spec_settle_pose().spec_horizontal()
    }

    /// A fresh actor at rest, centered vertically and placed at a quarter
    /// of the viewport width, as at session start.
    pub fn new(viewport_w: u32, viewport_h: u32) -> (a: Actor)
        requires
            2 * SPRITE_W <= viewport_w <= 0x7fff_ffff,
            SPRITE_H <= viewport_h <= 0x7fff_0000,
        ensures
            a.wf(),
            a.viewport_w == viewport_w,
            a.viewport_h == viewport_h,
            a.x == viewport_w / 4 - SPRITE_W / 2,
            a.y == viewport_h / 2 - SPRITE_H / 2,
            !a.up && !a.down && !a.left && !a.right,
            a.sustain_up == 0 && a.sustain_down == 0,
            a.thrust_phase == 0,
            a.pose == Pose::Neutral,
            a.frame == AnimFrame::ThrustLow,
            !a.quit,
    {
        Actor {
            viewport_w,
            viewport_h,
            x: (viewport_w / 4) as i32 - (SPRITE_W / 2) as i32,
            y: (viewport_h / 2) as i32 - (SPRITE_H / 2) as i32,
            up: false,
            down: false,
            left: false,
            right: false,
            sustain_up: 0,
            sustain_down: 0,
            thrust_phase: 0,
            pose: Pose::Neutral,
            frame: AnimFrame::ThrustLow,
            quit: false,
        }
    }

    /// Executes the vertical half-step.
    pub fn step_vertical(&mut self)
        requires
            old(self).wf(),
        ensures
            *final(self) == old(self).spec_vertical(),
            final(self).wf(),
    {
        if self.up {
            if self.y - 1 >= TOP_BOUND {
                self.y = self.y - 1;
            }
            if self.sustain_up < SUSTAIN_CEILING {
                self.sustain_up = self.sustain_up + 1;
            }
        } else if self.sustain_up > 0 {
            self.sustain_up = self.sustain_up - 1;
        }
        if self.down {
            if self.y + 1 < BOTTOM_MARGIN + (self.viewport_h as i32) - (SPRITE_H as i32) {
                self.y = self.y + 1;
            }
            if self.sustain_down < SUSTAIN_CEILING {
                self.sustain_down = self.sustain_down + 1;
            }
        } else if self.sustain_down > 0 {
            self.sustain_down = self.sustain_down - 1;
        }
    }

    /// Executes the pose half-step.
    pub fn settle_pose(&mut self)
        requires
            old(self).wf(),
        ensures
            *final(self) == old(self).spec_settle_pose(),
            final(self).wf(),
            final(self).pose == pose_of(
                old(self).sustain_up as nat,
                old(self).sustain_down as nat,
            ),
    {
        if (self.sustain_up > 0 && self.sustain_down > 0) || (self.sustain_up == 0
            && self.sustain_down == 0) {
            self.pose = Pose::Neutral;
            if self.up {
                self.sustain_down = self.sustain_down / 2;
            } else if self.down {
                self.sustain_up = self.sustain_up / 2;
            }
        } else if self.sustain_up > 0 {
            self.pose = if self.sustain_up < SUSTAIN_CEILING {
                Pose::TiltUpPartial
            } else {
                Pose::TiltUpFull
            };
        } else {
            self.pose = if self.sustain_down < SUSTAIN_CEILING {
                Pose::TiltDownPartial
            } else {
                Pose::TiltDownFull
            };
        }
    }

    /// Executes the horizontal half-step.
    pub fn step_horizontal(&mut self)
        requires
            old(self).wf(),
        ensures
            *final(self) == old(self).spec_horizontal(),
            final(self).wf(),
    {
        if self.right {
            if self.thrust_phase < THRUST_LOW_BAND {
                self.frame = AnimFrame::ThrustLow;
            } else if self.thrust_phase < THRUST_WRAP {
                self.frame = AnimFrame::ThrustHigh;
            } else {
                self.thrust_phase = 0;
            }
            self.thrust_phase = self.thrust_phase + 1;
            if self.x + 1 < (self.viewport_w as i32) - (SPRITE_W as i32) {
                self.x = self.x + 1;
            }
        } else if self.left {
            if self.x - 1 > 0 {
                self.x = self.x - 1;
            }
            self.frame = AnimFrame::Reverse;
        } else {
            self.frame = AnimFrame::Idle;
        }
    }

    /// One full simulation frame. The new state is the pure transition
    /// `spec_tick` of the old one; in particular the sustain counters stay
    /// within `[0, SUSTAIN_CEILING]` and the position stays inside the
    /// clamped viewport band on both axes.
    pub fn tick(&mut self)
        requires
            old(self).wf(),
        ensures
            *final(self) == old(self).spec_tick(),
            final(self).wf(),
            final(self).sustain_up <= SUSTAIN_CEILING,
            final(self).sustain_down <= SUSTAIN_CEILING,
            TOP_BOUND <= final(self).y < BOTTOM_MARGIN + final(self).viewport_h - SPRITE_H,
            0 <= final(self).x <= final(self).viewport_w - SPRITE_W,
            final(self).pose == pose_of(
                old(self).spec_vertical().sustain_up as nat,
                old(self).spec_vertical().sustain_down as nat,
            ),
    {
        self.step_vertical();
        self.settle_pose();
        self.step_horizontal();
    }

    /// Pixel x at which the flame cel is composited: a fixed distance left
    /// of the ship.
    pub fn flame_dest_x(&self) -> (r: i32)
        requires
            self.wf(),
        ensures
            r == self.x - 9,
    {
        self.x - 9
    }
}

} // verus!
