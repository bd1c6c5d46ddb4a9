//! The input sampler: collapses discrete press/release signals into the
//! four directional intent booleans, resetting a sustain counter only on
//! the rising edge of a direction, and raising the session-terminate flag
//! on a quit signal.

use vstd::prelude::*;

use crate::actor::Actor;

verus! {

/// A directional control.
#[derive(Clone, Copy, Debug, PartialEq, Eq, Structural)]
pub enum Dir {
    Up,
    Down,
    Left,
    Right,
}

/// One discrete signal drained from the event queue. Keys outside the
/// fixed set map to `Other`, which the sampler ignores.
#[derive(Clone, Copy, Debug, PartialEq, Eq, Structural)]
pub enum Signal {
    /// A direction key went down.
    Press(Dir),
    /// A direction key went up.
    Release(Dir),
    /// An explicit quit request (window close or escape).
    Quit,
    /// Any unrecognized key: a no-op, not a fault.
    Other,
}

/// The sampler's transition: a press takes effect only on the rising edge
/// of a direction that was not already asserted, and then clears the
/// opposing intent and resets that direction's counter; a release clears
/// only its own intent; quit raises the terminate flag; anything else
/// changes nothing.
pub open spec fn spec_apply_signal(a: Actor, s: Signal) -> Actor {
    match s {
        Signal::Press(Dir::Up) => if a.up {
            a
        } else {
            Actor { up: true, down: false, sustain_up: 0u32, ..a }
        },
        Signal::Press(Dir::Down) => if a.down {
            a
        } else {
            Actor { down: true, up: false, sustain_down: 0u32, ..a }
        },
        Signal::Press(Dir::Left) => Actor { left: true, right: false, ..a },
        Signal::Press(Dir::Right) => if a.right {
            a
        } else {
            Actor { right: true, left: false, thrust_phase: 0u32, ..a }
        },
        Signal::Release(Dir::Up) => Actor { up: false, ..a },
        Signal::Release(Dir::Down) => Actor { down: false, ..a },
        Signal::Release(Dir::Left) => Actor { left: false, ..a },
        Signal::Release(Dir::Right) => Actor { right: false, ..a },
        Signal::Quit => Actor { quit: true, ..a },
        Signal::Other => a,
    }
}

impl Actor {
    /// Applies one input signal to the intent booleans, exactly as
    /// `spec_apply_signal` describes. Opposing intents are never both
    /// asserted afterwards (that exclusion is part of `wf`).
    pub fn apply_signal(&mut self, s: Signal)
        requires
            old(self).wf(),
        ensures
            *final(self) == spec_apply_signal(*old(self), s),
            final(self).wf(),
    {
        match s {
            Signal::Press(Dir::Up) => {
                if !self.up {
                    self.up = true;
                    self.down = false;
                    self.sustain_up = 0;
                }
            },
            Signal::Press(Dir::Down) => {
                if !self.down {
                    self.down = true;
                    self.up = false;
                    self.sustain_down = 0;
                }
            },
            Signal::Press(Dir::Left) => {
                self.left = true;
                self.right = false;
            },
            Signal::Press(Dir::Right) => {
                if !self.right {
                    self.right = true;
                    self.left = false;
                    self.thrust_phase = 0;
                }
            },
            Signal::Release(Dir::Up) => {
                self.up = false;
            },
            Signal::Release(Dir::Down) => {
                self.down = false;
            },
            Signal::Release(Dir::Left) => {
                self.left = false;
            },
            Signal::Release(Dir::Right) => {
                self.right = false;
            },
            Signal::Quit => {
                self.quit = true;
            },
            Signal::Other => {},
        }
    }
}

} // verus!
