//! Fixed-timestep pacing decisions: whether the session loop may sleep the
//! rest of the current frame budget, and whether a frame overran it.

use vstd::prelude::*;

verus! {

/// Target frame duration in microseconds (just under 60 frames per second).
pub const FRAME_BUDGET_MICROS: u64 = 16667;

/// A frame longer than this, in microseconds, is worth reporting.
pub const OVERRUN_MICROS: u64 = 18000;

/// Whether the loop is on schedule and may sleep out the rest of the frame:
/// true exactly when the number of frames already produced has reached the
/// number of whole frame budgets that fit in the elapsed session time.
/// When behind, the caller skips sleeping entirely rather than accumulating
/// lag.
pub fn on_schedule(frame_count: u64, elapsed_micros: u64) -> (r: bool)
    ensures
        r == (frame_count >= elapsed_micros / FRAME_BUDGET_MICROS),
{
    frame_count >= elapsed_micros / FRAME_BUDGET_MICROS
}

/// Whether one frame took long enough past the budget to be logged.
pub fn overruns_budget(frame_micros: u64) -> (r: bool)
    ensures
        r == (frame_micros > OVERRUN_MICROS),
{
    frame_micros > OVERRUN_MICROS
}

} // verus!
