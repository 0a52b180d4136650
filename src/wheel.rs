//! Mouse-wheel steps for pixel-based scrolling.
//!
//! A pixel delta does not scroll by its size: each axis moves the wheel by at
//! most one step, chosen by where the delta lies against the thresholds 0 and
//! 1. A vertical delta above 1 steps the horizontal wheel, not the vertical
//! one.
use vstd::prelude::*;

verus! {

/// Where one axis of a pixel delta lies.
#[derive(Clone, Copy, Debug, PartialEq, Eq, Structural)]
pub enum PixelDelta {
    /// Below zero.
    Negative,
    /// From zero up to and including one.
    Small,
    /// Above one.
    AboveOne,
}

/// How far each wheel accumulator moves for one scroll event.
#[derive(Clone, Copy, Debug, PartialEq, Eq, Structural)]
pub struct WheelSteps {
    pub horizontal: i8,
    pub vertical: i8,
}

/// Horizontal step of a pixel scroll with deltas `x` and `y`.
pub open spec fn horizontal_step(x: PixelDelta, y: PixelDelta) -> int {
    (match x {
        PixelDelta::Negative => -1int,
        PixelDelta::Small => 0int,
        PixelDelta::AboveOne => 1int,
    }) + (if y == PixelDelta::AboveOne {
        1int
    } else {
        0int
    })
}

/// Vertical step of a pixel scroll with vertical delta `y`.
pub open spec fn vertical_step(y: PixelDelta) -> int {
    if y == PixelDelta::Negative {
        -1
    } else {
        0
    }
}

/// The wheel steps of one pixel-based scroll event.
pub fn pixel_wheel_steps(x: PixelDelta, y: PixelDelta) -> (r: WheelSteps)
    ensures
        r.horizontal == horizontal_step(x, y),
        r.vertical == vertical_step(y),
{
    let mut horizontal: i8 = 0;
    let mut vertical: i8 = 0;
    match x {
        PixelDelta::Negative => horizontal = horizontal - 1,
        PixelDelta::AboveOne => horizontal = horizontal + 1,
        PixelDelta::Small => {},
    }
    match y {
        PixelDelta::Negative => vertical = vertical - 1,
        PixelDelta::AboveOne => horizontal = horizontal + 1,
        PixelDelta::Small => {},
    }
    WheelSteps { horizontal, vertical }
}

/// A horizontal delta below zero moves the horizontal wheel back by exactly one
/// step, whatever its size, unless the same event also carries a vertical delta
/// above one (which steps the horizontal wheel forward again).
pub proof fn lemma_negative_x_steps_back(y: PixelDelta)
    requires
        y != PixelDelta::AboveOne,
    ensures
        horizontal_step(PixelDelta::Negative, y) == -1,
{
}

} // verus!
