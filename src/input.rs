//! One frame of player input, as sampled once before the frame's update.
use vstd::prelude::*;

verus! {

/// A direction along one axis: right or down, none, left or up.
#[derive(Clone, Copy, Debug, PartialEq, Eq, Structural)]
pub enum Tri {
    Positive,
    Zero,
    Negative,
}

impl Tri {
    pub open spec fn value(self) -> int {
        match self {
            Tri::Positive => 1,
            Tri::Zero => 0,
            Tri::Negative => -1,
        }
    }

    pub fn as_i32(self) -> (r: i32)
        ensures
            r == self.value(),
    {
        match self {
            Tri::Positive => 1,
            Tri::Zero => 0,
            Tri::Negative => -1,
        }
    }
}

/// The state of the controls this frame: the direction pad, and whether the
/// jump and attack buttons went down since the last frame.
#[derive(Clone, Copy, Debug, PartialEq, Eq, Structural)]
pub struct FrameInput {
    pub x_tri: Tri,
    pub y_tri: Tri,
    pub jump_pressed: bool,
    pub attack_pressed: bool,
}

impl FrameInput {
    /// No direction held and no button pressed.
    pub open spec fn is_neutral(self) -> bool {
        self.x_tri == Tri::Zero && !self.jump_pressed && !self.attack_pressed
    }
}

} // verus!
