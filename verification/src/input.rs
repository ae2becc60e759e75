//! Per-frame input snapshot and the mouse-motion accumulator.
//!
//! The controllers never see raw device events: each frame they receive one
//! `InputFrame` holding key state and the summed mouse delta for the frame.

use vstd::prelude::*;
use crate::math::COORD_LIMIT;

verus! {

/// Interaction state a menu button reports for a frame.
#[derive(Clone, Copy, PartialEq, Eq, Structural, Debug)]
pub enum Interaction {
    Pressed,
    Hovered,
    Idle,
}

/// What a menu button does when activated.
#[derive(Clone, Copy, PartialEq, Eq, Structural, Debug)]
pub enum ButtonAction {
    PlayGame,
    Dismiss,
}

/// One frame's worth of input: key state sampled once, mouse motion summed.
///
/// `forward`/`back`/`left`/`right` and `cancel` are "held this frame";
/// `reset` and the ten digit fields are "just pressed this frame".
/// `play_button`/`dismiss_button` carry a button's interaction state when it
/// changed this frame, `None` when it did not.
#[derive(Clone, Copy, PartialEq, Eq, Debug)]
pub struct InputFrame {
    pub forward: bool,
    pub back: bool,
    pub left: bool,
    pub right: bool,
    pub cancel: bool,
    pub reset: bool,
    pub digit1: bool,
    pub digit2: bool,
    pub digit3: bool,
    pub digit4: bool,
    pub digit5: bool,
    pub digit6: bool,
    pub digit7: bool,
    pub digit8: bool,
    pub digit9: bool,
    pub digit0: bool,
    pub mouse_dx: i64,
    pub mouse_dy: i64,
    pub play_button: Option<Interaction>,
    pub dismiss_button: Option<Interaction>,
}

impl InputFrame {
    /// A frame in which nothing happened: no keys, no motion, no widget change.
    pub fn idle() -> (f: InputFrame)
        ensures
            f == InputFrame::spec_idle(),
    {
        InputFrame {
            forward: false,
            back: false,
            left: false,
            right: false,
            cancel: false,
            reset: false,
            digit1: false,
            digit2: false,
            digit3: false,
            digit4: false,
            digit5: false,
            digit6: false,
            digit7: false,
            digit8: false,
            digit9: false,
            digit0: false,
            mouse_dx: 0,
            mouse_dy: 0,
            play_button: None,
            dismiss_button: None,
        }
    }

    /// The idle frame as a value.
    pub open spec fn spec_idle() -> InputFrame {
        InputFrame {
            forward: false,
            back: false,
            left: false,
            right: false,
            cancel: false,
            reset: false,
            digit1: false,
            digit2: false,
            digit3: false,
            digit4: false,
            digit5: false,
            digit6: false,
            digit7: false,
            digit8: false,
            digit9: false,
            digit0: false,
            mouse_dx: 0,
            mouse_dy: 0,
            play_button: None,
            dismiss_button: None,
        }
    }
}

/// Whether digit key `n` (0 through 9) was just pressed in `f`.
pub open spec fn digit_pressed(f: InputFrame, n: int) -> bool {
    if n == 1 {
        f.digit1
    } else if n == 2 {
        f.digit2
    } else if n == 3 {
        f.digit3
    } else if n == 4 {
        f.digit4
    } else if n == 5 {
        f.digit5
    } else if n == 6 {
        f.digit6
    } else if n == 7 {
        f.digit7
    } else if n == 8 {
        f.digit8
    } else if n == 9 {
        f.digit9
    } else if n == 0 {
        f.digit0
    } else {
        false
    }
}

/// No digit key was just pressed in `f`.
pub open spec fn no_digit_pressed(f: InputFrame) -> bool {
    forall|n: int| !digit_pressed(f, n)
}

/// Sums the mouse-motion events that arrive between frames; cleared when the
/// camera update consumes it. Absence of events reads as zero motion.
#[derive(Clone, Copy, PartialEq, Eq, Structural, Debug)]
pub struct MouseAccumulator {
    pub dx: i64,
    pub dy: i64,
}

impl MouseAccumulator {
    /// An empty buffer: zero accumulated motion.
    pub fn new() -> (m: MouseAccumulator)
        ensures
            m.dx == 0 && m.dy == 0,
    {
        MouseAccumulator { dx: 0, dy: 0 }
    }

    /// Adds one motion event to the frame's running sum.
    pub fn accumulate(&mut self, dx: i64, dy: i64)
        requires
            -COORD_LIMIT <= old(self).dx + dx <= COORD_LIMIT,
            -COORD_LIMIT <= old(self).dy + dy <= COORD_LIMIT,
            -COORD_LIMIT <= dx <= COORD_LIMIT,
            -COORD_LIMIT <= dy <= COORD_LIMIT,
        ensures
            final(self).dx == old(self).dx + dx,
            final(self).dy == old(self).dy + dy,
    {
        self.dx = self.dx + dx;
        self.dy = self.dy + dy;
    }

    /// Hands out the frame's summed delta and clears the buffer.
    pub fn take(&mut self) -> (d: (i64, i64))
        ensures
            d.0 == old(self).dx && d.1 == old(self).dy,
            final(self).dx == 0 && final(self).dy == 0,
    {
        let d = (self.dx, self.dy);
        self.dx = 0;
        self.dy = 0;
        d
    }
}

} // verus!
