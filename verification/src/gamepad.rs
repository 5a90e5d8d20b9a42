//! The combined virtual-gamepad frame and the per-half button/axis mapping.
//!
//! Each half's digital buttons map onto fixed virtual button bits by a simple
//! OR: any pressed source button sets its bit. The digital triggers map to
//! full-scale analog trigger values. Stick axes always overwrite the frame's
//! axis values rather than accumulate: one physical stick position stands for
//! one virtual axis value, and accumulating across repeated fuses would let
//! the axis drift.

use crate::state::{ControllerState, LeftJoyConState, RightJoyConState};
use vstd::prelude::*;

verus! {

/// Virtual d-pad up bit.
pub const BTN_UP: u16 = 0x0001;
/// Virtual d-pad down bit.
pub const BTN_DOWN: u16 = 0x0002;
/// Virtual d-pad left bit.
pub const BTN_LEFT: u16 = 0x0004;
/// Virtual d-pad right bit.
pub const BTN_RIGHT: u16 = 0x0008;
/// Virtual start button bit.
pub const BTN_START: u16 = 0x0010;
/// Virtual back button bit.
pub const BTN_BACK: u16 = 0x0020;
/// Virtual left thumb-click bit.
pub const BTN_LTHUMB: u16 = 0x0040;
/// Virtual right thumb-click bit.
pub const BTN_RTHUMB: u16 = 0x0080;
/// Virtual left shoulder bit.
pub const BTN_LB: u16 = 0x0100;
/// Virtual right shoulder bit.
pub const BTN_RB: u16 = 0x0200;
/// Virtual guide button bit.
pub const BTN_GUIDE: u16 = 0x0400;
/// Virtual face button A bit.
pub const BTN_A: u16 = 0x1000;
/// Virtual face button B bit.
pub const BTN_B: u16 = 0x2000;
/// Virtual face button X bit.
pub const BTN_X: u16 = 0x4000;
/// Virtual face button Y bit.
pub const BTN_Y: u16 = 0x8000;

/// Full-scale analog trigger value a pressed digital trigger maps to.
pub const TRIGGER_MAX: u8 = 255;

/// One combined virtual-gamepad frame: the mapped button bits, the two
/// trigger values, and the four stick axes in fixed-point axis units.
#[derive(Clone, Copy, Debug, PartialEq, Eq, Structural)]
pub struct GamepadFrame {
    pub buttons: u16,
    pub left_trigger: u8,
    pub right_trigger: u8,
    pub thumb_lx: i16,
    pub thumb_ly: i16,
    pub thumb_rx: i16,
    pub thumb_ry: i16,
}

/// The neutral frame: no buttons, released triggers, centered sticks.
pub open spec fn neutral_frame() -> GamepadFrame {
    GamepadFrame {
        buttons: 0,
        left_trigger: 0,
        right_trigger: 0,
        thumb_lx: 0,
        thumb_ly: 0,
        thumb_rx: 0,
        thumb_ry: 0,
    }
}

impl Default for GamepadFrame {
    /// The neutral frame.
    fn default() -> (r: Self)
        ensures
            r == neutral_frame(),
    {
        GamepadFrame {
            buttons: 0,
            left_trigger: 0,
            right_trigger: 0,
            thumb_lx: 0,
            thumb_ly: 0,
            thumb_rx: 0,
            thumb_ry: 0,
        }
    }
}

/// The virtual button bits the left half's pressed buttons map to.
pub open spec fn left_buttons(s: LeftJoyConState) -> u16 {
    (if s.up { BTN_UP } else { 0 }) | (if s.down { BTN_DOWN } else { 0 }) | (if s.left { BTN_LEFT } else { 0 })
        | (if s.right { BTN_RIGHT } else { 0 }) | (if s.minus { BTN_BACK } else { 0 })
        | (if s.l { BTN_LB } else { 0 }) | (if s.stick { BTN_LTHUMB } else { 0 })
}

/// The virtual button bits the right half's pressed buttons map to.
pub open spec fn right_buttons(s: RightJoyConState) -> u16 {
    (if s.a { BTN_B } else { 0 }) | (if s.b { BTN_A } else { 0 }) | (if s.x { BTN_Y } else { 0 })
        | (if s.y { BTN_X } else { 0 }) | (if s.plus { BTN_START } else { 0 })
        | (if s.r { BTN_RB } else { 0 }) | (if s.home { BTN_GUIDE } else { 0 })
        | (if s.stick { BTN_RTHUMB } else { 0 })
}

/// The frame after the left half's state is applied: its button bits are
/// OR-ed in, a pressed ZL drives the left trigger to full scale, and the left
/// stick axes are overwritten with the reading.
pub open spec fn apply_left(f: GamepadFrame, s: LeftJoyConState) -> GamepadFrame {
    GamepadFrame {
        buttons: f.buttons | left_buttons(s),
        left_trigger: if s.zl { TRIGGER_MAX } else { f.left_trigger },
        right_trigger: f.right_trigger,
        thumb_lx: s.stick_x,
        thumb_ly: s.stick_y,
        thumb_rx: f.thumb_rx,
        thumb_ry: f.thumb_ry,
    }
}

/// The frame after the right half's state is applied: its button bits are
/// OR-ed in, a pressed ZR drives the right trigger to full scale, and the
/// right stick axes are overwritten with the reading.
pub open spec fn apply_right(f: GamepadFrame, s: RightJoyConState) -> GamepadFrame {
    GamepadFrame {
        buttons: f.buttons | right_buttons(s),
        left_trigger: f.left_trigger,
        right_trigger: if s.zr { TRIGGER_MAX } else { f.right_trigger },
        thumb_lx: f.thumb_lx,
        thumb_ly: f.thumb_ly,
        thumb_rx: s.stick_x,
        thumb_ry: s.stick_y,
    }
}

/// Law: the left half's button mapping is faithful. Every virtual bit it can
/// drive is set exactly when its one source button is pressed — no two source
/// buttons of the half share a virtual bit — and no other bit is ever set.
pub proof fn lemma_left_mapping_faithful(s: LeftJoyConState)
    ensures
        (left_buttons(s) & BTN_UP != 0) == s.up,
        (left_buttons(s) & BTN_DOWN != 0) == s.down,
        (left_buttons(s) & BTN_LEFT != 0) == s.left,
        (left_buttons(s) & BTN_RIGHT != 0) == s.right,
        (left_buttons(s) & BTN_BACK != 0) == s.minus,
        (left_buttons(s) & BTN_LB != 0) == s.l,
        (left_buttons(s) & BTN_LTHUMB != 0) == s.stick,
        left_buttons(s) & !(BTN_UP | BTN_DOWN | BTN_LEFT | BTN_RIGHT | BTN_BACK | BTN_LB
            | BTN_LTHUMB) == 0,
{
    let m = left_buttons(s);
    let up = s.up;
    let down = s.down;
    let left = s.left;
    let right = s.right;
    let minus = s.minus;
    let l = s.l;
    let stick = s.stick;
    assert((m & BTN_UP != 0) == up && (m & BTN_DOWN != 0) == down && (m & BTN_LEFT != 0) == left
        && (m & BTN_RIGHT != 0) == right && (m & BTN_BACK != 0) == minus && (m & BTN_LB != 0) == l
        && (m & BTN_LTHUMB != 0) == stick && m & !(BTN_UP | BTN_DOWN | BTN_LEFT | BTN_RIGHT
        | BTN_BACK | BTN_LB | BTN_LTHUMB) == 0) by (bit_vector)
        requires
            m == (if up { BTN_UP } else { 0u16 }) | (if down { BTN_DOWN } else { 0u16 })
                | (if left { BTN_LEFT } else { 0u16 }) | (if right { BTN_RIGHT } else { 0u16 })
                | (if minus { BTN_BACK } else { 0u16 }) | (if l { BTN_LB } else { 0u16 })
                | (if stick { BTN_LTHUMB } else { 0u16 }),
    ;
}

/// Law: the right half's button mapping is faithful in the same sense; the
/// face buttons land crosswise (source A on virtual B, source X on virtual Y,
/// and vice versa), each on its own bit.
pub proof fn lemma_right_mapping_faithful(s: RightJoyConState)
    ensures
        (right_buttons(s) & BTN_B != 0) == s.a,
        (right_buttons(s) & BTN_A != 0) == s.b,
        (right_buttons(s) & BTN_Y != 0) == s.x,
        (right_buttons(s) & BTN_X != 0) == s.y,
        (right_buttons(s) & BTN_START != 0) == s.plus,
        (right_buttons(s) & BTN_RB != 0) == s.r,
        (right_buttons(s) & BTN_GUIDE != 0) == s.home,
        (right_buttons(s) & BTN_RTHUMB != 0) == s.stick,
        right_buttons(s) & !(BTN_A | BTN_B | BTN_X | BTN_Y | BTN_START | BTN_RB | BTN_GUIDE
            | BTN_RTHUMB) == 0,
{
    let m = right_buttons(s);
    let a = s.a;
    let b = s.b;
    let x = s.x;
    let y = s.y;
    let plus = s.plus;
    let r = s.r;
    let home = s.home;
    let stick = s.stick;
    assert((m & BTN_B != 0) == a && (m & BTN_A != 0) == b && (m & BTN_Y != 0) == x
        && (m & BTN_X != 0) == y && (m & BTN_START != 0) == plus && (m & BTN_RB != 0) == r
        && (m & BTN_GUIDE != 0) == home && (m & BTN_RTHUMB != 0) == stick
        && m & !(BTN_A | BTN_B | BTN_X | BTN_Y | BTN_START | BTN_RB | BTN_GUIDE | BTN_RTHUMB)
        == 0) by (bit_vector)
        requires
            m == (if a { BTN_B } else { 0u16 }) | (if b { BTN_A } else { 0u16 })
                | (if x { BTN_Y } else { 0u16 }) | (if y { BTN_X } else { 0u16 })
                | (if plus { BTN_START } else { 0u16 }) | (if r { BTN_RB } else { 0u16 })
                | (if home { BTN_GUIDE } else { 0u16 }) | (if stick { BTN_RTHUMB } else { 0u16 }),
    ;
}

/// The frame after one per-half update is applied to it.
pub open spec fn apply_state(f: GamepadFrame, s: ControllerState) -> GamepadFrame {
    match s {
        ControllerState::Left(l) => apply_left(f, l),
        ControllerState::Right(r) => apply_right(f, r),
    }
}

/// A sink state that per-half updates can be applied to.
pub trait Apply: Sized {
    /// The value after one update is applied.
    spec fn applied(pre: Self, state: ControllerState) -> Self;

    /// Apply one per-half update.
    fn apply(&mut self, state: ControllerState)
        ensures
            *final(self) == Self::applied(*old(self), state),
    ;
}

impl Apply for GamepadFrame {
    open spec fn applied(pre: Self, state: ControllerState) -> Self {
        apply_state(pre, state)
    }

    fn apply(&mut self, state: ControllerState)
        ensures
            *final(self) == Self::applied(*old(self), state),
    {
        match state {
            ControllerState::Left(l) => l.apply_to(self),
            ControllerState::Right(r) => r.apply_to(self),
        }
    }
}

impl LeftJoyConState {
    /// Mapped virtual button bits of this state's pressed buttons.
    fn button_mask(&self) -> (m: u16)
        ensures
            m == left_buttons(*self),
    {
        (if self.up { BTN_UP } else { 0 }) | (if self.down { BTN_DOWN } else { 0 }) | (if self.left { BTN_LEFT } else { 0 })
            | (if self.right { BTN_RIGHT } else { 0 }) | (if self.minus { BTN_BACK } else { 0 })
            | (if self.l { BTN_LB } else { 0 }) | (if self.stick { BTN_LTHUMB } else { 0 })
    }

    /// Apply this left-half state to a frame.
    pub fn apply_to(&self, gamepad: &mut GamepadFrame)
        ensures
            *final(gamepad) == apply_left(*old(gamepad), *self),
    {
        gamepad.buttons = gamepad.buttons | self.button_mask();
        if self.zl {
            gamepad.left_trigger = TRIGGER_MAX;
        }
        gamepad.thumb_lx = self.stick_x;
        gamepad.thumb_ly = self.stick_y;
    }
}

impl RightJoyConState {
    /// Mapped virtual button bits of this state's pressed buttons.
    fn button_mask(&self) -> (m: u16)
        ensures
            m == right_buttons(*self),
    {
        (if self.a { BTN_B } else { 0 }) | (if self.b { BTN_A } else { 0 }) | (if self.x { BTN_Y } else { 0 })
            | (if self.y { BTN_X } else { 0 }) | (if self.plus { BTN_START } else { 0 })
            | (if self.r { BTN_RB } else { 0 }) | (if self.home { BTN_GUIDE } else { 0 })
            | (if self.stick { BTN_RTHUMB } else { 0 })
    }

    /// Apply this right-half state to a frame.
    pub fn apply_to(&self, gamepad: &mut GamepadFrame)
        ensures
            *final(gamepad) == apply_right(*old(gamepad), *self),
    {
        gamepad.buttons = gamepad.buttons | self.button_mask();
        if self.zr {
            gamepad.right_trigger = TRIGGER_MAX;
        }
        gamepad.thumb_rx = self.stick_x;
        gamepad.thumb_ry = self.stick_y;
    }
}

} // verus!
