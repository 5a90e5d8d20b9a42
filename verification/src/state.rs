//! Typed per-half controller state and the input-report decoders.
//!
//! An input report is a fixed-layout byte buffer: the digital buttons sit in
//! the two bytes at offsets 2 and 3, each button one documented mask; the
//! analog stick sits in the three bytes at offsets 5 through 7. Decoding
//! never fails on a buffer of sufficient length; a shorter buffer is a
//! caller contract violation, so the decoders require the length up front.

use crate::stick::{
    axis_value, decode_stick, stick_x_raw, stick_y_raw, X_STICK_MAX, X_STICK_MIN, Y_STICK_MAX,
    Y_STICK_MIN,
};
use vstd::prelude::*;

verus! {

/// Which physical half of the controller pair a device is.
#[derive(Clone, Copy, Debug, PartialEq, Eq, Structural)]
pub enum Controller {
    JoyconRight,
    JoyconLeft,
}

/// Snapshot of the left half: its digital buttons and one stick reading in
/// fixed-point axis units (see [`crate::stick::AXIS_ONE`]).
#[derive(Clone, Copy, Debug, PartialEq, Eq, Structural)]
pub struct LeftJoyConState {
    pub stick: bool,
    pub minus: bool,
    pub zl: bool,
    pub l: bool,
    pub up: bool,
    pub left: bool,
    pub right: bool,
    pub down: bool,
    pub sl: bool,
    pub sr: bool,
    pub capture: bool,
    pub stick_x: i16,
    pub stick_y: i16,
}

/// Snapshot of the right half: its digital buttons and one stick reading in
/// fixed-point axis units.
#[derive(Clone, Copy, Debug, PartialEq, Eq, Structural)]
pub struct RightJoyConState {
    pub stick: bool,
    pub plus: bool,
    pub zr: bool,
    pub r: bool,
    pub x: bool,
    pub y: bool,
    pub a: bool,
    pub b: bool,
    pub sl: bool,
    pub sr: bool,
    pub c: bool,
    pub home: bool,
    pub stick_x: i16,
    pub stick_y: i16,
}

/// One decoded update from either half.
#[derive(Clone, Copy, Debug, PartialEq, Eq, Structural)]
pub enum ControllerState {
    Left(LeftJoyConState),
    Right(RightJoyConState),
}

/// Whether the button behind `mask` is pressed in the report byte `byte`.
pub open spec fn button_bit(byte: u8, mask: u8) -> bool {
    byte & mask != 0
}

/// The fixed-point x axis value carried by the three stick bytes.
pub open spec fn stick_axis_x(b0: u8, b1: u8) -> i16 {
    axis_value(stick_x_raw(b0, b1), X_STICK_MIN as int, X_STICK_MAX as int) as i16
}

/// The fixed-point y axis value carried by the three stick bytes.
pub open spec fn stick_axis_y(b1: u8, b2: u8) -> i16 {
    axis_value(stick_y_raw(b1, b2), Y_STICK_MIN as int, Y_STICK_MAX as int) as i16
}

/// The left-half state a well-formed input report decodes to.
pub open spec fn left_state_of(bytes: Seq<u8>) -> LeftJoyConState
    recommends
        bytes.len() >= 8,
{
    LeftJoyConState {
        stick: button_bit(bytes[2], 0x80),
        minus: button_bit(bytes[2], 0x40),
        zl: button_bit(bytes[2], 0x20),
        l: button_bit(bytes[2], 0x10),
        up: button_bit(bytes[2], 0x08),
        left: button_bit(bytes[2], 0x04),
        right: button_bit(bytes[2], 0x02),
        down: button_bit(bytes[2], 0x01),
        sl: button_bit(bytes[3], 0x80),
        sr: button_bit(bytes[3], 0x40),
        capture: button_bit(bytes[3], 0x01),
        stick_x: stick_axis_x(bytes[5], bytes[6]),
        stick_y: stick_axis_y(bytes[6], bytes[7]),
    }
}

/// The right-half state a well-formed input report decodes to.
pub open spec fn right_state_of(bytes: Seq<u8>) -> RightJoyConState
    recommends
        bytes.len() >= 8,
{
    RightJoyConState {
        stick: button_bit(bytes[2], 0x80),
        plus: button_bit(bytes[2], 0x40),
        zr: button_bit(bytes[2], 0x20),
        r: button_bit(bytes[2], 0x10),
        x: button_bit(bytes[2], 0x08),
        y: button_bit(bytes[2], 0x04),
        a: button_bit(bytes[2], 0x02),
        b: button_bit(bytes[2], 0x01),
        sl: button_bit(bytes[3], 0x80),
        sr: button_bit(bytes[3], 0x40),
        home: button_bit(bytes[3], 0x01),
        c: button_bit(bytes[3], 0x10),
        stick_x: stick_axis_x(bytes[5], bytes[6]),
        stick_y: stick_axis_y(bytes[6], bytes[7]),
    }
}

/// Decode a left-half input report; the result is a pure function of the
/// report bytes.
pub fn decode_left_report(report: &Vec<u8>) -> (s: LeftJoyConState)
    requires
        report@.len() >= 8,
    ensures
        s == left_state_of(report@),
{
    let buttons0 = report[2];
    let buttons1 = report[3];
    let (x, y) = decode_stick(report[5], report[6], report[7]);
    LeftJoyConState {
        stick: (buttons0 & 0x80) > 0,
        minus: (buttons0 & 0x40) > 0,
        zl: (buttons0 & 0x20) > 0,
        l: (buttons0 & 0x10) > 0,
        up: (buttons0 & 0x08) > 0,
        left: (buttons0 & 0x04) > 0,
        right: (buttons0 & 0x02) > 0,
        down: (buttons0 & 0x01) > 0,
        sl: (buttons1 & 0x80) > 0,
        sr: (buttons1 & 0x40) > 0,
        capture: (buttons1 & 0x01) > 0,
        stick_x: x,
        stick_y: y,
    }
}

/// Decode a right-half input report; the result is a pure function of the
/// report bytes.
pub fn decode_right_report(report: &Vec<u8>) -> (s: RightJoyConState)
    requires
        report@.len() >= 8,
    ensures
        s == right_state_of(report@),
{
    let buttons0 = report[2];
    let buttons1 = report[3];
    let (x, y) = decode_stick(report[5], report[6], report[7]);
    RightJoyConState {
        stick: (buttons0 & 0x80) > 0,
        plus: (buttons0 & 0x40) > 0,
        zr: (buttons0 & 0x20) > 0,
        r: (buttons0 & 0x10) > 0,
        x: (buttons0 & 0x08) > 0,
        y: (buttons0 & 0x04) > 0,
        a: (buttons0 & 0x02) > 0,
        b: (buttons0 & 0x01) > 0,
        sl: (buttons1 & 0x80) > 0,
        sr: (buttons1 & 0x40) > 0,
        home: (buttons1 & 0x01) > 0,
        c: (buttons1 & 0x10) > 0,
        stick_x: x,
        stick_y: y,
    }
}

} // verus!
