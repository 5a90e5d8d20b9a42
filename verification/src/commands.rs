//! Outbound command frames written to a controller half's command
//! characteristic.
//!
//! Every command encodes to a byte sequence whose length and header bytes are
//! fixed protocol constants; only the LED intensity byte varies at runtime.

use vstd::prelude::*;

verus! {

/// An outbound instruction for one controller half.
#[derive(Clone, Copy, Debug, PartialEq, Eq, Structural)]
pub enum Commands {
    /// Set the player-indicator LEDs; the payload byte is the intensity
    /// pattern, one bit per LED.
    SetLED(u8),
    /// Trigger the single fixed vibration pulse used during initialization.
    SendVibration,
}

/// The 16-byte frame that sets the player LEDs: a fixed eight-byte header,
/// the intensity byte, then seven bytes of zero padding.
pub open spec fn set_led_frame(led: u8) -> Seq<u8> {
    seq![0x09u8, 0x91, 0x00, 0x07, 0x00, 0x08, 0x00, 0x00, led, 0x00, 0x00, 0x00, 0x00, 0x00, 0x00, 0x00]
}

/// The fixed 12-byte vibration frame.
pub open spec fn vibration_frame() -> Seq<u8> {
    seq![0x0Au8, 0x91, 0x01, 0x02, 0x00, 0x04, 0x00, 0x00, 0x03, 0x00, 0x00, 0x00]
}

/// The wire encoding of a command.
pub open spec fn command_frame(c: Commands) -> Seq<u8> {
    match c {
        Commands::SetLED(led) => set_led_frame(led),
        Commands::SendVibration => vibration_frame(),
    }
}

impl Commands {
    /// Encode the command as the exact byte frame the protocol demands.
    pub fn to_bytes(self) -> (r: Vec<u8>)
        ensures
            r@ == command_frame(self),
    {
        match self {
            Commands::SetLED(led) => {
                let r: Vec<u8> = vec![
                    0x09, 0x91, 0x00, 0x07, 0x00, 0x08, 0x00, 0x00, led, 0x00,
                    0x00, 0x00, 0x00, 0x00, 0x00, 0x00,
                ];
                proof {
                    assert(r@ =~= set_led_frame(led));
                }
                r
            }
            Commands::SendVibration => {
                let r: Vec<u8> = vec![
                    0x0A, 0x91, 0x01, 0x02,
                    0x00, 0x04, 0x00, 0x00,
                    0x03, 0x00, 0x00, 0x00,
                ];
                proof {
                    assert(r@ =~= vibration_frame());
                }
                r
            }
        }
    }
}

} // verus!
