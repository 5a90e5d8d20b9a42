//! Protocol core for a two-half wireless game controller bridged into one
//! virtual gamepad.
//!
//! The crate holds the pure, verified logic of the bridge: the binary report
//! codec (outbound command frames, stick and button decoding), the discovery
//! decisions (which advertisements to accept, how a device is classified as a
//! left or right half), the bounded-channel backpressure model of a device
//! session, and the fusion of the two per-half state streams into combined
//! gamepad frames. All radio and virtual-device I/O lives outside the crate
//! and exchanges plain values with it.

pub mod commands;
pub mod discovery;
pub mod fusion;
pub mod gamepad;
pub mod session;
pub mod state;
pub mod stick;

pub use commands::Commands;
pub use discovery::{CharacteristicInfo, RawAdvertisement};
pub use gamepad::{Apply, GamepadFrame};
pub use session::{OfferOutcome, SessionQueue};
pub use state::{Controller, ControllerState, LeftJoyConState, RightJoyConState};
