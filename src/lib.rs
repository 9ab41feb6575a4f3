//! Driver logic for the CC2420 IEEE 802.15.4 radio transceiver.
//!
//! The crate holds everything the driver decides: the bit layout of every
//! configuration register, the addressing of the on-chip RAM, the command
//! strobes, the decoding of the status byte, and the byte frames that the
//! radio exchanges over its serial bus. The bus itself, the two signal lines
//! and the delay provider are supplied by the caller.

use vstd::prelude::*;

pub mod config;
pub mod configure;
pub mod error;
pub mod frame;
pub mod ram;
pub mod register;
pub mod session;
pub mod status;
pub mod strobe;
pub mod transmit;

pub use config::{Configuration, ConfigurationBuilder};
pub use configure::{ConfigStage, ConfigurePhase, ConfigureSession};
pub use error::{FieldError, RadioError};
pub use ram::Ram;
pub use register::Register;
pub use session::{BusEvent, BusOp, Step};
pub use status::RadioStatus;
pub use strobe::Strobe;
pub use transmit::{SendPhase, SendSession};

verus! {

/// Highest serial clock frequency the radio accepts, in Hz.
pub const MAX_SCLK_FREQUENCY: u32 = 10_000_000;

} // verus!
