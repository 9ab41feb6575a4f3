//! The status byte that the radio returns as the first byte of every bus
//! transaction.

use vstd::prelude::*;

verus! {

/// Flags decoded from one status byte.
#[derive(Clone, Copy, Debug, PartialEq, Eq, Structural)]
pub struct RadioStatus {
    /// The 16 MHz crystal oscillator is running (bit 6).
    pub xosx_stable: bool,
    /// A TX FIFO underflow has occurred; cleared by flushing the TX FIFO (bit 5).
    pub tx_underflow: bool,
    /// The encryption module is busy (bit 4).
    pub enc_busy: bool,
    /// RF transmission is active (bit 3).
    pub tx_active: bool,
    /// The frequency synthesizer PLL is in lock (bit 2).
    pub lock: bool,
    /// The RSSI value is valid (bit 1).
    pub rssi_valud: bool,
}

/// Whether bit `i` of `value` is set.
pub open spec fn byte_bit(value: u8, i: u8) -> bool {
    (value >> i) & 1 == 1
}

impl RadioStatus {
    /// The flags that the status byte `value` carries.
    pub open spec fn spec_from_byte(value: u8) -> RadioStatus {
        RadioStatus {
            xosx_stable: byte_bit(value, 6),
            tx_underflow: byte_bit(value, 5),
            enc_busy: byte_bit(value, 4),
            tx_active: byte_bit(value, 3),
            lock: byte_bit(value, 2),
            rssi_valud: byte_bit(value, 1),
        }
    }

    /// Decodes a status byte.
    pub fn from_byte(value: u8) -> (r: RadioStatus)
        ensures
            r == RadioStatus::spec_from_byte(value),
    {
        RadioStatus {
            xosx_stable: (value >> 6u8) & 1 == 1,
            tx_underflow: (value >> 5u8) & 1 == 1,
            enc_busy: (value >> 4u8) & 1 == 1,
            tx_active: (value >> 3u8) & 1 == 1,
            lock: (value >> 2u8) & 1 == 1,
            rssi_valud: (value >> 1u8) & 1 == 1,
        }
    }
}

impl From<u8> for RadioStatus {
    fn from(value: u8) -> (r: RadioStatus) {
        RadioStatus::from_byte(value)
    }
}

impl vstd::std_specs::convert::FromSpecImpl<u8> for RadioStatus {
    open spec fn obeys_from_spec() -> bool {
        true
    }

    open spec fn from_spec(value: u8) -> RadioStatus {
        RadioStatus::spec_from_byte(value)
    }
}

} // verus!
