//! Configuration and status registers.
//!
//! Every register is a 16-bit word at a fixed 6-bit address. Each register
//! type below names its fields, states in spec functions how the fields are
//! packed into the word (`spec_value`) and unpacked from it
//! (`spec_from_value`), and proves that unpacking a packed register gives the
//! register back, apart from the fields that the radio only reports.

use vstd::prelude::*;

pub mod agc;
pub mod battery_monitor;
pub mod frequency_synthesis;
pub mod fsm;
pub mod io_configuration;
pub mod main_control;
pub mod manufacturer_id;
pub mod modem_control;
pub mod override_registers;
pub mod receive_control;
pub mod rssi;
pub mod security_control;
pub mod sync;
pub mod transmit_control;

pub use agc::{AGCControlRegister, AGCControlRegisterBuilder};
pub use battery_monitor::{BatteryMonitorRegister, BatteryMonitorRegisterBuilder};
pub use frequency_synthesis::{FrequencySynthesizerRegister, FrequencySynthesizerRegisterBuilder};
pub use fsm::{FiniteStateMachineConstants, FiniteStateMachineConstantsBuilder};
pub use io_configuration::{
    IOConfigurationRegister, IOConfigurationRegister1, IOConfigurationRegister1Builder,
    IOConfigurationRegisterBuilder,
};
pub use main_control::{MainControlRegister, MainControlRegisterBuilder};
pub use manufacturer_id::{
    LowerManufacturerID, LowerManufacturerIDBuilder, UpperManufacturerID, UpperManufacturerIDBuilder,
};
pub use modem_control::{
    ModemControlRegister0, ModemControlRegister0Builder, ModemControlRegister1,
    ModemControlRegister1Builder,
};
pub use override_registers::{
    AndOverrideRegister, AndOverrideRegisterBuilder, OrOverrideRegister, OrOverrideRegisterBuilder,
};
pub use receive_control::{
    ReceiveControlRegister0, ReceiveControlRegister0Builder, ReceiveControlRegister1,
    ReceiveControlRegister1Builder,
};
pub use rssi::{RSSIRegister, RSSIRegisterBuilder};
pub use security_control::{
    SecurityControlRegister0, SecurityControlRegister0Builder, SecurityControlRegister1,
    SecurityControlRegister1Builder,
};
pub use sync::{SyncWordRegister, SyncWordRegisterBuilder};
pub use transmit_control::{TransmitControlRegister, TransmitControlRegisterBuilder};

verus! {

/// Whether bit `i` of `value` is set.
pub open spec fn bit(value: u16, i: u16) -> bool {
    (value >> i) & 1 == 1
}

/// The bits of `value` selected by `mask` once `value` is shifted right by `lo`.
pub open spec fn field(value: u16, lo: u16, mask: u16) -> u16 {
    (value >> lo) & mask
}

/// A word with only bit `i` set if `set` holds, else zero.
pub open spec fn flag(set: bool, i: u16) -> u16 {
    if set {
        1u16 << i
    } else {
        0u16
    }
}

/// The 16-bit value of two bytes in little-endian order.
pub open spec fn le_u16(low: u8, high: u8) -> u16 {
    ((high as u16) << 8u16) | (low as u16)
}

/// Computes `flag(set, i)`.
pub fn flag_bits(set: bool, i: u16) -> (r: u16)
    requires
        i < 16,
    ensures
        r == flag(set, i),
{
    if set {
        1u16 << i
    } else {
        0u16
    }
}

/// Computes `field(value, lo, mask)`.
pub fn field_of(value: u16, lo: u16, mask: u16) -> (r: u16)
    requires
        lo < 16,
    ensures
        r == field(value, lo, mask),
{
    (value >> lo) & mask
}

/// Computes `bit(value, i)`.
pub fn bit_of(value: u16, i: u16) -> (r: bool)
    requires
        i < 16,
    ensures
        r == bit(value, i),
{
    (value >> i) & 1 == 1
}

/// The operations shared by all registers.
pub trait Register: Sized {
    /// The word that writing this register puts on the bus.
    spec fn spec_value(&self) -> u16;

    /// The register's address.
    spec fn spec_address() -> u8;

    /// The register as decoded from the word `value` read from the radio.
    spec fn spec_from_value(value: u16) -> Self;

    /// Encodes the register into its 16-bit word.
    fn register_value(&self) -> (r: u16)
        ensures
            r == self.spec_value(),
    ;

    /// The register's address.
    fn address(&self) -> (r: u8)
        ensures
            r == Self::spec_address(),
            0x10 <= r <= 0x2F,
    ;

    /// Replaces the register by the one decoded from a read reply: a status
    /// byte followed by the register word in little-endian order.
    fn fill_from_buffer(&mut self, buffer: [u8; 3])
        ensures
            *final(self) == Self::spec_from_value(le_u16(buffer@[1], buffer@[2])),
    ;

    /// The address byte that reads the register.
    fn read_address(&self) -> (r: u8)
        ensures
            r == Self::spec_address(),
    {
        self.address()
    }

    /// The address byte that writes the register: the address with bit 6 set.
    fn write_address(&self) -> (r: u8)
        ensures
            r == Self::spec_address() | 0x40,
    {
        self.address() | 0x40
    }

    /// The three bytes that write the register: the write address, then the
    /// word in little-endian order.
    fn write_value(&self) -> (r: [u8; 3])
        ensures
            r@ == seq![
                Self::spec_address() | 0x40,
                self.spec_value() as u8,
                (self.spec_value() >> 8u16) as u8,
            ],
    {
        let value = self.register_value();
        let r = [self.write_address(), value as u8, (value >> 8u16) as u8];
        assert(r@ =~= seq![
            Self::spec_address() | 0x40,
            self.spec_value() as u8,
            (self.spec_value() >> 8u16) as u8,
        ]);
        r
    }
}

/// Decodes the register word of a read reply.
pub fn buffer_value(buffer: [u8; 3]) -> (r: u16)
    ensures
        r == le_u16(buffer@[1], buffer@[2]),
{
    ((buffer[2] as u16) << 8u16) | (buffer[1] as u16)
}

} // verus!
