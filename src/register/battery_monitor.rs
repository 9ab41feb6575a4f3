//! The battery monitor control and status register (BATTMON).

use vstd::prelude::*;

use super::{Register, bit, bit_of, buffer_value, field, field_of, flag, flag_bits};
use crate::error::FieldError;

verus! {

/// Battery monitor control and status register.
#[derive(Clone, Copy, Debug, PartialEq, Eq, Structural)]
pub struct BatteryMonitorRegister {
    /// Battery monitor comparator output; read only. Bit 6.
    pub battmon_ok: bool,
    /// The battery monitor is enabled. Bit 5.
    pub battmon_en: bool,
    /// Battery monitor toggle voltage: 1.25 V * (72 - value) / 27. Bits 4:0.
    pub battmon_voltage: u8,
}

impl BatteryMonitorRegister {
    /// The register's reset value.
    pub open spec fn spec_default() -> BatteryMonitorRegister {
        BatteryMonitorRegister {
            battmon_ok: true,
            battmon_en: false,
            battmon_voltage: 0,
        }
    }

    /// Every field is in its legal range.
    pub open spec fn valid(self) -> bool {
        self.battmon_voltage <= 31
    }

    /// The first field, in register order, that is out of its legal range.
    pub open spec fn violation(self) -> Option<FieldError> {
        if !(self.battmon_voltage <= 31) {
            Some(FieldError { field: "BATTMON_VOLTAGE", legal: "0..=31" })
        } else {
            None
        }
    }

    /// The register's word.
    #[verifier::opaque]
    pub open spec fn spec_encode(self) -> u16 {
        flag(self.battmon_en, 5) | self.battmon_voltage as u16
    }

    /// The register that the word `value` holds.
    #[verifier::opaque]
    pub open spec fn spec_decode(value: u16) -> BatteryMonitorRegister {
        BatteryMonitorRegister {
            battmon_ok: bit(value, 6),
            battmon_en: bit(value, 5),
            battmon_voltage: field(value, 0, 0x1F) as u8,
        }
    }

    /// Encodes the register into its word.
    pub fn encode(&self) -> (r: u16)
        ensures
            r == self.spec_encode(),
    {
        proof {
            reveal(BatteryMonitorRegister::spec_encode);
        }
        flag_bits(self.battmon_en, 5) | self.battmon_voltage as u16
    }

    /// Decodes the register from its word.
    pub fn decode(value: u16) -> (r: BatteryMonitorRegister)
        ensures
            r == BatteryMonitorRegister::spec_decode(value),
    {
        proof {
            reveal(BatteryMonitorRegister::spec_decode);
        }
        BatteryMonitorRegister {
            battmon_ok: bit_of(value, 6),
            battmon_en: bit_of(value, 5),
            battmon_voltage: field_of(value, 0, 0x1F) as u8,
        }
    }
}

impl Register for BatteryMonitorRegister {
    open spec fn spec_value(&self) -> u16 {
        self.spec_encode()
    }

    open spec fn spec_address() -> u8 {
        0x1B
    }

    open spec fn spec_from_value(value: u16) -> BatteryMonitorRegister {
        BatteryMonitorRegister::spec_decode(value)
    }

    fn register_value(&self) -> (r: u16) {
        self.encode()
    }

    fn address(&self) -> (r: u8) {
        0x1B
    }

    fn fill_from_buffer(&mut self, buffer: [u8; 3]) {
        *self = BatteryMonitorRegister::decode(buffer_value(buffer));
    }
}

impl From<u16> for BatteryMonitorRegister {
    fn from(value: u16) -> (r: BatteryMonitorRegister) {
        BatteryMonitorRegister::decode(value)
    }
}

impl vstd::std_specs::convert::FromSpecImpl<u16> for BatteryMonitorRegister {
    open spec fn obeys_from_spec() -> bool {
        true
    }

    open spec fn from_spec(value: u16) -> BatteryMonitorRegister {
        BatteryMonitorRegister::spec_decode(value)
    }
}

/// Decoding the word of a register whose fields are in range gives the
/// register back, except for the read-only fields, which writing leaves
/// out and which therefore read as zero.
pub proof fn lemma_battery_monitor_register_round_trip(r: BatteryMonitorRegister)
    requires
        r.valid(),
    ensures
        BatteryMonitorRegister::spec_decode(r.spec_encode()) == (BatteryMonitorRegister { battmon_ok: false, ..r }),
{
    let battmon_en = r.battmon_en;
    let battmon_voltage = r.battmon_voltage;
    let value = r.spec_encode();
    assert(value == flag(battmon_en, 5) | battmon_voltage as u16) by {
        reveal(BatteryMonitorRegister::spec_encode);
    }
    assert(bit(value, 6) == false
        && bit(value, 5) == battmon_en
        && field(value, 0, 0x1F) as u8 == battmon_voltage) by (bit_vector)
        requires
            value == flag(battmon_en, 5) | battmon_voltage as u16,
            battmon_voltage <= 31,
    ;
    reveal(BatteryMonitorRegister::spec_decode);
}

/// A register is accepted exactly when every field is in its legal range,
/// and one whose only field out of range is `f` is refused naming `f`.
pub proof fn lemma_battery_monitor_register_validation(r: BatteryMonitorRegister)
    ensures
        r.violation() is None <==> r.valid(),
        !(r.battmon_voltage <= 31) ==> r.violation() == Some(
            FieldError { field: "BATTMON_VOLTAGE", legal: "0..=31" },
        ),
{
}

/// Builds a [`BatteryMonitorRegister`], starting from the register's reset value.
pub struct BatteryMonitorRegisterBuilder {
    value: BatteryMonitorRegister,
}

impl View for BatteryMonitorRegisterBuilder {
    type V = BatteryMonitorRegister;

    closed spec fn view(&self) -> BatteryMonitorRegister {
        self.value
    }
}

impl Default for BatteryMonitorRegisterBuilder {
    fn default() -> (r: BatteryMonitorRegisterBuilder)
        ensures
            r@ == BatteryMonitorRegister::spec_default(),
    {
        BatteryMonitorRegisterBuilder { value: BatteryMonitorRegister {
            battmon_ok: true,
            battmon_en: false,
            battmon_voltage: 0,
        } }
    }
}

impl BatteryMonitorRegisterBuilder {
    /// Sets `battmon_ok`.
    pub fn battmon_ok(self, value: bool) -> (r: BatteryMonitorRegisterBuilder)
        ensures
            r@ == (BatteryMonitorRegister { battmon_ok: value, ..self@ }),
    {
        let mut r = self;
        r.value.battmon_ok = value;
        r
    }

    /// Sets `battmon_en`.
    pub fn battmon_en(self, value: bool) -> (r: BatteryMonitorRegisterBuilder)
        ensures
            r@ == (BatteryMonitorRegister { battmon_en: value, ..self@ }),
    {
        let mut r = self;
        r.value.battmon_en = value;
        r
    }

    /// Sets `battmon_voltage`.
    pub fn battmon_voltage(self, value: u8) -> (r: BatteryMonitorRegisterBuilder)
        ensures
            r@ == (BatteryMonitorRegister { battmon_voltage: value, ..self@ }),
    {
        let mut r = self;
        r.value.battmon_voltage = value;
        r
    }

    /// Checks every field against its legal range, in register order.
    pub fn validate(&self) -> (r: Result<(), FieldError>)
        ensures
            r == match self@.violation() {
                Some(e) => Err(e),
                None => Ok(()),
            },
    {
        if !(self.value.battmon_voltage <= 31) {
            return Err(FieldError { field: "BATTMON_VOLTAGE", legal: "0..=31" });
        }
        Ok(())
    }

    /// The register, if every field is in its legal range; otherwise the
    /// first field out of range.
    pub fn build(&self) -> (r: Result<BatteryMonitorRegister, FieldError>)
        ensures
            r == match self@.violation() {
                Some(e) => Err(e),
                None => Ok(self@),
            },
    {
        match self.validate() {
            Ok(()) => Ok(self.value),
            Err(e) => Err(e),
        }
    }
}

} // verus!
