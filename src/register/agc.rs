//! The automatic gain control register (AGCCTRL).

use vstd::prelude::*;

use super::{Register, bit, bit_of, buffer_value, field, field_of, flag, flag_bits};
use crate::error::FieldError;

verus! {

/// Automatic gain control register.
#[derive(Clone, Copy, Debug, PartialEq, Eq, Structural)]
pub struct AGCControlRegister {
    /// Use `vga_gain` during RX instead of the AGC value. Bit 11.
    pub vga_gain_oe: bool,
    /// VGA manual gain override value; when read, the gain in use. Bits 10:4.
    pub vga_gain: u8,
    /// LNA and mixer gain mode override: AGC, low, medium or high gain. Bits 3:2.
    pub lnamix_gainmode_o: u8,
    /// Gain mode currently selected by the AGC or by the override; read only. Bits 1:0.
    pub lnamix_gainmode: u8,
}

impl AGCControlRegister {
    /// The register's reset value.
    pub open spec fn spec_default() -> AGCControlRegister {
        AGCControlRegister {
            vga_gain_oe: false,
            vga_gain: 0x7F,
            lnamix_gainmode_o: 0,
            lnamix_gainmode: 3,
        }
    }

    /// Every field is in its legal range.
    pub open spec fn valid(self) -> bool {
        self.vga_gain <= 127
            && self.lnamix_gainmode_o <= 3
            && self.lnamix_gainmode <= 3
    }

    /// The first field, in register order, that is out of its legal range.
    pub open spec fn violation(self) -> Option<FieldError> {
        if !(self.vga_gain <= 127) {
            Some(FieldError { field: "VGA_GAIN", legal: "0..=127" })
        } else if !(self.lnamix_gainmode_o <= 3) {
            Some(FieldError { field: "LNAMIX_GAINMODE_O", legal: "0..=3" })
        } else if !(self.lnamix_gainmode <= 3) {
            Some(FieldError { field: "LNAMIX_GAINMODE", legal: "0..=3" })
        } else {
            None
        }
    }

    /// The register's word.
    #[verifier::opaque]
    pub open spec fn spec_encode(self) -> u16 {
        flag(self.vga_gain_oe, 11) | (self.vga_gain as u16) << 4
            | (self.lnamix_gainmode_o as u16) << 2
    }

    /// The register that the word `value` holds.
    #[verifier::opaque]
    pub open spec fn spec_decode(value: u16) -> AGCControlRegister {
        AGCControlRegister {
            vga_gain_oe: bit(value, 11),
            vga_gain: field(value, 4, 0x7F) as u8,
            lnamix_gainmode_o: field(value, 2, 0x3) as u8,
            lnamix_gainmode: field(value, 0, 0x3) as u8,
        }
    }

    /// Encodes the register into its word.
    pub fn encode(&self) -> (r: u16)
        ensures
            r == self.spec_encode(),
    {
        proof {
            reveal(AGCControlRegister::spec_encode);
        }
        flag_bits(self.vga_gain_oe, 11) | (self.vga_gain as u16) << 4
            | (self.lnamix_gainmode_o as u16) << 2
    }

    /// Decodes the register from its word.
    pub fn decode(value: u16) -> (r: AGCControlRegister)
        ensures
            r == AGCControlRegister::spec_decode(value),
    {
        proof {
            reveal(AGCControlRegister::spec_decode);
        }
        AGCControlRegister {
            vga_gain_oe: bit_of(value, 11),
            vga_gain: field_of(value, 4, 0x7F) as u8,
            lnamix_gainmode_o: field_of(value, 2, 0x3) as u8,
            lnamix_gainmode: field_of(value, 0, 0x3) as u8,
        }
    }
}

impl Register for AGCControlRegister {
    open spec fn spec_value(&self) -> u16 {
        self.spec_encode()
    }

    open spec fn spec_address() -> u8 {
        0x23
    }

    open spec fn spec_from_value(value: u16) -> AGCControlRegister {
        AGCControlRegister::spec_decode(value)
    }

    fn register_value(&self) -> (r: u16) {
        self.encode()
    }

    fn address(&self) -> (r: u8) {
        0x23
    }

    fn fill_from_buffer(&mut self, buffer: [u8; 3]) {
        *self = AGCControlRegister::decode(buffer_value(buffer));
    }
}

impl From<u16> for AGCControlRegister {
    fn from(value: u16) -> (r: AGCControlRegister) {
        AGCControlRegister::decode(value)
    }
}

impl vstd::std_specs::convert::FromSpecImpl<u16> for AGCControlRegister {
    open spec fn obeys_from_spec() -> bool {
        true
    }

    open spec fn from_spec(value: u16) -> AGCControlRegister {
        AGCControlRegister::spec_decode(value)
    }
}

/// Decoding the word of a register whose fields are in range gives the
/// register back, except for the read-only fields, which writing leaves
/// out and which therefore read as zero.
pub proof fn lemma_agc_control_register_round_trip(r: AGCControlRegister)
    requires
        r.valid(),
    ensures
        AGCControlRegister::spec_decode(r.spec_encode()) == (AGCControlRegister { lnamix_gainmode: 0, ..r }),
{
    let vga_gain_oe = r.vga_gain_oe;
    let vga_gain = r.vga_gain;
    let lnamix_gainmode_o = r.lnamix_gainmode_o;
    let value = r.spec_encode();
    assert(value == flag(vga_gain_oe, 11) | (vga_gain as u16) << 4 | (lnamix_gainmode_o as u16) << 2) by {
        reveal(AGCControlRegister::spec_encode);
    }
    assert(bit(value, 11) == vga_gain_oe
        && field(value, 4, 0x7F) as u8 == vga_gain
        && field(value, 2, 0x3) as u8 == lnamix_gainmode_o
        && field(value, 0, 0x3) as u8 == 0) by (bit_vector)
        requires
            value == flag(vga_gain_oe, 11) | (vga_gain as u16) << 4 | (lnamix_gainmode_o as u16) << 2,
            vga_gain <= 127,
            lnamix_gainmode_o <= 3,
    ;
    reveal(AGCControlRegister::spec_decode);
}

/// A register is accepted exactly when every field is in its legal range,
/// and one whose only field out of range is `f` is refused naming `f`.
pub proof fn lemma_agc_control_register_validation(r: AGCControlRegister)
    ensures
        r.violation() is None <==> r.valid(),
        !(r.vga_gain <= 127) && r.lnamix_gainmode_o <= 3 && r.lnamix_gainmode <= 3 ==> r.violation() == Some(
            FieldError { field: "VGA_GAIN", legal: "0..=127" },
        ),
        !(r.lnamix_gainmode_o <= 3) && r.vga_gain <= 127 && r.lnamix_gainmode <= 3 ==> r.violation() == Some(
            FieldError { field: "LNAMIX_GAINMODE_O", legal: "0..=3" },
        ),
        !(r.lnamix_gainmode <= 3) && r.vga_gain <= 127 && r.lnamix_gainmode_o <= 3 ==> r.violation() == Some(
            FieldError { field: "LNAMIX_GAINMODE", legal: "0..=3" },
        ),
{
}

/// Builds a [`AGCControlRegister`], starting from the register's reset value.
pub struct AGCControlRegisterBuilder {
    value: AGCControlRegister,
}

impl View for AGCControlRegisterBuilder {
    type V = AGCControlRegister;

    closed spec fn view(&self) -> AGCControlRegister {
        self.value
    }
}

impl Default for AGCControlRegisterBuilder {
    fn default() -> (r: AGCControlRegisterBuilder)
        ensures
            r@ == AGCControlRegister::spec_default(),
    {
        AGCControlRegisterBuilder { value: AGCControlRegister {
            vga_gain_oe: false,
            vga_gain: 0x7F,
            lnamix_gainmode_o: 0,
            lnamix_gainmode: 3,
        } }
    }
}

impl AGCControlRegisterBuilder {
    /// Sets `vga_gain_oe`.
    pub fn vga_gain_oe(self, value: bool) -> (r: AGCControlRegisterBuilder)
        ensures
            r@ == (AGCControlRegister { vga_gain_oe: value, ..self@ }),
    {
        let mut r = self;
        r.value.vga_gain_oe = value;
        r
    }

    /// Sets `vga_gain`.
    pub fn vga_gain(self, value: u8) -> (r: AGCControlRegisterBuilder)
        ensures
            r@ == (AGCControlRegister { vga_gain: value, ..self@ }),
    {
        let mut r = self;
        r.value.vga_gain = value;
        r
    }

    /// Sets `lnamix_gainmode_o`.
    pub fn lnamix_gainmode_o(self, value: u8) -> (r: AGCControlRegisterBuilder)
        ensures
            r@ == (AGCControlRegister { lnamix_gainmode_o: value, ..self@ }),
    {
        let mut r = self;
        r.value.lnamix_gainmode_o = value;
        r
    }

    /// Sets `lnamix_gainmode`.
    pub fn lnamix_gainmode(self, value: u8) -> (r: AGCControlRegisterBuilder)
        ensures
            r@ == (AGCControlRegister { lnamix_gainmode: value, ..self@ }),
    {
        let mut r = self;
        r.value.lnamix_gainmode = value;
        r
    }

    /// Checks every field against its legal range, in register order.
    pub fn validate(&self) -> (r: Result<(), FieldError>)
        ensures
            r == match self@.violation() {
                Some(e) => Err(e),
                None => Ok(()),
            },
    {
        if !(self.value.vga_gain <= 127) {
            return Err(FieldError { field: "VGA_GAIN", legal: "0..=127" });
        }
        if !(self.value.lnamix_gainmode_o <= 3) {
            return Err(FieldError { field: "LNAMIX_GAINMODE_O", legal: "0..=3" });
        }
        if !(self.value.lnamix_gainmode <= 3) {
            return Err(FieldError { field: "LNAMIX_GAINMODE", legal: "0..=3" });
        }
        Ok(())
    }

    /// The register, if every field is in its legal range; otherwise the
    /// first field out of range.
    pub fn build(&self) -> (r: Result<AGCControlRegister, FieldError>)
        ensures
            r == match self@.violation() {
                Some(e) => Err(e),
                None => Ok(self@),
            },
    {
        match self.validate() {
            Ok(()) => Ok(self.value),
            Err(e) => Err(e),
        }
    }
}

} // verus!
