//! The RSSI and clear channel assessment register (RSSI).

use vstd::prelude::*;

use super::{Register, buffer_value, field, field_of};
use crate::error::FieldError;

verus! {

/// RSSI and clear channel assessment register.
#[derive(Clone, Copy, Debug, PartialEq, Eq, Structural)]
pub struct RSSIRegister {
    /// Clear channel assessment threshold in dB, two's complement, with the RSSI offset. Bits 15:8.
    pub cca_threshold: i8,
    /// RSSI estimate in dB averaged over 8 symbol periods; read only. Bits 7:0.
    pub rssi_value: i8,
}

impl RSSIRegister {
    /// The register's reset value.
    pub open spec fn spec_default() -> RSSIRegister {
        RSSIRegister {
            cca_threshold: -32i8,
            rssi_value: -128i8,
        }
    }

    /// Every field is in its legal range.
    pub open spec fn valid(self) -> bool {
        true
    }

    /// The first field, in register order, that is out of its legal range.
    pub open spec fn violation(self) -> Option<FieldError> {
        None
    }

    /// The register's word.
    #[verifier::opaque]
    pub open spec fn spec_encode(self) -> u16 {
        ((self.cca_threshold as u8) as u16) << 8
    }

    /// The register that the word `value` holds.
    #[verifier::opaque]
    pub open spec fn spec_decode(value: u16) -> RSSIRegister {
        RSSIRegister {
            cca_threshold: (field(value, 8, 0xFF) as u8) as i8,
            rssi_value: (field(value, 0, 0xFF) as u8) as i8,
        }
    }

    /// Encodes the register into its word.
    pub fn encode(&self) -> (r: u16)
        ensures
            r == self.spec_encode(),
    {
        proof {
            reveal(RSSIRegister::spec_encode);
        }
        ((self.cca_threshold as u8) as u16) << 8
    }

    /// Decodes the register from its word.
    pub fn decode(value: u16) -> (r: RSSIRegister)
        ensures
            r == RSSIRegister::spec_decode(value),
    {
        proof {
            reveal(RSSIRegister::spec_decode);
        }
        RSSIRegister {
            cca_threshold: (field_of(value, 8, 0xFF) as u8) as i8,
            rssi_value: (field_of(value, 0, 0xFF) as u8) as i8,
        }
    }
}

impl Register for RSSIRegister {
    open spec fn spec_value(&self) -> u16 {
        self.spec_encode()
    }

    open spec fn spec_address() -> u8 {
        0x13
    }

    open spec fn spec_from_value(value: u16) -> RSSIRegister {
        RSSIRegister::spec_decode(value)
    }

    fn register_value(&self) -> (r: u16) {
        self.encode()
    }

    fn address(&self) -> (r: u8) {
        0x13
    }

    fn fill_from_buffer(&mut self, buffer: [u8; 3]) {
        *self = RSSIRegister::decode(buffer_value(buffer));
    }
}

impl From<u16> for RSSIRegister {
    fn from(value: u16) -> (r: RSSIRegister) {
        RSSIRegister::decode(value)
    }
}

impl vstd::std_specs::convert::FromSpecImpl<u16> for RSSIRegister {
    open spec fn obeys_from_spec() -> bool {
        true
    }

    open spec fn from_spec(value: u16) -> RSSIRegister {
        RSSIRegister::spec_decode(value)
    }
}

/// Decoding the word of a register whose fields are in range gives the
/// register back, except for the read-only fields, which writing leaves
/// out and which therefore read as zero.
pub proof fn lemma_rssi_register_round_trip(r: RSSIRegister)
    requires
        r.valid(),
    ensures
        RSSIRegister::spec_decode(r.spec_encode()) == (RSSIRegister { rssi_value: 0, ..r }),
{
    let cca_threshold = r.cca_threshold;
    let value = r.spec_encode();
    assert(value == ((cca_threshold as u8) as u16) << 8) by {
        reveal(RSSIRegister::spec_encode);
    }
    assert((field(value, 8, 0xFF) as u8) as i8 == cca_threshold
        && (field(value, 0, 0xFF) as u8) as i8 == 0) by (bit_vector)
        requires
            value == ((cca_threshold as u8) as u16) << 8,
    ;
    reveal(RSSIRegister::spec_decode);
}

/// Builds a [`RSSIRegister`], starting from the register's reset value.
pub struct RSSIRegisterBuilder {
    value: RSSIRegister,
}

impl View for RSSIRegisterBuilder {
    type V = RSSIRegister;

    closed spec fn view(&self) -> RSSIRegister {
        self.value
    }
}

impl Default for RSSIRegisterBuilder {
    fn default() -> (r: RSSIRegisterBuilder)
        ensures
            r@ == RSSIRegister::spec_default(),
    {
        RSSIRegisterBuilder { value: RSSIRegister {
            cca_threshold: -32i8,
            rssi_value: -128i8,
        } }
    }
}

impl RSSIRegisterBuilder {
    /// Sets `cca_threshold`.
    pub fn cca_threshold(self, value: i8) -> (r: RSSIRegisterBuilder)
        ensures
            r@ == (RSSIRegister { cca_threshold: value, ..self@ }),
    {
        let mut r = self;
        r.value.cca_threshold = value;
        r
    }

    /// Sets `rssi_value`.
    pub fn rssi_value(self, value: i8) -> (r: RSSIRegisterBuilder)
        ensures
            r@ == (RSSIRegister { rssi_value: value, ..self@ }),
    {
        let mut r = self;
        r.value.rssi_value = value;
        r
    }

    /// Checks every field against its legal range, in register order.
    pub fn validate(&self) -> (r: Result<(), FieldError>)
        ensures
            r == match self@.violation() {
                Some(e) => Err(e),
                None => Ok(()),
            },
    {
        Ok(())
    }

    /// The register, if every field is in its legal range; otherwise the
    /// first field out of range.
    pub fn build(&self) -> (r: Result<RSSIRegister, FieldError>)
        ensures
            r == match self@.violation() {
                Some(e) => Err(e),
                None => Ok(self@),
            },
    {
        match self.validate() {
            Ok(()) => Ok(self.value),
            Err(e) => Err(e),
        }
    }
}

} // verus!
