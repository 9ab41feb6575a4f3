//! The input/output configuration registers (IOCFG0, IOCFG1).

use vstd::prelude::*;

use super::{Register, bit, bit_of, buffer_value, field, field_of, flag, flag_bits};
use crate::error::FieldError;

verus! {

/// Input/output configuration register 0: pin polarities and FIFOP threshold.
#[derive(Clone, Copy, Debug, PartialEq, Eq, Structural)]
pub struct IOConfigurationRegister {
    /// Accept all beacon frames when address recognition is enabled. Bit 11.
    pub bcn_accept: bool,
    /// The FIFO signal is active low. Bit 10.
    pub fifo_polarity: bool,
    /// The FIFOP signal is active low. Bit 9.
    pub fifop_polarity: bool,
    /// The SFD signal is active low. Bit 8.
    pub sfd_polarity: bool,
    /// The CCA signal is active low. Bit 7.
    pub cca_polarity: bool,
    /// Number of bytes in the RX FIFO for FIFOP to go active. Bits 6:0.
    pub fifop_threshold: u8,
}

impl IOConfigurationRegister {
    /// The register's reset value.
    pub open spec fn spec_default() -> IOConfigurationRegister {
        IOConfigurationRegister {
            bcn_accept: false,
            fifo_polarity: false,
            fifop_polarity: false,
            sfd_polarity: false,
            cca_polarity: false,
            fifop_threshold: 64,
        }
    }

    /// Every field is in its legal range.
    pub open spec fn valid(self) -> bool {
        self.fifop_threshold <= 127
    }

    /// The first field, in register order, that is out of its legal range.
    pub open spec fn violation(self) -> Option<FieldError> {
        if !(self.fifop_threshold <= 127) {
            Some(FieldError { field: "FIFOP_THR", legal: "0..=127" })
        } else {
            None
        }
    }

    /// The register's word.
    #[verifier::opaque]
    pub open spec fn spec_encode(self) -> u16 {
        flag(self.bcn_accept, 11) | flag(self.fifo_polarity, 10) | flag(self.fifop_polarity, 9)
            | flag(self.sfd_polarity, 8) | flag(self.cca_polarity, 7) | self.fifop_threshold as u16
    }

    /// The register that the word `value` holds.
    #[verifier::opaque]
    pub open spec fn spec_decode(value: u16) -> IOConfigurationRegister {
        IOConfigurationRegister {
            bcn_accept: bit(value, 11),
            fifo_polarity: bit(value, 10),
            fifop_polarity: bit(value, 9),
            sfd_polarity: bit(value, 8),
            cca_polarity: bit(value, 7),
            fifop_threshold: field(value, 0, 0x7F) as u8,
        }
    }

    /// Encodes the register into its word.
    pub fn encode(&self) -> (r: u16)
        ensures
            r == self.spec_encode(),
    {
        proof {
            reveal(IOConfigurationRegister::spec_encode);
        }
        flag_bits(self.bcn_accept, 11) | flag_bits(self.fifo_polarity, 10)
            | flag_bits(self.fifop_polarity, 9) | flag_bits(self.sfd_polarity, 8)
            | flag_bits(self.cca_polarity, 7) | self.fifop_threshold as u16
    }

    /// Decodes the register from its word.
    pub fn decode(value: u16) -> (r: IOConfigurationRegister)
        ensures
            r == IOConfigurationRegister::spec_decode(value),
    {
        proof {
            reveal(IOConfigurationRegister::spec_decode);
        }
        IOConfigurationRegister {
            bcn_accept: bit_of(value, 11),
            fifo_polarity: bit_of(value, 10),
            fifop_polarity: bit_of(value, 9),
            sfd_polarity: bit_of(value, 8),
            cca_polarity: bit_of(value, 7),
            fifop_threshold: field_of(value, 0, 0x7F) as u8,
        }
    }
}

impl Register for IOConfigurationRegister {
    open spec fn spec_value(&self) -> u16 {
        self.spec_encode()
    }

    open spec fn spec_address() -> u8 {
        0x1C
    }

    open spec fn spec_from_value(value: u16) -> IOConfigurationRegister {
        IOConfigurationRegister::spec_decode(value)
    }

    fn register_value(&self) -> (r: u16) {
        self.encode()
    }

    fn address(&self) -> (r: u8) {
        0x1C
    }

    fn fill_from_buffer(&mut self, buffer: [u8; 3]) {
        *self = IOConfigurationRegister::decode(buffer_value(buffer));
    }
}

impl From<u16> for IOConfigurationRegister {
    fn from(value: u16) -> (r: IOConfigurationRegister) {
        IOConfigurationRegister::decode(value)
    }
}

impl vstd::std_specs::convert::FromSpecImpl<u16> for IOConfigurationRegister {
    open spec fn obeys_from_spec() -> bool {
        true
    }

    open spec fn from_spec(value: u16) -> IOConfigurationRegister {
        IOConfigurationRegister::spec_decode(value)
    }
}

/// Decoding the word of a register whose fields are in range gives the
/// register back.
pub proof fn lemma_io_configuration_register_round_trip(r: IOConfigurationRegister)
    requires
        r.valid(),
    ensures
        IOConfigurationRegister::spec_decode(r.spec_encode()) == r,
{
    let bcn_accept = r.bcn_accept;
    let fifo_polarity = r.fifo_polarity;
    let fifop_polarity = r.fifop_polarity;
    let sfd_polarity = r.sfd_polarity;
    let cca_polarity = r.cca_polarity;
    let fifop_threshold = r.fifop_threshold;
    let value = r.spec_encode();
    assert(value == flag(bcn_accept, 11) | flag(fifo_polarity, 10) | flag(fifop_polarity, 9)
        | flag(sfd_polarity, 8) | flag(cca_polarity, 7) | fifop_threshold as u16) by {
        reveal(IOConfigurationRegister::spec_encode);
    }
    assert(bit(value, 11) == bcn_accept
        && bit(value, 10) == fifo_polarity
        && bit(value, 9) == fifop_polarity
        && bit(value, 8) == sfd_polarity
        && bit(value, 7) == cca_polarity
        && field(value, 0, 0x7F) as u8 == fifop_threshold) by (bit_vector)
        requires
            value == flag(bcn_accept, 11) | flag(fifo_polarity, 10) | flag(fifop_polarity, 9)
                | flag(sfd_polarity, 8) | flag(cca_polarity, 7) | fifop_threshold as u16,
            fifop_threshold <= 127,
    ;
    reveal(IOConfigurationRegister::spec_decode);
}

/// A register is accepted exactly when every field is in its legal range,
/// and one whose only field out of range is `f` is refused naming `f`.
pub proof fn lemma_io_configuration_register_validation(r: IOConfigurationRegister)
    ensures
        r.violation() is None <==> r.valid(),
        !(r.fifop_threshold <= 127) ==> r.violation() == Some(
            FieldError { field: "FIFOP_THR", legal: "0..=127" },
        ),
{
}

/// Builds a [`IOConfigurationRegister`], starting from the register's reset value.
pub struct IOConfigurationRegisterBuilder {
    value: IOConfigurationRegister,
}

impl View for IOConfigurationRegisterBuilder {
    type V = IOConfigurationRegister;

    closed spec fn view(&self) -> IOConfigurationRegister {
        self.value
    }
}

impl Default for IOConfigurationRegisterBuilder {
    fn default() -> (r: IOConfigurationRegisterBuilder)
        ensures
            r@ == IOConfigurationRegister::spec_default(),
    {
        IOConfigurationRegisterBuilder { value: IOConfigurationRegister {
            bcn_accept: false,
            fifo_polarity: false,
            fifop_polarity: false,
            sfd_polarity: false,
            cca_polarity: false,
            fifop_threshold: 64,
        } }
    }
}

impl IOConfigurationRegisterBuilder {
    /// Sets `bcn_accept`.
    pub fn bcn_accept(self, value: bool) -> (r: IOConfigurationRegisterBuilder)
        ensures
            r@ == (IOConfigurationRegister { bcn_accept: value, ..self@ }),
    {
        let mut r = self;
        r.value.bcn_accept = value;
        r
    }

    /// Sets `fifo_polarity`.
    pub fn fifo_polarity(self, value: bool) -> (r: IOConfigurationRegisterBuilder)
        ensures
            r@ == (IOConfigurationRegister { fifo_polarity: value, ..self@ }),
    {
        let mut r = self;
        r.value.fifo_polarity = value;
        r
    }

    /// Sets `fifop_polarity`.
    pub fn fifop_polarity(self, value: bool) -> (r: IOConfigurationRegisterBuilder)
        ensures
            r@ == (IOConfigurationRegister { fifop_polarity: value, ..self@ }),
    {
        let mut r = self;
        r.value.fifop_polarity = value;
        r
    }

    /// Sets `sfd_polarity`.
    pub fn sfd_polarity(self, value: bool) -> (r: IOConfigurationRegisterBuilder)
        ensures
            r@ == (IOConfigurationRegister { sfd_polarity: value, ..self@ }),
    {
        let mut r = self;
        r.value.sfd_polarity = value;
        r
    }

    /// Sets `cca_polarity`.
    pub fn cca_polarity(self, value: bool) -> (r: IOConfigurationRegisterBuilder)
        ensures
            r@ == (IOConfigurationRegister { cca_polarity: value, ..self@ }),
    {
        let mut r = self;
        r.value.cca_polarity = value;
        r
    }

    /// Sets `fifop_threshold`.
    pub fn fifop_threshold(self, value: u8) -> (r: IOConfigurationRegisterBuilder)
        ensures
            r@ == (IOConfigurationRegister { fifop_threshold: value, ..self@ }),
    {
        let mut r = self;
        r.value.fifop_threshold = value;
        r
    }

    /// Checks every field against its legal range, in register order.
    pub fn validate(&self) -> (r: Result<(), FieldError>)
        ensures
            r == match self@.violation() {
                Some(e) => Err(e),
                None => Ok(()),
            },
    {
        if !(self.value.fifop_threshold <= 127) {
            return Err(FieldError { field: "FIFOP_THR", legal: "0..=127" });
        }
        Ok(())
    }

    /// The register, if every field is in its legal range; otherwise the
    /// first field out of range.
    pub fn build(&self) -> (r: Result<IOConfigurationRegister, FieldError>)
        ensures
            r == match self@.violation() {
                Some(e) => Err(e),
                None => Ok(self@),
            },
    {
        match self.validate() {
            Ok(()) => Ok(self.value),
            Err(e) => Err(e),
        }
    }
}

/// Input/output configuration register 1: pin multiplexers and HSSD source.
#[derive(Clone, Copy, Debug, PartialEq, Eq, Structural)]
pub struct IOConfigurationRegister1 {
    /// Source of the high speed serial data module; 4 and 5 are reserved. Bits 12:10.
    pub hssd_src: u8,
    /// Multiplexer setting of the SFD pin. Bits 9:5.
    pub sfd_mux: u8,
    /// Multiplexer setting of the CCA pin. Bits 4:0.
    pub cca_mux: u8,
}

impl IOConfigurationRegister1 {
    /// The register's reset value.
    pub open spec fn spec_default() -> IOConfigurationRegister1 {
        IOConfigurationRegister1 {
            hssd_src: 0,
            sfd_mux: 0,
            cca_mux: 0,
        }
    }

    /// Every field is in its legal range.
    pub open spec fn valid(self) -> bool {
        (self.hssd_src <= 3 || self.hssd_src == 6 || self.hssd_src == 7)
            && self.sfd_mux <= 31
            && self.cca_mux <= 31
    }

    /// The first field, in register order, that is out of its legal range.
    pub open spec fn violation(self) -> Option<FieldError> {
        if !(self.hssd_src <= 3 || self.hssd_src == 6 || self.hssd_src == 7) {
            Some(FieldError { field: "HSSD_SRC", legal: "0..=3, 6..=7" })
        } else if !(self.sfd_mux <= 31) {
            Some(FieldError { field: "SFDMUX", legal: "0..=31" })
        } else if !(self.cca_mux <= 31) {
            Some(FieldError { field: "CCAMUX", legal: "0..=31" })
        } else {
            None
        }
    }

    /// The register's word.
    #[verifier::opaque]
    pub open spec fn spec_encode(self) -> u16 {
        (self.hssd_src as u16) << 10 | (self.sfd_mux as u16) << 5 | self.cca_mux as u16
    }

    /// The register that the word `value` holds.
    #[verifier::opaque]
    pub open spec fn spec_decode(value: u16) -> IOConfigurationRegister1 {
        IOConfigurationRegister1 {
            hssd_src: field(value, 10, 0x7) as u8,
            sfd_mux: field(value, 5, 0x1F) as u8,
            cca_mux: field(value, 0, 0x1F) as u8,
        }
    }

    /// Encodes the register into its word.
    pub fn encode(&self) -> (r: u16)
        ensures
            r == self.spec_encode(),
    {
        proof {
            reveal(IOConfigurationRegister1::spec_encode);
        }
        (self.hssd_src as u16) << 10 | (self.sfd_mux as u16) << 5 | self.cca_mux as u16
    }

    /// Decodes the register from its word.
    pub fn decode(value: u16) -> (r: IOConfigurationRegister1)
        ensures
            r == IOConfigurationRegister1::spec_decode(value),
    {
        proof {
            reveal(IOConfigurationRegister1::spec_decode);
        }
        IOConfigurationRegister1 {
            hssd_src: field_of(value, 10, 0x7) as u8,
            sfd_mux: field_of(value, 5, 0x1F) as u8,
            cca_mux: field_of(value, 0, 0x1F) as u8,
        }
    }
}

impl Register for IOConfigurationRegister1 {
    open spec fn spec_value(&self) -> u16 {
        self.spec_encode()
    }

    open spec fn spec_address() -> u8 {
        0x1D
    }

    open spec fn spec_from_value(value: u16) -> IOConfigurationRegister1 {
        IOConfigurationRegister1::spec_decode(value)
    }

    fn register_value(&self) -> (r: u16) {
        self.encode()
    }

    fn address(&self) -> (r: u8) {
        0x1D
    }

    fn fill_from_buffer(&mut self, buffer: [u8; 3]) {
        *self = IOConfigurationRegister1::decode(buffer_value(buffer));
    }
}

impl From<u16> for IOConfigurationRegister1 {
    fn from(value: u16) -> (r: IOConfigurationRegister1) {
        IOConfigurationRegister1::decode(value)
    }
}

impl vstd::std_specs::convert::FromSpecImpl<u16> for IOConfigurationRegister1 {
    open spec fn obeys_from_spec() -> bool {
        true
    }

    open spec fn from_spec(value: u16) -> IOConfigurationRegister1 {
        IOConfigurationRegister1::spec_decode(value)
    }
}

/// Decoding the word of a register whose fields are in range gives the
/// register back.
pub proof fn lemma_io_configuration_register1_round_trip(r: IOConfigurationRegister1)
    requires
        r.valid(),
    ensures
        IOConfigurationRegister1::spec_decode(r.spec_encode()) == r,
{
    let hssd_src = r.hssd_src;
    let sfd_mux = r.sfd_mux;
    let cca_mux = r.cca_mux;
    let value = r.spec_encode();
    assert(value == (hssd_src as u16) << 10 | (sfd_mux as u16) << 5 | cca_mux as u16) by {
        reveal(IOConfigurationRegister1::spec_encode);
    }
    assert(field(value, 10, 0x7) as u8 == hssd_src
        && field(value, 5, 0x1F) as u8 == sfd_mux
        && field(value, 0, 0x1F) as u8 == cca_mux) by (bit_vector)
        requires
            value == (hssd_src as u16) << 10 | (sfd_mux as u16) << 5 | cca_mux as u16,
            hssd_src <= 7,
            sfd_mux <= 31,
            cca_mux <= 31,
    ;
    reveal(IOConfigurationRegister1::spec_decode);
}

/// A register is accepted exactly when every field is in its legal range,
/// and one whose only field out of range is `f` is refused naming `f`.
pub proof fn lemma_io_configuration_register1_validation(r: IOConfigurationRegister1)
    ensures
        r.violation() is None <==> r.valid(),
        !(r.hssd_src <= 3 || r.hssd_src == 6 || r.hssd_src == 7) && r.sfd_mux <= 31 && r.cca_mux <= 31 ==> r.violation() == Some(
            FieldError { field: "HSSD_SRC", legal: "0..=3, 6..=7" },
        ),
        !(r.sfd_mux <= 31) && (r.hssd_src <= 3 || r.hssd_src == 6 || r.hssd_src == 7) && r.cca_mux <= 31 ==> r.violation() == Some(
            FieldError { field: "SFDMUX", legal: "0..=31" },
        ),
        !(r.cca_mux <= 31) && (r.hssd_src <= 3 || r.hssd_src == 6 || r.hssd_src == 7) && r.sfd_mux <= 31 ==> r.violation() == Some(
            FieldError { field: "CCAMUX", legal: "0..=31" },
        ),
{
}

/// Builds a [`IOConfigurationRegister1`], starting from the register's reset value.
pub struct IOConfigurationRegister1Builder {
    value: IOConfigurationRegister1,
}

impl View for IOConfigurationRegister1Builder {
    type V = IOConfigurationRegister1;

    closed spec fn view(&self) -> IOConfigurationRegister1 {
        self.value
    }
}

impl Default for IOConfigurationRegister1Builder {
    fn default() -> (r: IOConfigurationRegister1Builder)
        ensures
            r@ == IOConfigurationRegister1::spec_default(),
    {
        IOConfigurationRegister1Builder { value: IOConfigurationRegister1 {
            hssd_src: 0,
            sfd_mux: 0,
            cca_mux: 0,
        } }
    }
}

impl IOConfigurationRegister1Builder {
    /// Sets `hssd_src`.
    pub fn hssd_src(self, value: u8) -> (r: IOConfigurationRegister1Builder)
        ensures
            r@ == (IOConfigurationRegister1 { hssd_src: value, ..self@ }),
    {
        let mut r = self;
        r.value.hssd_src = value;
        r
    }

    /// Sets `sfd_mux`.
    pub fn sfd_mux(self, value: u8) -> (r: IOConfigurationRegister1Builder)
        ensures
            r@ == (IOConfigurationRegister1 { sfd_mux: value, ..self@ }),
    {
        let mut r = self;
        r.value.sfd_mux = value;
        r
    }

    /// Sets `cca_mux`.
    pub fn cca_mux(self, value: u8) -> (r: IOConfigurationRegister1Builder)
        ensures
            r@ == (IOConfigurationRegister1 { cca_mux: value, ..self@ }),
    {
        let mut r = self;
        r.value.cca_mux = value;
        r
    }

    /// Checks every field against its legal range, in register order.
    pub fn validate(&self) -> (r: Result<(), FieldError>)
        ensures
            r == match self@.violation() {
                Some(e) => Err(e),
                None => Ok(()),
            },
    {
        if !(self.value.hssd_src <= 3 || self.value.hssd_src == 6 || self.value.hssd_src == 7) {
            return Err(FieldError { field: "HSSD_SRC", legal: "0..=3, 6..=7" });
        }
        if !(self.value.sfd_mux <= 31) {
            return Err(FieldError { field: "SFDMUX", legal: "0..=31" });
        }
        if !(self.value.cca_mux <= 31) {
            return Err(FieldError { field: "CCAMUX", legal: "0..=31" });
        }
        Ok(())
    }

    /// The register, if every field is in its legal range; otherwise the
    /// first field out of range.
    pub fn build(&self) -> (r: Result<IOConfigurationRegister1, FieldError>)
        ensures
            r == match self@.violation() {
                Some(e) => Err(e),
                None => Ok(self@),
            },
    {
        match self.validate() {
            Ok(()) => Ok(self.value),
            Err(e) => Err(e),
        }
    }
}

} // verus!
