//! The modem control registers (MDMCTRL0, MDMCTRL1).

use vstd::prelude::*;

use super::{Register, bit, bit_of, buffer_value, field, field_of, flag, flag_bits};
use crate::error::FieldError;

verus! {

/// Modem control register 0: frame filtering, clear channel assessment and preamble.
#[derive(Clone, Copy, Debug, PartialEq, Eq, Structural)]
pub struct ModemControlRegister0 {
    /// Accept the reserved IEEE 802.15.4 frame types when address recognition is enabled. Bit 13.
    pub reserved_frame_mode: bool,
    /// The device is a PAN coordinator. Bit 12.
    pub pan_coordinator: bool,
    /// Hardware address decoding is enabled. Bit 11.
    pub adr_decode: bool,
    /// Clear channel assessment hysteresis in dB. Bits 10:8.
    pub cca_hyst: u8,
    /// Clear channel assessment mode; 0 is reserved. Bits 7:6.
    pub cca_mode: u8,
    /// A CRC-16 is appended in TX and checked in RX. Bit 5.
    pub auto_crc: bool,
    /// Frames accepted by address recognition that request an acknowledgement are acknowledged. Bit 4.
    pub auto_ack: bool,
    /// Number of preamble bytes, less one. Bits 3:0.
    pub preamble_length: u8,
}

impl ModemControlRegister0 {
    /// The register's reset value.
    pub open spec fn spec_default() -> ModemControlRegister0 {
        ModemControlRegister0 {
            reserved_frame_mode: false,
            pan_coordinator: false,
            adr_decode: true,
            cca_hyst: 2,
            cca_mode: 3,
            auto_crc: true,
            auto_ack: false,
            preamble_length: 2,
        }
    }

    /// Every field is in its legal range.
    pub open spec fn valid(self) -> bool {
        self.cca_hyst <= 7
            && 1 <= self.cca_mode && self.cca_mode <= 3
            && self.preamble_length <= 15
    }

    /// The first field, in register order, that is out of its legal range.
    pub open spec fn violation(self) -> Option<FieldError> {
        if !(self.cca_hyst <= 7) {
            Some(FieldError { field: "CCA_HYST", legal: "0..=7" })
        } else if !(1 <= self.cca_mode && self.cca_mode <= 3) {
            Some(FieldError { field: "CCA_MODE", legal: "1..=3" })
        } else if !(self.preamble_length <= 15) {
            Some(FieldError { field: "PREAMBLE_LENGTH", legal: "0..=15" })
        } else {
            None
        }
    }

    /// The register's word.
    #[verifier::opaque]
    pub open spec fn spec_encode(self) -> u16 {
        flag(self.reserved_frame_mode, 13) | flag(self.pan_coordinator, 12)
            | flag(self.adr_decode, 11) | (self.cca_hyst as u16) << 8 | (self.cca_mode as u16) << 6
            | flag(self.auto_crc, 5) | flag(self.auto_ack, 4) | self.preamble_length as u16
    }

    /// The register that the word `value` holds.
    #[verifier::opaque]
    pub open spec fn spec_decode(value: u16) -> ModemControlRegister0 {
        ModemControlRegister0 {
            reserved_frame_mode: bit(value, 13),
            pan_coordinator: bit(value, 12),
            adr_decode: bit(value, 11),
            cca_hyst: field(value, 8, 0x7) as u8,
            cca_mode: field(value, 6, 0x3) as u8,
            auto_crc: bit(value, 5),
            auto_ack: bit(value, 4),
            preamble_length: field(value, 0, 0xF) as u8,
        }
    }

    /// Encodes the register into its word.
    pub fn encode(&self) -> (r: u16)
        ensures
            r == self.spec_encode(),
    {
        proof {
            reveal(ModemControlRegister0::spec_encode);
        }
        flag_bits(self.reserved_frame_mode, 13) | flag_bits(self.pan_coordinator, 12)
            | flag_bits(self.adr_decode, 11) | (self.cca_hyst as u16) << 8
            | (self.cca_mode as u16) << 6 | flag_bits(self.auto_crc, 5)
            | flag_bits(self.auto_ack, 4) | self.preamble_length as u16
    }

    /// Decodes the register from its word.
    pub fn decode(value: u16) -> (r: ModemControlRegister0)
        ensures
            r == ModemControlRegister0::spec_decode(value),
    {
        proof {
            reveal(ModemControlRegister0::spec_decode);
        }
        ModemControlRegister0 {
            reserved_frame_mode: bit_of(value, 13),
            pan_coordinator: bit_of(value, 12),
            adr_decode: bit_of(value, 11),
            cca_hyst: field_of(value, 8, 0x7) as u8,
            cca_mode: field_of(value, 6, 0x3) as u8,
            auto_crc: bit_of(value, 5),
            auto_ack: bit_of(value, 4),
            preamble_length: field_of(value, 0, 0xF) as u8,
        }
    }
}

impl Register for ModemControlRegister0 {
    open spec fn spec_value(&self) -> u16 {
        self.spec_encode()
    }

    open spec fn spec_address() -> u8 {
        0x11
    }

    open spec fn spec_from_value(value: u16) -> ModemControlRegister0 {
        ModemControlRegister0::spec_decode(value)
    }

    fn register_value(&self) -> (r: u16) {
        self.encode()
    }

    fn address(&self) -> (r: u8) {
        0x11
    }

    fn fill_from_buffer(&mut self, buffer: [u8; 3]) {
        *self = ModemControlRegister0::decode(buffer_value(buffer));
    }
}

impl From<u16> for ModemControlRegister0 {
    fn from(value: u16) -> (r: ModemControlRegister0) {
        ModemControlRegister0::decode(value)
    }
}

impl vstd::std_specs::convert::FromSpecImpl<u16> for ModemControlRegister0 {
    open spec fn obeys_from_spec() -> bool {
        true
    }

    open spec fn from_spec(value: u16) -> ModemControlRegister0 {
        ModemControlRegister0::spec_decode(value)
    }
}

/// Decoding the word of a register whose fields are in range gives the
/// register back.
pub proof fn lemma_modem_control_register0_round_trip(r: ModemControlRegister0)
    requires
        r.valid(),
    ensures
        ModemControlRegister0::spec_decode(r.spec_encode()) == r,
{
    let reserved_frame_mode = r.reserved_frame_mode;
    let pan_coordinator = r.pan_coordinator;
    let adr_decode = r.adr_decode;
    let cca_hyst = r.cca_hyst;
    let cca_mode = r.cca_mode;
    let auto_crc = r.auto_crc;
    let auto_ack = r.auto_ack;
    let preamble_length = r.preamble_length;
    let value = r.spec_encode();
    assert(value == flag(reserved_frame_mode, 13) | flag(pan_coordinator, 12) | flag(adr_decode, 11)
        | (cca_hyst as u16) << 8 | (cca_mode as u16) << 6 | flag(auto_crc, 5) | flag(auto_ack, 4)
        | preamble_length as u16) by {
        reveal(ModemControlRegister0::spec_encode);
    }
    assert(bit(value, 13) == reserved_frame_mode
        && bit(value, 12) == pan_coordinator
        && bit(value, 11) == adr_decode
        && field(value, 8, 0x7) as u8 == cca_hyst
        && field(value, 6, 0x3) as u8 == cca_mode
        && bit(value, 5) == auto_crc
        && bit(value, 4) == auto_ack
        && field(value, 0, 0xF) as u8 == preamble_length) by (bit_vector)
        requires
            value == flag(reserved_frame_mode, 13) | flag(pan_coordinator, 12) | flag(adr_decode, 11)
                | (cca_hyst as u16) << 8 | (cca_mode as u16) << 6 | flag(auto_crc, 5)
                | flag(auto_ack, 4) | preamble_length as u16,
            cca_hyst <= 7,
            cca_mode <= 3,
            preamble_length <= 15,
    ;
    reveal(ModemControlRegister0::spec_decode);
}

/// A register is accepted exactly when every field is in its legal range,
/// and one whose only field out of range is `f` is refused naming `f`.
pub proof fn lemma_modem_control_register0_validation(r: ModemControlRegister0)
    ensures
        r.violation() is None <==> r.valid(),
        !(r.cca_hyst <= 7) && 1 <= r.cca_mode && r.cca_mode <= 3 && r.preamble_length <= 15 ==> r.violation() == Some(
            FieldError { field: "CCA_HYST", legal: "0..=7" },
        ),
        !(1 <= r.cca_mode && r.cca_mode <= 3) && r.cca_hyst <= 7 && r.preamble_length <= 15 ==> r.violation() == Some(
            FieldError { field: "CCA_MODE", legal: "1..=3" },
        ),
        !(r.preamble_length <= 15) && r.cca_hyst <= 7 && 1 <= r.cca_mode && r.cca_mode <= 3 ==> r.violation() == Some(
            FieldError { field: "PREAMBLE_LENGTH", legal: "0..=15" },
        ),
{
}

/// Builds a [`ModemControlRegister0`], starting from the register's reset value.
pub struct ModemControlRegister0Builder {
    value: ModemControlRegister0,
}

impl View for ModemControlRegister0Builder {
    type V = ModemControlRegister0;

    closed spec fn view(&self) -> ModemControlRegister0 {
        self.value
    }
}

impl Default for ModemControlRegister0Builder {
    fn default() -> (r: ModemControlRegister0Builder)
        ensures
            r@ == ModemControlRegister0::spec_default(),
    {
        ModemControlRegister0Builder { value: ModemControlRegister0 {
            reserved_frame_mode: false,
            pan_coordinator: false,
            adr_decode: true,
            cca_hyst: 2,
            cca_mode: 3,
            auto_crc: true,
            auto_ack: false,
            preamble_length: 2,
        } }
    }
}

impl ModemControlRegister0Builder {
    /// Sets `reserved_frame_mode`.
    pub fn reserved_frame_mode(self, value: bool) -> (r: ModemControlRegister0Builder)
        ensures
            r@ == (ModemControlRegister0 { reserved_frame_mode: value, ..self@ }),
    {
        let mut r = self;
        r.value.reserved_frame_mode = value;
        r
    }

    /// Sets `pan_coordinator`.
    pub fn pan_coordinator(self, value: bool) -> (r: ModemControlRegister0Builder)
        ensures
            r@ == (ModemControlRegister0 { pan_coordinator: value, ..self@ }),
    {
        let mut r = self;
        r.value.pan_coordinator = value;
        r
    }

    /// Sets `adr_decode`.
    pub fn adr_decode(self, value: bool) -> (r: ModemControlRegister0Builder)
        ensures
            r@ == (ModemControlRegister0 { adr_decode: value, ..self@ }),
    {
        let mut r = self;
        r.value.adr_decode = value;
        r
    }

    /// Sets `cca_hyst`.
    pub fn cca_hyst(self, value: u8) -> (r: ModemControlRegister0Builder)
        ensures
            r@ == (ModemControlRegister0 { cca_hyst: value, ..self@ }),
    {
        let mut r = self;
        r.value.cca_hyst = value;
        r
    }

    /// Sets `cca_mode`.
    pub fn cca_mode(self, value: u8) -> (r: ModemControlRegister0Builder)
        ensures
            r@ == (ModemControlRegister0 { cca_mode: value, ..self@ }),
    {
        let mut r = self;
        r.value.cca_mode = value;
        r
    }

    /// Sets `auto_crc`.
    pub fn auto_crc(self, value: bool) -> (r: ModemControlRegister0Builder)
        ensures
            r@ == (ModemControlRegister0 { auto_crc: value, ..self@ }),
    {
        let mut r = self;
        r.value.auto_crc = value;
        r
    }

    /// Sets `auto_ack`.
    pub fn auto_ack(self, value: bool) -> (r: ModemControlRegister0Builder)
        ensures
            r@ == (ModemControlRegister0 { auto_ack: value, ..self@ }),
    {
        let mut r = self;
        r.value.auto_ack = value;
        r
    }

    /// Sets `preamble_length`.
    pub fn preamble_length(self, value: u8) -> (r: ModemControlRegister0Builder)
        ensures
            r@ == (ModemControlRegister0 { preamble_length: value, ..self@ }),
    {
        let mut r = self;
        r.value.preamble_length = value;
        r
    }

    /// Checks every field against its legal range, in register order.
    pub fn validate(&self) -> (r: Result<(), FieldError>)
        ensures
            r == match self@.violation() {
                Some(e) => Err(e),
                None => Ok(()),
            },
    {
        if !(self.value.cca_hyst <= 7) {
            return Err(FieldError { field: "CCA_HYST", legal: "0..=7" });
        }
        if !(1 <= self.value.cca_mode && self.value.cca_mode <= 3) {
            return Err(FieldError { field: "CCA_MODE", legal: "1..=3" });
        }
        if !(self.value.preamble_length <= 15) {
            return Err(FieldError { field: "PREAMBLE_LENGTH", legal: "0..=15" });
        }
        Ok(())
    }

    /// The register, if every field is in its legal range; otherwise the
    /// first field out of range.
    pub fn build(&self) -> (r: Result<ModemControlRegister0, FieldError>)
        ensures
            r == match self@.violation() {
                Some(e) => Err(e),
                None => Ok(self@),
            },
    {
        match self.validate() {
            Ok(()) => Ok(self.value),
            Err(e) => Err(e),
        }
    }
}

/// Modem control register 1: demodulator settings and test modes.
#[derive(Clone, Copy, Debug, PartialEq, Eq, Structural)]
pub struct ModemControlRegister1 {
    /// Demodulator correlator threshold required before SFD search. Bits 10:6.
    pub corr_threshold: u8,
    /// Update the frequency offset filter continuously instead of locking it after the preamble. Bit 5.
    pub demod_average_mode: bool,
    /// Reversed-phase, non-IEEE-compliant modulation. Bit 4.
    pub modulation_mode: bool,
    /// TX test mode; 0 is normal buffered operation. Bits 3:2.
    pub tx_mode: u8,
    /// RX test mode; 0 is normal buffered operation and 3 is reserved. Bits 1:0.
    pub rx_mode: u8,
}

impl ModemControlRegister1 {
    /// The register's reset value.
    pub open spec fn spec_default() -> ModemControlRegister1 {
        ModemControlRegister1 {
            corr_threshold: 20,
            demod_average_mode: false,
            modulation_mode: false,
            tx_mode: 0,
            rx_mode: 0,
        }
    }

    /// Every field is in its legal range.
    pub open spec fn valid(self) -> bool {
        self.corr_threshold <= 31
            && self.tx_mode <= 3
            && self.rx_mode <= 2
    }

    /// The first field, in register order, that is out of its legal range.
    pub open spec fn violation(self) -> Option<FieldError> {
        if !(self.corr_threshold <= 31) {
            Some(FieldError { field: "CORR_THR", legal: "0..=31" })
        } else if !(self.tx_mode <= 3) {
            Some(FieldError { field: "TX_MODE", legal: "0..=3" })
        } else if !(self.rx_mode <= 2) {
            Some(FieldError { field: "RX_MODE", legal: "0..=2" })
        } else {
            None
        }
    }

    /// The register's word.
    #[verifier::opaque]
    pub open spec fn spec_encode(self) -> u16 {
        (self.corr_threshold as u16) << 6 | flag(self.demod_average_mode, 5)
            | flag(self.modulation_mode, 4) | (self.tx_mode as u16) << 2 | self.rx_mode as u16
    }

    /// The register that the word `value` holds.
    #[verifier::opaque]
    pub open spec fn spec_decode(value: u16) -> ModemControlRegister1 {
        ModemControlRegister1 {
            corr_threshold: field(value, 6, 0x1F) as u8,
            demod_average_mode: bit(value, 5),
            modulation_mode: bit(value, 4),
            tx_mode: field(value, 2, 0x3) as u8,
            rx_mode: field(value, 0, 0x3) as u8,
        }
    }

    /// Encodes the register into its word.
    pub fn encode(&self) -> (r: u16)
        ensures
            r == self.spec_encode(),
    {
        proof {
            reveal(ModemControlRegister1::spec_encode);
        }
        (self.corr_threshold as u16) << 6 | flag_bits(self.demod_average_mode, 5)
            | flag_bits(self.modulation_mode, 4) | (self.tx_mode as u16) << 2 | self.rx_mode as u16
    }

    /// Decodes the register from its word.
    pub fn decode(value: u16) -> (r: ModemControlRegister1)
        ensures
            r == ModemControlRegister1::spec_decode(value),
    {
        proof {
            reveal(ModemControlRegister1::spec_decode);
        }
        ModemControlRegister1 {
            corr_threshold: field_of(value, 6, 0x1F) as u8,
            demod_average_mode: bit_of(value, 5),
            modulation_mode: bit_of(value, 4),
            tx_mode: field_of(value, 2, 0x3) as u8,
            rx_mode: field_of(value, 0, 0x3) as u8,
        }
    }
}

impl Register for ModemControlRegister1 {
    open spec fn spec_value(&self) -> u16 {
        self.spec_encode()
    }

    open spec fn spec_address() -> u8 {
        0x12
    }

    open spec fn spec_from_value(value: u16) -> ModemControlRegister1 {
        ModemControlRegister1::spec_decode(value)
    }

    fn register_value(&self) -> (r: u16) {
        self.encode()
    }

    fn address(&self) -> (r: u8) {
        0x12
    }

    fn fill_from_buffer(&mut self, buffer: [u8; 3]) {
        *self = ModemControlRegister1::decode(buffer_value(buffer));
    }
}

impl From<u16> for ModemControlRegister1 {
    fn from(value: u16) -> (r: ModemControlRegister1) {
        ModemControlRegister1::decode(value)
    }
}

impl vstd::std_specs::convert::FromSpecImpl<u16> for ModemControlRegister1 {
    open spec fn obeys_from_spec() -> bool {
        true
    }

    open spec fn from_spec(value: u16) -> ModemControlRegister1 {
        ModemControlRegister1::spec_decode(value)
    }
}

/// Decoding the word of a register whose fields are in range gives the
/// register back.
pub proof fn lemma_modem_control_register1_round_trip(r: ModemControlRegister1)
    requires
        r.valid(),
    ensures
        ModemControlRegister1::spec_decode(r.spec_encode()) == r,
{
    let corr_threshold = r.corr_threshold;
    let demod_average_mode = r.demod_average_mode;
    let modulation_mode = r.modulation_mode;
    let tx_mode = r.tx_mode;
    let rx_mode = r.rx_mode;
    let value = r.spec_encode();
    assert(value == (corr_threshold as u16) << 6 | flag(demod_average_mode, 5) | flag(modulation_mode, 4)
        | (tx_mode as u16) << 2 | rx_mode as u16) by {
        reveal(ModemControlRegister1::spec_encode);
    }
    assert(field(value, 6, 0x1F) as u8 == corr_threshold
        && bit(value, 5) == demod_average_mode
        && bit(value, 4) == modulation_mode
        && field(value, 2, 0x3) as u8 == tx_mode
        && field(value, 0, 0x3) as u8 == rx_mode) by (bit_vector)
        requires
            value == (corr_threshold as u16) << 6 | flag(demod_average_mode, 5)
                | flag(modulation_mode, 4) | (tx_mode as u16) << 2 | rx_mode as u16,
            corr_threshold <= 31,
            tx_mode <= 3,
            rx_mode <= 3,
    ;
    reveal(ModemControlRegister1::spec_decode);
}

/// A register is accepted exactly when every field is in its legal range,
/// and one whose only field out of range is `f` is refused naming `f`.
pub proof fn lemma_modem_control_register1_validation(r: ModemControlRegister1)
    ensures
        r.violation() is None <==> r.valid(),
        !(r.corr_threshold <= 31) && r.tx_mode <= 3 && r.rx_mode <= 2 ==> r.violation() == Some(
            FieldError { field: "CORR_THR", legal: "0..=31" },
        ),
        !(r.tx_mode <= 3) && r.corr_threshold <= 31 && r.rx_mode <= 2 ==> r.violation() == Some(
            FieldError { field: "TX_MODE", legal: "0..=3" },
        ),
        !(r.rx_mode <= 2) && r.corr_threshold <= 31 && r.tx_mode <= 3 ==> r.violation() == Some(
            FieldError { field: "RX_MODE", legal: "0..=2" },
        ),
{
}

/// Builds a [`ModemControlRegister1`], starting from the register's reset value.
pub struct ModemControlRegister1Builder {
    value: ModemControlRegister1,
}

impl View for ModemControlRegister1Builder {
    type V = ModemControlRegister1;

    closed spec fn view(&self) -> ModemControlRegister1 {
        self.value
    }
}

impl Default for ModemControlRegister1Builder {
    fn default() -> (r: ModemControlRegister1Builder)
        ensures
            r@ == ModemControlRegister1::spec_default(),
    {
        ModemControlRegister1Builder { value: ModemControlRegister1 {
            corr_threshold: 20,
            demod_average_mode: false,
            modulation_mode: false,
            tx_mode: 0,
            rx_mode: 0,
        } }
    }
}

impl ModemControlRegister1Builder {
    /// Sets `corr_threshold`.
    pub fn corr_threshold(self, value: u8) -> (r: ModemControlRegister1Builder)
        ensures
            r@ == (ModemControlRegister1 { corr_threshold: value, ..self@ }),
    {
        let mut r = self;
        r.value.corr_threshold = value;
        r
    }

    /// Sets `demod_average_mode`.
    pub fn demod_average_mode(self, value: bool) -> (r: ModemControlRegister1Builder)
        ensures
            r@ == (ModemControlRegister1 { demod_average_mode: value, ..self@ }),
    {
        let mut r = self;
        r.value.demod_average_mode = value;
        r
    }

    /// Sets `modulation_mode`.
    pub fn modulation_mode(self, value: bool) -> (r: ModemControlRegister1Builder)
        ensures
            r@ == (ModemControlRegister1 { modulation_mode: value, ..self@ }),
    {
        let mut r = self;
        r.value.modulation_mode = value;
        r
    }

    /// Sets `tx_mode`.
    pub fn tx_mode(self, value: u8) -> (r: ModemControlRegister1Builder)
        ensures
            r@ == (ModemControlRegister1 { tx_mode: value, ..self@ }),
    {
        let mut r = self;
        r.value.tx_mode = value;
        r
    }

    /// Sets `rx_mode`.
    pub fn rx_mode(self, value: u8) -> (r: ModemControlRegister1Builder)
        ensures
            r@ == (ModemControlRegister1 { rx_mode: value, ..self@ }),
    {
        let mut r = self;
        r.value.rx_mode = value;
        r
    }

    /// Checks every field against its legal range, in register order.
    pub fn validate(&self) -> (r: Result<(), FieldError>)
        ensures
            r == match self@.violation() {
                Some(e) => Err(e),
                None => Ok(()),
            },
    {
        if !(self.value.corr_threshold <= 31) {
            return Err(FieldError { field: "CORR_THR", legal: "0..=31" });
        }
        if !(self.value.tx_mode <= 3) {
            return Err(FieldError { field: "TX_MODE", legal: "0..=3" });
        }
        if !(self.value.rx_mode <= 2) {
            return Err(FieldError { field: "RX_MODE", legal: "0..=2" });
        }
        Ok(())
    }

    /// The register, if every field is in its legal range; otherwise the
    /// first field out of range.
    pub fn build(&self) -> (r: Result<ModemControlRegister1, FieldError>)
        ensures
            r == match self@.violation() {
                Some(e) => Err(e),
                None => Ok(self@),
            },
    {
        match self.validate() {
            Ok(()) => Ok(self.value),
            Err(e) => Err(e),
        }
    }
}

} // verus!
