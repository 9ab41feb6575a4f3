//! The receive control registers (RXCTRL0, RXCTRL1).

use vstd::prelude::*;

use super::{Register, bit, bit_of, buffer_value, field, field_of, flag, flag_bits};
use crate::error::FieldError;

verus! {

/// Receive control register 0: LNA gain and current settings.
#[derive(Clone, Copy, Debug, PartialEq, Eq, Structural)]
pub struct ReceiveControlRegister0 {
    /// RX mixer buffer bias current. Bits 13:12.
    pub rx_mix_buf_current: u8,
    /// LNA gain compensation current in AGC high gain mode. Bits 11:10.
    pub high_lna_gain: u8,
    /// LNA gain compensation current in AGC medium gain mode. Bits 9:8.
    pub med_lna_gain: u8,
    /// LNA gain compensation current in AGC low gain mode. Bits 7:6.
    pub low_lna_gain: u8,
    /// Main LNA current in AGC high gain mode. Bits 5:4.
    pub high_lna_current: u8,
    /// Main LNA current in AGC medium gain mode. Bits 3:2.
    pub med_lna_current: u8,
    /// Main LNA current in AGC low gain mode. Bits 1:0.
    pub low_lna_current: u8,
}

impl ReceiveControlRegister0 {
    /// The register's reset value.
    pub open spec fn spec_default() -> ReceiveControlRegister0 {
        ReceiveControlRegister0 {
            rx_mix_buf_current: 1,
            high_lna_gain: 0,
            med_lna_gain: 2,
            low_lna_gain: 3,
            high_lna_current: 2,
            med_lna_current: 1,
            low_lna_current: 1,
        }
    }

    /// Every field is in its legal range.
    pub open spec fn valid(self) -> bool {
        self.rx_mix_buf_current <= 3
            && self.high_lna_gain <= 3
            && self.med_lna_gain <= 3
            && self.low_lna_gain <= 3
            && self.high_lna_current <= 3
            && self.med_lna_current <= 3
            && self.low_lna_current <= 3
    }

    /// The first field, in register order, that is out of its legal range.
    pub open spec fn violation(self) -> Option<FieldError> {
        if !(self.rx_mix_buf_current <= 3) {
            Some(FieldError { field: "RXMIXBUF_CUR", legal: "0..=3" })
        } else if !(self.high_lna_gain <= 3) {
            Some(FieldError { field: "HIGH_LNA_GAIN", legal: "0..=3" })
        } else if !(self.med_lna_gain <= 3) {
            Some(FieldError { field: "MED_LNA_GAIN", legal: "0..=3" })
        } else if !(self.low_lna_gain <= 3) {
            Some(FieldError { field: "LOW_LNA_GAIN", legal: "0..=3" })
        } else if !(self.high_lna_current <= 3) {
            Some(FieldError { field: "HIGH_LNA_CURRENT", legal: "0..=3" })
        } else if !(self.med_lna_current <= 3) {
            Some(FieldError { field: "MED_LNA_CURRENT", legal: "0..=3" })
        } else if !(self.low_lna_current <= 3) {
            Some(FieldError { field: "LOW_LNA_CURRENT", legal: "0..=3" })
        } else {
            None
        }
    }

    /// The register's word.
    #[verifier::opaque]
    pub open spec fn spec_encode(self) -> u16 {
        (self.rx_mix_buf_current as u16) << 12 | (self.high_lna_gain as u16) << 10
            | (self.med_lna_gain as u16) << 8 | (self.low_lna_gain as u16) << 6
            | (self.high_lna_current as u16) << 4 | (self.med_lna_current as u16) << 2
            | self.low_lna_current as u16
    }

    /// The register that the word `value` holds.
    #[verifier::opaque]
    pub open spec fn spec_decode(value: u16) -> ReceiveControlRegister0 {
        ReceiveControlRegister0 {
            rx_mix_buf_current: field(value, 12, 0x3) as u8,
            high_lna_gain: field(value, 10, 0x3) as u8,
            med_lna_gain: field(value, 8, 0x3) as u8,
            low_lna_gain: field(value, 6, 0x3) as u8,
            high_lna_current: field(value, 4, 0x3) as u8,
            med_lna_current: field(value, 2, 0x3) as u8,
            low_lna_current: field(value, 0, 0x3) as u8,
        }
    }

    /// Encodes the register into its word.
    pub fn encode(&self) -> (r: u16)
        ensures
            r == self.spec_encode(),
    {
        proof {
            reveal(ReceiveControlRegister0::spec_encode);
        }
        (self.rx_mix_buf_current as u16) << 12 | (self.high_lna_gain as u16) << 10
            | (self.med_lna_gain as u16) << 8 | (self.low_lna_gain as u16) << 6
            | (self.high_lna_current as u16) << 4 | (self.med_lna_current as u16) << 2
            | self.low_lna_current as u16
    }

    /// Decodes the register from its word.
    pub fn decode(value: u16) -> (r: ReceiveControlRegister0)
        ensures
            r == ReceiveControlRegister0::spec_decode(value),
    {
        proof {
            reveal(ReceiveControlRegister0::spec_decode);
        }
        ReceiveControlRegister0 {
            rx_mix_buf_current: field_of(value, 12, 0x3) as u8,
            high_lna_gain: field_of(value, 10, 0x3) as u8,
            med_lna_gain: field_of(value, 8, 0x3) as u8,
            low_lna_gain: field_of(value, 6, 0x3) as u8,
            high_lna_current: field_of(value, 4, 0x3) as u8,
            med_lna_current: field_of(value, 2, 0x3) as u8,
            low_lna_current: field_of(value, 0, 0x3) as u8,
        }
    }
}

impl Register for ReceiveControlRegister0 {
    open spec fn spec_value(&self) -> u16 {
        self.spec_encode()
    }

    open spec fn spec_address() -> u8 {
        0x16
    }

    open spec fn spec_from_value(value: u16) -> ReceiveControlRegister0 {
        ReceiveControlRegister0::spec_decode(value)
    }

    fn register_value(&self) -> (r: u16) {
        self.encode()
    }

    fn address(&self) -> (r: u8) {
        0x16
    }

    fn fill_from_buffer(&mut self, buffer: [u8; 3]) {
        *self = ReceiveControlRegister0::decode(buffer_value(buffer));
    }
}

impl From<u16> for ReceiveControlRegister0 {
    fn from(value: u16) -> (r: ReceiveControlRegister0) {
        ReceiveControlRegister0::decode(value)
    }
}

impl vstd::std_specs::convert::FromSpecImpl<u16> for ReceiveControlRegister0 {
    open spec fn obeys_from_spec() -> bool {
        true
    }

    open spec fn from_spec(value: u16) -> ReceiveControlRegister0 {
        ReceiveControlRegister0::spec_decode(value)
    }
}

/// Decoding the word of a register whose fields are in range gives the
/// register back.
pub proof fn lemma_receive_control_register0_round_trip(r: ReceiveControlRegister0)
    requires
        r.valid(),
    ensures
        ReceiveControlRegister0::spec_decode(r.spec_encode()) == r,
{
    let rx_mix_buf_current = r.rx_mix_buf_current;
    let high_lna_gain = r.high_lna_gain;
    let med_lna_gain = r.med_lna_gain;
    let low_lna_gain = r.low_lna_gain;
    let high_lna_current = r.high_lna_current;
    let med_lna_current = r.med_lna_current;
    let low_lna_current = r.low_lna_current;
    let value = r.spec_encode();
    assert(value == (rx_mix_buf_current as u16) << 12 | (high_lna_gain as u16) << 10
        | (med_lna_gain as u16) << 8 | (low_lna_gain as u16) << 6 | (high_lna_current as u16) << 4
        | (med_lna_current as u16) << 2 | low_lna_current as u16) by {
        reveal(ReceiveControlRegister0::spec_encode);
    }
    assert(field(value, 12, 0x3) as u8 == rx_mix_buf_current
        && field(value, 10, 0x3) as u8 == high_lna_gain
        && field(value, 8, 0x3) as u8 == med_lna_gain
        && field(value, 6, 0x3) as u8 == low_lna_gain
        && field(value, 4, 0x3) as u8 == high_lna_current
        && field(value, 2, 0x3) as u8 == med_lna_current
        && field(value, 0, 0x3) as u8 == low_lna_current) by (bit_vector)
        requires
            value == (rx_mix_buf_current as u16) << 12 | (high_lna_gain as u16) << 10
                | (med_lna_gain as u16) << 8 | (low_lna_gain as u16) << 6
                | (high_lna_current as u16) << 4 | (med_lna_current as u16) << 2
                | low_lna_current as u16,
            rx_mix_buf_current <= 3,
            high_lna_gain <= 3,
            med_lna_gain <= 3,
            low_lna_gain <= 3,
            high_lna_current <= 3,
            med_lna_current <= 3,
            low_lna_current <= 3,
    ;
    reveal(ReceiveControlRegister0::spec_decode);
}

/// A register is accepted exactly when every field is in its legal range,
/// and one whose only field out of range is `f` is refused naming `f`.
pub proof fn lemma_receive_control_register0_validation(r: ReceiveControlRegister0)
    ensures
        r.violation() is None <==> r.valid(),
        !(r.rx_mix_buf_current <= 3) && r.high_lna_gain <= 3 && r.med_lna_gain <= 3 && r.low_lna_gain <= 3 && r.high_lna_current <= 3 && r.med_lna_current <= 3 && r.low_lna_current <= 3 ==> r.violation() == Some(
            FieldError { field: "RXMIXBUF_CUR", legal: "0..=3" },
        ),
        !(r.high_lna_gain <= 3) && r.rx_mix_buf_current <= 3 && r.med_lna_gain <= 3 && r.low_lna_gain <= 3 && r.high_lna_current <= 3 && r.med_lna_current <= 3 && r.low_lna_current <= 3 ==> r.violation() == Some(
            FieldError { field: "HIGH_LNA_GAIN", legal: "0..=3" },
        ),
        !(r.med_lna_gain <= 3) && r.rx_mix_buf_current <= 3 && r.high_lna_gain <= 3 && r.low_lna_gain <= 3 && r.high_lna_current <= 3 && r.med_lna_current <= 3 && r.low_lna_current <= 3 ==> r.violation() == Some(
            FieldError { field: "MED_LNA_GAIN", legal: "0..=3" },
        ),
        !(r.low_lna_gain <= 3) && r.rx_mix_buf_current <= 3 && r.high_lna_gain <= 3 && r.med_lna_gain <= 3 && r.high_lna_current <= 3 && r.med_lna_current <= 3 && r.low_lna_current <= 3 ==> r.violation() == Some(
            FieldError { field: "LOW_LNA_GAIN", legal: "0..=3" },
        ),
        !(r.high_lna_current <= 3) && r.rx_mix_buf_current <= 3 && r.high_lna_gain <= 3 && r.med_lna_gain <= 3 && r.low_lna_gain <= 3 && r.med_lna_current <= 3 && r.low_lna_current <= 3 ==> r.violation() == Some(
            FieldError { field: "HIGH_LNA_CURRENT", legal: "0..=3" },
        ),
        !(r.med_lna_current <= 3) && r.rx_mix_buf_current <= 3 && r.high_lna_gain <= 3 && r.med_lna_gain <= 3 && r.low_lna_gain <= 3 && r.high_lna_current <= 3 && r.low_lna_current <= 3 ==> r.violation() == Some(
            FieldError { field: "MED_LNA_CURRENT", legal: "0..=3" },
        ),
        !(r.low_lna_current <= 3) && r.rx_mix_buf_current <= 3 && r.high_lna_gain <= 3 && r.med_lna_gain <= 3 && r.low_lna_gain <= 3 && r.high_lna_current <= 3 && r.med_lna_current <= 3 ==> r.violation() == Some(
            FieldError { field: "LOW_LNA_CURRENT", legal: "0..=3" },
        ),
{
}

/// Builds a [`ReceiveControlRegister0`], starting from the register's reset value.
pub struct ReceiveControlRegister0Builder {
    value: ReceiveControlRegister0,
}

impl View for ReceiveControlRegister0Builder {
    type V = ReceiveControlRegister0;

    closed spec fn view(&self) -> ReceiveControlRegister0 {
        self.value
    }
}

impl Default for ReceiveControlRegister0Builder {
    fn default() -> (r: ReceiveControlRegister0Builder)
        ensures
            r@ == ReceiveControlRegister0::spec_default(),
    {
        ReceiveControlRegister0Builder { value: ReceiveControlRegister0 {
            rx_mix_buf_current: 1,
            high_lna_gain: 0,
            med_lna_gain: 2,
            low_lna_gain: 3,
            high_lna_current: 2,
            med_lna_current: 1,
            low_lna_current: 1,
        } }
    }
}

impl ReceiveControlRegister0Builder {
    /// Sets `rx_mix_buf_current`.
    pub fn rx_mix_buf_current(self, value: u8) -> (r: ReceiveControlRegister0Builder)
        ensures
            r@ == (ReceiveControlRegister0 { rx_mix_buf_current: value, ..self@ }),
    {
        let mut r = self;
        r.value.rx_mix_buf_current = value;
        r
    }

    /// Sets `high_lna_gain`.
    pub fn high_lna_gain(self, value: u8) -> (r: ReceiveControlRegister0Builder)
        ensures
            r@ == (ReceiveControlRegister0 { high_lna_gain: value, ..self@ }),
    {
        let mut r = self;
        r.value.high_lna_gain = value;
        r
    }

    /// Sets `med_lna_gain`.
    pub fn med_lna_gain(self, value: u8) -> (r: ReceiveControlRegister0Builder)
        ensures
            r@ == (ReceiveControlRegister0 { med_lna_gain: value, ..self@ }),
    {
        let mut r = self;
        r.value.med_lna_gain = value;
        r
    }

    /// Sets `low_lna_gain`.
    pub fn low_lna_gain(self, value: u8) -> (r: ReceiveControlRegister0Builder)
        ensures
            r@ == (ReceiveControlRegister0 { low_lna_gain: value, ..self@ }),
    {
        let mut r = self;
        r.value.low_lna_gain = value;
        r
    }

    /// Sets `high_lna_current`.
    pub fn high_lna_current(self, value: u8) -> (r: ReceiveControlRegister0Builder)
        ensures
            r@ == (ReceiveControlRegister0 { high_lna_current: value, ..self@ }),
    {
        let mut r = self;
        r.value.high_lna_current = value;
        r
    }

    /// Sets `med_lna_current`.
    pub fn med_lna_current(self, value: u8) -> (r: ReceiveControlRegister0Builder)
        ensures
            r@ == (ReceiveControlRegister0 { med_lna_current: value, ..self@ }),
    {
        let mut r = self;
        r.value.med_lna_current = value;
        r
    }

    /// Sets `low_lna_current`.
    pub fn low_lna_current(self, value: u8) -> (r: ReceiveControlRegister0Builder)
        ensures
            r@ == (ReceiveControlRegister0 { low_lna_current: value, ..self@ }),
    {
        let mut r = self;
        r.value.low_lna_current = value;
        r
    }

    /// Checks every field against its legal range, in register order.
    pub fn validate(&self) -> (r: Result<(), FieldError>)
        ensures
            r == match self@.violation() {
                Some(e) => Err(e),
                None => Ok(()),
            },
    {
        if !(self.value.rx_mix_buf_current <= 3) {
            return Err(FieldError { field: "RXMIXBUF_CUR", legal: "0..=3" });
        }
        if !(self.value.high_lna_gain <= 3) {
            return Err(FieldError { field: "HIGH_LNA_GAIN", legal: "0..=3" });
        }
        if !(self.value.med_lna_gain <= 3) {
            return Err(FieldError { field: "MED_LNA_GAIN", legal: "0..=3" });
        }
        if !(self.value.low_lna_gain <= 3) {
            return Err(FieldError { field: "LOW_LNA_GAIN", legal: "0..=3" });
        }
        if !(self.value.high_lna_current <= 3) {
            return Err(FieldError { field: "HIGH_LNA_CURRENT", legal: "0..=3" });
        }
        if !(self.value.med_lna_current <= 3) {
            return Err(FieldError { field: "MED_LNA_CURRENT", legal: "0..=3" });
        }
        if !(self.value.low_lna_current <= 3) {
            return Err(FieldError { field: "LOW_LNA_CURRENT", legal: "0..=3" });
        }
        Ok(())
    }

    /// The register, if every field is in its legal range; otherwise the
    /// first field out of range.
    pub fn build(&self) -> (r: Result<ReceiveControlRegister0, FieldError>)
        ensures
            r == match self@.violation() {
                Some(e) => Err(e),
                None => Ok(self@),
            },
    {
        match self.validate() {
            Ok(()) => Ok(self.value),
            Err(e) => Err(e),
        }
    }
}

/// Receive control register 1: bandpass filter and mixer settings.
#[derive(Clone, Copy, Debug, PartialEq, Eq, Structural)]
pub struct ReceiveControlRegister1 {
    /// Reference bias current of the RX bandpass filters is 3 uA instead of 4 uA. Bit 13.
    pub rxbpf_locur: bool,
    /// Reference bias current of the RX bandpass filters is 3.5 uA instead of 4 uA. Bit 12.
    pub rxbpf_midcur: bool,
    /// LNA low gain setting in AGC low gain mode. Bit 11.
    pub low_lowgain: bool,
    /// LNA low gain setting in AGC medium gain mode. Bit 10.
    pub med_lowgain: bool,
    /// RX mixers high gain setting in AGC high gain mode. Bit 9.
    pub high_hgm: bool,
    /// RX mixers high gain setting in AGC medium gain mode. Bit 8.
    pub med_hgm: bool,
    /// Varactor array setting in the LNA. Bits 7:6.
    pub lna_cap_array: u8,
    /// Receiver mixers output current. Bits 5:4.
    pub rxmix_tail: u8,
    /// VCM level in the mixer feedback loop. Bits 3:2.
    pub rxmix_vcm: u8,
    /// Current in the mixer. Bits 1:0.
    pub rxmix_current: u8,
}

impl ReceiveControlRegister1 {
    /// The register's reset value.
    pub open spec fn spec_default() -> ReceiveControlRegister1 {
        ReceiveControlRegister1 {
            rxbpf_locur: true,
            rxbpf_midcur: false,
            low_lowgain: true,
            med_lowgain: false,
            high_hgm: true,
            med_hgm: false,
            lna_cap_array: 1,
            rxmix_tail: 1,
            rxmix_vcm: 1,
            rxmix_current: 2,
        }
    }

    /// Every field is in its legal range.
    pub open spec fn valid(self) -> bool {
        self.lna_cap_array <= 3
            && self.rxmix_tail <= 3
            && self.rxmix_vcm <= 3
            && self.rxmix_current <= 3
    }

    /// The first field, in register order, that is out of its legal range.
    pub open spec fn violation(self) -> Option<FieldError> {
        if !(self.lna_cap_array <= 3) {
            Some(FieldError { field: "LNA_CAP_ARRAY", legal: "0..=3" })
        } else if !(self.rxmix_tail <= 3) {
            Some(FieldError { field: "RXMIX_TAIL", legal: "0..=3" })
        } else if !(self.rxmix_vcm <= 3) {
            Some(FieldError { field: "RXMIX_VCM", legal: "0..=3" })
        } else if !(self.rxmix_current <= 3) {
            Some(FieldError { field: "RXMIX_CURRENT", legal: "0..=3" })
        } else {
            None
        }
    }

    /// The register's word.
    #[verifier::opaque]
    pub open spec fn spec_encode(self) -> u16 {
        flag(self.rxbpf_locur, 13) | flag(self.rxbpf_midcur, 12) | flag(self.low_lowgain, 11)
            | flag(self.med_lowgain, 10) | flag(self.high_hgm, 9) | flag(self.med_hgm, 8)
            | (self.lna_cap_array as u16) << 6 | (self.rxmix_tail as u16) << 4
            | (self.rxmix_vcm as u16) << 2 | self.rxmix_current as u16
    }

    /// The register that the word `value` holds.
    #[verifier::opaque]
    pub open spec fn spec_decode(value: u16) -> ReceiveControlRegister1 {
        ReceiveControlRegister1 {
            rxbpf_locur: bit(value, 13),
            rxbpf_midcur: bit(value, 12),
            low_lowgain: bit(value, 11),
            med_lowgain: bit(value, 10),
            high_hgm: bit(value, 9),
            med_hgm: bit(value, 8),
            lna_cap_array: field(value, 6, 0x3) as u8,
            rxmix_tail: field(value, 4, 0x3) as u8,
            rxmix_vcm: field(value, 2, 0x3) as u8,
            rxmix_current: field(value, 0, 0x3) as u8,
        }
    }

    /// Encodes the register into its word.
    pub fn encode(&self) -> (r: u16)
        ensures
            r == self.spec_encode(),
    {
        proof {
            reveal(ReceiveControlRegister1::spec_encode);
        }
        flag_bits(self.rxbpf_locur, 13) | flag_bits(self.rxbpf_midcur, 12)
            | flag_bits(self.low_lowgain, 11) | flag_bits(self.med_lowgain, 10)
            | flag_bits(self.high_hgm, 9) | flag_bits(self.med_hgm, 8)
            | (self.lna_cap_array as u16) << 6 | (self.rxmix_tail as u16) << 4
            | (self.rxmix_vcm as u16) << 2 | self.rxmix_current as u16
    }

    /// Decodes the register from its word.
    pub fn decode(value: u16) -> (r: ReceiveControlRegister1)
        ensures
            r == ReceiveControlRegister1::spec_decode(value),
    {
        proof {
            reveal(ReceiveControlRegister1::spec_decode);
        }
        ReceiveControlRegister1 {
            rxbpf_locur: bit_of(value, 13),
            rxbpf_midcur: bit_of(value, 12),
            low_lowgain: bit_of(value, 11),
            med_lowgain: bit_of(value, 10),
            high_hgm: bit_of(value, 9),
            med_hgm: bit_of(value, 8),
            lna_cap_array: field_of(value, 6, 0x3) as u8,
            rxmix_tail: field_of(value, 4, 0x3) as u8,
            rxmix_vcm: field_of(value, 2, 0x3) as u8,
            rxmix_current: field_of(value, 0, 0x3) as u8,
        }
    }
}

impl Register for ReceiveControlRegister1 {
    open spec fn spec_value(&self) -> u16 {
        self.spec_encode()
    }

    open spec fn spec_address() -> u8 {
        0x17
    }

    open spec fn spec_from_value(value: u16) -> ReceiveControlRegister1 {
        ReceiveControlRegister1::spec_decode(value)
    }

    fn register_value(&self) -> (r: u16) {
        self.encode()
    }

    fn address(&self) -> (r: u8) {
        0x17
    }

    fn fill_from_buffer(&mut self, buffer: [u8; 3]) {
        *self = ReceiveControlRegister1::decode(buffer_value(buffer));
    }
}

impl From<u16> for ReceiveControlRegister1 {
    fn from(value: u16) -> (r: ReceiveControlRegister1) {
        ReceiveControlRegister1::decode(value)
    }
}

impl vstd::std_specs::convert::FromSpecImpl<u16> for ReceiveControlRegister1 {
    open spec fn obeys_from_spec() -> bool {
        true
    }

    open spec fn from_spec(value: u16) -> ReceiveControlRegister1 {
        ReceiveControlRegister1::spec_decode(value)
    }
}

/// Decoding the word of a register whose fields are in range gives the
/// register back.
pub proof fn lemma_receive_control_register1_round_trip(r: ReceiveControlRegister1)
    requires
        r.valid(),
    ensures
        ReceiveControlRegister1::spec_decode(r.spec_encode()) == r,
{
    let rxbpf_locur = r.rxbpf_locur;
    let rxbpf_midcur = r.rxbpf_midcur;
    let low_lowgain = r.low_lowgain;
    let med_lowgain = r.med_lowgain;
    let high_hgm = r.high_hgm;
    let med_hgm = r.med_hgm;
    let lna_cap_array = r.lna_cap_array;
    let rxmix_tail = r.rxmix_tail;
    let rxmix_vcm = r.rxmix_vcm;
    let rxmix_current = r.rxmix_current;
    let value = r.spec_encode();
    assert(value == flag(rxbpf_locur, 13) | flag(rxbpf_midcur, 12) | flag(low_lowgain, 11)
        | flag(med_lowgain, 10) | flag(high_hgm, 9) | flag(med_hgm, 8) | (lna_cap_array as u16) << 6
        | (rxmix_tail as u16) << 4 | (rxmix_vcm as u16) << 2 | rxmix_current as u16) by {
        reveal(ReceiveControlRegister1::spec_encode);
    }
    assert(bit(value, 13) == rxbpf_locur
        && bit(value, 12) == rxbpf_midcur
        && bit(value, 11) == low_lowgain
        && bit(value, 10) == med_lowgain
        && bit(value, 9) == high_hgm
        && bit(value, 8) == med_hgm
        && field(value, 6, 0x3) as u8 == lna_cap_array
        && field(value, 4, 0x3) as u8 == rxmix_tail
        && field(value, 2, 0x3) as u8 == rxmix_vcm
        && field(value, 0, 0x3) as u8 == rxmix_current) by (bit_vector)
        requires
            value == flag(rxbpf_locur, 13) | flag(rxbpf_midcur, 12) | flag(low_lowgain, 11)
                | flag(med_lowgain, 10) | flag(high_hgm, 9) | flag(med_hgm, 8)
                | (lna_cap_array as u16) << 6 | (rxmix_tail as u16) << 4 | (rxmix_vcm as u16) << 2
                | rxmix_current as u16,
            lna_cap_array <= 3,
            rxmix_tail <= 3,
            rxmix_vcm <= 3,
            rxmix_current <= 3,
    ;
    reveal(ReceiveControlRegister1::spec_decode);
}

/// A register is accepted exactly when every field is in its legal range,
/// and one whose only field out of range is `f` is refused naming `f`.
pub proof fn lemma_receive_control_register1_validation(r: ReceiveControlRegister1)
    ensures
        r.violation() is None <==> r.valid(),
        !(r.lna_cap_array <= 3) && r.rxmix_tail <= 3 && r.rxmix_vcm <= 3 && r.rxmix_current <= 3 ==> r.violation() == Some(
            FieldError { field: "LNA_CAP_ARRAY", legal: "0..=3" },
        ),
        !(r.rxmix_tail <= 3) && r.lna_cap_array <= 3 && r.rxmix_vcm <= 3 && r.rxmix_current <= 3 ==> r.violation() == Some(
            FieldError { field: "RXMIX_TAIL", legal: "0..=3" },
        ),
        !(r.rxmix_vcm <= 3) && r.lna_cap_array <= 3 && r.rxmix_tail <= 3 && r.rxmix_current <= 3 ==> r.violation() == Some(
            FieldError { field: "RXMIX_VCM", legal: "0..=3" },
        ),
        !(r.rxmix_current <= 3) && r.lna_cap_array <= 3 && r.rxmix_tail <= 3 && r.rxmix_vcm <= 3 ==> r.violation() == Some(
            FieldError { field: "RXMIX_CURRENT", legal: "0..=3" },
        ),
{
}

/// Builds a [`ReceiveControlRegister1`], starting from the register's reset value.
pub struct ReceiveControlRegister1Builder {
    value: ReceiveControlRegister1,
}

impl View for ReceiveControlRegister1Builder {
    type V = ReceiveControlRegister1;

    closed spec fn view(&self) -> ReceiveControlRegister1 {
        self.value
    }
}

impl Default for ReceiveControlRegister1Builder {
    fn default() -> (r: ReceiveControlRegister1Builder)
        ensures
            r@ == ReceiveControlRegister1::spec_default(),
    {
        ReceiveControlRegister1Builder { value: ReceiveControlRegister1 {
            rxbpf_locur: true,
            rxbpf_midcur: false,
            low_lowgain: true,
            med_lowgain: false,
            high_hgm: true,
            med_hgm: false,
            lna_cap_array: 1,
            rxmix_tail: 1,
            rxmix_vcm: 1,
            rxmix_current: 2,
        } }
    }
}

impl ReceiveControlRegister1Builder {
    /// Sets `rxbpf_locur`.
    pub fn rxbpf_locur(self, value: bool) -> (r: ReceiveControlRegister1Builder)
        ensures
            r@ == (ReceiveControlRegister1 { rxbpf_locur: value, ..self@ }),
    {
        let mut r = self;
        r.value.rxbpf_locur = value;
        r
    }

    /// Sets `rxbpf_midcur`.
    pub fn rxbpf_midcur(self, value: bool) -> (r: ReceiveControlRegister1Builder)
        ensures
            r@ == (ReceiveControlRegister1 { rxbpf_midcur: value, ..self@ }),
    {
        let mut r = self;
        r.value.rxbpf_midcur = value;
        r
    }

    /// Sets `low_lowgain`.
    pub fn low_lowgain(self, value: bool) -> (r: ReceiveControlRegister1Builder)
        ensures
            r@ == (ReceiveControlRegister1 { low_lowgain: value, ..self@ }),
    {
        let mut r = self;
        r.value.low_lowgain = value;
        r
    }

    /// Sets `med_lowgain`.
    pub fn med_lowgain(self, value: bool) -> (r: ReceiveControlRegister1Builder)
        ensures
            r@ == (ReceiveControlRegister1 { med_lowgain: value, ..self@ }),
    {
        let mut r = self;
        r.value.med_lowgain = value;
        r
    }

    /// Sets `high_hgm`.
    pub fn high_hgm(self, value: bool) -> (r: ReceiveControlRegister1Builder)
        ensures
            r@ == (ReceiveControlRegister1 { high_hgm: value, ..self@ }),
    {
        let mut r = self;
        r.value.high_hgm = value;
        r
    }

    /// Sets `med_hgm`.
    pub fn med_hgm(self, value: bool) -> (r: ReceiveControlRegister1Builder)
        ensures
            r@ == (ReceiveControlRegister1 { med_hgm: value, ..self@ }),
    {
        let mut r = self;
        r.value.med_hgm = value;
        r
    }

    /// Sets `lna_cap_array`.
    pub fn lna_cap_array(self, value: u8) -> (r: ReceiveControlRegister1Builder)
        ensures
            r@ == (ReceiveControlRegister1 { lna_cap_array: value, ..self@ }),
    {
        let mut r = self;
        r.value.lna_cap_array = value;
        r
    }

    /// Sets `rxmix_tail`.
    pub fn rxmix_tail(self, value: u8) -> (r: ReceiveControlRegister1Builder)
        ensures
            r@ == (ReceiveControlRegister1 { rxmix_tail: value, ..self@ }),
    {
        let mut r = self;
        r.value.rxmix_tail = value;
        r
    }

    /// Sets `rxmix_vcm`.
    pub fn rxmix_vcm(self, value: u8) -> (r: ReceiveControlRegister1Builder)
        ensures
            r@ == (ReceiveControlRegister1 { rxmix_vcm: value, ..self@ }),
    {
        let mut r = self;
        r.value.rxmix_vcm = value;
        r
    }

    /// Sets `rxmix_current`.
    pub fn rxmix_current(self, value: u8) -> (r: ReceiveControlRegister1Builder)
        ensures
            r@ == (ReceiveControlRegister1 { rxmix_current: value, ..self@ }),
    {
        let mut r = self;
        r.value.rxmix_current = value;
        r
    }

    /// Checks every field against its legal range, in register order.
    pub fn validate(&self) -> (r: Result<(), FieldError>)
        ensures
            r == match self@.violation() {
                Some(e) => Err(e),
                None => Ok(()),
            },
    {
        if !(self.value.lna_cap_array <= 3) {
            return Err(FieldError { field: "LNA_CAP_ARRAY", legal: "0..=3" });
        }
        if !(self.value.rxmix_tail <= 3) {
            return Err(FieldError { field: "RXMIX_TAIL", legal: "0..=3" });
        }
        if !(self.value.rxmix_vcm <= 3) {
            return Err(FieldError { field: "RXMIX_VCM", legal: "0..=3" });
        }
        if !(self.value.rxmix_current <= 3) {
            return Err(FieldError { field: "RXMIX_CURRENT", legal: "0..=3" });
        }
        Ok(())
    }

    /// The register, if every field is in its legal range; otherwise the
    /// first field out of range.
    pub fn build(&self) -> (r: Result<ReceiveControlRegister1, FieldError>)
        ensures
            r == match self@.violation() {
                Some(e) => Err(e),
                None => Ok(self@),
            },
    {
        match self.validate() {
            Ok(()) => Ok(self.value),
            Err(e) => Err(e),
        }
    }
}

} // verus!
