//! The manual signal override registers (MANAND, MANOR).

use vstd::prelude::*;

use super::{Register, bit, bit_of, buffer_value, flag, flag_bits};
use crate::error::FieldError;

verus! {

/// Manual signal AND override register: a cleared bit forces its signal low.
#[derive(Clone, Copy, Debug, PartialEq, Eq, Structural)]
pub struct AndOverrideRegister {
    /// Reset of the VGA peak detectors. Bit 15.
    pub vga_reset_n: bool,
    /// Global bias power down. Bit 14.
    pub bias_pd: bool,
    /// The power amplifier receives its external biasing. Bit 13.
    pub balun_ctrl: bool,
    /// Use the power amplifier buffers instead of the LO buffers. Bit 12.
    pub rxtx: bool,
    /// Power down of the prescaler. Bit 11.
    pub pre_pd: bool,
    /// Power down of the power amplifier, negative path. Bit 10.
    pub pa_n_pd: bool,
    /// Power down of the power amplifier, positive path. Bit 9.
    pub pa_p_pd: bool,
    /// Power down of the TX DACs. Bit 8.
    pub dac_lpf_pd: bool,
    /// Power down of the crystal oscillator. Bit 7.
    pub xosc16m_pd: bool,
    /// Power down of the RX bandpass filter calibration oscillator. Bit 6.
    pub rxbpf_cal_pd: bool,
    /// Power down of the charge pump. Bit 5.
    pub chp_pd: bool,
    /// Power down of the VCO, I/Q generator and LO buffers. Bit 4.
    pub fs_pd: bool,
    /// Power down of the ADCs. Bit 3.
    pub adc_pd: bool,
    /// Power down of the VGA. Bit 2.
    pub vga_pd: bool,
    /// Power down of the RX bandpass filter. Bit 1.
    pub rxbpf_pd: bool,
    /// Power down of the LNA, down-conversion mixers and front end bias. Bit 0.
    pub lnamix_pd: bool,
}

impl AndOverrideRegister {
    /// The register's reset value.
    pub open spec fn spec_default() -> AndOverrideRegister {
        AndOverrideRegister {
            vga_reset_n: true,
            bias_pd: true,
            balun_ctrl: true,
            rxtx: true,
            pre_pd: true,
            pa_n_pd: true,
            pa_p_pd: true,
            dac_lpf_pd: true,
            xosc16m_pd: true,
            rxbpf_cal_pd: true,
            chp_pd: true,
            fs_pd: true,
            adc_pd: true,
            vga_pd: true,
            rxbpf_pd: true,
            lnamix_pd: true,
        }
    }

    /// Every field is in its legal range.
    pub open spec fn valid(self) -> bool {
        true
    }

    /// The first field, in register order, that is out of its legal range.
    pub open spec fn violation(self) -> Option<FieldError> {
        None
    }

    /// The register's word.
    #[verifier::opaque]
    pub open spec fn spec_encode(self) -> u16 {
        flag(self.vga_reset_n, 15) | flag(self.bias_pd, 14) | flag(self.balun_ctrl, 13)
            | flag(self.rxtx, 12) | flag(self.pre_pd, 11) | flag(self.pa_n_pd, 10)
            | flag(self.pa_p_pd, 9) | flag(self.dac_lpf_pd, 8) | flag(self.xosc16m_pd, 7)
            | flag(self.rxbpf_cal_pd, 6) | flag(self.chp_pd, 5) | flag(self.fs_pd, 4)
            | flag(self.adc_pd, 3) | flag(self.vga_pd, 2) | flag(self.rxbpf_pd, 1)
            | flag(self.lnamix_pd, 0)
    }

    /// The register that the word `value` holds.
    #[verifier::opaque]
    pub open spec fn spec_decode(value: u16) -> AndOverrideRegister {
        AndOverrideRegister {
            vga_reset_n: bit(value, 15),
            bias_pd: bit(value, 14),
            balun_ctrl: bit(value, 13),
            rxtx: bit(value, 12),
            pre_pd: bit(value, 11),
            pa_n_pd: bit(value, 10),
            pa_p_pd: bit(value, 9),
            dac_lpf_pd: bit(value, 8),
            xosc16m_pd: bit(value, 7),
            rxbpf_cal_pd: bit(value, 6),
            chp_pd: bit(value, 5),
            fs_pd: bit(value, 4),
            adc_pd: bit(value, 3),
            vga_pd: bit(value, 2),
            rxbpf_pd: bit(value, 1),
            lnamix_pd: bit(value, 0),
        }
    }

    /// Encodes the register into its word.
    #[verifier::spinoff_prover]
    #[verifier::rlimit(100)]
    pub fn encode(&self) -> (r: u16)
        ensures
            r == self.spec_encode(),
    {
        proof {
            reveal(AndOverrideRegister::spec_encode);
        }
        flag_bits(self.vga_reset_n, 15) | flag_bits(self.bias_pd, 14)
            | flag_bits(self.balun_ctrl, 13) | flag_bits(self.rxtx, 12) | flag_bits(self.pre_pd, 11)
            | flag_bits(self.pa_n_pd, 10) | flag_bits(self.pa_p_pd, 9)
            | flag_bits(self.dac_lpf_pd, 8) | flag_bits(self.xosc16m_pd, 7)
            | flag_bits(self.rxbpf_cal_pd, 6) | flag_bits(self.chp_pd, 5) | flag_bits(self.fs_pd, 4)
            | flag_bits(self.adc_pd, 3) | flag_bits(self.vga_pd, 2) | flag_bits(self.rxbpf_pd, 1)
            | flag_bits(self.lnamix_pd, 0)
    }

    /// Decodes the register from its word.
    pub fn decode(value: u16) -> (r: AndOverrideRegister)
        ensures
            r == AndOverrideRegister::spec_decode(value),
    {
        proof {
            reveal(AndOverrideRegister::spec_decode);
        }
        AndOverrideRegister {
            vga_reset_n: bit_of(value, 15),
            bias_pd: bit_of(value, 14),
            balun_ctrl: bit_of(value, 13),
            rxtx: bit_of(value, 12),
            pre_pd: bit_of(value, 11),
            pa_n_pd: bit_of(value, 10),
            pa_p_pd: bit_of(value, 9),
            dac_lpf_pd: bit_of(value, 8),
            xosc16m_pd: bit_of(value, 7),
            rxbpf_cal_pd: bit_of(value, 6),
            chp_pd: bit_of(value, 5),
            fs_pd: bit_of(value, 4),
            adc_pd: bit_of(value, 3),
            vga_pd: bit_of(value, 2),
            rxbpf_pd: bit_of(value, 1),
            lnamix_pd: bit_of(value, 0),
        }
    }
}

impl Register for AndOverrideRegister {
    open spec fn spec_value(&self) -> u16 {
        self.spec_encode()
    }

    open spec fn spec_address() -> u8 {
        0x21
    }

    open spec fn spec_from_value(value: u16) -> AndOverrideRegister {
        AndOverrideRegister::spec_decode(value)
    }

    fn register_value(&self) -> (r: u16) {
        self.encode()
    }

    fn address(&self) -> (r: u8) {
        0x21
    }

    fn fill_from_buffer(&mut self, buffer: [u8; 3]) {
        *self = AndOverrideRegister::decode(buffer_value(buffer));
    }
}

impl From<u16> for AndOverrideRegister {
    fn from(value: u16) -> (r: AndOverrideRegister) {
        AndOverrideRegister::decode(value)
    }
}

impl vstd::std_specs::convert::FromSpecImpl<u16> for AndOverrideRegister {
    open spec fn obeys_from_spec() -> bool {
        true
    }

    open spec fn from_spec(value: u16) -> AndOverrideRegister {
        AndOverrideRegister::spec_decode(value)
    }
}

/// Decoding the word of a register whose fields are in range gives the
/// register back.
pub proof fn lemma_and_override_register_round_trip(r: AndOverrideRegister)
    requires
        r.valid(),
    ensures
        AndOverrideRegister::spec_decode(r.spec_encode()) == r,
{
    let vga_reset_n = r.vga_reset_n;
    let bias_pd = r.bias_pd;
    let balun_ctrl = r.balun_ctrl;
    let rxtx = r.rxtx;
    let pre_pd = r.pre_pd;
    let pa_n_pd = r.pa_n_pd;
    let pa_p_pd = r.pa_p_pd;
    let dac_lpf_pd = r.dac_lpf_pd;
    let xosc16m_pd = r.xosc16m_pd;
    let rxbpf_cal_pd = r.rxbpf_cal_pd;
    let chp_pd = r.chp_pd;
    let fs_pd = r.fs_pd;
    let adc_pd = r.adc_pd;
    let vga_pd = r.vga_pd;
    let rxbpf_pd = r.rxbpf_pd;
    let lnamix_pd = r.lnamix_pd;
    let value = r.spec_encode();
    assert(value == flag(vga_reset_n, 15) | flag(bias_pd, 14) | flag(balun_ctrl, 13) | flag(rxtx, 12)
        | flag(pre_pd, 11) | flag(pa_n_pd, 10) | flag(pa_p_pd, 9) | flag(dac_lpf_pd, 8)
        | flag(xosc16m_pd, 7) | flag(rxbpf_cal_pd, 6) | flag(chp_pd, 5) | flag(fs_pd, 4)
        | flag(adc_pd, 3) | flag(vga_pd, 2) | flag(rxbpf_pd, 1) | flag(lnamix_pd, 0)) by {
        reveal(AndOverrideRegister::spec_encode);
    }
    assert(bit(value, 15) == vga_reset_n
        && bit(value, 14) == bias_pd
        && bit(value, 13) == balun_ctrl
        && bit(value, 12) == rxtx
        && bit(value, 11) == pre_pd
        && bit(value, 10) == pa_n_pd
        && bit(value, 9) == pa_p_pd
        && bit(value, 8) == dac_lpf_pd
        && bit(value, 7) == xosc16m_pd
        && bit(value, 6) == rxbpf_cal_pd
        && bit(value, 5) == chp_pd
        && bit(value, 4) == fs_pd
        && bit(value, 3) == adc_pd
        && bit(value, 2) == vga_pd
        && bit(value, 1) == rxbpf_pd
        && bit(value, 0) == lnamix_pd) by (bit_vector)
        requires
            value == flag(vga_reset_n, 15) | flag(bias_pd, 14) | flag(balun_ctrl, 13) | flag(rxtx, 12)
                | flag(pre_pd, 11) | flag(pa_n_pd, 10) | flag(pa_p_pd, 9) | flag(dac_lpf_pd, 8)
                | flag(xosc16m_pd, 7) | flag(rxbpf_cal_pd, 6) | flag(chp_pd, 5) | flag(fs_pd, 4)
                | flag(adc_pd, 3) | flag(vga_pd, 2) | flag(rxbpf_pd, 1) | flag(lnamix_pd, 0),
    ;
    reveal(AndOverrideRegister::spec_decode);
}

/// Builds a [`AndOverrideRegister`], starting from the register's reset value.
pub struct AndOverrideRegisterBuilder {
    value: AndOverrideRegister,
}

impl View for AndOverrideRegisterBuilder {
    type V = AndOverrideRegister;

    closed spec fn view(&self) -> AndOverrideRegister {
        self.value
    }
}

impl Default for AndOverrideRegisterBuilder {
    fn default() -> (r: AndOverrideRegisterBuilder)
        ensures
            r@ == AndOverrideRegister::spec_default(),
    {
        AndOverrideRegisterBuilder { value: AndOverrideRegister {
            vga_reset_n: true,
            bias_pd: true,
            balun_ctrl: true,
            rxtx: true,
            pre_pd: true,
            pa_n_pd: true,
            pa_p_pd: true,
            dac_lpf_pd: true,
            xosc16m_pd: true,
            rxbpf_cal_pd: true,
            chp_pd: true,
            fs_pd: true,
            adc_pd: true,
            vga_pd: true,
            rxbpf_pd: true,
            lnamix_pd: true,
        } }
    }
}

impl AndOverrideRegisterBuilder {
    /// Sets `vga_reset_n`.
    pub fn vga_reset_n(self, value: bool) -> (r: AndOverrideRegisterBuilder)
        ensures
            r@ == (AndOverrideRegister { vga_reset_n: value, ..self@ }),
    {
        let mut r = self;
        r.value.vga_reset_n = value;
        r
    }

    /// Sets `bias_pd`.
    pub fn bias_pd(self, value: bool) -> (r: AndOverrideRegisterBuilder)
        ensures
            r@ == (AndOverrideRegister { bias_pd: value, ..self@ }),
    {
        let mut r = self;
        r.value.bias_pd = value;
        r
    }

    /// Sets `balun_ctrl`.
    pub fn balun_ctrl(self, value: bool) -> (r: AndOverrideRegisterBuilder)
        ensures
            r@ == (AndOverrideRegister { balun_ctrl: value, ..self@ }),
    {
        let mut r = self;
        r.value.balun_ctrl = value;
        r
    }

    /// Sets `rxtx`.
    pub fn rxtx(self, value: bool) -> (r: AndOverrideRegisterBuilder)
        ensures
            r@ == (AndOverrideRegister { rxtx: value, ..self@ }),
    {
        let mut r = self;
        r.value.rxtx = value;
        r
    }

    /// Sets `pre_pd`.
    pub fn pre_pd(self, value: bool) -> (r: AndOverrideRegisterBuilder)
        ensures
            r@ == (AndOverrideRegister { pre_pd: value, ..self@ }),
    {
        let mut r = self;
        r.value.pre_pd = value;
        r
    }

    /// Sets `pa_n_pd`.
    pub fn pa_n_pd(self, value: bool) -> (r: AndOverrideRegisterBuilder)
        ensures
            r@ == (AndOverrideRegister { pa_n_pd: value, ..self@ }),
    {
        let mut r = self;
        r.value.pa_n_pd = value;
        r
    }

    /// Sets `pa_p_pd`.
    pub fn pa_p_pd(self, value: bool) -> (r: AndOverrideRegisterBuilder)
        ensures
            r@ == (AndOverrideRegister { pa_p_pd: value, ..self@ }),
    {
        let mut r = self;
        r.value.pa_p_pd = value;
        r
    }

    /// Sets `dac_lpf_pd`.
    pub fn dac_lpf_pd(self, value: bool) -> (r: AndOverrideRegisterBuilder)
        ensures
            r@ == (AndOverrideRegister { dac_lpf_pd: value, ..self@ }),
    {
        let mut r = self;
        r.value.dac_lpf_pd = value;
        r
    }

    /// Sets `xosc16m_pd`.
    pub fn xosc16m_pd(self, value: bool) -> (r: AndOverrideRegisterBuilder)
        ensures
            r@ == (AndOverrideRegister { xosc16m_pd: value, ..self@ }),
    {
        let mut r = self;
        r.value.xosc16m_pd = value;
        r
    }

    /// Sets `rxbpf_cal_pd`.
    pub fn rxbpf_cal_pd(self, value: bool) -> (r: AndOverrideRegisterBuilder)
        ensures
            r@ == (AndOverrideRegister { rxbpf_cal_pd: value, ..self@ }),
    {
        let mut r = self;
        r.value.rxbpf_cal_pd = value;
        r
    }

    /// Sets `chp_pd`.
    pub fn chp_pd(self, value: bool) -> (r: AndOverrideRegisterBuilder)
        ensures
            r@ == (AndOverrideRegister { chp_pd: value, ..self@ }),
    {
        let mut r = self;
        r.value.chp_pd = value;
        r
    }

    /// Sets `fs_pd`.
    pub fn fs_pd(self, value: bool) -> (r: AndOverrideRegisterBuilder)
        ensures
            r@ == (AndOverrideRegister { fs_pd: value, ..self@ }),
    {
        let mut r = self;
        r.value.fs_pd = value;
        r
    }

    /// Sets `adc_pd`.
    pub fn adc_pd(self, value: bool) -> (r: AndOverrideRegisterBuilder)
        ensures
            r@ == (AndOverrideRegister { adc_pd: value, ..self@ }),
    {
        let mut r = self;
        r.value.adc_pd = value;
        r
    }

    /// Sets `vga_pd`.
    pub fn vga_pd(self, value: bool) -> (r: AndOverrideRegisterBuilder)
        ensures
            r@ == (AndOverrideRegister { vga_pd: value, ..self@ }),
    {
        let mut r = self;
        r.value.vga_pd = value;
        r
    }

    /// Sets `rxbpf_pd`.
    pub fn rxbpf_pd(self, value: bool) -> (r: AndOverrideRegisterBuilder)
        ensures
            r@ == (AndOverrideRegister { rxbpf_pd: value, ..self@ }),
    {
        let mut r = self;
        r.value.rxbpf_pd = value;
        r
    }

    /// Sets `lnamix_pd`.
    pub fn lnamix_pd(self, value: bool) -> (r: AndOverrideRegisterBuilder)
        ensures
            r@ == (AndOverrideRegister { lnamix_pd: value, ..self@ }),
    {
        let mut r = self;
        r.value.lnamix_pd = value;
        r
    }

    /// Checks every field against its legal range, in register order.
    pub fn validate(&self) -> (r: Result<(), FieldError>)
        ensures
            r == match self@.violation() {
                Some(e) => Err(e),
                None => Ok(()),
            },
    {
        Ok(())
    }

    /// The register, if every field is in its legal range; otherwise the
    /// first field out of range.
    pub fn build(&self) -> (r: Result<AndOverrideRegister, FieldError>)
        ensures
            r == match self@.violation() {
                Some(e) => Err(e),
                None => Ok(self@),
            },
    {
        match self.validate() {
            Ok(()) => Ok(self.value),
            Err(e) => Err(e),
        }
    }
}

/// Manual signal OR override register: a set bit forces its signal high.
#[derive(Clone, Copy, Debug, PartialEq, Eq, Structural)]
pub struct OrOverrideRegister {
    /// Reset of the VGA peak detectors. Bit 15.
    pub vga_reset_n: bool,
    /// Global bias power down. Bit 14.
    pub bias_pd: bool,
    /// The power amplifier receives its external biasing. Bit 13.
    pub balun_ctrl: bool,
    /// Use the power amplifier buffers instead of the LO buffers. Bit 12.
    pub rxtx: bool,
    /// Power down of the prescaler. Bit 11.
    pub pre_pd: bool,
    /// Power down of the power amplifier, negative path. Bit 10.
    pub pa_n_pd: bool,
    /// Power down of the power amplifier, positive path. Bit 9.
    pub pa_p_pd: bool,
    /// Power down of the TX DACs. Bit 8.
    pub dac_lpf_pd: bool,
    /// Power down of the crystal oscillator. Bit 7.
    pub xosc16m_pd: bool,
    /// Power down of the RX bandpass filter calibration oscillator. Bit 6.
    pub rxbpf_cal_pd: bool,
    /// Power down of the charge pump. Bit 5.
    pub chp_pd: bool,
    /// Power down of the VCO, I/Q generator and LO buffers. Bit 4.
    pub fs_pd: bool,
    /// Power down of the ADCs. Bit 3.
    pub adc_pd: bool,
    /// Power down of the VGA. Bit 2.
    pub vga_pd: bool,
    /// Power down of the RX bandpass filter. Bit 1.
    pub rxbpf_pd: bool,
    /// Power down of the LNA, down-conversion mixers and front end bias. Bit 0.
    pub lnamix_pd: bool,
}

impl OrOverrideRegister {
    /// The register's reset value.
    pub open spec fn spec_default() -> OrOverrideRegister {
        OrOverrideRegister {
            vga_reset_n: false,
            bias_pd: false,
            balun_ctrl: false,
            rxtx: false,
            pre_pd: false,
            pa_n_pd: false,
            pa_p_pd: false,
            dac_lpf_pd: false,
            xosc16m_pd: false,
            rxbpf_cal_pd: false,
            chp_pd: false,
            fs_pd: false,
            adc_pd: false,
            vga_pd: false,
            rxbpf_pd: false,
            lnamix_pd: false,
        }
    }

    /// Every field is in its legal range.
    pub open spec fn valid(self) -> bool {
        true
    }

    /// The first field, in register order, that is out of its legal range.
    pub open spec fn violation(self) -> Option<FieldError> {
        None
    }

    /// The register's word.
    #[verifier::opaque]
    pub open spec fn spec_encode(self) -> u16 {
        flag(self.vga_reset_n, 15) | flag(self.bias_pd, 14) | flag(self.balun_ctrl, 13)
            | flag(self.rxtx, 12) | flag(self.pre_pd, 11) | flag(self.pa_n_pd, 10)
            | flag(self.pa_p_pd, 9) | flag(self.dac_lpf_pd, 8) | flag(self.xosc16m_pd, 7)
            | flag(self.rxbpf_cal_pd, 6) | flag(self.chp_pd, 5) | flag(self.fs_pd, 4)
            | flag(self.adc_pd, 3) | flag(self.vga_pd, 2) | flag(self.rxbpf_pd, 1)
            | flag(self.lnamix_pd, 0)
    }

    /// The register that the word `value` holds.
    #[verifier::opaque]
    pub open spec fn spec_decode(value: u16) -> OrOverrideRegister {
        OrOverrideRegister {
            vga_reset_n: bit(value, 15),
            bias_pd: bit(value, 14),
            balun_ctrl: bit(value, 13),
            rxtx: bit(value, 12),
            pre_pd: bit(value, 11),
            pa_n_pd: bit(value, 10),
            pa_p_pd: bit(value, 9),
            dac_lpf_pd: bit(value, 8),
            xosc16m_pd: bit(value, 7),
            rxbpf_cal_pd: bit(value, 6),
            chp_pd: bit(value, 5),
            fs_pd: bit(value, 4),
            adc_pd: bit(value, 3),
            vga_pd: bit(value, 2),
            rxbpf_pd: bit(value, 1),
            lnamix_pd: bit(value, 0),
        }
    }

    /// Encodes the register into its word.
    #[verifier::spinoff_prover]
    #[verifier::rlimit(100)]
    pub fn encode(&self) -> (r: u16)
        ensures
            r == self.spec_encode(),
    {
        proof {
            reveal(OrOverrideRegister::spec_encode);
        }
        flag_bits(self.vga_reset_n, 15) | flag_bits(self.bias_pd, 14)
            | flag_bits(self.balun_ctrl, 13) | flag_bits(self.rxtx, 12) | flag_bits(self.pre_pd, 11)
            | flag_bits(self.pa_n_pd, 10) | flag_bits(self.pa_p_pd, 9)
            | flag_bits(self.dac_lpf_pd, 8) | flag_bits(self.xosc16m_pd, 7)
            | flag_bits(self.rxbpf_cal_pd, 6) | flag_bits(self.chp_pd, 5) | flag_bits(self.fs_pd, 4)
            | flag_bits(self.adc_pd, 3) | flag_bits(self.vga_pd, 2) | flag_bits(self.rxbpf_pd, 1)
            | flag_bits(self.lnamix_pd, 0)
    }

    /// Decodes the register from its word.
    pub fn decode(value: u16) -> (r: OrOverrideRegister)
        ensures
            r == OrOverrideRegister::spec_decode(value),
    {
        proof {
            reveal(OrOverrideRegister::spec_decode);
        }
        OrOverrideRegister {
            vga_reset_n: bit_of(value, 15),
            bias_pd: bit_of(value, 14),
            balun_ctrl: bit_of(value, 13),
            rxtx: bit_of(value, 12),
            pre_pd: bit_of(value, 11),
            pa_n_pd: bit_of(value, 10),
            pa_p_pd: bit_of(value, 9),
            dac_lpf_pd: bit_of(value, 8),
            xosc16m_pd: bit_of(value, 7),
            rxbpf_cal_pd: bit_of(value, 6),
            chp_pd: bit_of(value, 5),
            fs_pd: bit_of(value, 4),
            adc_pd: bit_of(value, 3),
            vga_pd: bit_of(value, 2),
            rxbpf_pd: bit_of(value, 1),
            lnamix_pd: bit_of(value, 0),
        }
    }
}

impl Register for OrOverrideRegister {
    open spec fn spec_value(&self) -> u16 {
        self.spec_encode()
    }

    open spec fn spec_address() -> u8 {
        0x22
    }

    open spec fn spec_from_value(value: u16) -> OrOverrideRegister {
        OrOverrideRegister::spec_decode(value)
    }

    fn register_value(&self) -> (r: u16) {
        self.encode()
    }

    fn address(&self) -> (r: u8) {
        0x22
    }

    fn fill_from_buffer(&mut self, buffer: [u8; 3]) {
        *self = OrOverrideRegister::decode(buffer_value(buffer));
    }
}

impl From<u16> for OrOverrideRegister {
    fn from(value: u16) -> (r: OrOverrideRegister) {
        OrOverrideRegister::decode(value)
    }
}

impl vstd::std_specs::convert::FromSpecImpl<u16> for OrOverrideRegister {
    open spec fn obeys_from_spec() -> bool {
        true
    }

    open spec fn from_spec(value: u16) -> OrOverrideRegister {
        OrOverrideRegister::spec_decode(value)
    }
}

/// Decoding the word of a register whose fields are in range gives the
/// register back.
pub proof fn lemma_or_override_register_round_trip(r: OrOverrideRegister)
    requires
        r.valid(),
    ensures
        OrOverrideRegister::spec_decode(r.spec_encode()) == r,
{
    let vga_reset_n = r.vga_reset_n;
    let bias_pd = r.bias_pd;
    let balun_ctrl = r.balun_ctrl;
    let rxtx = r.rxtx;
    let pre_pd = r.pre_pd;
    let pa_n_pd = r.pa_n_pd;
    let pa_p_pd = r.pa_p_pd;
    let dac_lpf_pd = r.dac_lpf_pd;
    let xosc16m_pd = r.xosc16m_pd;
    let rxbpf_cal_pd = r.rxbpf_cal_pd;
    let chp_pd = r.chp_pd;
    let fs_pd = r.fs_pd;
    let adc_pd = r.adc_pd;
    let vga_pd = r.vga_pd;
    let rxbpf_pd = r.rxbpf_pd;
    let lnamix_pd = r.lnamix_pd;
    let value = r.spec_encode();
    assert(value == flag(vga_reset_n, 15) | flag(bias_pd, 14) | flag(balun_ctrl, 13) | flag(rxtx, 12)
        | flag(pre_pd, 11) | flag(pa_n_pd, 10) | flag(pa_p_pd, 9) | flag(dac_lpf_pd, 8)
        | flag(xosc16m_pd, 7) | flag(rxbpf_cal_pd, 6) | flag(chp_pd, 5) | flag(fs_pd, 4)
        | flag(adc_pd, 3) | flag(vga_pd, 2) | flag(rxbpf_pd, 1) | flag(lnamix_pd, 0)) by {
        reveal(OrOverrideRegister::spec_encode);
    }
    assert(bit(value, 15) == vga_reset_n
        && bit(value, 14) == bias_pd
        && bit(value, 13) == balun_ctrl
        && bit(value, 12) == rxtx
        && bit(value, 11) == pre_pd
        && bit(value, 10) == pa_n_pd
        && bit(value, 9) == pa_p_pd
        && bit(value, 8) == dac_lpf_pd
        && bit(value, 7) == xosc16m_pd
        && bit(value, 6) == rxbpf_cal_pd
        && bit(value, 5) == chp_pd
        && bit(value, 4) == fs_pd
        && bit(value, 3) == adc_pd
        && bit(value, 2) == vga_pd
        && bit(value, 1) == rxbpf_pd
        && bit(value, 0) == lnamix_pd) by (bit_vector)
        requires
            value == flag(vga_reset_n, 15) | flag(bias_pd, 14) | flag(balun_ctrl, 13) | flag(rxtx, 12)
                | flag(pre_pd, 11) | flag(pa_n_pd, 10) | flag(pa_p_pd, 9) | flag(dac_lpf_pd, 8)
                | flag(xosc16m_pd, 7) | flag(rxbpf_cal_pd, 6) | flag(chp_pd, 5) | flag(fs_pd, 4)
                | flag(adc_pd, 3) | flag(vga_pd, 2) | flag(rxbpf_pd, 1) | flag(lnamix_pd, 0),
    ;
    reveal(OrOverrideRegister::spec_decode);
}

/// Builds a [`OrOverrideRegister`], starting from the register's reset value.
pub struct OrOverrideRegisterBuilder {
    value: OrOverrideRegister,
}

impl View for OrOverrideRegisterBuilder {
    type V = OrOverrideRegister;

    closed spec fn view(&self) -> OrOverrideRegister {
        self.value
    }
}

impl Default for OrOverrideRegisterBuilder {
    fn default() -> (r: OrOverrideRegisterBuilder)
        ensures
            r@ == OrOverrideRegister::spec_default(),
    {
        OrOverrideRegisterBuilder { value: OrOverrideRegister {
            vga_reset_n: false,
            bias_pd: false,
            balun_ctrl: false,
            rxtx: false,
            pre_pd: false,
            pa_n_pd: false,
            pa_p_pd: false,
            dac_lpf_pd: false,
            xosc16m_pd: false,
            rxbpf_cal_pd: false,
            chp_pd: false,
            fs_pd: false,
            adc_pd: false,
            vga_pd: false,
            rxbpf_pd: false,
            lnamix_pd: false,
        } }
    }
}

impl OrOverrideRegisterBuilder {
    /// Sets `vga_reset_n`.
    pub fn vga_reset_n(self, value: bool) -> (r: OrOverrideRegisterBuilder)
        ensures
            r@ == (OrOverrideRegister { vga_reset_n: value, ..self@ }),
    {
        let mut r = self;
        r.value.vga_reset_n = value;
        r
    }

    /// Sets `bias_pd`.
    pub fn bias_pd(self, value: bool) -> (r: OrOverrideRegisterBuilder)
        ensures
            r@ == (OrOverrideRegister { bias_pd: value, ..self@ }),
    {
        let mut r = self;
        r.value.bias_pd = value;
        r
    }

    /// Sets `balun_ctrl`.
    pub fn balun_ctrl(self, value: bool) -> (r: OrOverrideRegisterBuilder)
        ensures
            r@ == (OrOverrideRegister { balun_ctrl: value, ..self@ }),
    {
        let mut r = self;
        r.value.balun_ctrl = value;
        r
    }

    /// Sets `rxtx`.
    pub fn rxtx(self, value: bool) -> (r: OrOverrideRegisterBuilder)
        ensures
            r@ == (OrOverrideRegister { rxtx: value, ..self@ }),
    {
        let mut r = self;
        r.value.rxtx = value;
        r
    }

    /// Sets `pre_pd`.
    pub fn pre_pd(self, value: bool) -> (r: OrOverrideRegisterBuilder)
        ensures
            r@ == (OrOverrideRegister { pre_pd: value, ..self@ }),
    {
        let mut r = self;
        r.value.pre_pd = value;
        r
    }

    /// Sets `pa_n_pd`.
    pub fn pa_n_pd(self, value: bool) -> (r: OrOverrideRegisterBuilder)
        ensures
            r@ == (OrOverrideRegister { pa_n_pd: value, ..self@ }),
    {
        let mut r = self;
        r.value.pa_n_pd = value;
        r
    }

    /// Sets `pa_p_pd`.
    pub fn pa_p_pd(self, value: bool) -> (r: OrOverrideRegisterBuilder)
        ensures
            r@ == (OrOverrideRegister { pa_p_pd: value, ..self@ }),
    {
        let mut r = self;
        r.value.pa_p_pd = value;
        r
    }

    /// Sets `dac_lpf_pd`.
    pub fn dac_lpf_pd(self, value: bool) -> (r: OrOverrideRegisterBuilder)
        ensures
            r@ == (OrOverrideRegister { dac_lpf_pd: value, ..self@ }),
    {
        let mut r = self;
        r.value.dac_lpf_pd = value;
        r
    }

    /// Sets `xosc16m_pd`.
    pub fn xosc16m_pd(self, value: bool) -> (r: OrOverrideRegisterBuilder)
        ensures
            r@ == (OrOverrideRegister { xosc16m_pd: value, ..self@ }),
    {
        let mut r = self;
        r.value.xosc16m_pd = value;
        r
    }

    /// Sets `rxbpf_cal_pd`.
    pub fn rxbpf_cal_pd(self, value: bool) -> (r: OrOverrideRegisterBuilder)
        ensures
            r@ == (OrOverrideRegister { rxbpf_cal_pd: value, ..self@ }),
    {
        let mut r = self;
        r.value.rxbpf_cal_pd = value;
        r
    }

    /// Sets `chp_pd`.
    pub fn chp_pd(self, value: bool) -> (r: OrOverrideRegisterBuilder)
        ensures
            r@ == (OrOverrideRegister { chp_pd: value, ..self@ }),
    {
        let mut r = self;
        r.value.chp_pd = value;
        r
    }

    /// Sets `fs_pd`.
    pub fn fs_pd(self, value: bool) -> (r: OrOverrideRegisterBuilder)
        ensures
            r@ == (OrOverrideRegister { fs_pd: value, ..self@ }),
    {
        let mut r = self;
        r.value.fs_pd = value;
        r
    }

    /// Sets `adc_pd`.
    pub fn adc_pd(self, value: bool) -> (r: OrOverrideRegisterBuilder)
        ensures
            r@ == (OrOverrideRegister { adc_pd: value, ..self@ }),
    {
        let mut r = self;
        r.value.adc_pd = value;
        r
    }

    /// Sets `vga_pd`.
    pub fn vga_pd(self, value: bool) -> (r: OrOverrideRegisterBuilder)
        ensures
            r@ == (OrOverrideRegister { vga_pd: value, ..self@ }),
    {
        let mut r = self;
        r.value.vga_pd = value;
        r
    }

    /// Sets `rxbpf_pd`.
    pub fn rxbpf_pd(self, value: bool) -> (r: OrOverrideRegisterBuilder)
        ensures
            r@ == (OrOverrideRegister { rxbpf_pd: value, ..self@ }),
    {
        let mut r = self;
        r.value.rxbpf_pd = value;
        r
    }

    /// Sets `lnamix_pd`.
    pub fn lnamix_pd(self, value: bool) -> (r: OrOverrideRegisterBuilder)
        ensures
            r@ == (OrOverrideRegister { lnamix_pd: value, ..self@ }),
    {
        let mut r = self;
        r.value.lnamix_pd = value;
        r
    }

    /// Checks every field against its legal range, in register order.
    pub fn validate(&self) -> (r: Result<(), FieldError>)
        ensures
            r == match self@.violation() {
                Some(e) => Err(e),
                None => Ok(()),
            },
    {
        Ok(())
    }

    /// The register, if every field is in its legal range; otherwise the
    /// first field out of range.
    pub fn build(&self) -> (r: Result<OrOverrideRegister, FieldError>)
        ensures
            r == match self@.violation() {
                Some(e) => Err(e),
                None => Ok(self@),
            },
    {
        match self.validate() {
            Ok(()) => Ok(self.value),
            Err(e) => Err(e),
        }
    }
}

} // verus!
