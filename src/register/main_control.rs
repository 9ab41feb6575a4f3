//! The main control register (MAIN).

use vstd::prelude::*;

use super::{Register, bit, bit_of, buffer_value, flag, flag_bits};
use crate::error::FieldError;

verus! {

/// Main control register: active-low resets of the chip and of its modules.
#[derive(Clone, Copy, Debug, PartialEq, Eq, Structural)]
pub struct MainControlRegister {
    /// Active-low reset of the entire circuit. Bit 15.
    pub reset_n: bool,
    /// Active-low reset of the encryption module (testing only). Bit 14.
    pub enc_reset_n: bool,
    /// Active-low reset of the demodulator (testing only). Bit 13.
    pub demod_reset_n: bool,
    /// Active-low reset of the modulator (testing only). Bit 12.
    pub mod_reset_n: bool,
    /// Active-low reset of the frequency synthesizer (testing only). Bit 11.
    pub fs_reset_n: bool,
    /// Bypass the crystal oscillator and use the signal on the Q1 pin directly. Bit 0.
    pub xosc16m_bypass: bool,
}

impl MainControlRegister {
    /// The register's reset value.
    pub open spec fn spec_default() -> MainControlRegister {
        MainControlRegister {
            reset_n: true,
            enc_reset_n: true,
            demod_reset_n: true,
            mod_reset_n: true,
            fs_reset_n: true,
            xosc16m_bypass: false,
        }
    }

    /// Every field is in its legal range.
    pub open spec fn valid(self) -> bool {
        true
    }

    /// The first field, in register order, that is out of its legal range.
    pub open spec fn violation(self) -> Option<FieldError> {
        None
    }

    /// The register's word.
    #[verifier::opaque]
    pub open spec fn spec_encode(self) -> u16 {
        flag(self.reset_n, 15) | flag(self.enc_reset_n, 14) | flag(self.demod_reset_n, 13)
            | flag(self.mod_reset_n, 12) | flag(self.fs_reset_n, 11) | flag(self.xosc16m_bypass, 0)
    }

    /// The register that the word `value` holds.
    #[verifier::opaque]
    pub open spec fn spec_decode(value: u16) -> MainControlRegister {
        MainControlRegister {
            reset_n: bit(value, 15),
            enc_reset_n: bit(value, 14),
            demod_reset_n: bit(value, 13),
            mod_reset_n: bit(value, 12),
            fs_reset_n: bit(value, 11),
            xosc16m_bypass: bit(value, 0),
        }
    }

    /// Encodes the register into its word.
    pub fn encode(&self) -> (r: u16)
        ensures
            r == self.spec_encode(),
    {
        proof {
            reveal(MainControlRegister::spec_encode);
        }
        flag_bits(self.reset_n, 15) | flag_bits(self.enc_reset_n, 14)
            | flag_bits(self.demod_reset_n, 13) | flag_bits(self.mod_reset_n, 12)
            | flag_bits(self.fs_reset_n, 11) | flag_bits(self.xosc16m_bypass, 0)
    }

    /// Decodes the register from its word.
    pub fn decode(value: u16) -> (r: MainControlRegister)
        ensures
            r == MainControlRegister::spec_decode(value),
    {
        proof {
            reveal(MainControlRegister::spec_decode);
        }
        MainControlRegister {
            reset_n: bit_of(value, 15),
            enc_reset_n: bit_of(value, 14),
            demod_reset_n: bit_of(value, 13),
            mod_reset_n: bit_of(value, 12),
            fs_reset_n: bit_of(value, 11),
            xosc16m_bypass: bit_of(value, 0),
        }
    }
}

impl Register for MainControlRegister {
    open spec fn spec_value(&self) -> u16 {
        self.spec_encode()
    }

    open spec fn spec_address() -> u8 {
        0x10
    }

    open spec fn spec_from_value(value: u16) -> MainControlRegister {
        MainControlRegister::spec_decode(value)
    }

    fn register_value(&self) -> (r: u16) {
        self.encode()
    }

    fn address(&self) -> (r: u8) {
        0x10
    }

    fn fill_from_buffer(&mut self, buffer: [u8; 3]) {
        *self = MainControlRegister::decode(buffer_value(buffer));
    }
}

impl From<u16> for MainControlRegister {
    fn from(value: u16) -> (r: MainControlRegister) {
        MainControlRegister::decode(value)
    }
}

impl vstd::std_specs::convert::FromSpecImpl<u16> for MainControlRegister {
    open spec fn obeys_from_spec() -> bool {
        true
    }

    open spec fn from_spec(value: u16) -> MainControlRegister {
        MainControlRegister::spec_decode(value)
    }
}

/// Decoding the word of a register whose fields are in range gives the
/// register back.
pub proof fn lemma_main_control_register_round_trip(r: MainControlRegister)
    requires
        r.valid(),
    ensures
        MainControlRegister::spec_decode(r.spec_encode()) == r,
{
    let reset_n = r.reset_n;
    let enc_reset_n = r.enc_reset_n;
    let demod_reset_n = r.demod_reset_n;
    let mod_reset_n = r.mod_reset_n;
    let fs_reset_n = r.fs_reset_n;
    let xosc16m_bypass = r.xosc16m_bypass;
    let value = r.spec_encode();
    assert(value == flag(reset_n, 15) | flag(enc_reset_n, 14) | flag(demod_reset_n, 13) | flag(mod_reset_n, 12)
        | flag(fs_reset_n, 11) | flag(xosc16m_bypass, 0)) by {
        reveal(MainControlRegister::spec_encode);
    }
    assert(bit(value, 15) == reset_n
        && bit(value, 14) == enc_reset_n
        && bit(value, 13) == demod_reset_n
        && bit(value, 12) == mod_reset_n
        && bit(value, 11) == fs_reset_n
        && bit(value, 0) == xosc16m_bypass) by (bit_vector)
        requires
            value == flag(reset_n, 15) | flag(enc_reset_n, 14) | flag(demod_reset_n, 13)
                | flag(mod_reset_n, 12) | flag(fs_reset_n, 11) | flag(xosc16m_bypass, 0),
    ;
    reveal(MainControlRegister::spec_decode);
}

/// Builds a [`MainControlRegister`], starting from the register's reset value.
pub struct MainControlRegisterBuilder {
    value: MainControlRegister,
}

impl View for MainControlRegisterBuilder {
    type V = MainControlRegister;

    closed spec fn view(&self) -> MainControlRegister {
        self.value
    }
}

impl Default for MainControlRegisterBuilder {
    fn default() -> (r: MainControlRegisterBuilder)
        ensures
            r@ == MainControlRegister::spec_default(),
    {
        MainControlRegisterBuilder { value: MainControlRegister {
            reset_n: true,
            enc_reset_n: true,
            demod_reset_n: true,
            mod_reset_n: true,
            fs_reset_n: true,
            xosc16m_bypass: false,
        } }
    }
}

impl MainControlRegisterBuilder {
    /// Sets `reset_n`.
    pub fn reset_n(self, value: bool) -> (r: MainControlRegisterBuilder)
        ensures
            r@ == (MainControlRegister { reset_n: value, ..self@ }),
    {
        let mut r = self;
        r.value.reset_n = value;
        r
    }

    /// Sets `enc_reset_n`.
    pub fn enc_reset_n(self, value: bool) -> (r: MainControlRegisterBuilder)
        ensures
            r@ == (MainControlRegister { enc_reset_n: value, ..self@ }),
    {
        let mut r = self;
        r.value.enc_reset_n = value;
        r
    }

    /// Sets `demod_reset_n`.
    pub fn demod_reset_n(self, value: bool) -> (r: MainControlRegisterBuilder)
        ensures
            r@ == (MainControlRegister { demod_reset_n: value, ..self@ }),
    {
        let mut r = self;
        r.value.demod_reset_n = value;
        r
    }

    /// Sets `mod_reset_n`.
    pub fn mod_reset_n(self, value: bool) -> (r: MainControlRegisterBuilder)
        ensures
            r@ == (MainControlRegister { mod_reset_n: value, ..self@ }),
    {
        let mut r = self;
        r.value.mod_reset_n = value;
        r
    }

    /// Sets `fs_reset_n`.
    pub fn fs_reset_n(self, value: bool) -> (r: MainControlRegisterBuilder)
        ensures
            r@ == (MainControlRegister { fs_reset_n: value, ..self@ }),
    {
        let mut r = self;
        r.value.fs_reset_n = value;
        r
    }

    /// Sets `xosc16m_bypass`.
    pub fn xosc16m_bypass(self, value: bool) -> (r: MainControlRegisterBuilder)
        ensures
            r@ == (MainControlRegister { xosc16m_bypass: value, ..self@ }),
    {
        let mut r = self;
        r.value.xosc16m_bypass = value;
        r
    }

    /// Checks every field against its legal range, in register order.
    pub fn validate(&self) -> (r: Result<(), FieldError>)
        ensures
            r == match self@.violation() {
                Some(e) => Err(e),
                None => Ok(()),
            },
    {
        Ok(())
    }

    /// The register, if every field is in its legal range; otherwise the
    /// first field out of range.
    pub fn build(&self) -> (r: Result<MainControlRegister, FieldError>)
        ensures
            r == match self@.violation() {
                Some(e) => Err(e),
                None => Ok(self@),
            },
    {
        match self.validate() {
            Ok(()) => Ok(self.value),
            Err(e) => Err(e),
        }
    }
}

} // verus!
