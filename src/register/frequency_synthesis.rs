//! The frequency synthesizer control and status register (FSCTRL).

use vstd::prelude::*;

use super::{Register, bit, bit_of, buffer_value, field, field_of, flag, flag_bits};
use crate::error::FieldError;

verus! {

/// Frequency synthesizer control and status register.
#[derive(Clone, Copy, Debug, PartialEq, Eq, Structural)]
pub struct FrequencySynthesizerRegister {
    /// Reference clock periods with successful synchronisation needed to indicate lock: 64 << value. Bits 15:14.
    pub lock_threshold: u8,
    /// Calibration was performed since the synthesizer was last turned on; read only. Bit 13.
    pub cal_done: bool,
    /// Calibration is in progress; read only. Bit 12.
    pub cal_running: bool,
    /// Synchronisation window pulse width is 4 prescaler clock periods instead of 2. Bit 11.
    pub lock_length: bool,
    /// The frequency synthesizer is in lock; read only. Bit 10.
    pub lock_status: bool,
    /// Frequency control word: the carrier is 2048 + value MHz. Bits 9:0.
    pub frequency: u16,
}

impl FrequencySynthesizerRegister {
    /// The register's reset value.
    pub open spec fn spec_default() -> FrequencySynthesizerRegister {
        FrequencySynthesizerRegister {
            lock_threshold: 1,
            cal_done: false,
            cal_running: false,
            lock_length: false,
            lock_status: false,
            frequency: 357,
        }
    }

    /// Every field is in its legal range.
    pub open spec fn valid(self) -> bool {
        self.lock_threshold <= 3
            && self.frequency <= 1023
    }

    /// The first field, in register order, that is out of its legal range.
    pub open spec fn violation(self) -> Option<FieldError> {
        if !(self.lock_threshold <= 3) {
            Some(FieldError { field: "LOCK_THR", legal: "0..=3" })
        } else if !(self.frequency <= 1023) {
            Some(FieldError { field: "FREQ", legal: "0..=1023" })
        } else {
            None
        }
    }

    /// The register's word.
    #[verifier::opaque]
    pub open spec fn spec_encode(self) -> u16 {
        (self.lock_threshold as u16) << 14 | flag(self.lock_length, 11) | self.frequency
    }

    /// The register that the word `value` holds.
    #[verifier::opaque]
    pub open spec fn spec_decode(value: u16) -> FrequencySynthesizerRegister {
        FrequencySynthesizerRegister {
            lock_threshold: field(value, 14, 0x3) as u8,
            cal_done: bit(value, 13),
            cal_running: bit(value, 12),
            lock_length: bit(value, 11),
            lock_status: bit(value, 10),
            frequency: field(value, 0, 0x3FF),
        }
    }

    /// Encodes the register into its word.
    pub fn encode(&self) -> (r: u16)
        ensures
            r == self.spec_encode(),
    {
        proof {
            reveal(FrequencySynthesizerRegister::spec_encode);
        }
        (self.lock_threshold as u16) << 14 | flag_bits(self.lock_length, 11) | self.frequency
    }

    /// Decodes the register from its word.
    pub fn decode(value: u16) -> (r: FrequencySynthesizerRegister)
        ensures
            r == FrequencySynthesizerRegister::spec_decode(value),
    {
        proof {
            reveal(FrequencySynthesizerRegister::spec_decode);
        }
        FrequencySynthesizerRegister {
            lock_threshold: field_of(value, 14, 0x3) as u8,
            cal_done: bit_of(value, 13),
            cal_running: bit_of(value, 12),
            lock_length: bit_of(value, 11),
            lock_status: bit_of(value, 10),
            frequency: field_of(value, 0, 0x3FF),
        }
    }
}

impl Register for FrequencySynthesizerRegister {
    open spec fn spec_value(&self) -> u16 {
        self.spec_encode()
    }

    open spec fn spec_address() -> u8 {
        0x18
    }

    open spec fn spec_from_value(value: u16) -> FrequencySynthesizerRegister {
        FrequencySynthesizerRegister::spec_decode(value)
    }

    fn register_value(&self) -> (r: u16) {
        self.encode()
    }

    fn address(&self) -> (r: u8) {
        0x18
    }

    fn fill_from_buffer(&mut self, buffer: [u8; 3]) {
        *self = FrequencySynthesizerRegister::decode(buffer_value(buffer));
    }
}

impl From<u16> for FrequencySynthesizerRegister {
    fn from(value: u16) -> (r: FrequencySynthesizerRegister) {
        FrequencySynthesizerRegister::decode(value)
    }
}

impl vstd::std_specs::convert::FromSpecImpl<u16> for FrequencySynthesizerRegister {
    open spec fn obeys_from_spec() -> bool {
        true
    }

    open spec fn from_spec(value: u16) -> FrequencySynthesizerRegister {
        FrequencySynthesizerRegister::spec_decode(value)
    }
}

/// Decoding the word of a register whose fields are in range gives the
/// register back, except for the read-only fields, which writing leaves
/// out and which therefore read as zero.
pub proof fn lemma_frequency_synthesizer_register_round_trip(r: FrequencySynthesizerRegister)
    requires
        r.valid(),
    ensures
        FrequencySynthesizerRegister::spec_decode(r.spec_encode()) == (FrequencySynthesizerRegister { cal_done: false, cal_running: false, lock_status: false, ..r }),
{
    let lock_threshold = r.lock_threshold;
    let lock_length = r.lock_length;
    let frequency = r.frequency;
    let value = r.spec_encode();
    assert(value == (lock_threshold as u16) << 14 | flag(lock_length, 11) | frequency) by {
        reveal(FrequencySynthesizerRegister::spec_encode);
    }
    assert(field(value, 14, 0x3) as u8 == lock_threshold
        && bit(value, 13) == false
        && bit(value, 12) == false
        && bit(value, 11) == lock_length
        && bit(value, 10) == false
        && field(value, 0, 0x3FF) == frequency) by (bit_vector)
        requires
            value == (lock_threshold as u16) << 14 | flag(lock_length, 11) | frequency,
            lock_threshold <= 3,
            frequency <= 1023,
    ;
    reveal(FrequencySynthesizerRegister::spec_decode);
}

/// A register is accepted exactly when every field is in its legal range,
/// and one whose only field out of range is `f` is refused naming `f`.
pub proof fn lemma_frequency_synthesizer_register_validation(r: FrequencySynthesizerRegister)
    ensures
        r.violation() is None <==> r.valid(),
        !(r.lock_threshold <= 3) && r.frequency <= 1023 ==> r.violation() == Some(
            FieldError { field: "LOCK_THR", legal: "0..=3" },
        ),
        !(r.frequency <= 1023) && r.lock_threshold <= 3 ==> r.violation() == Some(
            FieldError { field: "FREQ", legal: "0..=1023" },
        ),
{
}

/// Builds a [`FrequencySynthesizerRegister`], starting from the register's reset value.
pub struct FrequencySynthesizerRegisterBuilder {
    value: FrequencySynthesizerRegister,
}

impl View for FrequencySynthesizerRegisterBuilder {
    type V = FrequencySynthesizerRegister;

    closed spec fn view(&self) -> FrequencySynthesizerRegister {
        self.value
    }
}

impl Default for FrequencySynthesizerRegisterBuilder {
    fn default() -> (r: FrequencySynthesizerRegisterBuilder)
        ensures
            r@ == FrequencySynthesizerRegister::spec_default(),
    {
        FrequencySynthesizerRegisterBuilder { value: FrequencySynthesizerRegister {
            lock_threshold: 1,
            cal_done: false,
            cal_running: false,
            lock_length: false,
            lock_status: false,
            frequency: 357,
        } }
    }
}

impl FrequencySynthesizerRegisterBuilder {
    /// Sets `lock_threshold`.
    pub fn lock_threshold(self, value: u8) -> (r: FrequencySynthesizerRegisterBuilder)
        ensures
            r@ == (FrequencySynthesizerRegister { lock_threshold: value, ..self@ }),
    {
        let mut r = self;
        r.value.lock_threshold = value;
        r
    }

    /// Sets `cal_done`.
    pub fn cal_done(self, value: bool) -> (r: FrequencySynthesizerRegisterBuilder)
        ensures
            r@ == (FrequencySynthesizerRegister { cal_done: value, ..self@ }),
    {
        let mut r = self;
        r.value.cal_done = value;
        r
    }

    /// Sets `cal_running`.
    pub fn cal_running(self, value: bool) -> (r: FrequencySynthesizerRegisterBuilder)
        ensures
            r@ == (FrequencySynthesizerRegister { cal_running: value, ..self@ }),
    {
        let mut r = self;
        r.value.cal_running = value;
        r
    }

    /// Sets `lock_length`.
    pub fn lock_length(self, value: bool) -> (r: FrequencySynthesizerRegisterBuilder)
        ensures
            r@ == (FrequencySynthesizerRegister { lock_length: value, ..self@ }),
    {
        let mut r = self;
        r.value.lock_length = value;
        r
    }

    /// Sets `lock_status`.
    pub fn lock_status(self, value: bool) -> (r: FrequencySynthesizerRegisterBuilder)
        ensures
            r@ == (FrequencySynthesizerRegister { lock_status: value, ..self@ }),
    {
        let mut r = self;
        r.value.lock_status = value;
        r
    }

    /// Sets `frequency`.
    pub fn frequency(self, value: u16) -> (r: FrequencySynthesizerRegisterBuilder)
        ensures
            r@ == (FrequencySynthesizerRegister { frequency: value, ..self@ }),
    {
        let mut r = self;
        r.value.frequency = value;
        r
    }

    /// Checks every field against its legal range, in register order.
    pub fn validate(&self) -> (r: Result<(), FieldError>)
        ensures
            r == match self@.violation() {
                Some(e) => Err(e),
                None => Ok(()),
            },
    {
        if !(self.value.lock_threshold <= 3) {
            return Err(FieldError { field: "LOCK_THR", legal: "0..=3" });
        }
        if !(self.value.frequency <= 1023) {
            return Err(FieldError { field: "FREQ", legal: "0..=1023" });
        }
        Ok(())
    }

    /// The register, if every field is in its legal range; otherwise the
    /// first field out of range.
    pub fn build(&self) -> (r: Result<FrequencySynthesizerRegister, FieldError>)
        ensures
            r == match self@.violation() {
                Some(e) => Err(e),
                None => Ok(self@),
            },
    {
        match self.validate() {
            Ok(()) => Ok(self.value),
            Err(e) => Err(e),
        }
    }
}

} // verus!
