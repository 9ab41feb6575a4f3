//! The transmit control register (TXCTRL).

use vstd::prelude::*;

use super::{Register, bit, bit_of, buffer_value, field, field_of, flag, flag_bits};
use crate::error::FieldError;

verus! {

/// Transmit control register. Reserved bit 5 is always written as 1.
#[derive(Clone, Copy, Debug, PartialEq, Eq, Structural)]
pub struct TransmitControlRegister {
    /// TX mixer buffer bias current. Bits 15:14.
    pub tx_mix_buffer_current: u8,
    /// Wait 12 symbol periods instead of 8 after STXON before transmitting. Bit 13.
    pub tx_turnaround: bool,
    /// Varactor array setting in the transmit mixers. Bits 12:11.
    pub tx_mix_cap_array: u8,
    /// Transmit mixers current. Bits 10:9.
    pub tx_mix_current: u8,
    /// Current programming of the power amplifier; 3 is nominal. Bits 8:6.
    pub pa_current: u8,
    /// Output power amplifier level. Bits 4:0.
    pub pa_level: u8,
}

impl TransmitControlRegister {
    /// The register's reset value.
    pub open spec fn spec_default() -> TransmitControlRegister {
        TransmitControlRegister {
            tx_mix_buffer_current: 2,
            tx_turnaround: true,
            tx_mix_cap_array: 0,
            tx_mix_current: 0,
            pa_current: 3,
            pa_level: 31,
        }
    }

    /// Every field is in its legal range.
    pub open spec fn valid(self) -> bool {
        self.tx_mix_buffer_current <= 3
            && self.tx_mix_cap_array <= 3
            && self.tx_mix_current <= 3
            && self.pa_current <= 7
            && self.pa_level <= 31
    }

    /// The first field, in register order, that is out of its legal range.
    pub open spec fn violation(self) -> Option<FieldError> {
        if !(self.tx_mix_buffer_current <= 3) {
            Some(FieldError { field: "TXMIXBUF_CUR", legal: "0..=3" })
        } else if !(self.tx_mix_cap_array <= 3) {
            Some(FieldError { field: "TXMIX_CAP_ARRAY", legal: "0..=3" })
        } else if !(self.tx_mix_current <= 3) {
            Some(FieldError { field: "TXMIX_CURRENT", legal: "0..=3" })
        } else if !(self.pa_current <= 7) {
            Some(FieldError { field: "PA_CURRENT", legal: "0..=7" })
        } else if !(self.pa_level <= 31) {
            Some(FieldError { field: "PA_LEVEL", legal: "0..=31" })
        } else {
            None
        }
    }

    /// The register's word.
    #[verifier::opaque]
    pub open spec fn spec_encode(self) -> u16 {
        (self.tx_mix_buffer_current as u16) << 14 | flag(self.tx_turnaround, 13)
            | (self.tx_mix_cap_array as u16) << 11 | (self.tx_mix_current as u16) << 9
            | (self.pa_current as u16) << 6 | self.pa_level as u16 | 0x0020
    }

    /// The register that the word `value` holds.
    #[verifier::opaque]
    pub open spec fn spec_decode(value: u16) -> TransmitControlRegister {
        TransmitControlRegister {
            tx_mix_buffer_current: field(value, 14, 0x3) as u8,
            tx_turnaround: bit(value, 13),
            tx_mix_cap_array: field(value, 11, 0x3) as u8,
            tx_mix_current: field(value, 9, 0x3) as u8,
            pa_current: field(value, 6, 0x7) as u8,
            pa_level: field(value, 0, 0x1F) as u8,
        }
    }

    /// Encodes the register into its word.
    pub fn encode(&self) -> (r: u16)
        ensures
            r == self.spec_encode(),
    {
        proof {
            reveal(TransmitControlRegister::spec_encode);
        }
        (self.tx_mix_buffer_current as u16) << 14 | flag_bits(self.tx_turnaround, 13)
            | (self.tx_mix_cap_array as u16) << 11 | (self.tx_mix_current as u16) << 9
            | (self.pa_current as u16) << 6 | self.pa_level as u16 | 0x0020
    }

    /// Decodes the register from its word.
    pub fn decode(value: u16) -> (r: TransmitControlRegister)
        ensures
            r == TransmitControlRegister::spec_decode(value),
    {
        proof {
            reveal(TransmitControlRegister::spec_decode);
        }
        TransmitControlRegister {
            tx_mix_buffer_current: field_of(value, 14, 0x3) as u8,
            tx_turnaround: bit_of(value, 13),
            tx_mix_cap_array: field_of(value, 11, 0x3) as u8,
            tx_mix_current: field_of(value, 9, 0x3) as u8,
            pa_current: field_of(value, 6, 0x7) as u8,
            pa_level: field_of(value, 0, 0x1F) as u8,
        }
    }
}

impl Register for TransmitControlRegister {
    open spec fn spec_value(&self) -> u16 {
        self.spec_encode()
    }

    open spec fn spec_address() -> u8 {
        0x15
    }

    open spec fn spec_from_value(value: u16) -> TransmitControlRegister {
        TransmitControlRegister::spec_decode(value)
    }

    fn register_value(&self) -> (r: u16) {
        self.encode()
    }

    fn address(&self) -> (r: u8) {
        0x15
    }

    fn fill_from_buffer(&mut self, buffer: [u8; 3]) {
        *self = TransmitControlRegister::decode(buffer_value(buffer));
    }
}

impl From<u16> for TransmitControlRegister {
    fn from(value: u16) -> (r: TransmitControlRegister) {
        TransmitControlRegister::decode(value)
    }
}

impl vstd::std_specs::convert::FromSpecImpl<u16> for TransmitControlRegister {
    open spec fn obeys_from_spec() -> bool {
        true
    }

    open spec fn from_spec(value: u16) -> TransmitControlRegister {
        TransmitControlRegister::spec_decode(value)
    }
}

/// Decoding the word of a register whose fields are in range gives the
/// register back.
pub proof fn lemma_transmit_control_register_round_trip(r: TransmitControlRegister)
    requires
        r.valid(),
    ensures
        TransmitControlRegister::spec_decode(r.spec_encode()) == r,
{
    let tx_mix_buffer_current = r.tx_mix_buffer_current;
    let tx_turnaround = r.tx_turnaround;
    let tx_mix_cap_array = r.tx_mix_cap_array;
    let tx_mix_current = r.tx_mix_current;
    let pa_current = r.pa_current;
    let pa_level = r.pa_level;
    let value = r.spec_encode();
    assert(value == (tx_mix_buffer_current as u16) << 14 | flag(tx_turnaround, 13)
        | (tx_mix_cap_array as u16) << 11 | (tx_mix_current as u16) << 9 | (pa_current as u16) << 6
        | pa_level as u16 | 0x0020) by {
        reveal(TransmitControlRegister::spec_encode);
    }
    assert(field(value, 14, 0x3) as u8 == tx_mix_buffer_current
        && bit(value, 13) == tx_turnaround
        && field(value, 11, 0x3) as u8 == tx_mix_cap_array
        && field(value, 9, 0x3) as u8 == tx_mix_current
        && field(value, 6, 0x7) as u8 == pa_current
        && field(value, 0, 0x1F) as u8 == pa_level) by (bit_vector)
        requires
            value == (tx_mix_buffer_current as u16) << 14 | flag(tx_turnaround, 13)
                | (tx_mix_cap_array as u16) << 11 | (tx_mix_current as u16) << 9
                | (pa_current as u16) << 6 | pa_level as u16 | 0x0020,
            tx_mix_buffer_current <= 3,
            tx_mix_cap_array <= 3,
            tx_mix_current <= 3,
            pa_current <= 7,
            pa_level <= 31,
    ;
    reveal(TransmitControlRegister::spec_decode);
}

/// A register is accepted exactly when every field is in its legal range,
/// and one whose only field out of range is `f` is refused naming `f`.
pub proof fn lemma_transmit_control_register_validation(r: TransmitControlRegister)
    ensures
        r.violation() is None <==> r.valid(),
        !(r.tx_mix_buffer_current <= 3) && r.tx_mix_cap_array <= 3 && r.tx_mix_current <= 3 && r.pa_current <= 7 && r.pa_level <= 31 ==> r.violation() == Some(
            FieldError { field: "TXMIXBUF_CUR", legal: "0..=3" },
        ),
        !(r.tx_mix_cap_array <= 3) && r.tx_mix_buffer_current <= 3 && r.tx_mix_current <= 3 && r.pa_current <= 7 && r.pa_level <= 31 ==> r.violation() == Some(
            FieldError { field: "TXMIX_CAP_ARRAY", legal: "0..=3" },
        ),
        !(r.tx_mix_current <= 3) && r.tx_mix_buffer_current <= 3 && r.tx_mix_cap_array <= 3 && r.pa_current <= 7 && r.pa_level <= 31 ==> r.violation() == Some(
            FieldError { field: "TXMIX_CURRENT", legal: "0..=3" },
        ),
        !(r.pa_current <= 7) && r.tx_mix_buffer_current <= 3 && r.tx_mix_cap_array <= 3 && r.tx_mix_current <= 3 && r.pa_level <= 31 ==> r.violation() == Some(
            FieldError { field: "PA_CURRENT", legal: "0..=7" },
        ),
        !(r.pa_level <= 31) && r.tx_mix_buffer_current <= 3 && r.tx_mix_cap_array <= 3 && r.tx_mix_current <= 3 && r.pa_current <= 7 ==> r.violation() == Some(
            FieldError { field: "PA_LEVEL", legal: "0..=31" },
        ),
{
}

/// Builds a [`TransmitControlRegister`], starting from the register's reset value.
pub struct TransmitControlRegisterBuilder {
    value: TransmitControlRegister,
}

impl View for TransmitControlRegisterBuilder {
    type V = TransmitControlRegister;

    closed spec fn view(&self) -> TransmitControlRegister {
        self.value
    }
}

impl Default for TransmitControlRegisterBuilder {
    fn default() -> (r: TransmitControlRegisterBuilder)
        ensures
            r@ == TransmitControlRegister::spec_default(),
    {
        TransmitControlRegisterBuilder { value: TransmitControlRegister {
            tx_mix_buffer_current: 2,
            tx_turnaround: true,
            tx_mix_cap_array: 0,
            tx_mix_current: 0,
            pa_current: 3,
            pa_level: 31,
        } }
    }
}

impl TransmitControlRegisterBuilder {
    /// Sets `tx_mix_buffer_current`.
    pub fn tx_mix_buffer_current(self, value: u8) -> (r: TransmitControlRegisterBuilder)
        ensures
            r@ == (TransmitControlRegister { tx_mix_buffer_current: value, ..self@ }),
    {
        let mut r = self;
        r.value.tx_mix_buffer_current = value;
        r
    }

    /// Sets `tx_turnaround`.
    pub fn tx_turnaround(self, value: bool) -> (r: TransmitControlRegisterBuilder)
        ensures
            r@ == (TransmitControlRegister { tx_turnaround: value, ..self@ }),
    {
        let mut r = self;
        r.value.tx_turnaround = value;
        r
    }

    /// Sets `tx_mix_cap_array`.
    pub fn tx_mix_cap_array(self, value: u8) -> (r: TransmitControlRegisterBuilder)
        ensures
            r@ == (TransmitControlRegister { tx_mix_cap_array: value, ..self@ }),
    {
        let mut r = self;
        r.value.tx_mix_cap_array = value;
        r
    }

    /// Sets `tx_mix_current`.
    pub fn tx_mix_current(self, value: u8) -> (r: TransmitControlRegisterBuilder)
        ensures
            r@ == (TransmitControlRegister { tx_mix_current: value, ..self@ }),
    {
        let mut r = self;
        r.value.tx_mix_current = value;
        r
    }

    /// Sets `pa_current`.
    pub fn pa_current(self, value: u8) -> (r: TransmitControlRegisterBuilder)
        ensures
            r@ == (TransmitControlRegister { pa_current: value, ..self@ }),
    {
        let mut r = self;
        r.value.pa_current = value;
        r
    }

    /// Sets `pa_level`.
    pub fn pa_level(self, value: u8) -> (r: TransmitControlRegisterBuilder)
        ensures
            r@ == (TransmitControlRegister { pa_level: value, ..self@ }),
    {
        let mut r = self;
        r.value.pa_level = value;
        r
    }

    /// Checks every field against its legal range, in register order.
    pub fn validate(&self) -> (r: Result<(), FieldError>)
        ensures
            r == match self@.violation() {
                Some(e) => Err(e),
                None => Ok(()),
            },
    {
        if !(self.value.tx_mix_buffer_current <= 3) {
            return Err(FieldError { field: "TXMIXBUF_CUR", legal: "0..=3" });
        }
        if !(self.value.tx_mix_cap_array <= 3) {
            return Err(FieldError { field: "TXMIX_CAP_ARRAY", legal: "0..=3" });
        }
        if !(self.value.tx_mix_current <= 3) {
            return Err(FieldError { field: "TXMIX_CURRENT", legal: "0..=3" });
        }
        if !(self.value.pa_current <= 7) {
            return Err(FieldError { field: "PA_CURRENT", legal: "0..=7" });
        }
        if !(self.value.pa_level <= 31) {
            return Err(FieldError { field: "PA_LEVEL", legal: "0..=31" });
        }
        Ok(())
    }

    /// The register, if every field is in its legal range; otherwise the
    /// first field out of range.
    pub fn build(&self) -> (r: Result<TransmitControlRegister, FieldError>)
        ensures
            r == match self@.violation() {
                Some(e) => Err(e),
                None => Ok(self@),
            },
    {
        match self.validate() {
            Ok(()) => Ok(self.value),
            Err(e) => Err(e),
        }
    }
}

} // verus!
