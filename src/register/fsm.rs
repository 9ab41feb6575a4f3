//! The finite state machine time constants register (FSMTC).

use vstd::prelude::*;

use super::{Register, buffer_value, field, field_of};
use crate::error::FieldError;

verus! {

/// Finite state machine time constants register.
#[derive(Clone, Copy, Debug, PartialEq, Eq, Structural)]
pub struct FiniteStateMachineConstants {
    /// Time in 5 us steps from enabling the RX chain to enabling the demodulator and AGC. Bits 15:13.
    pub tc_rxchain_to_rx: u8,
    /// Time in us the RX/TX switch is set before enabling TX. Bits 12:10.
    pub tc_switch_to_tx: u8,
    /// Time in us the power amplifier is powered up before enabling TX. Bits 9:6.
    pub tc_paon_to_tx: u8,
    /// Time in us from the last chip sent to disabling the RX/TX switch. Bits 5:3.
    pub tc_txend_to_switch: u8,
    /// Time in us from the last chip sent to powering down the power amplifier. Bits 2:0.
    pub tc_txend_to_paoff: u8,
}

impl FiniteStateMachineConstants {
    /// The register's reset value.
    pub open spec fn spec_default() -> FiniteStateMachineConstants {
        FiniteStateMachineConstants {
            tc_rxchain_to_rx: 3,
            tc_switch_to_tx: 6,
            tc_paon_to_tx: 10,
            tc_txend_to_switch: 2,
            tc_txend_to_paoff: 4,
        }
    }

    /// Every field is in its legal range.
    pub open spec fn valid(self) -> bool {
        self.tc_rxchain_to_rx <= 7
            && self.tc_switch_to_tx <= 7
            && self.tc_paon_to_tx <= 15
            && self.tc_txend_to_switch <= 7
            && self.tc_txend_to_paoff <= 7
    }

    /// The first field, in register order, that is out of its legal range.
    pub open spec fn violation(self) -> Option<FieldError> {
        if !(self.tc_rxchain_to_rx <= 7) {
            Some(FieldError { field: "TC_RXCHAIN2RX", legal: "0..=7" })
        } else if !(self.tc_switch_to_tx <= 7) {
            Some(FieldError { field: "TC_SWITCH2TX", legal: "0..=7" })
        } else if !(self.tc_paon_to_tx <= 15) {
            Some(FieldError { field: "TC_PAON2TX", legal: "0..=15" })
        } else if !(self.tc_txend_to_switch <= 7) {
            Some(FieldError { field: "TC_TXEND2SWITCH", legal: "0..=7" })
        } else if !(self.tc_txend_to_paoff <= 7) {
            Some(FieldError { field: "TC_TXEND2PAOFF", legal: "0..=7" })
        } else {
            None
        }
    }

    /// The register's word.
    #[verifier::opaque]
    pub open spec fn spec_encode(self) -> u16 {
        (self.tc_rxchain_to_rx as u16) << 13 | (self.tc_switch_to_tx as u16) << 10
            | (self.tc_paon_to_tx as u16) << 6 | (self.tc_txend_to_switch as u16) << 3
            | self.tc_txend_to_paoff as u16
    }

    /// The register that the word `value` holds.
    #[verifier::opaque]
    pub open spec fn spec_decode(value: u16) -> FiniteStateMachineConstants {
        FiniteStateMachineConstants {
            tc_rxchain_to_rx: field(value, 13, 0x7) as u8,
            tc_switch_to_tx: field(value, 10, 0x7) as u8,
            tc_paon_to_tx: field(value, 6, 0xF) as u8,
            tc_txend_to_switch: field(value, 3, 0x7) as u8,
            tc_txend_to_paoff: field(value, 0, 0x7) as u8,
        }
    }

    /// Encodes the register into its word.
    pub fn encode(&self) -> (r: u16)
        ensures
            r == self.spec_encode(),
    {
        proof {
            reveal(FiniteStateMachineConstants::spec_encode);
        }
        (self.tc_rxchain_to_rx as u16) << 13 | (self.tc_switch_to_tx as u16) << 10
            | (self.tc_paon_to_tx as u16) << 6 | (self.tc_txend_to_switch as u16) << 3
            | self.tc_txend_to_paoff as u16
    }

    /// Decodes the register from its word.
    pub fn decode(value: u16) -> (r: FiniteStateMachineConstants)
        ensures
            r == FiniteStateMachineConstants::spec_decode(value),
    {
        proof {
            reveal(FiniteStateMachineConstants::spec_decode);
        }
        FiniteStateMachineConstants {
            tc_rxchain_to_rx: field_of(value, 13, 0x7) as u8,
            tc_switch_to_tx: field_of(value, 10, 0x7) as u8,
            tc_paon_to_tx: field_of(value, 6, 0xF) as u8,
            tc_txend_to_switch: field_of(value, 3, 0x7) as u8,
            tc_txend_to_paoff: field_of(value, 0, 0x7) as u8,
        }
    }
}

impl Register for FiniteStateMachineConstants {
    open spec fn spec_value(&self) -> u16 {
        self.spec_encode()
    }

    open spec fn spec_address() -> u8 {
        0x20
    }

    open spec fn spec_from_value(value: u16) -> FiniteStateMachineConstants {
        FiniteStateMachineConstants::spec_decode(value)
    }

    fn register_value(&self) -> (r: u16) {
        self.encode()
    }

    fn address(&self) -> (r: u8) {
        0x20
    }

    fn fill_from_buffer(&mut self, buffer: [u8; 3]) {
        *self = FiniteStateMachineConstants::decode(buffer_value(buffer));
    }
}

impl From<u16> for FiniteStateMachineConstants {
    fn from(value: u16) -> (r: FiniteStateMachineConstants) {
        FiniteStateMachineConstants::decode(value)
    }
}

impl vstd::std_specs::convert::FromSpecImpl<u16> for FiniteStateMachineConstants {
    open spec fn obeys_from_spec() -> bool {
        true
    }

    open spec fn from_spec(value: u16) -> FiniteStateMachineConstants {
        FiniteStateMachineConstants::spec_decode(value)
    }
}

/// Decoding the word of a register whose fields are in range gives the
/// register back.
pub proof fn lemma_finite_state_machine_constants_round_trip(r: FiniteStateMachineConstants)
    requires
        r.valid(),
    ensures
        FiniteStateMachineConstants::spec_decode(r.spec_encode()) == r,
{
    let tc_rxchain_to_rx = r.tc_rxchain_to_rx;
    let tc_switch_to_tx = r.tc_switch_to_tx;
    let tc_paon_to_tx = r.tc_paon_to_tx;
    let tc_txend_to_switch = r.tc_txend_to_switch;
    let tc_txend_to_paoff = r.tc_txend_to_paoff;
    let value = r.spec_encode();
    assert(value == (tc_rxchain_to_rx as u16) << 13 | (tc_switch_to_tx as u16) << 10
        | (tc_paon_to_tx as u16) << 6 | (tc_txend_to_switch as u16) << 3 | tc_txend_to_paoff as u16) by {
        reveal(FiniteStateMachineConstants::spec_encode);
    }
    assert(field(value, 13, 0x7) as u8 == tc_rxchain_to_rx
        && field(value, 10, 0x7) as u8 == tc_switch_to_tx
        && field(value, 6, 0xF) as u8 == tc_paon_to_tx
        && field(value, 3, 0x7) as u8 == tc_txend_to_switch
        && field(value, 0, 0x7) as u8 == tc_txend_to_paoff) by (bit_vector)
        requires
            value == (tc_rxchain_to_rx as u16) << 13 | (tc_switch_to_tx as u16) << 10
                | (tc_paon_to_tx as u16) << 6 | (tc_txend_to_switch as u16) << 3
                | tc_txend_to_paoff as u16,
            tc_rxchain_to_rx <= 7,
            tc_switch_to_tx <= 7,
            tc_paon_to_tx <= 15,
            tc_txend_to_switch <= 7,
            tc_txend_to_paoff <= 7,
    ;
    reveal(FiniteStateMachineConstants::spec_decode);
}

/// A register is accepted exactly when every field is in its legal range,
/// and one whose only field out of range is `f` is refused naming `f`.
pub proof fn lemma_finite_state_machine_constants_validation(r: FiniteStateMachineConstants)
    ensures
        r.violation() is None <==> r.valid(),
        !(r.tc_rxchain_to_rx <= 7) && r.tc_switch_to_tx <= 7 && r.tc_paon_to_tx <= 15 && r.tc_txend_to_switch <= 7 && r.tc_txend_to_paoff <= 7 ==> r.violation() == Some(
            FieldError { field: "TC_RXCHAIN2RX", legal: "0..=7" },
        ),
        !(r.tc_switch_to_tx <= 7) && r.tc_rxchain_to_rx <= 7 && r.tc_paon_to_tx <= 15 && r.tc_txend_to_switch <= 7 && r.tc_txend_to_paoff <= 7 ==> r.violation() == Some(
            FieldError { field: "TC_SWITCH2TX", legal: "0..=7" },
        ),
        !(r.tc_paon_to_tx <= 15) && r.tc_rxchain_to_rx <= 7 && r.tc_switch_to_tx <= 7 && r.tc_txend_to_switch <= 7 && r.tc_txend_to_paoff <= 7 ==> r.violation() == Some(
            FieldError { field: "TC_PAON2TX", legal: "0..=15" },
        ),
        !(r.tc_txend_to_switch <= 7) && r.tc_rxchain_to_rx <= 7 && r.tc_switch_to_tx <= 7 && r.tc_paon_to_tx <= 15 && r.tc_txend_to_paoff <= 7 ==> r.violation() == Some(
            FieldError { field: "TC_TXEND2SWITCH", legal: "0..=7" },
        ),
        !(r.tc_txend_to_paoff <= 7) && r.tc_rxchain_to_rx <= 7 && r.tc_switch_to_tx <= 7 && r.tc_paon_to_tx <= 15 && r.tc_txend_to_switch <= 7 ==> r.violation() == Some(
            FieldError { field: "TC_TXEND2PAOFF", legal: "0..=7" },
        ),
{
}

/// Builds a [`FiniteStateMachineConstants`], starting from the register's reset value.
pub struct FiniteStateMachineConstantsBuilder {
    value: FiniteStateMachineConstants,
}

impl View for FiniteStateMachineConstantsBuilder {
    type V = FiniteStateMachineConstants;

    closed spec fn view(&self) -> FiniteStateMachineConstants {
        self.value
    }
}

impl Default for FiniteStateMachineConstantsBuilder {
    fn default() -> (r: FiniteStateMachineConstantsBuilder)
        ensures
            r@ == FiniteStateMachineConstants::spec_default(),
    {
        FiniteStateMachineConstantsBuilder { value: FiniteStateMachineConstants {
            tc_rxchain_to_rx: 3,
            tc_switch_to_tx: 6,
            tc_paon_to_tx: 10,
            tc_txend_to_switch: 2,
            tc_txend_to_paoff: 4,
        } }
    }
}

impl FiniteStateMachineConstantsBuilder {
    /// Sets `tc_rxchain_to_rx`.
    pub fn tc_rxchain_to_rx(self, value: u8) -> (r: FiniteStateMachineConstantsBuilder)
        ensures
            r@ == (FiniteStateMachineConstants { tc_rxchain_to_rx: value, ..self@ }),
    {
        let mut r = self;
        r.value.tc_rxchain_to_rx = value;
        r
    }

    /// Sets `tc_switch_to_tx`.
    pub fn tc_switch_to_tx(self, value: u8) -> (r: FiniteStateMachineConstantsBuilder)
        ensures
            r@ == (FiniteStateMachineConstants { tc_switch_to_tx: value, ..self@ }),
    {
        let mut r = self;
        r.value.tc_switch_to_tx = value;
        r
    }

    /// Sets `tc_paon_to_tx`.
    pub fn tc_paon_to_tx(self, value: u8) -> (r: FiniteStateMachineConstantsBuilder)
        ensures
            r@ == (FiniteStateMachineConstants { tc_paon_to_tx: value, ..self@ }),
    {
        let mut r = self;
        r.value.tc_paon_to_tx = value;
        r
    }

    /// Sets `tc_txend_to_switch`.
    pub fn tc_txend_to_switch(self, value: u8) -> (r: FiniteStateMachineConstantsBuilder)
        ensures
            r@ == (FiniteStateMachineConstants { tc_txend_to_switch: value, ..self@ }),
    {
        let mut r = self;
        r.value.tc_txend_to_switch = value;
        r
    }

    /// Sets `tc_txend_to_paoff`.
    pub fn tc_txend_to_paoff(self, value: u8) -> (r: FiniteStateMachineConstantsBuilder)
        ensures
            r@ == (FiniteStateMachineConstants { tc_txend_to_paoff: value, ..self@ }),
    {
        let mut r = self;
        r.value.tc_txend_to_paoff = value;
        r
    }

    /// Checks every field against its legal range, in register order.
    pub fn validate(&self) -> (r: Result<(), FieldError>)
        ensures
            r == match self@.violation() {
                Some(e) => Err(e),
                None => Ok(()),
            },
    {
        if !(self.value.tc_rxchain_to_rx <= 7) {
            return Err(FieldError { field: "TC_RXCHAIN2RX", legal: "0..=7" });
        }
        if !(self.value.tc_switch_to_tx <= 7) {
            return Err(FieldError { field: "TC_SWITCH2TX", legal: "0..=7" });
        }
        if !(self.value.tc_paon_to_tx <= 15) {
            return Err(FieldError { field: "TC_PAON2TX", legal: "0..=15" });
        }
        if !(self.value.tc_txend_to_switch <= 7) {
            return Err(FieldError { field: "TC_TXEND2SWITCH", legal: "0..=7" });
        }
        if !(self.value.tc_txend_to_paoff <= 7) {
            return Err(FieldError { field: "TC_TXEND2PAOFF", legal: "0..=7" });
        }
        Ok(())
    }

    /// The register, if every field is in its legal range; otherwise the
    /// first field out of range.
    pub fn build(&self) -> (r: Result<FiniteStateMachineConstants, FieldError>)
        ensures
            r == match self@.violation() {
                Some(e) => Err(e),
                None => Ok(self@),
            },
    {
        match self.validate() {
            Ok(()) => Ok(self.value),
            Err(e) => Err(e),
        }
    }
}

} // verus!
