//! The security control registers (SECCTRL0, SECCTRL1).

use vstd::prelude::*;

use super::{Register, bit, bit_of, buffer_value, field, field_of, flag, flag_bits};
use crate::error::FieldError;

verus! {

/// Security control register 0: key selection and in-line security mode.
#[derive(Clone, Copy, Debug, PartialEq, Eq, Structural)]
pub struct SecurityControlRegister0 {
    /// Protection of the RX FIFO is enabled. Bit 9.
    pub rx_fifo_protection: bool,
    /// Use the length of the authenticated data as the first CBC-MAC byte. Bit 8.
    pub sec_cbc_head: bool,
    /// Stand-alone encryption uses key 1 instead of key 0. Bit 7.
    pub sec_sa_key_sel: bool,
    /// TX in-line security uses key 1 instead of key 0. Bit 6.
    pub sec_tx_key_sel: bool,
    /// RX in-line security uses key 1 instead of key 0. Bit 5.
    pub sec_rx_key_sel: bool,
    /// Number of authentication bytes for CBC-MAC, encoded as (M - 2) / 2; 0 is reserved. Bits 4:2.
    pub sec_m: u8,
    /// In-line security mode: disabled, CBC-MAC, CTR or CCM. Bits 1:0.
    pub sec_mode: u8,
}

impl SecurityControlRegister0 {
    /// The register's reset value.
    pub open spec fn spec_default() -> SecurityControlRegister0 {
        SecurityControlRegister0 {
            rx_fifo_protection: true,
            sec_cbc_head: true,
            sec_sa_key_sel: true,
            sec_tx_key_sel: true,
            sec_rx_key_sel: false,
            sec_m: 1,
            sec_mode: 0,
        }
    }

    /// Every field is in its legal range.
    pub open spec fn valid(self) -> bool {
        1 <= self.sec_m && self.sec_m <= 7
            && self.sec_mode <= 3
    }

    /// The first field, in register order, that is out of its legal range.
    pub open spec fn violation(self) -> Option<FieldError> {
        if !(1 <= self.sec_m && self.sec_m <= 7) {
            Some(FieldError { field: "SEC_M", legal: "1..=7" })
        } else if !(self.sec_mode <= 3) {
            Some(FieldError { field: "SEC_MODE", legal: "0..=3" })
        } else {
            None
        }
    }

    /// The register's word.
    #[verifier::opaque]
    pub open spec fn spec_encode(self) -> u16 {
        flag(self.rx_fifo_protection, 9) | flag(self.sec_cbc_head, 8)
            | flag(self.sec_sa_key_sel, 7) | flag(self.sec_tx_key_sel, 6)
            | flag(self.sec_rx_key_sel, 5) | (self.sec_m as u16) << 2 | self.sec_mode as u16
    }

    /// The register that the word `value` holds.
    #[verifier::opaque]
    pub open spec fn spec_decode(value: u16) -> SecurityControlRegister0 {
        SecurityControlRegister0 {
            rx_fifo_protection: bit(value, 9),
            sec_cbc_head: bit(value, 8),
            sec_sa_key_sel: bit(value, 7),
            sec_tx_key_sel: bit(value, 6),
            sec_rx_key_sel: bit(value, 5),
            sec_m: field(value, 2, 0x7) as u8,
            sec_mode: field(value, 0, 0x3) as u8,
        }
    }

    /// Encodes the register into its word.
    pub fn encode(&self) -> (r: u16)
        ensures
            r == self.spec_encode(),
    {
        proof {
            reveal(SecurityControlRegister0::spec_encode);
        }
        flag_bits(self.rx_fifo_protection, 9) | flag_bits(self.sec_cbc_head, 8)
            | flag_bits(self.sec_sa_key_sel, 7) | flag_bits(self.sec_tx_key_sel, 6)
            | flag_bits(self.sec_rx_key_sel, 5) | (self.sec_m as u16) << 2 | self.sec_mode as u16
    }

    /// Decodes the register from its word.
    pub fn decode(value: u16) -> (r: SecurityControlRegister0)
        ensures
            r == SecurityControlRegister0::spec_decode(value),
    {
        proof {
            reveal(SecurityControlRegister0::spec_decode);
        }
        SecurityControlRegister0 {
            rx_fifo_protection: bit_of(value, 9),
            sec_cbc_head: bit_of(value, 8),
            sec_sa_key_sel: bit_of(value, 7),
            sec_tx_key_sel: bit_of(value, 6),
            sec_rx_key_sel: bit_of(value, 5),
            sec_m: field_of(value, 2, 0x7) as u8,
            sec_mode: field_of(value, 0, 0x3) as u8,
        }
    }
}

impl Register for SecurityControlRegister0 {
    open spec fn spec_value(&self) -> u16 {
        self.spec_encode()
    }

    open spec fn spec_address() -> u8 {
        0x19
    }

    open spec fn spec_from_value(value: u16) -> SecurityControlRegister0 {
        SecurityControlRegister0::spec_decode(value)
    }

    fn register_value(&self) -> (r: u16) {
        self.encode()
    }

    fn address(&self) -> (r: u8) {
        0x19
    }

    fn fill_from_buffer(&mut self, buffer: [u8; 3]) {
        *self = SecurityControlRegister0::decode(buffer_value(buffer));
    }
}

impl From<u16> for SecurityControlRegister0 {
    fn from(value: u16) -> (r: SecurityControlRegister0) {
        SecurityControlRegister0::decode(value)
    }
}

impl vstd::std_specs::convert::FromSpecImpl<u16> for SecurityControlRegister0 {
    open spec fn obeys_from_spec() -> bool {
        true
    }

    open spec fn from_spec(value: u16) -> SecurityControlRegister0 {
        SecurityControlRegister0::spec_decode(value)
    }
}

/// Decoding the word of a register whose fields are in range gives the
/// register back.
pub proof fn lemma_security_control_register0_round_trip(r: SecurityControlRegister0)
    requires
        r.valid(),
    ensures
        SecurityControlRegister0::spec_decode(r.spec_encode()) == r,
{
    let rx_fifo_protection = r.rx_fifo_protection;
    let sec_cbc_head = r.sec_cbc_head;
    let sec_sa_key_sel = r.sec_sa_key_sel;
    let sec_tx_key_sel = r.sec_tx_key_sel;
    let sec_rx_key_sel = r.sec_rx_key_sel;
    let sec_m = r.sec_m;
    let sec_mode = r.sec_mode;
    let value = r.spec_encode();
    assert(value == flag(rx_fifo_protection, 9) | flag(sec_cbc_head, 8) | flag(sec_sa_key_sel, 7)
        | flag(sec_tx_key_sel, 6) | flag(sec_rx_key_sel, 5) | (sec_m as u16) << 2 | sec_mode as u16) by {
        reveal(SecurityControlRegister0::spec_encode);
    }
    assert(bit(value, 9) == rx_fifo_protection
        && bit(value, 8) == sec_cbc_head
        && bit(value, 7) == sec_sa_key_sel
        && bit(value, 6) == sec_tx_key_sel
        && bit(value, 5) == sec_rx_key_sel
        && field(value, 2, 0x7) as u8 == sec_m
        && field(value, 0, 0x3) as u8 == sec_mode) by (bit_vector)
        requires
            value == flag(rx_fifo_protection, 9) | flag(sec_cbc_head, 8) | flag(sec_sa_key_sel, 7)
                | flag(sec_tx_key_sel, 6) | flag(sec_rx_key_sel, 5) | (sec_m as u16) << 2
                | sec_mode as u16,
            sec_m <= 7,
            sec_mode <= 3,
    ;
    reveal(SecurityControlRegister0::spec_decode);
}

/// A register is accepted exactly when every field is in its legal range,
/// and one whose only field out of range is `f` is refused naming `f`.
pub proof fn lemma_security_control_register0_validation(r: SecurityControlRegister0)
    ensures
        r.violation() is None <==> r.valid(),
        !(1 <= r.sec_m && r.sec_m <= 7) && r.sec_mode <= 3 ==> r.violation() == Some(
            FieldError { field: "SEC_M", legal: "1..=7" },
        ),
        !(r.sec_mode <= 3) && 1 <= r.sec_m && r.sec_m <= 7 ==> r.violation() == Some(
            FieldError { field: "SEC_MODE", legal: "0..=3" },
        ),
{
}

/// Builds a [`SecurityControlRegister0`], starting from the register's reset value.
pub struct SecurityControlRegister0Builder {
    value: SecurityControlRegister0,
}

impl View for SecurityControlRegister0Builder {
    type V = SecurityControlRegister0;

    closed spec fn view(&self) -> SecurityControlRegister0 {
        self.value
    }
}

impl Default for SecurityControlRegister0Builder {
    fn default() -> (r: SecurityControlRegister0Builder)
        ensures
            r@ == SecurityControlRegister0::spec_default(),
    {
        SecurityControlRegister0Builder { value: SecurityControlRegister0 {
            rx_fifo_protection: true,
            sec_cbc_head: true,
            sec_sa_key_sel: true,
            sec_tx_key_sel: true,
            sec_rx_key_sel: false,
            sec_m: 1,
            sec_mode: 0,
        } }
    }
}

impl SecurityControlRegister0Builder {
    /// Sets `rx_fifo_protection`.
    pub fn rx_fifo_protection(self, value: bool) -> (r: SecurityControlRegister0Builder)
        ensures
            r@ == (SecurityControlRegister0 { rx_fifo_protection: value, ..self@ }),
    {
        let mut r = self;
        r.value.rx_fifo_protection = value;
        r
    }

    /// Sets `sec_cbc_head`.
    pub fn sec_cbc_head(self, value: bool) -> (r: SecurityControlRegister0Builder)
        ensures
            r@ == (SecurityControlRegister0 { sec_cbc_head: value, ..self@ }),
    {
        let mut r = self;
        r.value.sec_cbc_head = value;
        r
    }

    /// Sets `sec_sa_key_sel`.
    pub fn sec_sa_key_sel(self, value: bool) -> (r: SecurityControlRegister0Builder)
        ensures
            r@ == (SecurityControlRegister0 { sec_sa_key_sel: value, ..self@ }),
    {
        let mut r = self;
        r.value.sec_sa_key_sel = value;
        r
    }

    /// Sets `sec_tx_key_sel`.
    pub fn sec_tx_key_sel(self, value: bool) -> (r: SecurityControlRegister0Builder)
        ensures
            r@ == (SecurityControlRegister0 { sec_tx_key_sel: value, ..self@ }),
    {
        let mut r = self;
        r.value.sec_tx_key_sel = value;
        r
    }

    /// Sets `sec_rx_key_sel`.
    pub fn sec_rx_key_sel(self, value: bool) -> (r: SecurityControlRegister0Builder)
        ensures
            r@ == (SecurityControlRegister0 { sec_rx_key_sel: value, ..self@ }),
    {
        let mut r = self;
        r.value.sec_rx_key_sel = value;
        r
    }

    /// Sets `sec_m`.
    pub fn sec_m(self, value: u8) -> (r: SecurityControlRegister0Builder)
        ensures
            r@ == (SecurityControlRegister0 { sec_m: value, ..self@ }),
    {
        let mut r = self;
        r.value.sec_m = value;
        r
    }

    /// Sets `sec_mode`.
    pub fn sec_mode(self, value: u8) -> (r: SecurityControlRegister0Builder)
        ensures
            r@ == (SecurityControlRegister0 { sec_mode: value, ..self@ }),
    {
        let mut r = self;
        r.value.sec_mode = value;
        r
    }

    /// Checks every field against its legal range, in register order.
    pub fn validate(&self) -> (r: Result<(), FieldError>)
        ensures
            r == match self@.violation() {
                Some(e) => Err(e),
                None => Ok(()),
            },
    {
        if !(1 <= self.value.sec_m && self.value.sec_m <= 7) {
            return Err(FieldError { field: "SEC_M", legal: "1..=7" });
        }
        if !(self.value.sec_mode <= 3) {
            return Err(FieldError { field: "SEC_MODE", legal: "0..=3" });
        }
        Ok(())
    }

    /// The register, if every field is in its legal range; otherwise the
    /// first field out of range.
    pub fn build(&self) -> (r: Result<SecurityControlRegister0, FieldError>)
        ensures
            r == match self@.violation() {
                Some(e) => Err(e),
                None => Ok(self@),
            },
    {
        match self.validate() {
            Ok(()) => Ok(self.value),
            Err(e) => Err(e),
        }
    }
}

/// Security control register 1: in-line security length bytes.
#[derive(Clone, Copy, Debug, PartialEq, Eq, Structural)]
pub struct SecurityControlRegister1 {
    /// Multi-purpose length byte for TX in-line security. Bits 14:8.
    pub sec_txl: u8,
    /// Multi-purpose length byte for RX in-line security. Bits 6:0.
    pub sec_rxl: u8,
}

impl SecurityControlRegister1 {
    /// The register's reset value.
    pub open spec fn spec_default() -> SecurityControlRegister1 {
        SecurityControlRegister1 {
            sec_txl: 0,
            sec_rxl: 0,
        }
    }

    /// Every field is in its legal range.
    pub open spec fn valid(self) -> bool {
        self.sec_txl <= 127
            && self.sec_rxl <= 127
    }

    /// The first field, in register order, that is out of its legal range.
    pub open spec fn violation(self) -> Option<FieldError> {
        if !(self.sec_txl <= 127) {
            Some(FieldError { field: "SEC_TXL", legal: "0..=127" })
        } else if !(self.sec_rxl <= 127) {
            Some(FieldError { field: "SEC_RXL", legal: "0..=127" })
        } else {
            None
        }
    }

    /// The register's word.
    #[verifier::opaque]
    pub open spec fn spec_encode(self) -> u16 {
        (self.sec_txl as u16) << 8 | self.sec_rxl as u16
    }

    /// The register that the word `value` holds.
    #[verifier::opaque]
    pub open spec fn spec_decode(value: u16) -> SecurityControlRegister1 {
        SecurityControlRegister1 {
            sec_txl: field(value, 8, 0x7F) as u8,
            sec_rxl: field(value, 0, 0x7F) as u8,
        }
    }

    /// Encodes the register into its word.
    pub fn encode(&self) -> (r: u16)
        ensures
            r == self.spec_encode(),
    {
        proof {
            reveal(SecurityControlRegister1::spec_encode);
        }
        (self.sec_txl as u16) << 8 | self.sec_rxl as u16
    }

    /// Decodes the register from its word.
    pub fn decode(value: u16) -> (r: SecurityControlRegister1)
        ensures
            r == SecurityControlRegister1::spec_decode(value),
    {
        proof {
            reveal(SecurityControlRegister1::spec_decode);
        }
        SecurityControlRegister1 {
            sec_txl: field_of(value, 8, 0x7F) as u8,
            sec_rxl: field_of(value, 0, 0x7F) as u8,
        }
    }
}

impl Register for SecurityControlRegister1 {
    open spec fn spec_value(&self) -> u16 {
        self.spec_encode()
    }

    open spec fn spec_address() -> u8 {
        0x1A
    }

    open spec fn spec_from_value(value: u16) -> SecurityControlRegister1 {
        SecurityControlRegister1::spec_decode(value)
    }

    fn register_value(&self) -> (r: u16) {
        self.encode()
    }

    fn address(&self) -> (r: u8) {
        0x1A
    }

    fn fill_from_buffer(&mut self, buffer: [u8; 3]) {
        *self = SecurityControlRegister1::decode(buffer_value(buffer));
    }
}

impl From<u16> for SecurityControlRegister1 {
    fn from(value: u16) -> (r: SecurityControlRegister1) {
        SecurityControlRegister1::decode(value)
    }
}

impl vstd::std_specs::convert::FromSpecImpl<u16> for SecurityControlRegister1 {
    open spec fn obeys_from_spec() -> bool {
        true
    }

    open spec fn from_spec(value: u16) -> SecurityControlRegister1 {
        SecurityControlRegister1::spec_decode(value)
    }
}

/// Decoding the word of a register whose fields are in range gives the
/// register back.
pub proof fn lemma_security_control_register1_round_trip(r: SecurityControlRegister1)
    requires
        r.valid(),
    ensures
        SecurityControlRegister1::spec_decode(r.spec_encode()) == r,
{
    let sec_txl = r.sec_txl;
    let sec_rxl = r.sec_rxl;
    let value = r.spec_encode();
    assert(value == (sec_txl as u16) << 8 | sec_rxl as u16) by {
        reveal(SecurityControlRegister1::spec_encode);
    }
    assert(field(value, 8, 0x7F) as u8 == sec_txl
        && field(value, 0, 0x7F) as u8 == sec_rxl) by (bit_vector)
        requires
            value == (sec_txl as u16) << 8 | sec_rxl as u16,
            sec_txl <= 127,
            sec_rxl <= 127,
    ;
    reveal(SecurityControlRegister1::spec_decode);
}

/// A register is accepted exactly when every field is in its legal range,
/// and one whose only field out of range is `f` is refused naming `f`.
pub proof fn lemma_security_control_register1_validation(r: SecurityControlRegister1)
    ensures
        r.violation() is None <==> r.valid(),
        !(r.sec_txl <= 127) && r.sec_rxl <= 127 ==> r.violation() == Some(
            FieldError { field: "SEC_TXL", legal: "0..=127" },
        ),
        !(r.sec_rxl <= 127) && r.sec_txl <= 127 ==> r.violation() == Some(
            FieldError { field: "SEC_RXL", legal: "0..=127" },
        ),
{
}

/// Builds a [`SecurityControlRegister1`], starting from the register's reset value.
pub struct SecurityControlRegister1Builder {
    value: SecurityControlRegister1,
}

impl View for SecurityControlRegister1Builder {
    type V = SecurityControlRegister1;

    closed spec fn view(&self) -> SecurityControlRegister1 {
        self.value
    }
}

impl Default for SecurityControlRegister1Builder {
    fn default() -> (r: SecurityControlRegister1Builder)
        ensures
            r@ == SecurityControlRegister1::spec_default(),
    {
        SecurityControlRegister1Builder { value: SecurityControlRegister1 {
            sec_txl: 0,
            sec_rxl: 0,
        } }
    }
}

impl SecurityControlRegister1Builder {
    /// Sets `sec_txl`.
    pub fn sec_txl(self, value: u8) -> (r: SecurityControlRegister1Builder)
        ensures
            r@ == (SecurityControlRegister1 { sec_txl: value, ..self@ }),
    {
        let mut r = self;
        r.value.sec_txl = value;
        r
    }

    /// Sets `sec_rxl`.
    pub fn sec_rxl(self, value: u8) -> (r: SecurityControlRegister1Builder)
        ensures
            r@ == (SecurityControlRegister1 { sec_rxl: value, ..self@ }),
    {
        let mut r = self;
        r.value.sec_rxl = value;
        r
    }

    /// Checks every field against its legal range, in register order.
    pub fn validate(&self) -> (r: Result<(), FieldError>)
        ensures
            r == match self@.violation() {
                Some(e) => Err(e),
                None => Ok(()),
            },
    {
        if !(self.value.sec_txl <= 127) {
            return Err(FieldError { field: "SEC_TXL", legal: "0..=127" });
        }
        if !(self.value.sec_rxl <= 127) {
            return Err(FieldError { field: "SEC_RXL", legal: "0..=127" });
        }
        Ok(())
    }

    /// The register, if every field is in its legal range; otherwise the
    /// first field out of range.
    pub fn build(&self) -> (r: Result<SecurityControlRegister1, FieldError>)
        ensures
            r == match self@.violation() {
                Some(e) => Err(e),
                None => Ok(self@),
            },
    {
        match self.validate() {
            Ok(()) => Ok(self.value),
            Err(e) => Err(e),
        }
    }
}

} // verus!
