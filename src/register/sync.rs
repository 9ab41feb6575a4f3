//! The sync word register (SYNCWORD).

use vstd::prelude::*;

use super::{Register, buffer_value};
use crate::error::FieldError;

verus! {

/// Synchronisation word register.
#[derive(Clone, Copy, Debug, PartialEq, Eq, Structural)]
pub struct SyncWordRegister {
    /// Synchronisation word, processed from the least significant nibble. Bits 15:0.
    pub sync_word: u16,
}

impl SyncWordRegister {
    /// The register's reset value.
    pub open spec fn spec_default() -> SyncWordRegister {
        SyncWordRegister {
            sync_word: 0xA70F,
        }
    }

    /// Every field is in its legal range.
    pub open spec fn valid(self) -> bool {
        true
    }

    /// The first field, in register order, that is out of its legal range.
    pub open spec fn violation(self) -> Option<FieldError> {
        None
    }

    /// The register's word.
    #[verifier::opaque]
    pub open spec fn spec_encode(self) -> u16 {
        self.sync_word
    }

    /// The register that the word `value` holds.
    #[verifier::opaque]
    pub open spec fn spec_decode(value: u16) -> SyncWordRegister {
        SyncWordRegister {
            sync_word: value,
        }
    }

    /// Encodes the register into its word.
    pub fn encode(&self) -> (r: u16)
        ensures
            r == self.spec_encode(),
    {
        proof {
            reveal(SyncWordRegister::spec_encode);
        }
        self.sync_word
    }

    /// Decodes the register from its word.
    pub fn decode(value: u16) -> (r: SyncWordRegister)
        ensures
            r == SyncWordRegister::spec_decode(value),
    {
        proof {
            reveal(SyncWordRegister::spec_decode);
        }
        SyncWordRegister {
            sync_word: value,
        }
    }
}

impl Register for SyncWordRegister {
    open spec fn spec_value(&self) -> u16 {
        self.spec_encode()
    }

    open spec fn spec_address() -> u8 {
        0x14
    }

    open spec fn spec_from_value(value: u16) -> SyncWordRegister {
        SyncWordRegister::spec_decode(value)
    }

    fn register_value(&self) -> (r: u16) {
        self.encode()
    }

    fn address(&self) -> (r: u8) {
        0x14
    }

    fn fill_from_buffer(&mut self, buffer: [u8; 3]) {
        *self = SyncWordRegister::decode(buffer_value(buffer));
    }
}

impl From<u16> for SyncWordRegister {
    fn from(value: u16) -> (r: SyncWordRegister) {
        SyncWordRegister::decode(value)
    }
}

impl vstd::std_specs::convert::FromSpecImpl<u16> for SyncWordRegister {
    open spec fn obeys_from_spec() -> bool {
        true
    }

    open spec fn from_spec(value: u16) -> SyncWordRegister {
        SyncWordRegister::spec_decode(value)
    }
}

/// Decoding the word of a register whose fields are in range gives the
/// register back.
pub proof fn lemma_sync_word_register_round_trip(r: SyncWordRegister)
    requires
        r.valid(),
    ensures
        SyncWordRegister::spec_decode(r.spec_encode()) == r,
{
    reveal(SyncWordRegister::spec_encode);
    reveal(SyncWordRegister::spec_decode);
}

/// Builds a [`SyncWordRegister`], starting from the register's reset value.
pub struct SyncWordRegisterBuilder {
    value: SyncWordRegister,
}

impl View for SyncWordRegisterBuilder {
    type V = SyncWordRegister;

    closed spec fn view(&self) -> SyncWordRegister {
        self.value
    }
}

impl Default for SyncWordRegisterBuilder {
    fn default() -> (r: SyncWordRegisterBuilder)
        ensures
            r@ == SyncWordRegister::spec_default(),
    {
        SyncWordRegisterBuilder { value: SyncWordRegister {
            sync_word: 0xA70F,
        } }
    }
}

impl SyncWordRegisterBuilder {
    /// Sets `sync_word`.
    pub fn sync_word(self, value: u16) -> (r: SyncWordRegisterBuilder)
        ensures
            r@ == (SyncWordRegister { sync_word: value, ..self@ }),
    {
        let mut r = self;
        r.value.sync_word = value;
        r
    }

    /// Checks every field against its legal range, in register order.
    pub fn validate(&self) -> (r: Result<(), FieldError>)
        ensures
            r == match self@.violation() {
                Some(e) => Err(e),
                None => Ok(()),
            },
    {
        Ok(())
    }

    /// The register, if every field is in its legal range; otherwise the
    /// first field out of range.
    pub fn build(&self) -> (r: Result<SyncWordRegister, FieldError>)
        ensures
            r == match self@.violation() {
                Some(e) => Err(e),
                None => Ok(self@),
            },
    {
        match self.validate() {
            Ok(()) => Ok(self.value),
            Err(e) => Err(e),
        }
    }
}

} // verus!
