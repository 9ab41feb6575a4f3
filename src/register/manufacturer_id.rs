//! The manufacturer identification registers (MANFIDL, MANFIDH).
//!
//! Both registers are read only: writing them puts the word 0 on the bus.

use vstd::prelude::*;

use super::{Register, buffer_value, field, field_of};
use crate::error::FieldError;

verus! {

/// Lower manufacturer identification register; read only.
#[derive(Clone, Copy, Debug, PartialEq, Eq, Structural)]
pub struct LowerManufacturerID {
    /// Lower bits of the device part number. Bits 15:12.
    pub part_num: u8,
    /// JEDEC manufacturer identification. Bits 11:0.
    pub manufacturer_id: u16,
}

impl LowerManufacturerID {
    /// The register's reset value.
    pub open spec fn spec_default() -> LowerManufacturerID {
        LowerManufacturerID {
            part_num: 2,
            manufacturer_id: 0x33D,
        }
    }

    /// Every field is in its legal range.
    pub open spec fn valid(self) -> bool {
        self.part_num <= 15
            && self.manufacturer_id <= 4095
    }

    /// The first field, in register order, that is out of its legal range.
    pub open spec fn violation(self) -> Option<FieldError> {
        if !(self.part_num <= 15) {
            Some(FieldError { field: "PARTNUM", legal: "0..=15" })
        } else if !(self.manufacturer_id <= 4095) {
            Some(FieldError { field: "MANFID", legal: "0..=4095" })
        } else {
            None
        }
    }

    /// The register's word.
    #[verifier::opaque]
    pub open spec fn spec_encode(self) -> u16 {
        0
    }

    /// The register that the word `value` holds.
    #[verifier::opaque]
    pub open spec fn spec_decode(value: u16) -> LowerManufacturerID {
        LowerManufacturerID {
            part_num: field(value, 12, 0xF) as u8,
            manufacturer_id: field(value, 0, 0xFFF),
        }
    }

    /// Encodes the register into its word.
    pub fn encode(&self) -> (r: u16)
        ensures
            r == self.spec_encode(),
    {
        proof {
            reveal(LowerManufacturerID::spec_encode);
        }
        0
    }

    /// Decodes the register from its word.
    pub fn decode(value: u16) -> (r: LowerManufacturerID)
        ensures
            r == LowerManufacturerID::spec_decode(value),
    {
        proof {
            reveal(LowerManufacturerID::spec_decode);
        }
        LowerManufacturerID {
            part_num: field_of(value, 12, 0xF) as u8,
            manufacturer_id: field_of(value, 0, 0xFFF),
        }
    }
}

impl Register for LowerManufacturerID {
    open spec fn spec_value(&self) -> u16 {
        self.spec_encode()
    }

    open spec fn spec_address() -> u8 {
        0x1E
    }

    open spec fn spec_from_value(value: u16) -> LowerManufacturerID {
        LowerManufacturerID::spec_decode(value)
    }

    fn register_value(&self) -> (r: u16) {
        self.encode()
    }

    fn address(&self) -> (r: u8) {
        0x1E
    }

    fn fill_from_buffer(&mut self, buffer: [u8; 3]) {
        *self = LowerManufacturerID::decode(buffer_value(buffer));
    }
}

impl From<u16> for LowerManufacturerID {
    fn from(value: u16) -> (r: LowerManufacturerID) {
        LowerManufacturerID::decode(value)
    }
}

impl vstd::std_specs::convert::FromSpecImpl<u16> for LowerManufacturerID {
    open spec fn obeys_from_spec() -> bool {
        true
    }

    open spec fn from_spec(value: u16) -> LowerManufacturerID {
        LowerManufacturerID::spec_decode(value)
    }
}

/// A register is accepted exactly when every field is in its legal range,
/// and one whose only field out of range is `f` is refused naming `f`.
pub proof fn lemma_lower_manufacturer_id_validation(r: LowerManufacturerID)
    ensures
        r.violation() is None <==> r.valid(),
        !(r.part_num <= 15) && r.manufacturer_id <= 4095 ==> r.violation() == Some(
            FieldError { field: "PARTNUM", legal: "0..=15" },
        ),
        !(r.manufacturer_id <= 4095) && r.part_num <= 15 ==> r.violation() == Some(
            FieldError { field: "MANFID", legal: "0..=4095" },
        ),
{
}

/// Builds a [`LowerManufacturerID`], starting from the register's reset value.
pub struct LowerManufacturerIDBuilder {
    value: LowerManufacturerID,
}

impl View for LowerManufacturerIDBuilder {
    type V = LowerManufacturerID;

    closed spec fn view(&self) -> LowerManufacturerID {
        self.value
    }
}

impl Default for LowerManufacturerIDBuilder {
    fn default() -> (r: LowerManufacturerIDBuilder)
        ensures
            r@ == LowerManufacturerID::spec_default(),
    {
        LowerManufacturerIDBuilder { value: LowerManufacturerID {
            part_num: 2,
            manufacturer_id: 0x33D,
        } }
    }
}

impl LowerManufacturerIDBuilder {
    /// Sets `part_num`.
    pub fn part_num(self, value: u8) -> (r: LowerManufacturerIDBuilder)
        ensures
            r@ == (LowerManufacturerID { part_num: value, ..self@ }),
    {
        let mut r = self;
        r.value.part_num = value;
        r
    }

    /// Sets `manufacturer_id`.
    pub fn manufacturer_id(self, value: u16) -> (r: LowerManufacturerIDBuilder)
        ensures
            r@ == (LowerManufacturerID { manufacturer_id: value, ..self@ }),
    {
        let mut r = self;
        r.value.manufacturer_id = value;
        r
    }

    /// Checks every field against its legal range, in register order.
    pub fn validate(&self) -> (r: Result<(), FieldError>)
        ensures
            r == match self@.violation() {
                Some(e) => Err(e),
                None => Ok(()),
            },
    {
        if !(self.value.part_num <= 15) {
            return Err(FieldError { field: "PARTNUM", legal: "0..=15" });
        }
        if !(self.value.manufacturer_id <= 4095) {
            return Err(FieldError { field: "MANFID", legal: "0..=4095" });
        }
        Ok(())
    }

    /// The register, if every field is in its legal range; otherwise the
    /// first field out of range.
    pub fn build(&self) -> (r: Result<LowerManufacturerID, FieldError>)
        ensures
            r == match self@.violation() {
                Some(e) => Err(e),
                None => Ok(self@),
            },
    {
        match self.validate() {
            Ok(()) => Ok(self.value),
            Err(e) => Err(e),
        }
    }
}

/// Upper manufacturer identification register; read only.
#[derive(Clone, Copy, Debug, PartialEq, Eq, Structural)]
pub struct UpperManufacturerID {
    /// Version number of the chip. Bits 15:12.
    pub version: u8,
    /// Upper bits of the device part number. Bits 11:0.
    pub part_num: u16,
}

impl UpperManufacturerID {
    /// The register's reset value.
    pub open spec fn spec_default() -> UpperManufacturerID {
        UpperManufacturerID {
            version: 2,
            part_num: 0,
        }
    }

    /// Every field is in its legal range.
    pub open spec fn valid(self) -> bool {
        self.version <= 15
            && self.part_num <= 4095
    }

    /// The first field, in register order, that is out of its legal range.
    pub open spec fn violation(self) -> Option<FieldError> {
        if !(self.version <= 15) {
            Some(FieldError { field: "VERSION", legal: "0..=15" })
        } else if !(self.part_num <= 4095) {
            Some(FieldError { field: "PARTNUM", legal: "0..=4095" })
        } else {
            None
        }
    }

    /// The register's word.
    #[verifier::opaque]
    pub open spec fn spec_encode(self) -> u16 {
        0
    }

    /// The register that the word `value` holds.
    #[verifier::opaque]
    pub open spec fn spec_decode(value: u16) -> UpperManufacturerID {
        UpperManufacturerID {
            version: field(value, 12, 0xF) as u8,
            part_num: field(value, 0, 0xFFF),
        }
    }

    /// Encodes the register into its word.
    pub fn encode(&self) -> (r: u16)
        ensures
            r == self.spec_encode(),
    {
        proof {
            reveal(UpperManufacturerID::spec_encode);
        }
        0
    }

    /// Decodes the register from its word.
    pub fn decode(value: u16) -> (r: UpperManufacturerID)
        ensures
            r == UpperManufacturerID::spec_decode(value),
    {
        proof {
            reveal(UpperManufacturerID::spec_decode);
        }
        UpperManufacturerID {
            version: field_of(value, 12, 0xF) as u8,
            part_num: field_of(value, 0, 0xFFF),
        }
    }
}

impl Register for UpperManufacturerID {
    open spec fn spec_value(&self) -> u16 {
        self.spec_encode()
    }

    open spec fn spec_address() -> u8 {
        0x1F
    }

    open spec fn spec_from_value(value: u16) -> UpperManufacturerID {
        UpperManufacturerID::spec_decode(value)
    }

    fn register_value(&self) -> (r: u16) {
        self.encode()
    }

    fn address(&self) -> (r: u8) {
        0x1F
    }

    fn fill_from_buffer(&mut self, buffer: [u8; 3]) {
        *self = UpperManufacturerID::decode(buffer_value(buffer));
    }
}

impl From<u16> for UpperManufacturerID {
    fn from(value: u16) -> (r: UpperManufacturerID) {
        UpperManufacturerID::decode(value)
    }
}

impl vstd::std_specs::convert::FromSpecImpl<u16> for UpperManufacturerID {
    open spec fn obeys_from_spec() -> bool {
        true
    }

    open spec fn from_spec(value: u16) -> UpperManufacturerID {
        UpperManufacturerID::spec_decode(value)
    }
}

/// A register is accepted exactly when every field is in its legal range,
/// and one whose only field out of range is `f` is refused naming `f`.
pub proof fn lemma_upper_manufacturer_id_validation(r: UpperManufacturerID)
    ensures
        r.violation() is None <==> r.valid(),
        !(r.version <= 15) && r.part_num <= 4095 ==> r.violation() == Some(
            FieldError { field: "VERSION", legal: "0..=15" },
        ),
        !(r.part_num <= 4095) && r.version <= 15 ==> r.violation() == Some(
            FieldError { field: "PARTNUM", legal: "0..=4095" },
        ),
{
}

/// Builds a [`UpperManufacturerID`], starting from the register's reset value.
pub struct UpperManufacturerIDBuilder {
    value: UpperManufacturerID,
}

impl View for UpperManufacturerIDBuilder {
    type V = UpperManufacturerID;

    closed spec fn view(&self) -> UpperManufacturerID {
        self.value
    }
}

impl Default for UpperManufacturerIDBuilder {
    fn default() -> (r: UpperManufacturerIDBuilder)
        ensures
            r@ == UpperManufacturerID::spec_default(),
    {
        UpperManufacturerIDBuilder { value: UpperManufacturerID {
            version: 2,
            part_num: 0,
        } }
    }
}

impl UpperManufacturerIDBuilder {
    /// Sets `version`.
    pub fn version(self, value: u8) -> (r: UpperManufacturerIDBuilder)
        ensures
            r@ == (UpperManufacturerID { version: value, ..self@ }),
    {
        let mut r = self;
        r.value.version = value;
        r
    }

    /// Sets `part_num`.
    pub fn part_num(self, value: u16) -> (r: UpperManufacturerIDBuilder)
        ensures
            r@ == (UpperManufacturerID { part_num: value, ..self@ }),
    {
        let mut r = self;
        r.value.part_num = value;
        r
    }

    /// Checks every field against its legal range, in register order.
    pub fn validate(&self) -> (r: Result<(), FieldError>)
        ensures
            r == match self@.violation() {
                Some(e) => Err(e),
                None => Ok(()),
            },
    {
        if !(self.value.version <= 15) {
            return Err(FieldError { field: "VERSION", legal: "0..=15" });
        }
        if !(self.value.part_num <= 4095) {
            return Err(FieldError { field: "PARTNUM", legal: "0..=4095" });
        }
        Ok(())
    }

    /// The register, if every field is in its legal range; otherwise the
    /// first field out of range.
    pub fn build(&self) -> (r: Result<UpperManufacturerID, FieldError>)
        ensures
            r == match self@.violation() {
                Some(e) => Err(e),
                None => Ok(self@),
            },
    {
        match self.validate() {
            Ok(()) => Ok(self.value),
            Err(e) => Err(e),
        }
    }
}

} // verus!
