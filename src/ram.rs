//! The on-chip RAM sectors and their bus addresses.

use vstd::prelude::*;

verus! {

/// Named regions of the radio's RAM.
#[derive(Clone, Copy, Debug, PartialEq, Eq, Structural)]
pub enum Ram {
    ShortAddress,
    PanID,
    IEEEAddress,
    TxNonce,
    Key1,
    EncryptionBuffer,
    RxNonce,
    Key0,
    RxFifo,
    TxFifo,
}

/// The read and write address bytes of the RAM location `offset` (a 9-bit
/// address): the first byte is 0x80 (RAM access) plus the offset's low seven
/// bits; the second byte holds the offset's two high bits (the bank) in its
/// bits 7:6, and for a read also bit 5.
pub open spec fn ram_address(offset: u16, read: bool) -> (u8, u8) {
    (
        (0x80 + offset % 128) as u8,
        ((offset / 128) * 64 + if read {
            0x20int
        } else {
            0int
        }) as u8,
    )
}

impl Ram {
    /// The sector's start within the 9-bit RAM address space.
    pub open spec fn spec_offset(self) -> u16 {
        match self {
            Ram::ShortAddress => 0x16A,
            Ram::PanID => 0x168,
            Ram::IEEEAddress => 0x160,
            Ram::TxNonce => 0x140,
            Ram::Key1 => 0x130,
            Ram::EncryptionBuffer => 0x120,
            Ram::RxNonce => 0x110,
            Ram::Key0 => 0x100,
            Ram::RxFifo => 0x080,
            Ram::TxFifo => 0x000,
        }
    }

    /// The sector's length in bytes.
    pub open spec fn spec_length(self) -> usize {
        match self {
            Ram::ShortAddress => 2,
            Ram::PanID => 2,
            Ram::IEEEAddress => 8,
            Ram::TxNonce => 16,
            Ram::Key1 => 16,
            Ram::EncryptionBuffer => 16,
            Ram::RxNonce => 16,
            Ram::Key0 => 16,
            Ram::RxFifo => 128,
            Ram::TxFifo => 128,
        }
    }

    /// The sector's start within the 9-bit RAM address space.
    pub fn offset(self) -> (r: u16)
        ensures
            r == self.spec_offset(),
            r < 512,
    {
        match self {
            Ram::ShortAddress => 0x16A,
            Ram::PanID => 0x168,
            Ram::IEEEAddress => 0x160,
            Ram::TxNonce => 0x140,
            Ram::Key1 => 0x130,
            Ram::EncryptionBuffer => 0x120,
            Ram::RxNonce => 0x110,
            Ram::Key0 => 0x100,
            Ram::RxFifo => 0x080,
            Ram::TxFifo => 0x000,
        }
    }

    /// The two address bytes that start a read of the sector.
    pub fn read_address(self) -> (r: (u8, u8))
        ensures
            r == ram_address(self.spec_offset(), true),
    {
        let value = self.offset();
        proof {
            lemma_ram_address_bytes(value);
        }
        ((0x7F & value | 0x80) as u8, ((0x180 & value) >> 1u16 | 0x20) as u8)
    }

    /// The two address bytes that start a write of the sector.
    pub fn write_address(self) -> (r: (u8, u8))
        ensures
            r == ram_address(self.spec_offset(), false),
    {
        let value = self.offset();
        proof {
            lemma_ram_address_bytes(value);
        }
        ((0x7F & value | 0x80) as u8, ((0x180 & value) >> 1u16) as u8)
    }

    /// The sector's length in bytes.
    pub fn length(&self) -> (r: usize)
        ensures
            r == self.spec_length(),
    {
        match self {
            Ram::ShortAddress => 2,
            Ram::PanID => 2,
            Ram::IEEEAddress => 8,
            Ram::TxNonce => 16,
            Ram::Key1 => 16,
            Ram::EncryptionBuffer => 16,
            Ram::RxNonce => 16,
            Ram::Key0 => 16,
            Ram::RxFifo => 128,
            Ram::TxFifo => 128,
        }
    }
}

proof fn lemma_ram_address_bytes(value: u16)
    requires
        value < 512,
    ensures
        (0x7F & value | 0x80) as u8 == (0x80 + value % 128) as u8,
        ((0x180 & value) >> 1u16 | 0x20) as u8 == ((value / 128) * 64 + 0x20) as u8,
        ((0x180 & value) >> 1u16) as u8 == ((value / 128) * 64) as u8,
{
    assert((0x7F & value | 0x80) as u8 == (0x80 + value % 128) as u8 && ((0x180 & value) >> 1u16
        | 0x20) as u8 == ((value / 128) * 64 + 0x20) as u8 && ((0x180 & value) >> 1u16) as u8 == ((
    value / 128) * 64) as u8) by (bit_vector)
        requires
            value < 512,
    ;
}

/// Reads and writes of one sector differ only in bit 5 of the second address
/// byte, and distinct sectors have distinct addresses.
pub proof fn lemma_ram_addresses(a: Ram, b: Ram)
    ensures
        ram_address(a.spec_offset(), true).0 == ram_address(a.spec_offset(), false).0,
        ram_address(a.spec_offset(), true).1 == ram_address(a.spec_offset(), false).1 + 0x20,
        a != b ==> ram_address(a.spec_offset(), true) != ram_address(b.spec_offset(), true),
        a != b ==> ram_address(a.spec_offset(), false) != ram_address(b.spec_offset(), false),
{
}

} // verus!
