//! The identification registers: manufacturer ID (0xFE) and die ID (0xFF).
use vstd::prelude::*;
use crate::word::{word_from_be_bytes, word_of_be_bytes};

verus! {

/// Manufacturer ID that the device reports: 0x5449, "TI" in ASCII.
pub const EXPECTED_MANUFACTURER_ID: u16 = 0x5449;

/// Die ID that the device reports.
pub const EXPECTED_DIE_ID: u16 = 0x3220;

/// Content of the manufacturer-ID register; the whole word is the ID.
#[derive(Debug, Clone, Copy, PartialEq, Eq, Structural)]
pub struct ManufacturerId {
    bits: u16,
}

impl View for ManufacturerId {
    type V = u16;

    open spec fn view(&self) -> u16 {
        self.spec_bits()
    }
}

impl ManufacturerId {
    /// The register word.
    pub closed spec fn spec_bits(self) -> u16 {
        self.bits
    }

    /// The register holding the word the device sent, most significant byte first.
    pub fn from_be_bytes(bytes: [u8; 2]) -> (r: Self)
        ensures
            r@ == word_of_be_bytes(bytes@),
            r@ == bytes@[0] as int * 256 + bytes@[1] as int,
    {
        ManufacturerId { bits: word_from_be_bytes(bytes) }
    }

    /// The manufacturer ID.
    pub fn manufacturer_id(&self) -> (id: u16)
        ensures
            id == self@,
    {
        self.bits
    }
}

/// Content of the die-ID register; the whole word is the ID.
#[derive(Debug, Clone, Copy, PartialEq, Eq, Structural)]
pub struct DieId {
    bits: u16,
}

impl View for DieId {
    type V = u16;

    open spec fn view(&self) -> u16 {
        self.spec_bits()
    }
}

impl DieId {
    /// The register word.
    pub closed spec fn spec_bits(self) -> u16 {
        self.bits
    }

    /// The register holding the word the device sent, most significant byte first.
    pub fn from_be_bytes(bytes: [u8; 2]) -> (r: Self)
        ensures
            r@ == word_of_be_bytes(bytes@),
            r@ == bytes@[0] as int * 256 + bytes@[1] as int,
    {
        DieId { bits: word_from_be_bytes(bytes) }
    }

    /// The die ID.
    pub fn die_id(&self) -> (id: u16)
        ensures
            id == self@,
    {
        self.bits
    }
}

} // verus!
