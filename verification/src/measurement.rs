//! The shunt-voltage and bus-voltage measurement registers.
//!
//! Both registers share one layout: bit 15 is the sign, bits 14 to 3 hold
//! the 12-bit magnitude of the measurement and bits 2 to 0 are unused.
//! A bus-voltage step is 8 mV; a shunt-voltage step is 40 uV.
use vstd::prelude::*;
use crate::word::{word_from_be_bytes, word_of_be_bytes};

verus! {

/// Size of one bus-voltage step, in millivolts.
pub const BUS_VOLTAGE_LSB_MV: i32 = 8;

/// Size of one shunt-voltage step, in microvolts.
pub const SHUNT_VOLTAGE_LSB_UV: i32 = 40;

/// Whether the sign bit (bit 15) of a measurement word is set.
pub open spec fn measurement_sign(word: u16) -> bool {
    word / 0x8000 == 1
}

/// The 12-bit magnitude held in bits 14 to 3 of a measurement word.
pub open spec fn measurement_data(word: u16) -> int {
    ((word / 8) % 4096) as int
}

/// The value a measurement word stands for, in units of `lsb`: the
/// magnitude times `lsb`, negated when the sign bit is set.
pub open spec fn signed_measurement(word: u16, lsb: int) -> int {
    if measurement_sign(word) {
        -(measurement_data(word) * lsb)
    } else {
        measurement_data(word) * lsb
    }
}

fn sign_of(word: u16) -> (sign: bool)
    ensures
        sign == measurement_sign(word),
        sign == ((word >> 15u16) & 1u16 == 1u16),
{
    let bit: u16 = (word >> 15u16) & 1;
    assert(((word >> 15u16) & 1) == word / 0x8000) by (bit_vector);
    bit == 1
}

fn data_of(word: u16) -> (data: u16)
    ensures
        data == measurement_data(word),
        data == (word >> 3u16) & 0x0fffu16,
        data < 4096,
{
    assert(((word >> 3u16) & 0x0fff) == (word / 8) % 4096) by (bit_vector);
    (word >> 3u16) & 0x0fff
}

/// Content of a channel's bus-voltage register (0x02, 0x04, 0x06).
#[derive(Debug, Clone, Copy, PartialEq, Eq, Structural)]
pub struct BusVoltage {
    bits: u16,
}

impl View for BusVoltage {
    type V = u16;

    open spec fn view(&self) -> u16 {
        self.spec_bits()
    }
}

impl BusVoltage {
    /// The register word.
    pub closed spec fn spec_bits(self) -> u16 {
        self.bits
    }

    /// The register holding the given word.
    pub fn from_bits(bits: u16) -> (r: Self)
        ensures
            r@ == bits,
    {
        BusVoltage { bits }
    }

    /// The register holding the word the device sent, most significant byte first.
    pub fn from_be_bytes(bytes: [u8; 2]) -> (r: Self)
        ensures
            r@ == word_of_be_bytes(bytes@),
            r@ == bytes@[0] as int * 256 + bytes@[1] as int,
    {
        BusVoltage { bits: word_from_be_bytes(bytes) }
    }

    /// The register word.
    pub fn bits(&self) -> (bits: u16)
        ensures
            bits == self@,
    {
        self.bits
    }

    /// The sign bit (bit 15).
    pub fn sign(&self) -> (sign: bool)
        ensures
            sign == measurement_sign(self@),
            sign == ((self@ >> 15u16) & 1u16 == 1u16),
    {
        sign_of(self.bits)
    }

    /// The 12-bit magnitude held in bits 14 to 3.
    pub fn bus_data(&self) -> (data: u16)
        ensures
            data == measurement_data(self@),
            data == (self@ >> 3u16) & 0x0fffu16,
            data < 4096,
    {
        data_of(self.bits)
    }

    /// The bus voltage in millivolts: the magnitude times 8 mV, negated
    /// when the sign bit is set.
    pub fn voltage_mv(&self) -> (mv: i32)
        ensures
            mv == signed_measurement(self@, BUS_VOLTAGE_LSB_MV as int),
            (self@ >> 15u16) & 1u16 == 0u16 ==> mv == ((self@ >> 3u16) & 0x0fffu16) as int * 8,
            (self@ >> 15u16) & 1u16 == 1u16 ==> mv == -(((self@ >> 3u16) & 0x0fffu16) as int
                * 8),
    {
        let data: i32 = self.bus_data() as i32;
        let magnitude: i32 = data * BUS_VOLTAGE_LSB_MV;
        if self.sign() {
            -magnitude
        } else {
            magnitude
        }
    }
}

/// Content of a channel's shunt-voltage register (0x01, 0x03, 0x05).
#[derive(Debug, Clone, Copy, PartialEq, Eq, Structural)]
pub struct ShuntVoltage {
    bits: u16,
}

impl View for ShuntVoltage {
    type V = u16;

    open spec fn view(&self) -> u16 {
        self.spec_bits()
    }
}

impl ShuntVoltage {
    /// The register word.
    pub closed spec fn spec_bits(self) -> u16 {
        self.bits
    }

    /// The register holding the given word.
    pub fn from_bits(bits: u16) -> (r: Self)
        ensures
            r@ == bits,
    {
        ShuntVoltage { bits }
    }

    /// The register holding the word the device sent, most significant byte first.
    pub fn from_be_bytes(bytes: [u8; 2]) -> (r: Self)
        ensures
            r@ == word_of_be_bytes(bytes@),
            r@ == bytes@[0] as int * 256 + bytes@[1] as int,
    {
        ShuntVoltage { bits: word_from_be_bytes(bytes) }
    }

    /// The register word.
    pub fn bits(&self) -> (bits: u16)
        ensures
            bits == self@,
    {
        self.bits
    }

    /// The sign bit (bit 15).
    pub fn sign(&self) -> (sign: bool)
        ensures
            sign == measurement_sign(self@),
            sign == ((self@ >> 15u16) & 1u16 == 1u16),
    {
        sign_of(self.bits)
    }

    /// The 12-bit magnitude held in bits 14 to 3.
    pub fn shunt_data(&self) -> (data: u16)
        ensures
            data == measurement_data(self@),
            data == (self@ >> 3u16) & 0x0fffu16,
            data < 4096,
    {
        data_of(self.bits)
    }

    /// The shunt voltage in microvolts: the magnitude times 40 uV, negated
    /// when the sign bit is set.
    pub fn voltage_uv(&self) -> (uv: i32)
        ensures
            uv == signed_measurement(self@, SHUNT_VOLTAGE_LSB_UV as int),
            (self@ >> 15u16) & 1u16 == 0u16 ==> uv == ((self@ >> 3u16) & 0x0fffu16) as int * 40,
            (self@ >> 15u16) & 1u16 == 1u16 ==> uv == -(((self@ >> 3u16) & 0x0fffu16) as int
                * 40),
    {
        let data: i32 = self.shunt_data() as i32;
        let magnitude: i32 = data * SHUNT_VOLTAGE_LSB_UV;
        if self.sign() {
            -magnitude
        } else {
            magnitude
        }
    }
}

/// What a measurement word stands for, in units of `lsb`: bits 14..3
/// taken as an unsigned magnitude, times `lsb`, negated exactly when
/// bit 15 is set.
pub proof fn lemma_signed_measurement_bits(word: u16, lsb: int)
    ensures
        (word >> 15u16) & 1u16 == 0u16 ==> signed_measurement(word, lsb) == ((word >> 3u16)
            & 0x0fffu16) as int * lsb,
        (word >> 15u16) & 1u16 == 1u16 ==> signed_measurement(word, lsb) == -(((word >> 3u16)
            & 0x0fffu16) as int * lsb),
        (word >> 15u16) & 1u16 == 0u16 || (word >> 15u16) & 1u16 == 1u16,
{
    assert(((word >> 3u16) & 0x0fffu16) == (word / 8) % 4096 && ((word >> 15u16) & 1u16) == word
        / 0x8000 && (((word >> 15u16) & 1u16) == 0u16 || ((word >> 15u16) & 1u16) == 1u16))
        by (bit_vector);
}

/// A word with bit 15 clear never reports a negative value, and one with
/// bit 15 set never reports a positive one.
pub proof fn lemma_signed_measurement_sign(word: u16, lsb: int)
    requires
        lsb > 0,
    ensures
        (word >> 15u16) & 1u16 == 0u16 ==> signed_measurement(word, lsb) >= 0,
        (word >> 15u16) & 1u16 == 1u16 ==> signed_measurement(word, lsb) <= 0,
{
    lemma_signed_measurement_bits(word, lsb);
    assert(((word >> 3u16) & 0x0fffu16) as int * lsb >= 0) by (nonlinear_arith)
        requires
            lsb > 0,
    ;
}

/// For a fixed sign bit, the reported value grows strictly in magnitude
/// with the 12-bit magnitude in bits 14..3: each step is exactly `lsb`.
pub proof fn lemma_signed_measurement_monotonic(a: u16, b: u16, lsb: int)
    requires
        lsb > 0,
        (a >> 15u16) & 1u16 == (b >> 15u16) & 1u16,
        ((a >> 3u16) & 0x0fffu16) < ((b >> 3u16) & 0x0fffu16),
    ensures
        (a >> 15u16) & 1u16 == 0u16 ==> signed_measurement(a, lsb) < signed_measurement(b, lsb),
        (a >> 15u16) & 1u16 == 1u16 ==> signed_measurement(a, lsb) > signed_measurement(b, lsb),
        (a >> 15u16) & 1u16 == 0u16 ==> signed_measurement(b, lsb) - signed_measurement(a, lsb)
            == (((b >> 3u16) & 0x0fffu16) - ((a >> 3u16) & 0x0fffu16)) * lsb,
{
    lemma_signed_measurement_bits(a, lsb);
    lemma_signed_measurement_bits(b, lsb);
    let da: int = ((a >> 3u16) & 0x0fffu16) as int;
    let db: int = ((b >> 3u16) & 0x0fffu16) as int;
    assert(da * lsb < db * lsb && db * lsb - da * lsb == (db - da) * lsb) by (nonlinear_arith)
        requires
            da < db,
            lsb > 0,
    ;
}

/// Every bus voltage the register can report is a whole number of 8 mV
/// steps and lies within -32760 mV ..= 32760 mV.
pub proof fn lemma_bus_voltage_range(word: u16)
    ensures
        -32760 <= signed_measurement(word, BUS_VOLTAGE_LSB_MV as int) <= 32760,
        signed_measurement(word, BUS_VOLTAGE_LSB_MV as int) % 8 == 0,
{
}

/// Every shunt voltage the register can report is a whole number of 40 uV
/// steps and lies within -163800 uV ..= 163800 uV, the +-163.8 mV range
/// of the device.
pub proof fn lemma_shunt_voltage_range(word: u16)
    ensures
        -163800 <= signed_measurement(word, SHUNT_VOLTAGE_LSB_UV as int) <= 163800,
        signed_measurement(word, SHUNT_VOLTAGE_LSB_UV as int) % 40 == 0,
{
}

/// The sign bit and the magnitude are all that a voltage depends on: the
/// three unused low bits of the word play no part.
pub proof fn lemma_measurement_ignores_low_bits(a: u16, b: u16, lsb: int)
    requires
        a / 8 == b / 8,
    ensures
        signed_measurement(a, lsb) == signed_measurement(b, lsb),
{
}

} // verus!
