//! What the driver's operations compute between their register transfers.
//!
//! Each operation of the driver reads a register, and the modifying ones
//! write a register back.  The functions here take the bytes that the read
//! returned and give the operation's result or the bytes to write.
use vstd::prelude::*;
use crate::configuration::{Configuration, ConfigurationFields, configuration_fields};
use crate::identification::{DieId, ManufacturerId};
use crate::measurement::{
    BusVoltage, ShuntVoltage, signed_measurement, BUS_VOLTAGE_LSB_MV, SHUNT_VOLTAGE_LSB_UV,
};
use crate::register_map::ChannelId;
use crate::word::word_of_be_bytes;

verus! {

/// The word that two register bytes, most significant first, denote.
pub open spec fn register_word(bytes: [u8; 2]) -> u16 {
    word_of_be_bytes(bytes@) as u16
}

/// The register word is the first byte times 256 plus the second, and
/// nothing else.
pub proof fn lemma_register_word_is_big_endian(bytes: [u8; 2])
    ensures
        register_word(bytes) == bytes@[0] as int * 256 + bytes@[1] as int,
{
}

/// Setting or clearing bits of the high byte of a word leaves its low
/// byte alone and acts on the high byte alone.
proof fn lemma_high_byte_update(word: u16, b0: u8, b1: u8, m: u8)
    requires
        word == b0 as int * 256 + b1 as int,
    ensures
        (word | ((m as u16) << 8u16)) / 256 == b0 | m,
        (word | ((m as u16) << 8u16)) % 256 == b1,
        (word & (((m as u16) << 8u16) | 0xffu16)) / 256 == b0 & m,
        (word & (((m as u16) << 8u16) | 0xffu16)) % 256 == b1,
{
    assert(word == b0 * 256 + b1 ==> (word | ((m as u16) << 8u16)) / 256 == (b0 | m) && (word | ((m
        as u16) << 8u16)) % 256 == b1 && (word & (((m as u16) << 8u16) | 0xffu16)) / 256 == (b0
        & m) && (word & (((m as u16) << 8u16) | 0xffu16)) % 256 == b1) by (bit_vector);
}

/// The bus voltage in millivolts that a bus-voltage register read reports.
pub fn bus_voltage_mv(bytes: [u8; 2]) -> (mv: i32)
    ensures
        mv == signed_measurement(register_word(bytes), BUS_VOLTAGE_LSB_MV as int),
        bytes@[0] < 0x80 ==> mv == (bytes@[0] as int * 256 + bytes@[1] as int) / 8 * 8,
        bytes@[0] >= 0x80 ==> mv == -(((bytes@[0] as int - 0x80) * 256 + bytes@[1] as int) / 8
            * 8),
{
    BusVoltage::from_be_bytes(bytes).voltage_mv()
}

/// The shunt voltage in microvolts that a shunt-voltage register read reports.
pub fn shunt_voltage_uv(bytes: [u8; 2]) -> (uv: i32)
    ensures
        uv == signed_measurement(register_word(bytes), SHUNT_VOLTAGE_LSB_UV as int),
        bytes@[0] < 0x80 ==> uv == (bytes@[0] as int * 256 + bytes@[1] as int) / 8 * 40,
        bytes@[0] >= 0x80 ==> uv == -(((bytes@[0] as int - 0x80) * 256 + bytes@[1] as int) / 8
            * 40),
{
    ShuntVoltage::from_be_bytes(bytes).voltage_uv()
}

/// The manufacturer ID that a manufacturer-ID register read reports.
pub fn manufacturer_id(bytes: [u8; 2]) -> (id: u16)
    ensures
        id == register_word(bytes),
        id == bytes@[0] as int * 256 + bytes@[1] as int,
{
    ManufacturerId::from_be_bytes(bytes).manufacturer_id()
}

/// The die ID that a die-ID register read reports.
pub fn die_id(bytes: [u8; 2]) -> (id: u16)
    ensures
        id == register_word(bytes),
        id == bytes@[0] as int * 256 + bytes@[1] as int,
{
    DieId::from_be_bytes(bytes).die_id()
}

/// The configuration bytes to write back to enable or disable a channel,
/// given the configuration bytes read: the channel's enable flag becomes
/// `enable` and every other field is kept.
pub fn configuration_with_channel_enable(current: [u8; 2], channel: ChannelId, enable: bool) -> (next: [u8; 2])
    ensures
        configuration_fields(register_word(next)) == configuration_fields(
            register_word(current),
        ).with_channel_enable(channel, enable),
        next@[1] == current@[1],
        enable ==> next@[0] == current@[0] | (match channel {
            ChannelId::Channel1 => 0x40u8,
            ChannelId::Channel2 => 0x20u8,
            ChannelId::Channel3 => 0x10u8,
        }),
        !enable ==> next@[0] == current@[0] & (match channel {
            ChannelId::Channel1 => 0xbfu8,
            ChannelId::Channel2 => 0xdfu8,
            ChannelId::Channel3 => 0xefu8,
        }),
{
    let mut config = Configuration::from_be_bytes(current);
    let ghost read = config.spec_bits();
    config.set_channel_enable(channel, enable);
    proof {
        assert((0x40u8 as u16) << 8u16 == 0x4000u16 && (0x20u8 as u16) << 8u16 == 0x2000u16 && (
        0x10u8 as u16) << 8u16 == 0x1000u16 && (((0xbfu8 as u16) << 8u16) | 0xffu16) == 0xbfffu16
            && (((0xdfu8 as u16) << 8u16) | 0xffu16) == 0xdfffu16 && (((0xefu8 as u16) << 8u16)
            | 0xffu16) == 0xefffu16) by (bit_vector);
        match channel {
            ChannelId::Channel1 => {
                lemma_high_byte_update(read, current[0], current[1], 0x40u8);
                lemma_high_byte_update(read, current[0], current[1], 0xbfu8);
            },
            ChannelId::Channel2 => {
                lemma_high_byte_update(read, current[0], current[1], 0x20u8);
                lemma_high_byte_update(read, current[0], current[1], 0xdfu8);
            },
            ChannelId::Channel3 => {
                lemma_high_byte_update(read, current[0], current[1], 0x10u8);
                lemma_high_byte_update(read, current[0], current[1], 0xefu8);
            },
        }
    }
    config.to_be_bytes()
}

/// The configuration bytes to write back to reset the device, given the
/// configuration bytes read: the reset flag is set and every other field
/// is kept.
pub fn configuration_with_reset(current: [u8; 2]) -> (next: [u8; 2])
    ensures
        configuration_fields(register_word(next)) == (ConfigurationFields {
            reset: true,
            ..configuration_fields(register_word(current))
        }),
        next@[0] == current@[0] | 0x80u8,
        next@[1] == current@[1],
{
    let mut config = Configuration::from_be_bytes(current);
    proof {
        assert((0x80u8 as u16) << 8u16 == 0x8000u16) by (bit_vector);
        lemma_high_byte_update(config.spec_bits(), current[0], current[1], 0x80u8);
    }
    config.set_reset(true);
    config.to_be_bytes()
}

} // verus!
