use ina3221_dd::configuration::{Configuration, ConfigurationFields};
use ina3221_dd::identification::{DieId, ManufacturerId, EXPECTED_DIE_ID, EXPECTED_MANUFACTURER_ID};
use ina3221_dd::measurement::{BusVoltage, ShuntVoltage};
use ina3221_dd::register_map::{CONFIGURATION_ADDRESS, DIE_ID_ADDRESS, MANUFACTURER_ID_ADDRESS};
use ina3221_dd::word::{word_from_be_bytes, word_to_be_bytes};
use ina3221_dd::{
    ChannelId, INA3221_I2C_ADDR_GND, INA3221_I2C_ADDR_SCL, INA3221_I2C_ADDR_SDA,
    INA3221_I2C_ADDR_VS,
};

#[test]
fn i2c_addresses_follow_a0_pin() {
    assert_eq!(INA3221_I2C_ADDR_GND, 0x40);
    assert_eq!(INA3221_I2C_ADDR_VS, 0x41);
    assert_eq!(INA3221_I2C_ADDR_SDA, 0x42);
    assert_eq!(INA3221_I2C_ADDR_SCL, 0x43);
}

#[test]
fn register_addresses() {
    assert_eq!(CONFIGURATION_ADDRESS, 0x00);
    assert_eq!(MANUFACTURER_ID_ADDRESS, 0xfe);
    assert_eq!(DIE_ID_ADDRESS, 0xff);
    assert_eq!(ChannelId::Channel1.shunt_voltage_address(), 0x01);
    assert_eq!(ChannelId::Channel1.bus_voltage_address(), 0x02);
    assert_eq!(ChannelId::Channel2.shunt_voltage_address(), 0x03);
    assert_eq!(ChannelId::Channel2.bus_voltage_address(), 0x04);
    assert_eq!(ChannelId::Channel3.shunt_voltage_address(), 0x05);
    assert_eq!(ChannelId::Channel3.bus_voltage_address(), 0x06);
}

#[test]
fn words_travel_most_significant_byte_first() {
    assert_eq!(word_from_be_bytes([0x54, 0x49]), 0x5449);
    assert_eq!(word_to_be_bytes(0x3220), [0x32, 0x20]);
    for word in [0u16, 1, 0xff, 0x100, 0x7127, 0x8000, 0xffff] {
        assert_eq!(word_from_be_bytes(word_to_be_bytes(word)), word);
    }
}

#[test]
fn bus_voltage_is_eight_millivolts_per_step() {
    // magnitude 1 in bits 14..3
    assert_eq!(BusVoltage::from_bits(0x0008).voltage_mv(), 8);
    // 12 V = 1500 steps = 0x5DC << 3 = 0x2EE0
    assert_eq!(BusVoltage::from_bits(0x2ee0).voltage_mv(), 12000);
    assert_eq!(BusVoltage::from_be_bytes([0x2e, 0xe0]).voltage_mv(), 12000);
    // largest magnitude
    assert_eq!(BusVoltage::from_bits(0x7ff8).voltage_mv(), 32760);
    assert_eq!(BusVoltage::from_bits(0x7ff8).bus_data(), 4095);
    assert!(!BusVoltage::from_bits(0x7ff8).sign());
}

#[test]
fn bus_voltage_sign_bit_negates() {
    let reg = BusVoltage::from_bits(0x8010);
    assert!(reg.sign());
    assert_eq!(reg.bus_data(), 2);
    assert_eq!(reg.voltage_mv(), -16);
    assert_eq!(BusVoltage::from_bits(0xfff8).voltage_mv(), -32760);
}

#[test]
fn low_three_bits_are_ignored() {
    assert_eq!(BusVoltage::from_bits(0x0007).voltage_mv(), 0);
    assert_eq!(BusVoltage::from_bits(0x000f).voltage_mv(), 8);
    assert_eq!(ShuntVoltage::from_bits(0x0007).voltage_uv(), 0);
    assert_eq!(BusVoltage::from_bits(0x000f).bits(), 0x000f);
}

#[test]
fn shunt_voltage_is_forty_microvolts_per_step() {
    assert_eq!(ShuntVoltage::from_bits(0x0008).voltage_uv(), 40);
    assert_eq!(ShuntVoltage::from_bits(0x7ff8).voltage_uv(), 163800);
    assert_eq!(ShuntVoltage::from_bits(0xfff8).voltage_uv(), -163800);
    assert_eq!(ShuntVoltage::from_be_bytes([0x00, 0xc8]).shunt_data(), 25);
    assert_eq!(ShuntVoltage::from_be_bytes([0x00, 0xc8]).voltage_uv(), 1000);
    assert_eq!(ShuntVoltage::from_be_bytes([0x80, 0xc8]).voltage_uv(), -1000);
}

#[test]
fn identification_registers() {
    let m = ManufacturerId::from_be_bytes([0x54, 0x49]);
    assert_eq!(m.manufacturer_id(), EXPECTED_MANUFACTURER_ID);
    let d = DieId::from_be_bytes([0x32, 0x20]);
    assert_eq!(d.die_id(), EXPECTED_DIE_ID);
    assert_eq!(DieId::from_be_bytes([0x12, 0x34]).die_id(), 0x1234);
}

#[test]
fn configuration_power_on_value_decodes() {
    // power-on value of the configuration register
    let c = Configuration::from_bits(0x7127);
    assert!(!c.reset());
    assert!(c.ch_1_enable());
    assert!(c.ch_2_enable());
    assert!(c.ch_3_enable());
    assert_eq!(c.averaging_mode(), 0);
    assert_eq!(c.bus_conversion_time(), 4);
    assert_eq!(c.shunt_conversion_time(), 4);
    assert_eq!(c.operating_mode(), 7);
    assert_eq!(c.to_be_bytes(), [0x71, 0x27]);
    assert_eq!(Configuration::from_be_bytes([0x71, 0x27]), c);
}

#[test]
fn configuration_setters_touch_only_their_field() {
    let mut c = Configuration::from_bits(0x7127);
    c.set_ch_2_enable(false);
    assert_eq!(c.bits(), 0x5127);
    c.set_ch_2_enable(true);
    assert_eq!(c.bits(), 0x7127);
    c.set_averaging_mode(1);
    assert_eq!(c.bits(), 0x7327);
    assert_eq!(c.averaging_mode(), 1);
    // only the low three bits of a code are kept
    c.set_operating_mode(0x0d);
    assert_eq!(c.operating_mode(), 5);
    assert_eq!(c.bits(), 0x7325);
    c.set_bus_conversion_time(7);
    c.set_shunt_conversion_time(0);
    assert_eq!(c.bus_conversion_time(), 7);
    assert_eq!(c.shunt_conversion_time(), 0);
    assert_eq!(c.bits(), 0x73c5);
    c.set_reset(true);
    assert!(c.reset());
    assert_eq!(c.bits(), 0xf3c5);
    c.set_ch_1_enable(false);
    c.set_ch_3_enable(false);
    assert_eq!(c.bits(), 0xa3c5);
}

#[test]
fn channel_enable_by_channel_id() {
    let mut c = Configuration::from_bits(0x0000);
    c.set_channel_enable(ChannelId::Channel3, true);
    assert!(c.channel_enable(ChannelId::Channel3));
    assert!(!c.channel_enable(ChannelId::Channel1));
    assert!(!c.channel_enable(ChannelId::Channel2));
    assert_eq!(c.bits(), 0x1000);
    c.set_channel_enable(ChannelId::Channel1, true);
    assert_eq!(c.bits(), 0x5000);
    // writing the same value twice is writing it once
    c.set_channel_enable(ChannelId::Channel1, true);
    assert_eq!(c.bits(), 0x5000);
    c.set_channel_enable(ChannelId::Channel1, false);
    assert_eq!(c.bits(), 0x1000);
}

#[test]
fn channel_enable_writes_commute() {
    let mut a = Configuration::from_bits(0x7127);
    a.set_channel_enable(ChannelId::Channel1, false);
    a.set_channel_enable(ChannelId::Channel3, false);
    let mut b = Configuration::from_bits(0x7127);
    b.set_channel_enable(ChannelId::Channel3, false);
    b.set_channel_enable(ChannelId::Channel1, false);
    assert_eq!(a, b);
    assert_eq!(a.bits(), 0x2127);
}

#[test]
fn configuration_from_fields_builds_the_word() {
    let fields = ConfigurationFields {
        reset: false,
        ch_1_enable: true,
        ch_2_enable: true,
        ch_3_enable: true,
        averaging_mode: 0,
        bus_conversion_time: 4,
        shunt_conversion_time: 4,
        operating_mode: 7,
    };
    assert_eq!(Configuration::from_fields(fields).bits(), 0x7127);
    let fields = ConfigurationFields { reset: true, averaging_mode: 7, ..fields };
    assert_eq!(Configuration::from_fields(fields).bits(), 0xff27);
}
