use ina3221_dd::error::Ina3221Error;
use ina3221_dd::interface::{frame_register_write, Ina3221Interface, WRITE_BUFFER_SIZE, WRITE_TOO_LONG};
use ina3221_dd::operations::{
    bus_voltage_mv, configuration_with_channel_enable, configuration_with_reset, die_id,
    manufacturer_id, shunt_voltage_uv,
};
use ina3221_dd::{ChannelId, INA3221_I2C_ADDR_GND, INA3221_I2C_ADDR_SCL};

#[test]
fn interface_keeps_bus_and_address() {
    let mut iface = Ina3221Interface::new(vec![1u8, 2, 3], INA3221_I2C_ADDR_SCL);
    assert_eq!(iface.address(), 0x43);
    iface.bus_mut().push(4);
    assert_eq!(iface.bus_mut().as_slice(), &[1, 2, 3, 4]);
    assert_eq!(iface.address(), 0x43);
}

#[test]
fn register_write_is_address_then_data() {
    let frame = frame_register_write::<()>(0x00, &[0x71, 0x27]).unwrap();
    assert_eq!(frame.len(), 3);
    assert_eq!(frame.as_slice(), &[0x00, 0x71, 0x27]);

    let frame = frame_register_write::<()>(0x0e, &[]).unwrap();
    assert_eq!(frame.as_slice(), &[0x0e]);

    let frame = frame_register_write::<()>(0x07, &[1, 2, 3, 4]).unwrap();
    assert_eq!(frame.len(), WRITE_BUFFER_SIZE);
    assert_eq!(frame.as_slice(), &[0x07, 1, 2, 3, 4]);
}

#[test]
fn register_write_longer_than_buffer_is_refused() {
    match frame_register_write::<u32>(0x00, &[1, 2, 3, 4, 5]) {
        Err(Ina3221Error::NotSupported(msg)) => {
            assert_eq!(msg, WRITE_TOO_LONG);
            assert_eq!(msg, "Write data length exceeds buffer");
        }
        _ => panic!("a five-byte write must be refused"),
    }
}

#[test]
fn error_variants() {
    let e: Ina3221Error<u8> = Ina3221Error::I2c(7);
    assert!(matches!(e, Ina3221Error::I2c(7)));
    let e: Ina3221Error<u8> = Ina3221Error::InvalidChannel;
    assert!(matches!(e, Ina3221Error::InvalidChannel));
}

#[test]
fn operations_decode_reads() {
    assert_eq!(bus_voltage_mv([0x2e, 0xe0]), 12000);
    assert_eq!(bus_voltage_mv([0x80, 0x08]), -8);
    assert_eq!(shunt_voltage_uv([0x01, 0x90]), 2000);
    assert_eq!(shunt_voltage_uv([0x81, 0x90]), -2000);
    assert_eq!(manufacturer_id([0x54, 0x49]), 0x5449);
    assert_eq!(die_id([0x32, 0x20]), 0x3220);
    assert_eq!(INA3221_I2C_ADDR_GND, 0x40);
}

#[test]
fn operations_modify_configuration() {
    assert_eq!(
        configuration_with_channel_enable([0x71, 0x27], ChannelId::Channel2, false),
        [0x51, 0x27]
    );
    assert_eq!(
        configuration_with_channel_enable([0x01, 0x27], ChannelId::Channel1, true),
        [0x41, 0x27]
    );
    assert_eq!(
        configuration_with_channel_enable([0x71, 0x27], ChannelId::Channel3, true),
        [0x71, 0x27]
    );
    assert_eq!(configuration_with_reset([0x71, 0x27]), [0xf1, 0x27]);
    assert_eq!(configuration_with_reset([0xf1, 0x27]), [0xf1, 0x27]);
}
