//! Register-level logic of a driver for the Texas Instruments INA3221
//! triple-channel, high-side current and bus voltage monitor.
//!
//! The crate holds what the driver computes: the register map, the
//! decoding and encoding of register words, the voltages derived from the
//! measurement registers and the framing of I2C register writes.  The bus
//! transfers themselves are performed by the caller.
use vstd::prelude::*;

pub mod register_map;
pub mod word;
pub mod bitfield;
pub mod measurement;
pub mod configuration;
pub mod identification;
pub mod error;
pub mod interface;
pub mod operations;

pub use error::Ina3221Error;
pub use interface::Ina3221Interface;
pub use register_map::ChannelId;

verus! {

/// I2C address of the device when its A0 pin is tied to GND.
pub const INA3221_I2C_ADDR_GND: u8 = 0x40;

/// I2C address of the device when its A0 pin is tied to VS+.
pub const INA3221_I2C_ADDR_VS: u8 = 0x41;

/// I2C address of the device when its A0 pin is tied to SDA.
pub const INA3221_I2C_ADDR_SDA: u8 = 0x42;

/// I2C address of the device when its A0 pin is tied to SCL.
pub const INA3221_I2C_ADDR_SCL: u8 = 0x43;

} // verus!
