//! The register map of the device: register addresses and the three
//! measurement channels.
use vstd::prelude::*;

verus! {

/// Address of the configuration register.
pub const CONFIGURATION_ADDRESS: u8 = 0x00;

/// Address of the manufacturer-ID register.
pub const MANUFACTURER_ID_ADDRESS: u8 = 0xfe;

/// Address of the die-ID register.
pub const DIE_ID_ADDRESS: u8 = 0xff;

/// Size in bytes of every register of the device.
pub const REGISTER_SIZE_BYTES: usize = 2;

/// One of the three monitored power rails.
#[derive(Debug, Clone, Copy, PartialEq, Eq, Structural)]
pub enum ChannelId {
    Channel1,
    Channel2,
    Channel3,
}

impl ChannelId {
    /// Position of the channel, counted from zero.
    pub open spec fn spec_index(self) -> nat {
        match self {
            ChannelId::Channel1 => 0,
            ChannelId::Channel2 => 1,
            ChannelId::Channel3 => 2,
        }
    }

    /// Address of the channel's shunt-voltage register (0x01, 0x03, 0x05).
    pub fn shunt_voltage_address(self) -> (address: u8)
        ensures
            address == 2 * self.spec_index() + 1,
            self == ChannelId::Channel1 ==> address == 0x01,
            self == ChannelId::Channel2 ==> address == 0x03,
            self == ChannelId::Channel3 ==> address == 0x05,
    {
        match self {
            ChannelId::Channel1 => 0x01,
            ChannelId::Channel2 => 0x03,
            ChannelId::Channel3 => 0x05,
        }
    }

    /// Address of the channel's bus-voltage register (0x02, 0x04, 0x06).
    pub fn bus_voltage_address(self) -> (address: u8)
        ensures
            address == 2 * self.spec_index() + 2,
            self == ChannelId::Channel1 ==> address == 0x02,
            self == ChannelId::Channel2 ==> address == 0x04,
            self == ChannelId::Channel3 ==> address == 0x06,
    {
        match self {
            ChannelId::Channel1 => 0x02,
            ChannelId::Channel2 => 0x04,
            ChannelId::Channel3 => 0x06,
        }
    }
}

/// No two registers that the driver reads or writes share an address: the
/// three channels' shunt- and bus-voltage registers, the configuration
/// register and the two identification registers are six plus three
/// distinct addresses.
pub proof fn lemma_register_addresses_distinct(a: ChannelId, b: ChannelId)
    ensures
        2 * a.spec_index() + 1 != 2 * b.spec_index() + 2,
        a != b ==> 2 * a.spec_index() + 1 != 2 * b.spec_index() + 1,
        a != b ==> 2 * a.spec_index() + 2 != 2 * b.spec_index() + 2,
        2 * a.spec_index() + 1 != CONFIGURATION_ADDRESS,
        2 * a.spec_index() + 2 != CONFIGURATION_ADDRESS,
        2 * a.spec_index() + 1 < MANUFACTURER_ID_ADDRESS,
        2 * a.spec_index() + 2 < MANUFACTURER_ID_ADDRESS,
        MANUFACTURER_ID_ADDRESS != DIE_ID_ADDRESS,
{
}

} // verus!
