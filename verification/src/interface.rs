//! The I2C register interface of the device.
//!
//! A register read is an I2C write of the register address followed by a
//! read of the register's bytes; a register write is a single I2C write of
//! the register address followed by the register's bytes.  This module
//! holds the bus and device address that the transfers go to, and frames
//! the bytes of a register write.
use vstd::prelude::*;
use crate::error::Ina3221Error;

verus! {

/// Size of the buffer that a register write is framed in: the register
/// address and at most four data bytes.
pub const WRITE_BUFFER_SIZE: usize = 5;

/// Message carried by the error for a write whose data does not fit the buffer.
pub const WRITE_TOO_LONG: &'static str = "Write data length exceeds buffer";

/// The I2C bus a device hangs on, with the device's 7-bit address.
pub struct Ina3221Interface<I2CBus> {
    i2c_bus: I2CBus,
    address: u8,
}

impl<I2CBus> Ina3221Interface<I2CBus> {
    /// The bus.
    pub closed spec fn spec_bus(&self) -> I2CBus {
        self.i2c_bus
    }

    /// The device's address on the bus.
    pub closed spec fn spec_address(&self) -> u8 {
        self.address
    }

    /// An interface to the device at `address` on `i2c_bus`.
    pub fn new(i2c_bus: I2CBus, address: u8) -> (r: Self)
        ensures
            r.spec_bus() == i2c_bus,
            r.spec_address() == address,
    {
        Self { i2c_bus, address }
    }

    /// The device's address on the bus.
    pub fn address(&self) -> (address: u8)
        ensures
            address == self.spec_address(),
    {
        self.address
    }

    /// The bus, to perform a transfer on; the address stays as it was.
    pub fn bus_mut(&mut self) -> (bus: &mut I2CBus)
        ensures
            *bus == old(self).spec_bus(),
            final(self).spec_bus() == *final(bus),
            final(self).spec_address() == old(self).spec_address(),
    {
        &mut self.i2c_bus
    }
}

/// The bytes of one register write: the register address, then the data.
pub struct RegisterWrite {
    buffer: [u8; 5],
    len: usize,
}

impl View for RegisterWrite {
    type V = Seq<u8>;

    closed spec fn view(&self) -> Seq<u8> {
        self.buffer@.take(self.len as int)
    }
}

impl RegisterWrite {
    /// The framed bytes fit the buffer and hold at least the register address.
    #[verifier::type_invariant]
    spec fn fits(&self) -> bool {
        1 <= self.len <= WRITE_BUFFER_SIZE
    }

    /// The number of bytes to send.
    pub fn len(&self) -> (len: usize)
        ensures
            len == self@.len(),
            1 <= len <= WRITE_BUFFER_SIZE,
    {
        proof {
            use_type_invariant(self);
        }
        self.len
    }

    /// The bytes to send.
    pub fn as_slice(&self) -> (bytes: &[u8])
        ensures
            bytes@ == self@,
    {
        proof {
            use_type_invariant(self);
        }
        vstd::slice::slice_subrange(self.buffer.as_slice(), 0, self.len)
    }
}

/// Frames a write of `data` to the register at `register`: the register
/// address followed by the data.  Data of five bytes or more does not fit
/// the buffer and is refused.
pub fn frame_register_write<E>(register: u8, data: &[u8]) -> (r: Result<
    RegisterWrite,
    Ina3221Error<E>,
>)
    ensures
        r is Ok <==> 1 + data@.len() <= WRITE_BUFFER_SIZE,
        r matches Ok(frame) ==> frame@ == seq![register] + data@,
        r matches Err(e) ==> e == Ina3221Error::<E>::NotSupported(WRITE_TOO_LONG),
{
    if data.len() >= WRITE_BUFFER_SIZE {
        return Err(Ina3221Error::NotSupported(WRITE_TOO_LONG));
    }
    let mut buffer: [u8; 5] = [0u8; 5];
    buffer[0] = register;
    let mut i: usize = 0;
    while i < data.len()
        invariant
            i <= data@.len() < WRITE_BUFFER_SIZE,
            buffer@.len() == WRITE_BUFFER_SIZE,
            buffer@[0] == register,
            forall|k: int| 0 <= k < i ==> buffer@[k + 1] == data@[k],
        decreases data@.len() - i,
    {
        buffer[i + 1] = data[i];
        i = i + 1;
    }
    let frame = RegisterWrite { buffer, len: data.len() + 1 };
    assert(frame@ =~= seq![register] + data@);
    Ok(frame)
}

} // verus!
