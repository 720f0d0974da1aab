//! Errors of the driver.
use vstd::prelude::*;

verus! {

/// What went wrong in a driver operation.
#[derive(Debug)]
pub enum Ina3221Error<I2cErr> {
    /// The I2C bus reported an error.
    I2c(I2cErr),
    /// The channel asked for does not exist.
    InvalidChannel,
    /// The operation or mode asked for is not supported.
    NotSupported(&'static str),
}

} // verus!
