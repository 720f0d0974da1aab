# ina3221_dd

Register-level logic of a driver for the Texas Instruments INA3221
triple-channel current and bus-voltage monitor, written in Verus.

- `src/` is the verified library: the register map (`register_map`), the
  16-bit register words and their byte order (`word`), bit fields
  (`bitfield`), the configuration register (`configuration`), the
  measurement registers (`measurement`), the identification registers
  (`identification`), the framing of I2C register writes (`interface`),
  the computations of the driver's operations (`operations`) and the
  error type (`error`).
- `app/` holds the blocking and async drivers over `embedded-hal` and
  `embedded-hal-async` I2C buses, which perform the bus transfers around
  the library's functions, and the error type with its `Display` impl.
- `tests/` runs the library on concrete register values.
