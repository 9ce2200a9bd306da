//! Driver logic for a three-axis accelerometer reached over an I2C bus.
//!
//! The driver composes atomic batches of primitive bus actions (register
//! reads use the repeated-start pattern, register writes the write pattern),
//! verifies the chip's identity at construction, and decodes raw big-endian
//! register pairs into signed twelve-bit axis readings.  Executing a batch on
//! the physical bus is the port's job; the driver hands a batch out and takes
//! the port's answer back as plain bytes.

pub mod bus;
pub mod codec;
pub mod driver;

pub use bus::BusAction;
pub use bus::read_register_batch;
pub use bus::write_register_batch;
pub use codec::decode_axis;
pub use codec::decode_sample;
pub use driver::Accelerometer;
pub use driver::DriverError;
pub use driver::IoError;
pub use driver::VALID_CHIP_ID;
