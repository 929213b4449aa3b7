//! Driver for a DS3231 real-time-clock peripheral on a two-wire register bus.
//!
//! The driver translates between the peripheral's packed binary-coded-decimal
//! register layout and conventional decimal date-time fields. It is generic
//! over a minimal bus capability trait, so a real transport or an in-memory
//! simulator can stand behind it without changing the driver logic.

pub mod bcd;
pub mod bus;
pub mod datetime;
pub mod driver;
pub mod registers;
pub mod sim;

pub use bcd::bcd2dec;
pub use bcd::dec2bcd;
pub use bus::I2cBus;
pub use datetime::DateTime;
pub use driver::ADDRESS;
pub use driver::DS3231;
pub use registers::Register;
pub use sim::SimBus;
pub use sim::SimBusError;
