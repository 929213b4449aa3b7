//! Register map of the peripheral.
//!
//! Each named register stands for one fixed byte offset in the device's
//! addressable register space. The addresses are named once here and reused by
//! every bus transaction the driver builds.

use vstd::prelude::*;

verus! {

/// Clock registers.
#[derive(Copy, Clone, Debug)]
pub enum Register {
    Seconds,
    Minutes,
    Hours,
    DayOfWeek,
    DayOfMonth,
    MonthCentury,
    Year,
    Alarm1Seconds,
    Alarm1Minutes,
    Alarm1Hours,
    Alarm1Day,
    Alarm2Minutes,
    Alarm2Hour,
    Alarm2Day,
    Control,
    Status,
    AgingOffset,
    TempMSB,
    TempLSB,
}

/// The fixed device address of each named register.
pub open spec fn reg_addr(r: Register) -> u8 {
    match r {
        Register::Seconds => 0x00,
        Register::Minutes => 0x01,
        Register::Hours => 0x02,
        Register::DayOfWeek => 0x03,
        Register::DayOfMonth => 0x04,
        Register::MonthCentury => 0x05,
        Register::Year => 0x06,
        Register::Alarm1Seconds => 0x07,
        Register::Alarm1Minutes => 0x08,
        Register::Alarm1Hours => 0x09,
        Register::Alarm1Day => 0x0A,
        Register::Alarm2Minutes => 0x0B,
        Register::Alarm2Hour => 0x0C,
        Register::Alarm2Day => 0x0D,
        Register::Control => 0x0E,
        Register::Status => 0x0F,
        Register::AgingOffset => 0x10,
        Register::TempMSB => 0x11,
        Register::TempLSB => 0x12,
    }
}

impl Register {
    /// Get the register's address.
    pub fn addr(&self) -> (r: u8)
        ensures
            r == reg_addr(*self),
            r <= 0x12,
    {
        match self {
            Register::Seconds => 0x00,
            Register::Minutes => 0x01,
            Register::Hours => 0x02,
            Register::DayOfWeek => 0x03,
            Register::DayOfMonth => 0x04,
            Register::MonthCentury => 0x05,
            Register::Year => 0x06,
            Register::Alarm1Seconds => 0x07,
            Register::Alarm1Minutes => 0x08,
            Register::Alarm1Hours => 0x09,
            Register::Alarm1Day => 0x0A,
            Register::Alarm2Minutes => 0x0B,
            Register::Alarm2Hour => 0x0C,
            Register::Alarm2Day => 0x0D,
            Register::Control => 0x0E,
            Register::Status => 0x0F,
            Register::AgingOffset => 0x10,
            Register::TempMSB => 0x11,
            Register::TempLSB => 0x12,
        }
    }
}

} // verus!
