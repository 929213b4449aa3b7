//! DS3231 driver.
//!
//! The driver owns its bus transport exclusively and carries no other state:
//! temperature and date-time are always fetched fresh from the device, never
//! cached. Every operation is one or two complete bus transactions; the
//! contracts say exactly which registers each operation reads or rewrites,
//! through the bus model, and how many transactions it issues. All failure
//! comes from the transport and is propagated unchanged.

use vstd::prelude::*;

use crate::bus::bus_block;
use crate::bus::I2cBus;
use crate::datetime::decode_datetime;
use crate::datetime::decode_dt;
use crate::datetime::encodable;
use crate::datetime::encode_datetime;
use crate::datetime::encode_dt;
use crate::datetime::DateTime;
use crate::registers::reg_addr;
use crate::registers::Register;

verus! {

/// The device's fixed 7-bit bus address.
pub const ADDRESS: u8 = 0x68;

/// DS3231 driver, generic over the bus transport it owns.
pub struct DS3231<I2C> {
    pub i2c: I2C,
}

impl<I2C: I2cBus> DS3231<I2C> {
    /// Creates a new driver from a bus peripheral. No transaction is issued.
    pub fn new(i2c: I2C) -> (r: Self)
        ensures
            r.i2c == i2c,
    {
        DS3231 { i2c }
    }

    /// Reads the temperature in signed quarter-degree Celsius steps: four
    /// times the temperature registers' value. The device reports a signed
    /// integer Celsius value in the upper byte and a two-bit quarter-degree
    /// fraction in the top bits of the lower byte; the result composes the
    /// two. Issues exactly two single-byte reads, the integer part first;
    /// either read's failure is returned unchanged, and a failure of the
    /// first one skips the second.
    pub fn temperature(&mut self) -> (r: Result<i16, I2C::Error>)
        ensures
            forall|j: int| final(self).i2c.reg_at(j) == old(self).i2c.reg_at(j),
            old(self).i2c.txns() + 1 <= final(self).i2c.txns() <= old(self).i2c.txns() + 2,
            r matches Ok(q) ==> q == (old(self).i2c.reg_at(reg_addr(Register::TempMSB) as int)
                as i8) * 4 + (old(self).i2c.reg_at(reg_addr(Register::TempLSB) as int) >> 6),
            r is Ok ==> final(self).i2c.txns() == old(self).i2c.txns() + 2,
    {
        let msb = self.read_register(Register::TempMSB)?;
        let lsb = self.read_register(Register::TempLSB)?;
        proof {
            let l = old(self).i2c.reg_at(reg_addr(Register::TempLSB) as int);
            assert((l >> 6) <= 3) by (bit_vector);
        }
        Ok(((msb as i8) as i16) * 4 + ((lsb >> 6) as i16))
    }

    /// Gets the current date and time: one combined write-then-read of the
    /// seven registers from seconds to year, decoded as the date-time module
    /// states. The year comes back as the device's two-digit value.
    pub fn get_datetime(&mut self) -> (r: Result<DateTime, I2C::Error>)
        ensures
            forall|j: int| final(self).i2c.reg_at(j) == old(self).i2c.reg_at(j),
            final(self).i2c.txns() == old(self).i2c.txns() + 1,
            r matches Ok(dt) ==> dt == decode_dt(bus_block(old(self).i2c, reg_addr(Register::Seconds) as int, 7)),
    {
        let data = self.read_dt()?;
        Ok(decode_datetime(&data))
    }

    /// Sets the date and time: one eight-byte write transaction holding the
    /// seconds register address and the seven encoded bytes. On success the
    /// seven clock registers hold exactly the encoding of `dt` — with the
    /// century bit of the month byte set for years 2000 and later — and no
    /// other register changes; on failure nothing is stored.
    pub fn set_datetime(&mut self, dt: DateTime) -> (r: Result<(), I2C::Error>)
        requires
            encodable(dt),
        ensures
            final(self).i2c.txns() == old(self).i2c.txns() + 1,
            r is Ok ==> (forall|j: int|
                0 <= j < 7 ==> final(self).i2c.reg_at(j) == encode_dt(dt)[j + 1]),
            r is Ok ==> (forall|j: int|
                !(0 <= j < 7) ==> final(self).i2c.reg_at(j) == old(self).i2c.reg_at(j)),
            r is Err ==> (forall|j: int| final(self).i2c.reg_at(j) == old(self).i2c.reg_at(j)),
    {
        let data = encode_datetime(&dt);
        self.write_dt(&data)
    }

    /// One combined write-then-read of the seven date-time registers.
    fn read_dt(&mut self) -> (r: Result<Vec<u8>, I2C::Error>)
        ensures
            forall|j: int| final(self).i2c.reg_at(j) == old(self).i2c.reg_at(j),
            final(self).i2c.txns() == old(self).i2c.txns() + 1,
            r matches Ok(data) ==> data@.len() == 7 && data@ == bus_block(old(self).i2c, reg_addr(Register::Seconds) as int, 7),
    {
        let data = self.i2c.write_read(ADDRESS, Register::Seconds.addr(), 7)?;
        proof {
            assert(data@ =~= bus_block(old(self).i2c, reg_addr(Register::Seconds) as int, 7));
        }
        Ok(data)
    }

    /// One plain write transaction; the first byte of `data` is the starting
    /// register address.
    fn write_dt(&mut self, data: &Vec<u8>) -> (r: Result<(), I2C::Error>)
        requires
            data@.len() >= 1,
        ensures
            final(self).i2c.txns() == old(self).i2c.txns() + 1,
            r is Ok ==> (forall|i: int|
                1 <= i < data@.len() ==> final(self).i2c.reg_at(data@[0] + i - 1)
                    == #[trigger] data@[i]),
            r is Ok ==> (forall|j: int|
                j < data@[0] || j >= data@[0] + data@.len() - 1 ==> final(self).i2c.reg_at(j)
                    == old(self).i2c.reg_at(j)),
            r is Err ==> (forall|j: int| final(self).i2c.reg_at(j) == old(self).i2c.reg_at(j)),
    {
        self.i2c.write(ADDRESS, data)
    }

    /// One single-byte combined write-then-read of the given register.
    fn read_register(&mut self, reg: Register) -> (r: Result<u8, I2C::Error>)
        ensures
            forall|j: int| final(self).i2c.reg_at(j) == old(self).i2c.reg_at(j),
            final(self).i2c.txns() == old(self).i2c.txns() + 1,
            r matches Ok(v) ==> v == old(self).i2c.reg_at(reg_addr(reg) as int),
    {
        let data = self.i2c.write_read(ADDRESS, reg.addr(), 1)?;
        Ok(data[0])
    }
}

} // verus!
