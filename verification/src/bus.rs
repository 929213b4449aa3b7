//! Bus capability interface.
//!
//! The driver is written against this minimal trait rather than a concrete
//! transport, so a real two-wire peripheral or an in-memory simulator can
//! stand behind it without changing the driver logic. An implementor models
//! the addressed device as a register file (`reg_at`) and a running count of
//! issued transactions (`txns`); the two transaction primitives say how each
//! call reads or rewrites that model. Both are blocking; on failure they
//! return the transport's own error and leave the register model unchanged,
//! since a failed transaction writes nothing.

use vstd::prelude::*;

verus! {

/// A blocking two-wire bus holding one addressed device.
pub trait I2cBus: Sized {
    /// The transport's error type, returned unchanged on any bus failure.
    type Error;

    /// The model of the device's register file: the byte the device holds at
    /// each register address. Addresses outside the device's register space
    /// may map to anything. The default model is vacuous; an implementor
    /// whose transactions are to mean anything overrides it.
    open spec fn reg_at(&self, r: int) -> u8 {
        0
    }

    /// The number of bus transactions issued so far. The default model is
    /// vacuous; an implementor whose transactions are to mean anything
    /// overrides it.
    open spec fn txns(&self) -> nat {
        0
    }

    /// Combined write-then-read transaction: writes the register address
    /// `reg` to the device at bus address `addr`, then reads back `n` bytes
    /// starting at that register, without releasing the bus in between.
    /// Reading does not change the device's registers.
    fn write_read(&mut self, addr: u8, reg: u8, n: usize) -> (r: Result<Vec<u8>, Self::Error>)
        ensures
            final(self).txns() == old(self).txns() + 1,
            forall|j: int| final(self).reg_at(j) == old(self).reg_at(j),
            r matches Ok(data) ==> data@.len() == n && (forall|i: int|
                0 <= i < n ==> data@[i] == old(self).reg_at(reg + i)),
    ;

    /// Plain write transaction to the device at bus address `addr`: the first
    /// byte of `data` is the starting register address, the rest is stored in
    /// consecutive registers from there. On failure nothing is stored.
    fn write(&mut self, addr: u8, data: &Vec<u8>) -> (r: Result<(), Self::Error>)
        requires
            data@.len() >= 1,
        ensures
            final(self).txns() == old(self).txns() + 1,
            r is Ok ==> (forall|i: int|
                1 <= i < data@.len() ==> final(self).reg_at(data@[0] + i - 1) == #[trigger] data@[i]),
            r is Ok ==> (forall|j: int|
                j < data@[0] || j >= data@[0] + data@.len() - 1 ==> final(self).reg_at(j)
                    == old(self).reg_at(j)),
            r is Err ==> (forall|j: int| final(self).reg_at(j) == old(self).reg_at(j)),
    ;
}

/// The device's registers from `start` on, `n` bytes, as the bus model holds
/// them.
pub open spec fn bus_block<B: I2cBus>(bus: B, start: int, n: nat) -> Seq<u8> {
    Seq::new(n, |i: int| bus.reg_at(start + i))
}

} // verus!
