//! In-memory bus simulator.
//!
//! A register-file stand-in for the physical peripheral: nineteen byte
//! registers, a transaction log, and a switch that makes every transaction
//! fail. It implements the bus capability trait with its full contract, so
//! the driver can be exercised end to end without hardware.

use vstd::prelude::*;

use crate::bus::I2cBus;

verus! {

/// Error of the simulated transport: a refused transaction.
#[derive(Copy, Clone, PartialEq, Eq, Structural, Debug)]
pub struct SimBusError;

/// A simulated device behind the bus: a register file of nineteen bytes.
pub struct SimBus {
    regs: Vec<u8>,
    log: Vec<u8>,
    fail: bool,
}

impl SimBus {
    /// The simulator holds one byte for each of the device's nineteen
    /// registers.
    pub closed spec fn wf(&self) -> bool {
        self.regs@.len() == 19
    }

    /// Whether the failure switch is on: while it is, every transaction is
    /// refused.
    pub closed spec fn failing(&self) -> bool {
        self.fail
    }

    /// A fresh simulated device: all registers zero, no transactions issued.
    pub fn new() -> (r: SimBus)
        ensures
            r.wf(),
            r.txns() == 0,
            !r.failing(),
            forall|j: int| r.reg_at(j) == 0,
    {
        let mut regs: Vec<u8> = Vec::new();
        let mut i: usize = 0;
        while i < 19
            invariant
                i <= 19,
                regs@.len() == i,
                forall|k: int| 0 <= k < i ==> regs@[k] == 0,
            decreases 19 - i,
        {
            regs.push(0);
            i = i + 1;
        }
        SimBus { regs, log: Vec::new(), fail: false }
    }

    /// Stores a byte directly into a device register, as if the hardware had
    /// latched it; no bus transaction is issued.
    pub fn set_reg(&mut self, r: u8, v: u8)
        requires
            old(self).wf(),
            r < 19,
        ensures
            final(self).wf(),
            final(self).txns() == old(self).txns(),
            final(self).failing() == old(self).failing(),
            final(self).reg_at(r as int) == v,
            forall|j: int| j != r as int ==> final(self).reg_at(j) == old(self).reg_at(j),
    {
        self.regs[r as usize] = v;
    }

    /// Reads a device register directly, without a bus transaction.
    pub fn reg(&self, r: u8) -> (v: u8)
        requires
            self.wf(),
            r < 19,
        ensures
            v == self.reg_at(r as int),
    {
        self.regs[r as usize]
    }

    /// The number of bus transactions issued against the simulator.
    pub fn txn_count(&self) -> (n: usize)
        ensures
            n == self.txns(),
    {
        self.log.len()
    }

    /// Sets the failure switch: while it is on every transaction is refused,
    /// and the registers stay as they are.
    pub fn set_fail(&mut self, fail: bool)
        ensures
            final(self).wf() == old(self).wf(),
            final(self).txns() == old(self).txns(),
            final(self).failing() == fail,
            forall|j: int| final(self).reg_at(j) == old(self).reg_at(j),
    {
        self.fail = fail;
    }
}

impl I2cBus for SimBus {
    type Error = SimBusError;

    closed spec fn reg_at(&self, r: int) -> u8 {
        if 0 <= r < self.regs@.len() {
            self.regs@[r]
        } else {
            0
        }
    }

    closed spec fn txns(&self) -> nat {
        self.log@.len()
    }

    fn write_read(&mut self, addr: u8, reg: u8, n: usize) -> (r: Result<Vec<u8>, SimBusError>)
        ensures
            final(self).failing() == old(self).failing(),
            old(self).failing() ==> r is Err,
    {
        self.log.push(reg);
        if self.fail {
            return Err(SimBusError);
        }
        if n > self.regs.len() {
            return Err(SimBusError);
        }
        if (reg as usize) > self.regs.len() - n {
            return Err(SimBusError);
        }
        let rlen = self.regs.len();
        let mut data: Vec<u8> = Vec::new();
        let mut i: usize = 0;
        while i < n
            invariant
                i <= n,
                rlen == self.regs@.len(),
                reg as usize + n <= rlen,
                data@.len() == i,
                forall|k: int| 0 <= k < i ==> data@[k] == self.regs@[reg + k],
            decreases n - i,
        {
            data.push(self.regs[reg as usize + i]);
            i = i + 1;
        }
        Ok(data)
    }

    fn write(&mut self, addr: u8, data: &Vec<u8>) -> (r: Result<(), SimBusError>)
        ensures
            final(self).failing() == old(self).failing(),
            old(self).failing() ==> r is Err,
    {
        self.log.push(data[0]);
        if self.fail {
            return Err(SimBusError);
        }
        let start = data[0] as usize;
        let count = data.len() - 1;
        if count > self.regs.len() {
            return Err(SimBusError);
        }
        if start > self.regs.len() - count {
            return Err(SimBusError);
        }
        let rlen = self.regs.len();
        let mut i: usize = 0;
        while i < count
            invariant
                i <= count,
                count == data@.len() - 1,
                start == data@[0],
                rlen == self.regs@.len(),
                start + count <= rlen,
                self.regs@.len() == old(self).regs@.len(),
                self.log@ == old(self).log@.push(data@[0]),
                self.fail == old(self).fail,
                forall|k: int| 1 <= k <= i ==> self.regs@[start + k - 1] == #[trigger] data@[k],
                forall|j: int|
                    0 <= j < self.regs@.len() && !(start <= j < start + i) ==> self.regs@[j]
                        == old(self).regs@[j],
            decreases count - i,
        {
            self.regs[start + i] = data[i + 1];
            i = i + 1;
        }
        Ok(())
    }
}

} // verus!
