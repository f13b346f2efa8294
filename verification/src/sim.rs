//! A simulated peripheral: an in-memory register file behind the
//! bus-transport interface, for tests and examples.
//!
//! Unlike a real transport, this implementation is verified against the
//! [`I2cBus`] contracts, which also shows that those contracts can be met.
//! A transaction here never fails, and the device address is ignored: the
//! simulation stands for the one peripheral on the bus.

use vstd::map::*;
use vstd::prelude::*;

use crate::bus::{reg_block, write_block, I2cBus};

verus! {

/// The simulated bus never fails, so no value of this error type is ever
/// made.
#[derive(Clone, Copy, PartialEq, Eq, Structural, Debug)]
pub struct SimBusError;

/// A simulated clock peripheral: 256 registers held in memory, reached
/// through the bus-transport interface.
pub struct SimBus {
    file: Vec<u8>,
}

impl SimBus {
    #[verifier::type_invariant]
    spec fn type_inv(&self) -> bool {
        self.file@.len() == 256
    }

    /// A fresh simulated peripheral with every register zero.
    pub fn new() -> (r: SimBus)
        ensures
            forall|k: u8| r.regs().dom().contains(k),
            forall|k: u8| #[trigger] r.regs()[k] == 0,
    {
        let mut file: Vec<u8> = Vec::new();
        let mut i: usize = 0;
        while i < 256
            invariant
                file@.len() == i,
                i <= 256,
                forall|j: int| 0 <= j < i ==> file@[j] == 0,
            decreases 256 - i,
        {
            file.push(0);
            i = i + 1;
        }
        SimBus { file }
    }

    /// The current value of one register, for inspecting the simulated
    /// peripheral from outside.
    pub fn register(&self, reg: u8) -> (v: u8)
        ensures
            v == self.regs()[reg],
    {
        proof {
            use_type_invariant(&*self);
        }
        self.file[reg as usize]
    }

    /// Preload one register, for setting the simulated peripheral up.
    pub fn set_register(&mut self, reg: u8, value: u8)
        ensures
            final(self).regs() == old(self).regs().insert(reg, value),
    {
        proof {
            use_type_invariant(&*self);
        }
        self.file[reg as usize] = value;
        proof {
            assert_maps_equal!(
                self.regs(),
                old(self).regs().insert(reg, value),
            );
        }
    }
}

impl I2cBus for SimBus {
    type Error = SimBusError;

    closed spec fn regs(&self) -> Map<u8, u8> {
        Map::new(|k: u8| true, |k: u8| self.file@[k as int])
    }

    fn write(&mut self, _address: u8, data: &Vec<u8>) -> (r: Result<(), SimBusError>) {
        proof {
            use_type_invariant(&*self);
        }
        let ghost file0 = self.file@;
        let start = data[0];
        let mut i: usize = 1;
        while i < data.len()
            invariant
                1 <= i <= data@.len(),
                data@[0] == start,
                start + data@.len() - 1 <= 256,
                self.file@.len() == 256,
                forall|j: int| 1 <= j < i ==> self.file@[start + j - 1] == data@[j],
                forall|j: int|
                    0 <= j < 256 && !(start <= j < start + i - 1) ==> self.file@[j] == file0[j],
            decreases data@.len() - i,
        {
            let idx: usize = start as usize + (i - 1);
            self.file[idx] = data[i];
            i = i + 1;
        }
        proof {
            assert_maps_equal!(
                self.regs(),
                write_block(old(self).regs(), data@[0], data@.skip(1)),
            );
        }
        Ok(())
    }

    fn write_read(&mut self, _address: u8, reg: u8, n: usize) -> (r: Result<
        Vec<u8>,
        SimBusError,
    >) {
        proof {
            use_type_invariant(&*self);
        }
        let mut out: Vec<u8> = Vec::new();
        let mut i: usize = 0;
        while i < n
            invariant
                out@.len() == i,
                i <= n,
                reg + n <= 256,
                self.file@.len() == 256,
                forall|j: int| 0 <= j < i ==> out@[j] == self.file@[reg + j],
            decreases n - i,
        {
            out.push(self.file[reg as usize + i]);
            i = i + 1;
        }
        proof {
            assert forall|j: int| 0 <= j < n implies out@[j] == reg_block(
                self.regs(),
                reg,
                n as nat,
            )[j] by {
                assert(((reg + j) as u8) as int == reg + j);
            }
            assert(out@ =~= reg_block(self.regs(), reg, n as nat));
        }
        Ok(out)
    }
}

} // verus!
