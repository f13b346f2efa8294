//! The bus transport the driver runs on.
//!
//! The clock chip is a register-addressed peripheral behind a two-wire (I2C)
//! bus.  The driver does not talk to a concrete bus; it is generic over the
//! [`I2cBus`] trait, which captures the two transaction shapes the chip
//! needs: a raw write whose first byte selects the starting register, and a
//! combined write-then-read that sets the register pointer and reads a run of
//! registers back.
//!
//! The trait carries a ghost model of the peripheral: [`I2cBus::regs`], the
//! register file behind the bus.  An implementation promises that a
//! successful transaction moves that model exactly as the chip's datasheet
//! says: written bytes land in consecutive registers, reads return the
//! registers' contents and never alter them.  Nothing is promised about a
//! transaction that fails with a bus error, except that a read leaves the
//! register file as it was; a failed write may have reached the device or
//! not.

use vstd::prelude::*;

verus! {

/// The register file after one raw write transaction: `data` lands in the
/// consecutive registers starting at `start`; every other register keeps its
/// old value.
pub open spec fn write_block(regs: Map<u8, u8>, start: u8, data: Seq<u8>) -> Map<u8, u8> {
    Map::new(
        |k: u8| regs.dom().contains(k) || (start <= k && k < start + data.len()),
        |k: u8|
            if start <= k && k < start + data.len() {
                data[k - start]
            } else {
                regs[k]
            },
    )
}

/// The run of `n` register values starting at register `start`.
pub open spec fn reg_block(regs: Map<u8, u8>, start: u8, n: nat) -> Seq<u8> {
    Seq::new(n, |i: int| regs[(start + i) as u8])
}

/// Reading back a run of registers just written returns exactly the written
/// bytes.
pub proof fn lemma_write_then_read_block(regs: Map<u8, u8>, start: u8, data: Seq<u8>)
    requires
        start + data.len() <= 256,
    ensures
        reg_block(write_block(regs, start, data), start, data.len()) == data,
{
    assert forall|i: int| 0 <= i < data.len() implies reg_block(
        write_block(regs, start, data),
        start,
        data.len(),
    )[i] == data[i] by {
        assert(write_block(regs, start, data)[(start + i) as u8] == data[i]);
    }
    assert(reg_block(write_block(regs, start, data), start, data.len()) =~= data);
}

/// A bus transport connected to a register-addressed peripheral.
///
/// `regs` is the model of the peripheral's register file that the two
/// transaction methods are specified against.  Implementations live outside
/// the verified core (a real I2C bus, or an in-memory simulation in tests)
/// and are trusted to behave as these contracts say.
pub trait I2cBus {
    /// The transport's native bus-error type, surfaced verbatim by the
    /// driver.
    type Error;

    /// The peripheral's register file as the transport sees it.
    ///
    /// The default leaves the model unspecified, so a transport written
    /// outside the verified core need not name it; such a transport is
    /// trusted to meet the method contracts over it.
    closed spec fn regs(&self) -> Map<u8, u8> {
        vstd::pervasive::arbitrary()
    }

    /// One raw write transaction to the device at the 7-bit `address`.
    ///
    /// `data[0]` is the register pointer; the bytes after it land in
    /// consecutive registers from there on.  On a bus error the device may
    /// have seen none, some, or all of the bytes.
    fn write(&mut self, address: u8, data: &Vec<u8>) -> (r: Result<(), Self::Error>)
        requires
            data@.len() >= 1,
            data@[0] + data@.len() - 1 <= 256,
        ensures
            r is Ok ==> final(self).regs() == write_block(
                old(self).regs(),
                data@[0],
                data@.skip(1),
            ),
    ;

    /// One combined write-then-read transaction to the device at the 7-bit
    /// `address`: writes the single register-pointer byte `reg`, then reads
    /// `n` bytes from consecutive registers.  Reading never alters the
    /// register file, whether the transaction succeeds or fails.
    fn write_read(&mut self, address: u8, reg: u8, n: usize) -> (r: Result<Vec<u8>, Self::Error>)
        requires
            reg + n <= 256,
        ensures
            final(self).regs() == old(self).regs(),
            r is Ok ==> r->Ok_0@ == reg_block(old(self).regs(), reg, n as nat),
    ;
}

} // verus!
