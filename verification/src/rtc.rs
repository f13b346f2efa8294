//! The RX-8010-SJ driver: the device handle and its operations.
//!
//! Every operation is one or two bus transactions against the register map
//! of the chip: seven time registers from [`REGISTER_SEC`] up, and a control
//! register whose bit 6 stops the oscillator.  Contracts are stated against
//! the transport's register-file model ([`crate::bus::I2cBus::regs`]): what
//! a successful call returns, and how it moves the registers.

use vstd::map::*;
use vstd::prelude::*;

use crate::bus::{lemma_write_then_read_block, reg_block, write_block, I2cBus};
use crate::time::{
    decode_time, encode_time, lemma_time_round_trip, spec_decode_time, spec_encodable,
    spec_encode_time, DateTime,
};

verus! {

/// The default 7-bit device address: the chip's 8-bit write address 0x64,
/// right-shifted.
pub const DEFAULT_ADDRESS: u8 = 0x64 >> 1;

/// The seconds register, first of the seven time registers.
pub const REGISTER_SEC: u8 = 0x10;

/// The control register; bit 6 is the oscillator-stop flag.
pub const REGISTER_CONTROL: u8 = 0x1F;

/// The oscillator-stop bit within the control register.
pub const BIT_REGISTER_CONTROL_STOP: u8 = 0x40;

/// Whether a control-register byte has the oscillator-stop flag set.
pub open spec fn spec_stop_flag(control: u8) -> bool {
    control & BIT_REGISTER_CONTROL_STOP != 0
}

/// A control-register byte with the stop flag set or cleared and every other
/// bit as it was.
pub open spec fn spec_with_stop_flag(control: u8, stopped: bool) -> u8 {
    if stopped {
        control | BIT_REGISTER_CONTROL_STOP
    } else {
        control & !BIT_REGISTER_CONTROL_STOP
    }
}

/// The stop flag reads back exactly as it was set, and the other seven bits
/// of the control register come through the update untouched.
pub proof fn lemma_stop_flag_round_trip(control: u8, stopped: bool)
    ensures
        spec_stop_flag(spec_with_stop_flag(control, stopped)) == stopped,
        spec_with_stop_flag(control, stopped) & !BIT_REGISTER_CONTROL_STOP == control
            & !BIT_REGISTER_CONTROL_STOP,
{
    if stopped {
        assert((control | 0x40u8) & 0x40u8 != 0) by (bit_vector);
        assert((control | 0x40u8) & !0x40u8 == control & !0x40u8) by (bit_vector);
    } else {
        assert((control & !0x40u8) & 0x40u8 == 0) by (bit_vector);
        assert((control & !0x40u8) & !0x40u8 == control & !0x40u8) by (bit_vector);
    }
}

/// Whatever the register file held before, after a successful `set_stopped`
/// a successful `is_stopped` reads back exactly the value set, and the
/// other bits of the control register hold their old values.
pub proof fn lemma_set_stopped_then_is_stopped(regs: Map<u8, u8>, stopped: bool)
    ensures
        spec_stop_flag(
            regs.insert(
                REGISTER_CONTROL,
                spec_with_stop_flag(regs[REGISTER_CONTROL], stopped),
            )[REGISTER_CONTROL],
        ) == stopped,
        regs.insert(
            REGISTER_CONTROL,
            spec_with_stop_flag(regs[REGISTER_CONTROL], stopped),
        )[REGISTER_CONTROL] & !BIT_REGISTER_CONTROL_STOP == regs[REGISTER_CONTROL]
            & !BIT_REGISTER_CONTROL_STOP,
{
    lemma_stop_flag_round_trip(regs[REGISTER_CONTROL], stopped);
}

/// Whatever the register file held before, after a successful `set_time` of
/// an encodable date-time a successful `get_time` returns exactly that
/// date-time: the two operations are inverse through the registers.
pub proof fn lemma_set_then_get_time(regs: Map<u8, u8>, dt: DateTime)
    requires
        spec_encodable(dt),
    ensures
        spec_decode_time(
            reg_block(write_block(regs, REGISTER_SEC, spec_encode_time(dt)), REGISTER_SEC, 7),
        ) == dt,
{
    assert(spec_encode_time(dt).len() == 7);
    lemma_write_then_read_block(regs, REGISTER_SEC, spec_encode_time(dt));
    lemma_time_round_trip(dt);
}

/// A driver handle for one RX-8010-SJ on one bus: owns the transport and
/// the 7-bit device address it speaks to.
pub struct Rx8010sj<B> {
    bus: B,
    address: u8,
}

impl<B: I2cBus> Rx8010sj<B> {
    /// The model of the peripheral's register file behind the driver's bus.
    pub closed spec fn regs(&self) -> Map<u8, u8> {
        self.bus.regs()
    }

    /// The 7-bit device address the driver talks to.
    pub closed spec fn spec_address(&self) -> u8 {
        self.address
    }

    /// A new driver instance at the default device address; assumes no I2C
    /// multiplexer sits between the clock and the host.
    pub fn new(bus: B) -> (r: Self)
        ensures
            r.regs() == bus.regs(),
            r.spec_address() == DEFAULT_ADDRESS,
    {
        Rx8010sj { bus, address: DEFAULT_ADDRESS }
    }

    /// The same driver, moved to another 7-bit device address.
    pub fn with_address(self, address: u8) -> (r: Self)
        ensures
            r.regs() == self.regs(),
            r.spec_address() == address,
    {
        Rx8010sj { address, ..self }
    }

    /// Whether the oscillator-stop flag (bit 6 of the control register) is
    /// set.  One read transaction; the registers are left as they were.
    pub fn is_stopped(&mut self) -> (r: Result<bool, B::Error>)
        ensures
            final(self).regs() == old(self).regs(),
            final(self).spec_address() == old(self).spec_address(),
            r is Ok ==> r->Ok_0 == spec_stop_flag(old(self).regs()[REGISTER_CONTROL]),
    {
        let control_register = match self.read_register(REGISTER_CONTROL) {
            Ok(v) => v,
            Err(e) => {
                return Err(e);
            },
        };
        Ok((control_register & BIT_REGISTER_CONTROL_STOP) > 0)
    }

    /// Set or clear the oscillator-stop flag, keeping every other bit of the
    /// control register: a read-modify-write pair of bus transactions.  A
    /// bus error on the read leg leaves the registers unchanged and skips
    /// the write.
    pub fn set_stopped(&mut self, stopped: bool) -> (r: Result<(), B::Error>)
        ensures
            final(self).spec_address() == old(self).spec_address(),
            r is Ok ==> final(self).regs() == old(self).regs().insert(
                REGISTER_CONTROL,
                spec_with_stop_flag(old(self).regs()[REGISTER_CONTROL], stopped),
            ),
    {
        let control_register = match self.read_register(REGISTER_CONTROL) {
            Ok(v) => v,
            Err(e) => {
                return Err(e);
            },
        };
        let updated = if stopped {
            control_register | BIT_REGISTER_CONTROL_STOP
        } else {
            control_register & !BIT_REGISTER_CONTROL_STOP
        };
        self.write_register(REGISTER_CONTROL, updated)
    }

    /// Read the clock's current date-time: one seven-register read starting
    /// at the seconds register, decoded with the documented fallbacks.  The
    /// registers are left as they were.
    pub fn get_time(&mut self) -> (r: Result<DateTime, B::Error>)
        ensures
            final(self).regs() == old(self).regs(),
            final(self).spec_address() == old(self).spec_address(),
            r is Ok ==> r->Ok_0 == spec_decode_time(
                reg_block(old(self).regs(), REGISTER_SEC, 7),
            ),
    {
        let time_registers = match self.read_registers(REGISTER_SEC, 7) {
            Ok(v) => v,
            Err(e) => {
                return Err(e);
            },
        };
        Ok(decode_time(&time_registers))
    }

    /// Set the clock: encode the date-time into the seven time registers and
    /// write them seconds-first, one register per bus transaction.  On a bus
    /// error partway through, the registers already written keep their new
    /// values.
    pub fn set_time(&mut self, date_time: DateTime) -> (r: Result<(), B::Error>)
        ensures
            final(self).spec_address() == old(self).spec_address(),
            r is Ok ==> final(self).regs() == write_block(
                old(self).regs(),
                REGISTER_SEC,
                spec_encode_time(date_time),
            ),
    {
        let time_registers = encode_time(&date_time);
        self.write_registers(REGISTER_SEC, &time_registers)
    }

    /// Write one register: a single bus transaction of register pointer
    /// plus payload byte.
    fn write_register(&mut self, reg: u8, data: u8) -> (r: Result<(), B::Error>)
        ensures
            final(self).spec_address() == old(self).spec_address(),
            r is Ok ==> final(self).regs() == old(self).regs().insert(reg, data),
    {
        let mut frame: Vec<u8> = Vec::new();
        frame.push(reg);
        frame.push(data);
        let r = self.bus.write(self.address, &frame);
        proof {
            if r is Ok {
                assert_maps_equal!(
                    write_block(old(self).regs(), reg, frame@.skip(1)),
                    old(self).regs().insert(reg, data),
                );
            }
        }
        r
    }

    /// Write `data.len()` consecutive registers starting at `reg`, one
    /// single-register transaction per byte — deliberately not one
    /// multi-byte write, so a bus error partway leaves the earlier
    /// registers updated.
    fn write_registers(&mut self, reg: u8, data: &Vec<u8>) -> (r: Result<(), B::Error>)
        requires
            reg + data@.len() <= 256,
        ensures
            final(self).spec_address() == old(self).spec_address(),
            r is Ok ==> final(self).regs() == write_block(old(self).regs(), reg, data@),
    {
        let ghost regs0 = self.regs();
        let mut i: usize = 0;
        while i < data.len()
            invariant
                i <= data@.len(),
                reg + data@.len() <= 256,
                self.regs() == write_block(regs0, reg, data@.take(i as int)),
                self.spec_address() == old(self).spec_address(),
            decreases data@.len() - i,
        {
            match self.write_register(reg + i as u8, data[i]) {
                Ok(()) => {},
                Err(e) => {
                    return Err(e);
                },
            }
            proof {
                assert_maps_equal!(
                    write_block(regs0, reg, data@.take(i as int)).insert((reg + i as u8) as u8, data@[i as int]),
                    write_block(regs0, reg, data@.take(i as int + 1)),
                );
            }
            i = i + 1;
        }
        proof {
            assert(data@.take(data@.len() as int) =~= data@);
        }
        Ok(())
    }

    /// Read one register, as the one-byte case of a block read.
    fn read_register(&mut self, reg: u8) -> (r: Result<u8, B::Error>)
        ensures
            final(self).regs() == old(self).regs(),
            final(self).spec_address() == old(self).spec_address(),
            r is Ok ==> r->Ok_0 == old(self).regs()[reg],
    {
        match self.read_registers(reg, 1) {
            Ok(values) => Ok(values[0]),
            Err(e) => Err(e),
        }
    }

    /// Read `n` consecutive registers starting at `reg`, as one combined
    /// write-then-read transaction: atomic from the transport's view, and
    /// the registers are left as they were.
    fn read_registers(&mut self, reg: u8, n: usize) -> (r: Result<Vec<u8>, B::Error>)
        requires
            reg + n <= 256,
        ensures
            final(self).regs() == old(self).regs(),
            final(self).spec_address() == old(self).spec_address(),
            r is Ok ==> r->Ok_0@ == reg_block(old(self).regs(), reg, n as nat),
    {
        self.bus.write_read(self.address, reg, n)
    }
}

} // verus!
