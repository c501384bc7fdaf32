//! Status flags, stack discipline and bus access helpers of the CPU.

use vstd::prelude::*;
use crate::bits::join_bytes;
use crate::bits::join_bytes_spec;
use crate::bits::high_byte;
use crate::bits::high_byte_spec;
use crate::bits::low_byte;
use crate::bits::low_byte_spec;
use crate::bus::DataBus;
use crate::bus::bus_peek;
use crate::bus::bus_read_post;
use crate::bus::bus_wf;
use crate::bus::bus_write_post;
use crate::bus::peekable;
use crate::cpu::CPU6502;
use crate::cpu::cpu_lines_unchanged;

verus! {

/// One bit of the status register (NV-BDIZC).
#[derive(Clone, Copy, Debug, PartialEq, Eq, Structural)]
pub enum SRFlag {
    Carry,
    Zero,
    InterruptDisable,
    Decimal,
    Break,
    Overflow,
    Negative,
}

/// The mask of a status flag.
pub open spec fn flag_mask_spec(flag: SRFlag) -> u8 {
    match flag {
        SRFlag::Carry => 0x01u8,
        SRFlag::Zero => 0x02u8,
        SRFlag::InterruptDisable => 0x04u8,
        SRFlag::Decimal => 0x08u8,
        SRFlag::Break => 0x10u8,
        SRFlag::Overflow => 0x40u8,
        SRFlag::Negative => 0x80u8,
    }
}

/// A status byte with one bit forced on or off.
pub open spec fn set_bit(sr: u8, mask: u8, on: bool) -> u8 {
    if on {
        sr | mask
    } else {
        sr & !mask
    }
}

/// Everything of the CPU but the status register is unchanged.
pub open spec fn only_sr_changed(a: CPU6502, b: CPU6502) -> bool {
    &&& b.pc == a.pc
    &&& b.ac == a.ac
    &&& b.xr == a.xr
    &&& b.yr == a.yr
    &&& b.sp == a.sp
    &&& b.ticks == a.ticks
    &&& cpu_lines_unchanged(a, b)
}

fn flag_mask(flag: SRFlag) -> (r: u8)
    ensures
        r == flag_mask_spec(flag),
{
    match flag {
        SRFlag::Carry => 0x01,
        SRFlag::Zero => 0x02,
        SRFlag::InterruptDisable => 0x04,
        SRFlag::Decimal => 0x08,
        SRFlag::Break => 0x10,
        SRFlag::Overflow => 0x40,
        SRFlag::Negative => 0x80,
    }
}

impl CPU6502 {
    /// Force one status flag on or off.
    pub fn set_flag(&mut self, flag: SRFlag, set: bool)
        ensures
            final(self).sr == set_bit(old(self).sr, flag_mask_spec(flag), set),
            only_sr_changed(*old(self), *final(self)),
    {
        let mask = flag_mask(flag);
        if set {
            self.sr = self.sr | mask;
        } else {
            self.sr = self.sr & !mask;
        }
    }

    /// Whether one status flag is set.
    pub fn get_flag(&mut self, flag: SRFlag) -> (r: bool)
        ensures
            r == (old(self).sr & flag_mask_spec(flag) != 0),
            *final(self) == *old(self),
    {
        (self.sr & flag_mask(flag)) != 0
    }

    /// Set the whole status register.
    pub fn set_sr(&mut self, bb: u8)
        ensures
            final(self).sr == bb,
            only_sr_changed(*old(self), *final(self)),
    {
        self.sr = bb;
    }

    /// The whole status register.
    pub fn get_sr(&mut self) -> (r: u8)
        ensures
            r == old(self).sr,
            *final(self) == *old(self),
    {
        self.sr
    }

    /// Read one byte through the bus; the CPU itself is untouched.
    pub fn load8(&mut self, bus: &mut DataBus, address: u16) -> (r: u8)
        requires
            bus_wf(*old(bus)),
        ensures
            bus_wf(*final(bus)),
            bus_read_post(*old(bus), *final(bus), address, r),
            *final(self) == *old(self),
    {
        bus.read(address)
    }

    /// Write one byte through the bus; the CPU itself is untouched.
    pub fn store8(&mut self, bus: &mut DataBus, address: u16, bb: u8)
        requires
            bus_wf(*old(bus)),
        ensures
            bus_wf(*final(bus)),
            bus_write_post(*old(bus), *final(bus), address, bb),
            *final(self) == *old(self),
    {
        bus.write(address, bb);
    }

    /// Pull one byte off the stack: the pointer rises first, with 8-bit
    /// wrap, then the byte comes from page $0100.
    pub fn pull8(&mut self, bus: &mut DataBus) -> (r: u8)
        requires
            bus_wf(*old(bus)),
        ensures
            bus_wf(*final(bus)),
            *final(bus) == *old(bus),
            final(self).sp == old(self).sp.wrapping_add(1),
            r == old(bus).ram@[0x100 + old(self).sp.wrapping_add(1) as int],
            only_sp_changed(*old(self), *final(self)),
    {
        self.sp = self.sp.wrapping_add(1);
        self.load8(bus, 0x100 + self.sp as u16)
    }

    /// Push one byte onto the stack: the byte lands in page $0100, then the
    /// pointer falls, with 8-bit wrap.
    pub fn push8(&mut self, bus: &mut DataBus, bb: u8)
        requires
            bus_wf(*old(bus)),
        ensures
            bus_wf(*final(bus)),
            final(bus).ram@ == old(bus).ram@.update(0x100 + old(self).sp as int, bb),
            final(bus).ppu == old(bus).ppu,
            final(bus).controller0 == old(bus).controller0,
            final(bus).controller1 == old(bus).controller1,
            final(bus).dma_cycles == old(bus).dma_cycles,
            final(self).sp == old(self).sp.wrapping_sub(1),
            only_sp_changed(*old(self), *final(self)),
    {
        self.store8(bus, 0x100 + self.sp as u16, bb);
        self.sp = self.sp.wrapping_sub(1);
    }

    /// Pull a 16-bit word off the stack, low byte first.
    pub fn pull16(&mut self, bus: &mut DataBus) -> (r: u16)
        requires
            bus_wf(*old(bus)),
        ensures
            bus_wf(*final(bus)),
            *final(bus) == *old(bus),
            final(self).sp == old(self).sp.wrapping_add(2),
            r == join_bytes_spec(
                old(bus).ram@[0x100 + old(self).sp.wrapping_add(2) as int],
                old(bus).ram@[0x100 + old(self).sp.wrapping_add(1) as int],
            ),
            only_sp_changed(*old(self), *final(self)),
    {
        let ll = self.pull8(bus);
        let hh = self.pull8(bus);
        join_bytes(hh, ll)
    }

    /// Push a 16-bit word onto the stack, high byte first.
    pub fn push16(&mut self, bus: &mut DataBus, value: u16)
        requires
            bus_wf(*old(bus)),
        ensures
            bus_wf(*final(bus)),
            final(bus).ram@ == old(bus).ram@.update(
                0x100 + old(self).sp as int,
                high_byte_spec(value),
            ).update(0x100 + old(self).sp.wrapping_sub(1) as int, low_byte_spec(value)),
            final(bus).ppu == old(bus).ppu,
            final(bus).controller0 == old(bus).controller0,
            final(bus).controller1 == old(bus).controller1,
            final(bus).dma_cycles == old(bus).dma_cycles,
            final(self).sp == old(self).sp.wrapping_sub(2),
            only_sp_changed(*old(self), *final(self)),
    {
        let hb = high_byte(value);
        let lb = low_byte(value);
        self.push8(bus, hb);
        self.push8(bus, lb);
    }

    /// Read a 16-bit word from two consecutive addresses, low byte first.
    /// On side-effect-free addresses the bus is untouched and the result is
    /// exactly the two bytes there.
    pub fn load16(&mut self, bus: &mut DataBus, address: u16) -> (r: u16)
        requires
            bus_wf(*old(bus)),
        ensures
            bus_wf(*final(bus)),
            *final(self) == *old(self),
            final(bus).ram@ == old(bus).ram@,
            final(bus).dma_cycles == old(bus).dma_cycles,
            final(bus).ppu.mapper == old(bus).ppu.mapper,
            crate::bus::ppu_timing_unchanged(old(bus).ppu, final(bus).ppu),
            peekable(address) && peekable(address.wrapping_add(1)) ==> {
                &&& *final(bus) == *old(bus)
                &&& r == join_bytes_spec(
                    bus_peek(*old(bus), address.wrapping_add(1)),
                    bus_peek(*old(bus), address),
                )
            },
    {
        let ll = self.load8(bus, address);
        let hh = self.load8(bus, address.wrapping_add(1));
        join_bytes(hh, ll)
    }
}

/// Everything of the CPU but the stack pointer is unchanged.
pub open spec fn only_sp_changed(a: CPU6502, b: CPU6502) -> bool {
    &&& b.pc == a.pc
    &&& b.ac == a.ac
    &&& b.xr == a.xr
    &&& b.yr == a.yr
    &&& b.sr == a.sr
    &&& b.ticks == a.ticks
    &&& cpu_lines_unchanged(a, b)
}

} // verus!
