//! The documented instructions, one function each, with exact contracts
//! wherever every address they touch is side-effect-free.

use vstd::prelude::*;
use crate::bits::join_bytes;
use crate::bits::join_bytes_spec;
use crate::bits::page_crossed_spec;
use crate::bits::rel_addr;
use crate::bits::rel_addr_spec;
use crate::bits::sat_add64;
use crate::bits::sat_add64_spec;
use crate::bus::DataBus;
use crate::bus::bus_peek;
use crate::bus::bus_wf;
use crate::bus::bus_write_post;
use crate::bus::peekable;
use crate::cpu::CPU6502;
use crate::cpu::cpu_lines_unchanged;
use crate::cpu::instruction::gmv_extra_ticks;
use crate::cpu::instruction::gmv_pure;
use crate::cpu::instruction::gmv_result;
use crate::cpu::instruction::smv_addr;
use crate::cpu::address_mode::AddressMode;
use crate::cpu::util::SRFlag;
use crate::cpu::util::set_bit;

verus! {

/// The status register with the negative and zero flags set from a value,
/// negative first, as every load-style instruction does it.
pub open spec fn nz_flags(sr: u8, value: u8) -> u8 {
    set_bit(set_bit(sr, 0x80, value & 0x80 != 0), 0x02, value == 0)
}

/// Fields an instruction that only reads memory and writes the accumulator
/// and flags leaves alone.
pub open spec fn keeps_pc_xy_sp(a: CPU6502, b: CPU6502) -> bool {
    &&& b.pc == a.pc
    &&& b.xr == a.xr
    &&& b.yr == a.yr
    &&& b.sp == a.sp
    &&& cpu_lines_unchanged(a, b)
}

/// The bus parts no instruction changes through a read, side effects or
/// not: RAM, the pending DMA stall, the cartridge, and the PPU's clock.
pub open spec fn bus_kept_coarse(pre: DataBus, post: DataBus) -> bool {
    &&& post.ram@ == pre.ram@
    &&& post.dma_cycles == pre.dma_cycles
    &&& post.ppu.mapper == pre.ppu.mapper
    &&& crate::bus::ppu_timing_unchanged(pre.ppu, post.ppu)
}

/// The cycle counter after a read instruction: base cycles are charged by
/// the fetch step; the addressing mode may add its page-cross penalty.
pub open spec fn ticks_after_read(cpu: CPU6502, bus: DataBus, mode: AddressMode, ll: u8, hh: u8) -> u64 {
    sat_add64_spec(cpu.ticks, gmv_extra_ticks(cpu, bus, mode, ll, hh, 1))
}

impl CPU6502 {
    /// Add the operand and the carry to the accumulator; set N, Z, C and
    /// the signed overflow flag V.
    pub fn adc(&mut self, bus: &mut DataBus, mode: AddressMode, ll: u8, hh: u8)
        requires
            bus_wf(*old(bus)),
        ensures
            bus_wf(*final(bus)),
            bus_kept_coarse(*old(bus), *final(bus)),
            keeps_pc_xy_sp(*old(self), *final(self)),
            final(self).ticks == ticks_after_read(*old(self), *old(bus), mode, ll, hh),
            gmv_pure(*old(self), *old(bus), mode, ll, hh) ==> {
                &&& *final(bus) == *old(bus)
                &&& final(self).ac == adc_sum(
                    old(self).ac,
                    gmv_result(*old(self), *old(bus), mode, ll, hh),
                    old(self).sr & 0x01 != 0,
                ) & 0xFF
                &&& final(self).sr == adc_flags(
                    old(self).sr,
                    old(self).ac,
                    gmv_result(*old(self), *old(bus), mode, ll, hh),
                    old(self).sr & 0x01 != 0,
                )
            },
    {
        let src = self.get_memory_value(bus, ll, hh, mode, 1);
        let src8: u16 = src & 0xFF;
        let c: u16 = if self.get_flag(SRFlag::Carry) {
            1
        } else {
            0
        };
        proof {
            crate::bits::lemma_u16_and_le();
        }
        let temp: u16 = self.ac as u16 + src8 + c;
        let bb: u8 = (temp & 0xFF) as u8;
        self.set_flag(SRFlag::Zero, bb == 0);
        self.set_flag(SRFlag::Negative, (bb & 0x80) != 0);
        self.set_flag(
            SRFlag::Overflow,
            ((self.ac ^ bb) as u16 & (src8 ^ bb as u16) & 0x80) != 0,
        );
        self.set_flag(SRFlag::Carry, temp > 0xFF);
        self.ac = bb;
    }

    /// And the operand into the accumulator; set N and Z.
    pub fn and(&mut self, bus: &mut DataBus, mode: AddressMode, ll: u8, hh: u8)
        requires
            bus_wf(*old(bus)),
        ensures
            bus_wf(*final(bus)),
            bus_kept_coarse(*old(bus), *final(bus)),
            keeps_pc_xy_sp(*old(self), *final(self)),
            final(self).ticks == ticks_after_read(*old(self), *old(bus), mode, ll, hh),
            gmv_pure(*old(self), *old(bus), mode, ll, hh) ==> {
                &&& *final(bus) == *old(bus)
                &&& final(self).ac == old(self).ac & (gmv_result(
                    *old(self),
                    *old(bus),
                    mode,
                    ll,
                    hh,
                ) & 0xFF) as u8
                &&& final(self).sr == nz_flags(old(self).sr, final(self).ac)
            },
    {
        let src = self.get_memory_value(bus, ll, hh, mode, 1);
        self.ac = self.ac & (src & 0xFF) as u8;
        let v = self.ac;
        self.set_flag(SRFlag::Negative, (v & 0x80) != 0);
        self.set_flag(SRFlag::Zero, v == 0);
    }

    /// Shift the operand left one bit; bit 7 falls into carry.
    pub fn asl(&mut self, bus: &mut DataBus, mode: AddressMode, ll: u8, hh: u8)
        requires
            bus_wf(*old(bus)),
            writable_mode(mode),
        ensures
            bus_wf(*final(bus)),
            rmw_keeps(*old(self), *final(self), *old(bus), *final(bus), mode),
            gmv_pure(*old(self), *old(bus), mode, ll, hh) ==> {
                &&& final(self).sr == asl_flags(
                    old(self).sr,
                    gmv_result(*old(self), *old(bus), mode, ll, hh),
                )
                &&& mode == AddressMode::Accumulator ==> final(self).ac == asl_value(
                    gmv_result(*old(self), *old(bus), mode, ll, hh),
                ) && *final(bus) == *old(bus)
                &&& mode != AddressMode::Accumulator ==> bus_write_post(
                    *old(bus),
                    *final(bus),
                    smv_addr(*old(self), *old(bus), mode, ll, hh),
                    asl_value(gmv_result(*old(self), *old(bus), mode, ll, hh)),
                )
            },
    {
        let mut src = self.get_memory_value(bus, ll, hh, mode, 0);
        self.set_flag(SRFlag::Carry, (src & 0x80) != 0);
        src = (src & 0x7FFF) << 1;
        let v = (src & 0xFF) as u8;
        self.set_flag(SRFlag::Negative, (v & 0x80) != 0);
        self.set_flag(SRFlag::Zero, v == 0);
        self.set_memory_value(bus, v, ll, hh, mode);
    }

    /// Branch when carry is clear.
    pub fn bcc(&mut self, bus: &mut DataBus, mode: AddressMode, ll: u8, hh: u8)
        ensures
            branch_post(*old(self), *final(self), old(self).sr & 0x01 == 0, ll),
            *final(bus) == *old(bus),
    {
        let taken = !self.get_flag(SRFlag::Carry);
        self.branch(taken, ll);
    }

    /// Branch when carry is set.
    pub fn bcs(&mut self, bus: &mut DataBus, mode: AddressMode, ll: u8, hh: u8)
        ensures
            branch_post(*old(self), *final(self), old(self).sr & 0x01 != 0, ll),
            *final(bus) == *old(bus),
    {
        let taken = self.get_flag(SRFlag::Carry);
        self.branch(taken, ll);
    }

    /// Branch when the zero flag is set.
    pub fn beq(&mut self, bus: &mut DataBus, mode: AddressMode, ll: u8, hh: u8)
        ensures
            branch_post(*old(self), *final(self), old(self).sr & 0x02 != 0, ll),
            *final(bus) == *old(bus),
    {
        let taken = self.get_flag(SRFlag::Zero);
        self.branch(taken, ll);
    }

    /// Test bits: N and V from the operand's top bits, Z from the and with
    /// the accumulator.
    pub fn bit(&mut self, bus: &mut DataBus, mode: AddressMode, ll: u8, hh: u8)
        requires
            bus_wf(*old(bus)),
        ensures
            bus_wf(*final(bus)),
            bus_kept_coarse(*old(bus), *final(bus)),
            keeps_pc_xy_sp(*old(self), *final(self)),
            final(self).ac == old(self).ac,
            final(self).ticks == ticks_after_read(*old(self), *old(bus), mode, ll, hh),
            gmv_pure(*old(self), *old(bus), mode, ll, hh) ==> {
                &&& *final(bus) == *old(bus)
                &&& final(self).sr == bit_flags(
                    old(self).sr,
                    old(self).ac,
                    gmv_result(*old(self), *old(bus), mode, ll, hh),
                )
            },
    {
        let src = self.get_memory_value(bus, ll, hh, mode, 1);
        let v = (src & 0xFF) as u8;
        self.set_flag(SRFlag::Negative, (v & 0x80) != 0);
        self.set_flag(SRFlag::Overflow, (src & 0x40) != 0);
        self.set_flag(SRFlag::Zero, v & self.ac == 0);
    }

    /// Branch when the negative flag is set.
    pub fn bmi(&mut self, bus: &mut DataBus, mode: AddressMode, ll: u8, hh: u8)
        ensures
            branch_post(*old(self), *final(self), old(self).sr & 0x80 != 0, ll),
            *final(bus) == *old(bus),
    {
        let taken = self.get_flag(SRFlag::Negative);
        self.branch(taken, ll);
    }

    /// Branch when the zero flag is clear.
    pub fn bne(&mut self, bus: &mut DataBus, mode: AddressMode, ll: u8, hh: u8)
        ensures
            branch_post(*old(self), *final(self), old(self).sr & 0x02 == 0, ll),
            *final(bus) == *old(bus),
    {
        let taken = !self.get_flag(SRFlag::Zero);
        self.branch(taken, ll);
    }

    /// Branch when the negative flag is clear.
    pub fn bpl(&mut self, bus: &mut DataBus, mode: AddressMode, ll: u8, hh: u8)
        ensures
            branch_post(*old(self), *final(self), old(self).sr & 0x80 == 0, ll),
            *final(bus) == *old(bus),
    {
        let taken = !self.get_flag(SRFlag::Negative);
        self.branch(taken, ll);
    }

    /// Software interrupt: push the address after the padding byte, push
    /// the status with bits 4 and 5 set, set interrupt-disable and vector
    /// through $FFFE.
    pub fn brk(&mut self, bus: &mut DataBus, mode: AddressMode, ll: u8, hh: u8)
        requires
            bus_wf(*old(bus)),
        ensures
            bus_wf(*final(bus)),
            final(bus).ram@ == old(bus).ram@.update(
                0x100 + old(self).sp as int,
                crate::bits::high_byte_spec(old(self).pc.wrapping_add(1)),
            ).update(
                0x100 + old(self).sp.wrapping_sub(1) as int,
                crate::bits::low_byte_spec(old(self).pc.wrapping_add(1)),
            ).update(0x100 + old(self).sp.wrapping_sub(2) as int, (old(self).sr | 0x10) | 0x30),
            final(bus).ppu == old(bus).ppu,
            final(bus).controller0 == old(bus).controller0,
            final(bus).controller1 == old(bus).controller1,
            final(bus).dma_cycles == old(bus).dma_cycles,
            final(self).sp == old(self).sp.wrapping_sub(3),
            final(self).sr == ((old(self).sr | 0x10) | 0x04),
            final(self).pc == join_bytes_spec(
                bus_peek(*old(bus), 0xFFFF),
                bus_peek(*old(bus), 0xFFFE),
            ),
            final(self).ac == old(self).ac,
            final(self).xr == old(self).xr,
            final(self).yr == old(self).yr,
            final(self).ticks == old(self).ticks,
            cpu_lines_unchanged(*old(self), *final(self)),
    {
        self.pc = self.pc.wrapping_add(1);
        self.push16(bus, self.pc);
        self.set_flag(SRFlag::Break, true);
        let sr = self.sr | 0x30;
        self.push8(bus, sr);
        self.set_flag(SRFlag::InterruptDisable, true);
        self.pc = self.load16(bus, 0xFFFE);
    }

    /// Branch when the overflow flag is clear.
    pub fn bvc(&mut self, bus: &mut DataBus, mode: AddressMode, ll: u8, hh: u8)
        ensures
            branch_post(*old(self), *final(self), old(self).sr & 0x40 == 0, ll),
            *final(bus) == *old(bus),
    {
        let taken = !self.get_flag(SRFlag::Overflow);
        self.branch(taken, ll);
    }

    /// Branch when the overflow flag is set.
    pub fn bvs(&mut self, bus: &mut DataBus, mode: AddressMode, ll: u8, hh: u8)
        ensures
            branch_post(*old(self), *final(self), old(self).sr & 0x40 != 0, ll),
            *final(bus) == *old(bus),
    {
        let taken = self.get_flag(SRFlag::Overflow);
        self.branch(taken, ll);
    }

    /// Clear carry.
    pub fn clc(&mut self, bus: &mut DataBus, mode: AddressMode, ll: u8, hh: u8)
        ensures
            final(self).sr == old(self).sr & !0x01,
            crate::cpu::util::only_sr_changed(*old(self), *final(self)),
            *final(bus) == *old(bus),
    {
        self.set_flag(SRFlag::Carry, false);
    }

    /// Clear the decimal flag; arithmetic never consults it.
    pub fn cld(&mut self, bus: &mut DataBus, mode: AddressMode, ll: u8, hh: u8)
        ensures
            final(self).sr == old(self).sr & !0x08,
            crate::cpu::util::only_sr_changed(*old(self), *final(self)),
            *final(bus) == *old(bus),
    {
        self.set_flag(SRFlag::Decimal, false);
    }

    /// Clear interrupt-disable.
    pub fn cli(&mut self, bus: &mut DataBus, mode: AddressMode, ll: u8, hh: u8)
        ensures
            final(self).sr == old(self).sr & !0x04,
            crate::cpu::util::only_sr_changed(*old(self), *final(self)),
            *final(bus) == *old(bus),
    {
        self.set_flag(SRFlag::InterruptDisable, false);
    }

    /// Clear overflow.
    pub fn clv(&mut self, bus: &mut DataBus, mode: AddressMode, ll: u8, hh: u8)
        ensures
            final(self).sr == old(self).sr & !0x40,
            crate::cpu::util::only_sr_changed(*old(self), *final(self)),
            *final(bus) == *old(bus),
    {
        self.set_flag(SRFlag::Overflow, false);
    }

    /// Compare the accumulator with the operand: C when no borrow, N and Z
    /// from the difference.
    pub fn cmp(&mut self, bus: &mut DataBus, mode: AddressMode, ll: u8, hh: u8)
        requires
            bus_wf(*old(bus)),
        ensures
            bus_wf(*final(bus)),
            bus_kept_coarse(*old(bus), *final(bus)),
            keeps_pc_xy_sp(*old(self), *final(self)),
            final(self).ac == old(self).ac,
            final(self).ticks == ticks_after_read(*old(self), *old(bus), mode, ll, hh),
            gmv_pure(*old(self), *old(bus), mode, ll, hh) ==> {
                &&& *final(bus) == *old(bus)
                &&& final(self).sr == compare_flags(
                    old(self).sr,
                    old(self).ac,
                    gmv_result(*old(self), *old(bus), mode, ll, hh),
                )
            },
    {
        let src = self.get_memory_value(bus, ll, hh, mode, 1);
        let diff: u16 = (self.ac as u16).wrapping_sub(src);
        self.set_flag(SRFlag::Carry, diff < 0x100);
        self.set_flag(SRFlag::Negative, (diff & 0x80) != 0);
        self.set_flag(SRFlag::Zero, diff & 0xFF == 0);
    }

    /// Compare X with the operand.
    pub fn cpx(&mut self, bus: &mut DataBus, mode: AddressMode, ll: u8, hh: u8)
        requires
            bus_wf(*old(bus)),
        ensures
            bus_wf(*final(bus)),
            bus_kept_coarse(*old(bus), *final(bus)),
            keeps_pc_xy_sp(*old(self), *final(self)),
            final(self).ac == old(self).ac,
            final(self).ticks == ticks_after_read(*old(self), *old(bus), mode, ll, hh),
            gmv_pure(*old(self), *old(bus), mode, ll, hh) ==> {
                &&& *final(bus) == *old(bus)
                &&& final(self).sr == compare_flags(
                    old(self).sr,
                    old(self).xr,
                    gmv_result(*old(self), *old(bus), mode, ll, hh),
                )
            },
    {
        let src = self.get_memory_value(bus, ll, hh, mode, 1);
        let diff: u16 = (self.xr as u16).wrapping_sub(src);
        self.set_flag(SRFlag::Carry, diff < 0x100);
        self.set_flag(SRFlag::Negative, (diff & 0x80) != 0);
        self.set_flag(SRFlag::Zero, diff & 0xFF == 0);
    }

    /// Compare Y with the operand.
    pub fn cpy(&mut self, bus: &mut DataBus, mode: AddressMode, ll: u8, hh: u8)
        requires
            bus_wf(*old(bus)),
        ensures
            bus_wf(*final(bus)),
            bus_kept_coarse(*old(bus), *final(bus)),
            keeps_pc_xy_sp(*old(self), *final(self)),
            final(self).ac == old(self).ac,
            final(self).ticks == ticks_after_read(*old(self), *old(bus), mode, ll, hh),
            gmv_pure(*old(self), *old(bus), mode, ll, hh) ==> {
                &&& *final(bus) == *old(bus)
                &&& final(self).sr == compare_flags(
                    old(self).sr,
                    old(self).yr,
                    gmv_result(*old(self), *old(bus), mode, ll, hh),
                )
            },
    {
        let src = self.get_memory_value(bus, ll, hh, mode, 1);
        let diff: u16 = (self.yr as u16).wrapping_sub(src);
        self.set_flag(SRFlag::Carry, diff < 0x100);
        self.set_flag(SRFlag::Negative, (diff & 0x80) != 0);
        self.set_flag(SRFlag::Zero, diff & 0xFF == 0);
    }

    /// Decrement the operand in place; set N and Z.
    pub fn dec(&mut self, bus: &mut DataBus, mode: AddressMode, ll: u8, hh: u8)
        requires
            bus_wf(*old(bus)),
            writable_mode(mode),
        ensures
            bus_wf(*final(bus)),
            rmw_keeps(*old(self), *final(self), *old(bus), *final(bus), mode),
            gmv_pure(*old(self), *old(bus), mode, ll, hh) ==> {
                &&& final(self).sr == nz_flags(
                    old(self).sr,
                    ((gmv_result(*old(self), *old(bus), mode, ll, hh) & 0xFF) as u8).wrapping_sub(
                        1,
                    ),
                )
                &&& mode == AddressMode::Accumulator ==> final(self).ac == ((gmv_result(
                    *old(self),
                    *old(bus),
                    mode,
                    ll,
                    hh,
                ) & 0xFF) as u8).wrapping_sub(1) && *final(bus) == *old(bus)
                &&& mode != AddressMode::Accumulator ==> bus_write_post(
                    *old(bus),
                    *final(bus),
                    smv_addr(*old(self), *old(bus), mode, ll, hh),
                    ((gmv_result(*old(self), *old(bus), mode, ll, hh) & 0xFF) as u8).wrapping_sub(
                        1,
                    ),
                )
            },
    {
        let src = self.get_memory_value(bus, ll, hh, mode, 0);
        let v: u8 = (src & 0xFF) as u8;
        let v2: u8 = v.wrapping_sub(1);
        proof {
            crate::bits::lemma_u16_and_le();
        }
        self.set_flag(SRFlag::Negative, (v2 & 0x80) != 0);
        self.set_flag(SRFlag::Zero, v2 == 0);
        self.set_memory_value(bus, v2, ll, hh, mode);
    }

    /// Decrement X; set N and Z.
    pub fn dex(&mut self, bus: &mut DataBus, mode: AddressMode, ll: u8, hh: u8)
        ensures
            final(self).xr == old(self).xr.wrapping_sub(1),
            final(self).sr == nz_flags(old(self).sr, final(self).xr),
            only_x_and_sr_changed(*old(self), *final(self)),
            *final(bus) == *old(bus),
    {
        self.xr = self.xr.wrapping_sub(1);
        let v = self.xr;
        self.set_flag(SRFlag::Negative, (v & 0x80) != 0);
        self.set_flag(SRFlag::Zero, v == 0);
    }

    /// Decrement Y; set N and Z.
    pub fn dey(&mut self, bus: &mut DataBus, mode: AddressMode, ll: u8, hh: u8)
        ensures
            final(self).yr == old(self).yr.wrapping_sub(1),
            final(self).sr == nz_flags(old(self).sr, final(self).yr),
            only_y_and_sr_changed(*old(self), *final(self)),
            *final(bus) == *old(bus),
    {
        self.yr = self.yr.wrapping_sub(1);
        let v = self.yr;
        self.set_flag(SRFlag::Negative, (v & 0x80) != 0);
        self.set_flag(SRFlag::Zero, v == 0);
    }

    /// Exclusive-or the operand into the accumulator; set N and Z.
    pub fn eor(&mut self, bus: &mut DataBus, mode: AddressMode, ll: u8, hh: u8)
        requires
            bus_wf(*old(bus)),
        ensures
            bus_wf(*final(bus)),
            bus_kept_coarse(*old(bus), *final(bus)),
            keeps_pc_xy_sp(*old(self), *final(self)),
            final(self).ticks == ticks_after_read(*old(self), *old(bus), mode, ll, hh),
            gmv_pure(*old(self), *old(bus), mode, ll, hh) ==> {
                &&& *final(bus) == *old(bus)
                &&& final(self).ac == old(self).ac ^ (gmv_result(
                    *old(self),
                    *old(bus),
                    mode,
                    ll,
                    hh,
                ) & 0xFF) as u8
                &&& final(self).sr == nz_flags(old(self).sr, final(self).ac)
            },
    {
        let src = self.get_memory_value(bus, ll, hh, mode, 1);
        self.ac = self.ac ^ (src & 0xFF) as u8;
        let v = self.ac;
        self.set_flag(SRFlag::Negative, (v & 0x80) != 0);
        self.set_flag(SRFlag::Zero, v == 0);
    }

    /// Increment the operand in place; set N and Z.
    pub fn inc(&mut self, bus: &mut DataBus, mode: AddressMode, ll: u8, hh: u8)
        requires
            bus_wf(*old(bus)),
            writable_mode(mode),
        ensures
            bus_wf(*final(bus)),
            rmw_keeps(*old(self), *final(self), *old(bus), *final(bus), mode),
            gmv_pure(*old(self), *old(bus), mode, ll, hh) ==> {
                &&& final(self).sr == nz_flags(
                    old(self).sr,
                    ((gmv_result(*old(self), *old(bus), mode, ll, hh) & 0xFF) as u8).wrapping_add(
                        1,
                    ),
                )
                &&& mode == AddressMode::Accumulator ==> final(self).ac == ((gmv_result(
                    *old(self),
                    *old(bus),
                    mode,
                    ll,
                    hh,
                ) & 0xFF) as u8).wrapping_add(1) && *final(bus) == *old(bus)
                &&& mode != AddressMode::Accumulator ==> bus_write_post(
                    *old(bus),
                    *final(bus),
                    smv_addr(*old(self), *old(bus), mode, ll, hh),
                    ((gmv_result(*old(self), *old(bus), mode, ll, hh) & 0xFF) as u8).wrapping_add(
                        1,
                    ),
                )
            },
    {
        let src = self.get_memory_value(bus, ll, hh, mode, 0);
        let v: u8 = (src & 0xFF) as u8;
        let v2: u8 = v.wrapping_add(1);
        proof {
            crate::bits::lemma_u16_and_le();
        }
        self.set_flag(SRFlag::Negative, (v2 & 0x80) != 0);
        self.set_flag(SRFlag::Zero, v2 == 0);
        self.set_memory_value(bus, v2, ll, hh, mode);
    }

    /// Increment X; set N and Z.
    pub fn inx(&mut self, bus: &mut DataBus, mode: AddressMode, ll: u8, hh: u8)
        ensures
            final(self).xr == old(self).xr.wrapping_add(1),
            final(self).sr == nz_flags(old(self).sr, final(self).xr),
            only_x_and_sr_changed(*old(self), *final(self)),
            *final(bus) == *old(bus),
    {
        self.xr = self.xr.wrapping_add(1);
        let v = self.xr;
        self.set_flag(SRFlag::Negative, (v & 0x80) != 0);
        self.set_flag(SRFlag::Zero, v == 0);
    }

    /// Increment Y; set N and Z.
    pub fn iny(&mut self, bus: &mut DataBus, mode: AddressMode, ll: u8, hh: u8)
        ensures
            final(self).yr == old(self).yr.wrapping_add(1),
            final(self).sr == nz_flags(old(self).sr, final(self).yr),
            only_y_and_sr_changed(*old(self), *final(self)),
            *final(bus) == *old(bus),
    {
        self.yr = self.yr.wrapping_add(1);
        let v = self.yr;
        self.set_flag(SRFlag::Negative, (v & 0x80) != 0);
        self.set_flag(SRFlag::Zero, v == 0);
    }

    /// Jump. The indirect form reads its pointer without carrying into the
    /// high byte: the second pointer byte comes from $xx00 when the first
    /// sits at $xxFF — the documented hardware bug.
    pub fn jmp(&mut self, bus: &mut DataBus, mode: AddressMode, ll: u8, hh: u8)
        requires
            bus_wf(*old(bus)),
            mode == AddressMode::Absolute || mode == AddressMode::Indirect,
        ensures
            bus_wf(*final(bus)),
            bus_kept_coarse(*old(bus), *final(bus)),
            final(self).ac == old(self).ac,
            final(self).xr == old(self).xr,
            final(self).yr == old(self).yr,
            final(self).sr == old(self).sr,
            final(self).sp == old(self).sp,
            final(self).ticks == old(self).ticks,
            cpu_lines_unchanged(*old(self), *final(self)),
            mode == AddressMode::Absolute ==> {
                &&& final(self).pc == join_bytes_spec(hh, ll)
                &&& *final(bus) == *old(bus)
            },
            mode == AddressMode::Indirect && peekable(join_bytes_spec(hh, ll)) && peekable(
                join_bytes_spec(hh, ll.wrapping_add(1)),
            ) ==> {
                &&& final(self).pc == join_bytes_spec(
                    bus_peek(*old(bus), join_bytes_spec(hh, ll.wrapping_add(1))),
                    bus_peek(*old(bus), join_bytes_spec(hh, ll)),
                )
                &&& *final(bus) == *old(bus)
            },
    {
        match mode {
            AddressMode::Absolute => {
                self.pc = join_bytes(hh, ll);
            },
            _ => {
                let jump_addr_low = self.load8(bus, join_bytes(hh, ll));
                let jump_addr_high = self.load8(bus, join_bytes(hh, ll.wrapping_add(1)));
                self.pc = join_bytes(jump_addr_high, jump_addr_low);
            },
        }
    }

    /// Call: push the address of the call's last byte, then jump.
    pub fn jsr(&mut self, bus: &mut DataBus, mode: AddressMode, ll: u8, hh: u8)
        requires
            bus_wf(*old(bus)),
            mode == AddressMode::Absolute,
        ensures
            bus_wf(*final(bus)),
            final(bus).ram@ == old(bus).ram@.update(
                0x100 + old(self).sp as int,
                crate::bits::high_byte_spec(old(self).pc.wrapping_sub(1)),
            ).update(
                0x100 + old(self).sp.wrapping_sub(1) as int,
                crate::bits::low_byte_spec(old(self).pc.wrapping_sub(1)),
            ),
            final(bus).ppu == old(bus).ppu,
            final(bus).controller0 == old(bus).controller0,
            final(bus).controller1 == old(bus).controller1,
            final(bus).dma_cycles == old(bus).dma_cycles,
            final(self).pc == join_bytes_spec(hh, ll),
            final(self).sp == old(self).sp.wrapping_sub(2),
            final(self).ac == old(self).ac,
            final(self).xr == old(self).xr,
            final(self).yr == old(self).yr,
            final(self).sr == old(self).sr,
            final(self).ticks == old(self).ticks,
            cpu_lines_unchanged(*old(self), *final(self)),
    {
        self.pc = self.pc.wrapping_sub(1);
        self.push16(bus, self.pc);
        self.pc = join_bytes(hh, ll);
    }

    /// Load the accumulator; set N and Z.
    pub fn lda(&mut self, bus: &mut DataBus, mode: AddressMode, ll: u8, hh: u8)
        requires
            bus_wf(*old(bus)),
        ensures
            bus_wf(*final(bus)),
            bus_kept_coarse(*old(bus), *final(bus)),
            keeps_pc_xy_sp(*old(self), *final(self)),
            final(self).ticks == ticks_after_read(*old(self), *old(bus), mode, ll, hh),
            gmv_pure(*old(self), *old(bus), mode, ll, hh) ==> {
                &&& *final(bus) == *old(bus)
                &&& final(self).ac == (gmv_result(*old(self), *old(bus), mode, ll, hh)
                    & 0xFF) as u8
                &&& final(self).sr == nz_flags(old(self).sr, final(self).ac)
            },
    {
        let src = self.get_memory_value(bus, ll, hh, mode, 1);
        self.ac = (src & 0xFF) as u8;
        let v = self.ac;
        self.set_flag(SRFlag::Negative, (v & 0x80) != 0);
        self.set_flag(SRFlag::Zero, v == 0);
    }

    /// Load X; set N and Z.
    pub fn ldx(&mut self, bus: &mut DataBus, mode: AddressMode, ll: u8, hh: u8)
        requires
            bus_wf(*old(bus)),
        ensures
            bus_wf(*final(bus)),
            bus_kept_coarse(*old(bus), *final(bus)),
            final(self).pc == old(self).pc,
            final(self).ac == old(self).ac,
            final(self).yr == old(self).yr,
            final(self).sp == old(self).sp,
            cpu_lines_unchanged(*old(self), *final(self)),
            final(self).ticks == ticks_after_read(*old(self), *old(bus), mode, ll, hh),
            gmv_pure(*old(self), *old(bus), mode, ll, hh) ==> {
                &&& *final(bus) == *old(bus)
                &&& final(self).xr == (gmv_result(*old(self), *old(bus), mode, ll, hh)
                    & 0xFF) as u8
                &&& final(self).sr == nz_flags(old(self).sr, final(self).xr)
            },
    {
        let src = self.get_memory_value(bus, ll, hh, mode, 1);
        self.xr = (src & 0xFF) as u8;
        let v = self.xr;
        self.set_flag(SRFlag::Negative, (v & 0x80) != 0);
        self.set_flag(SRFlag::Zero, v == 0);
    }

    /// Load Y; set N and Z.
    pub fn ldy(&mut self, bus: &mut DataBus, mode: AddressMode, ll: u8, hh: u8)
        requires
            bus_wf(*old(bus)),
        ensures
            bus_wf(*final(bus)),
            bus_kept_coarse(*old(bus), *final(bus)),
            final(self).pc == old(self).pc,
            final(self).ac == old(self).ac,
            final(self).xr == old(self).xr,
            final(self).sp == old(self).sp,
            cpu_lines_unchanged(*old(self), *final(self)),
            final(self).ticks == ticks_after_read(*old(self), *old(bus), mode, ll, hh),
            gmv_pure(*old(self), *old(bus), mode, ll, hh) ==> {
                &&& *final(bus) == *old(bus)
                &&& final(self).yr == (gmv_result(*old(self), *old(bus), mode, ll, hh)
                    & 0xFF) as u8
                &&& final(self).sr == nz_flags(old(self).sr, final(self).yr)
            },
    {
        let src = self.get_memory_value(bus, ll, hh, mode, 1);
        self.yr = (src & 0xFF) as u8;
        let v = self.yr;
        self.set_flag(SRFlag::Negative, (v & 0x80) != 0);
        self.set_flag(SRFlag::Zero, v == 0);
    }

    /// Shift the operand right one bit; bit 0 falls into carry.
    pub fn lsr(&mut self, bus: &mut DataBus, mode: AddressMode, ll: u8, hh: u8)
        requires
            bus_wf(*old(bus)),
            writable_mode(mode),
        ensures
            bus_wf(*final(bus)),
            rmw_keeps(*old(self), *final(self), *old(bus), *final(bus), mode),
            gmv_pure(*old(self), *old(bus), mode, ll, hh) ==> {
                &&& final(self).sr == lsr_flags(
                    old(self).sr,
                    gmv_result(*old(self), *old(bus), mode, ll, hh),
                )
                &&& mode == AddressMode::Accumulator ==> final(self).ac == ((gmv_result(
                    *old(self),
                    *old(bus),
                    mode,
                    ll,
                    hh,
                ) >> 1) & 0xFF) as u8 && *final(bus) == *old(bus)
                &&& mode != AddressMode::Accumulator ==> bus_write_post(
                    *old(bus),
                    *final(bus),
                    smv_addr(*old(self), *old(bus), mode, ll, hh),
                    ((gmv_result(*old(self), *old(bus), mode, ll, hh) >> 1) & 0xFF) as u8,
                )
            },
    {
        let mut src = self.get_memory_value(bus, ll, hh, mode, 0);
        self.set_flag(SRFlag::Carry, (src & 0x01) != 0);
        src = src >> 1;
        let v = (src & 0xFF) as u8;
        self.set_flag(SRFlag::Negative, (v & 0x80) != 0);
        self.set_flag(SRFlag::Zero, v == 0);
        self.set_memory_value(bus, v, ll, hh, mode);
    }

    /// No operation.
    pub fn nop(&mut self, bus: &mut DataBus, mode: AddressMode, ll: u8, hh: u8)
        ensures
            *final(self) == *old(self),
            *final(bus) == *old(bus),
    {
    }

    /// Or the operand into the accumulator; set N and Z.
    pub fn ora(&mut self, bus: &mut DataBus, mode: AddressMode, ll: u8, hh: u8)
        requires
            bus_wf(*old(bus)),
        ensures
            bus_wf(*final(bus)),
            bus_kept_coarse(*old(bus), *final(bus)),
            keeps_pc_xy_sp(*old(self), *final(self)),
            final(self).ticks == ticks_after_read(*old(self), *old(bus), mode, ll, hh),
            gmv_pure(*old(self), *old(bus), mode, ll, hh) ==> {
                &&& *final(bus) == *old(bus)
                &&& final(self).ac == old(self).ac | (gmv_result(
                    *old(self),
                    *old(bus),
                    mode,
                    ll,
                    hh,
                ) & 0xFF) as u8
                &&& final(self).sr == nz_flags(old(self).sr, final(self).ac)
            },
    {
        let src = self.get_memory_value(bus, ll, hh, mode, 1);
        self.ac = self.ac | (src & 0xFF) as u8;
        let v = self.ac;
        self.set_flag(SRFlag::Negative, (v & 0x80) != 0);
        self.set_flag(SRFlag::Zero, v == 0);
    }

    /// Push the accumulator.
    pub fn pha(&mut self, bus: &mut DataBus, mode: AddressMode, ll: u8, hh: u8)
        requires
            bus_wf(*old(bus)),
        ensures
            bus_wf(*final(bus)),
            final(bus).ram@ == old(bus).ram@.update(0x100 + old(self).sp as int, old(self).ac),
            final(bus).ppu == old(bus).ppu,
            final(bus).controller0 == old(bus).controller0,
            final(bus).controller1 == old(bus).controller1,
            final(bus).dma_cycles == old(bus).dma_cycles,
            final(self).sp == old(self).sp.wrapping_sub(1),
            crate::cpu::util::only_sp_changed(*old(self), *final(self)),
    {
        let v = self.ac;
        self.push8(bus, v);
    }

    /// Push the status byte with bits 4 and 5 reading as set.
    pub fn php(&mut self, bus: &mut DataBus, mode: AddressMode, ll: u8, hh: u8)
        requires
            bus_wf(*old(bus)),
        ensures
            bus_wf(*final(bus)),
            final(bus).ram@ == old(bus).ram@.update(
                0x100 + old(self).sp as int,
                php_pushed(old(self).sr),
            ),
            final(bus).ppu == old(bus).ppu,
            final(bus).controller0 == old(bus).controller0,
            final(bus).controller1 == old(bus).controller1,
            final(bus).dma_cycles == old(bus).dma_cycles,
            final(self).sp == old(self).sp.wrapping_sub(1),
            crate::cpu::util::only_sp_changed(*old(self), *final(self)),
    {
        let sr = self.sr | 0x30;
        self.push8(bus, sr);
    }

    /// Pull the accumulator; set N and Z.
    pub fn pla(&mut self, bus: &mut DataBus, mode: AddressMode, ll: u8, hh: u8)
        requires
            bus_wf(*old(bus)),
        ensures
            bus_wf(*final(bus)),
            *final(bus) == *old(bus),
            final(self).sp == old(self).sp.wrapping_add(1),
            final(self).ac == old(bus).ram@[0x100 + old(self).sp.wrapping_add(1) as int],
            final(self).sr == nz_flags(old(self).sr, final(self).ac),
            final(self).pc == old(self).pc,
            final(self).xr == old(self).xr,
            final(self).yr == old(self).yr,
            final(self).ticks == old(self).ticks,
            cpu_lines_unchanged(*old(self), *final(self)),
    {
        self.ac = self.pull8(bus);
        let v = self.ac;
        self.set_flag(SRFlag::Negative, (v & 0x80) != 0);
        self.set_flag(SRFlag::Zero, v == 0);
    }

    /// Pull the status byte; bits 4 and 5 keep their current values, the
    /// pulled ones are ignored.
    pub fn plp(&mut self, bus: &mut DataBus, mode: AddressMode, ll: u8, hh: u8)
        requires
            bus_wf(*old(bus)),
        ensures
            bus_wf(*final(bus)),
            *final(bus) == *old(bus),
            final(self).sp == old(self).sp.wrapping_add(1),
            final(self).sr == plp_sr(
                old(self).sr,
                old(bus).ram@[0x100 + old(self).sp.wrapping_add(1) as int],
            ),
            final(self).pc == old(self).pc,
            final(self).ac == old(self).ac,
            final(self).xr == old(self).xr,
            final(self).yr == old(self).yr,
            final(self).ticks == old(self).ticks,
            cpu_lines_unchanged(*old(self), *final(self)),
    {
        let pulled = self.pull8(bus);
        let value = (pulled & 0xCF) | (self.sr & 0x30);
        self.set_sr(value);
    }

    /// Rotate the operand left through carry.
    pub fn rol(&mut self, bus: &mut DataBus, mode: AddressMode, ll: u8, hh: u8)
        requires
            bus_wf(*old(bus)),
            writable_mode(mode),
        ensures
            bus_wf(*final(bus)),
            rmw_keeps(*old(self), *final(self), *old(bus), *final(bus), mode),
            gmv_pure(*old(self), *old(bus), mode, ll, hh) ==> {
                &&& final(self).sr == rol_flags(
                    old(self).sr,
                    gmv_result(*old(self), *old(bus), mode, ll, hh),
                    old(self).sr & 0x01 != 0,
                )
                &&& mode == AddressMode::Accumulator ==> final(self).ac == rol_value(
                    gmv_result(*old(self), *old(bus), mode, ll, hh),
                    old(self).sr & 0x01 != 0,
                ) && *final(bus) == *old(bus)
                &&& mode != AddressMode::Accumulator ==> bus_write_post(
                    *old(bus),
                    *final(bus),
                    smv_addr(*old(self), *old(bus), mode, ll, hh),
                    rol_value(
                        gmv_result(*old(self), *old(bus), mode, ll, hh),
                        old(self).sr & 0x01 != 0,
                    ),
                )
            },
    {
        let src0 = self.get_memory_value(bus, ll, hh, mode, 0);
        let mut src: u16 = (src0 & 0x7FFF) << 1;
        if self.get_flag(SRFlag::Carry) {
            src = src | 0x1;
        }
        self.set_flag(SRFlag::Carry, src > 0xFF);
        let v = (src & 0xFF) as u8;
        self.set_flag(SRFlag::Negative, (v & 0x80) != 0);
        self.set_flag(SRFlag::Zero, v == 0);
        self.set_memory_value(bus, v, ll, hh, mode);
    }

    /// Rotate the operand right through carry.
    pub fn ror(&mut self, bus: &mut DataBus, mode: AddressMode, ll: u8, hh: u8)
        requires
            bus_wf(*old(bus)),
            writable_mode(mode),
        ensures
            bus_wf(*final(bus)),
            rmw_keeps(*old(self), *final(self), *old(bus), *final(bus), mode),
            gmv_pure(*old(self), *old(bus), mode, ll, hh) ==> {
                &&& final(self).sr == ror_flags(
                    old(self).sr,
                    gmv_result(*old(self), *old(bus), mode, ll, hh),
                    old(self).sr & 0x01 != 0,
                )
                &&& mode == AddressMode::Accumulator ==> final(self).ac == ror_value(
                    gmv_result(*old(self), *old(bus), mode, ll, hh),
                    old(self).sr & 0x01 != 0,
                ) && *final(bus) == *old(bus)
                &&& mode != AddressMode::Accumulator ==> bus_write_post(
                    *old(bus),
                    *final(bus),
                    smv_addr(*old(self), *old(bus), mode, ll, hh),
                    ror_value(
                        gmv_result(*old(self), *old(bus), mode, ll, hh),
                        old(self).sr & 0x01 != 0,
                    ),
                )
            },
    {
        let src0 = self.get_memory_value(bus, ll, hh, mode, 0);
        let mut src: u16 = src0;
        if self.get_flag(SRFlag::Carry) {
            src = src | 0x100;
        }
        self.set_flag(SRFlag::Carry, (src & 0x01) != 0);
        src = src >> 1;
        let v = (src & 0xFF) as u8;
        self.set_flag(SRFlag::Negative, (v & 0x80) != 0);
        self.set_flag(SRFlag::Zero, v == 0);
        self.set_memory_value(bus, v, ll, hh, mode);
    }

    /// Return from interrupt: pull the status byte (bits 4 and 5 kept),
    /// then the return address.
    pub fn rti(&mut self, bus: &mut DataBus, mode: AddressMode, ll: u8, hh: u8)
        requires
            bus_wf(*old(bus)),
        ensures
            bus_wf(*final(bus)),
            *final(bus) == *old(bus),
            final(self).sp == old(self).sp.wrapping_add(3),
            final(self).sr == plp_sr(
                old(self).sr,
                old(bus).ram@[0x100 + old(self).sp.wrapping_add(1) as int],
            ),
            final(self).pc == join_bytes_spec(
                old(bus).ram@[0x100 + old(self).sp.wrapping_add(3) as int],
                old(bus).ram@[0x100 + old(self).sp.wrapping_add(2) as int],
            ),
            final(self).ac == old(self).ac,
            final(self).xr == old(self).xr,
            final(self).yr == old(self).yr,
            final(self).ticks == old(self).ticks,
            cpu_lines_unchanged(*old(self), *final(self)),
    {
        let pulled = self.pull8(bus);
        let value = (pulled & 0xCF) | (self.sr & 0x30);
        self.set_sr(value);
        self.pc = self.pull16(bus);
    }

    /// Return from subroutine: pull the return address and step past it.
    pub fn rts(&mut self, bus: &mut DataBus, mode: AddressMode, ll: u8, hh: u8)
        requires
            bus_wf(*old(bus)),
        ensures
            bus_wf(*final(bus)),
            *final(bus) == *old(bus),
            final(self).sp == old(self).sp.wrapping_add(2),
            final(self).pc == join_bytes_spec(
                old(bus).ram@[0x100 + old(self).sp.wrapping_add(2) as int],
                old(bus).ram@[0x100 + old(self).sp.wrapping_add(1) as int],
            ).wrapping_add(1),
            final(self).ac == old(self).ac,
            final(self).xr == old(self).xr,
            final(self).yr == old(self).yr,
            final(self).sr == old(self).sr,
            final(self).ticks == old(self).ticks,
            cpu_lines_unchanged(*old(self), *final(self)),
    {
        self.pc = self.pull16(bus);
        self.pc = self.pc.wrapping_add(1);
    }

    /// Subtract the operand and the borrow from the accumulator; set N, Z,
    /// C (clear on borrow) and the signed overflow flag V.
    pub fn sbc(&mut self, bus: &mut DataBus, mode: AddressMode, ll: u8, hh: u8)
        requires
            bus_wf(*old(bus)),
        ensures
            bus_wf(*final(bus)),
            bus_kept_coarse(*old(bus), *final(bus)),
            keeps_pc_xy_sp(*old(self), *final(self)),
            final(self).ticks == ticks_after_read(*old(self), *old(bus), mode, ll, hh),
            gmv_pure(*old(self), *old(bus), mode, ll, hh) ==> {
                &&& *final(bus) == *old(bus)
                &&& final(self).ac == (sbc_diff(
                    old(self).ac,
                    gmv_result(*old(self), *old(bus), mode, ll, hh),
                    old(self).sr & 0x01 != 0,
                ) & 0xFF) as u8
                &&& final(self).sr == sbc_flags(
                    old(self).sr,
                    old(self).ac,
                    gmv_result(*old(self), *old(bus), mode, ll, hh),
                    old(self).sr & 0x01 != 0,
                )
            },
    {
        let src = self.get_memory_value(bus, ll, hh, mode, 1);
        let borrow: u16 = if self.get_flag(SRFlag::Carry) {
            0
        } else {
            1
        };
        let temp: u16 = (self.ac as u16).wrapping_sub(src).wrapping_sub(borrow);
        let bb: u8 = (temp & 0xFF) as u8;
        self.set_flag(SRFlag::Zero, bb == 0);
        self.set_flag(SRFlag::Negative, (bb & 0x80) != 0);
        self.set_flag(
            SRFlag::Overflow,
            ((self.ac ^ bb) as u16 & (!src ^ bb as u16) & 0x80) != 0,
        );
        self.set_flag(SRFlag::Carry, (temp & 0x100) != 0x100);
        self.ac = bb;
    }

    /// Set carry.
    pub fn sec(&mut self, bus: &mut DataBus, mode: AddressMode, ll: u8, hh: u8)
        ensures
            final(self).sr == old(self).sr | 0x01,
            crate::cpu::util::only_sr_changed(*old(self), *final(self)),
            *final(bus) == *old(bus),
    {
        self.set_flag(SRFlag::Carry, true);
    }

    /// Set the decimal flag; arithmetic never consults it.
    pub fn sed(&mut self, bus: &mut DataBus, mode: AddressMode, ll: u8, hh: u8)
        ensures
            final(self).sr == old(self).sr | 0x08,
            crate::cpu::util::only_sr_changed(*old(self), *final(self)),
            *final(bus) == *old(bus),
    {
        self.set_flag(SRFlag::Decimal, true);
    }

    /// Set interrupt-disable.
    pub fn sei(&mut self, bus: &mut DataBus, mode: AddressMode, ll: u8, hh: u8)
        ensures
            final(self).sr == old(self).sr | 0x04,
            crate::cpu::util::only_sr_changed(*old(self), *final(self)),
            *final(bus) == *old(bus),
    {
        self.set_flag(SRFlag::InterruptDisable, true);
    }

    /// Store the accumulator.
    pub fn sta(&mut self, bus: &mut DataBus, mode: AddressMode, ll: u8, hh: u8)
        requires
            bus_wf(*old(bus)),
            writable_mode(mode),
            mode != AddressMode::Accumulator,
        ensures
            bus_wf(*final(bus)),
            *final(self) == *old(self),
            bus_write_post(
                *old(bus),
                *final(bus),
                smv_addr(*old(self), *old(bus), mode, ll, hh),
                old(self).ac,
            ),
    {
        let v = self.ac;
        self.set_memory_value(bus, v, ll, hh, mode);
    }

    /// Store X.
    pub fn stx(&mut self, bus: &mut DataBus, mode: AddressMode, ll: u8, hh: u8)
        requires
            bus_wf(*old(bus)),
            writable_mode(mode),
            mode != AddressMode::Accumulator,
        ensures
            bus_wf(*final(bus)),
            *final(self) == *old(self),
            bus_write_post(
                *old(bus),
                *final(bus),
                smv_addr(*old(self), *old(bus), mode, ll, hh),
                old(self).xr,
            ),
    {
        let v = self.xr;
        self.set_memory_value(bus, v, ll, hh, mode);
    }

    /// Store Y.
    pub fn sty(&mut self, bus: &mut DataBus, mode: AddressMode, ll: u8, hh: u8)
        requires
            bus_wf(*old(bus)),
            writable_mode(mode),
            mode != AddressMode::Accumulator,
        ensures
            bus_wf(*final(bus)),
            *final(self) == *old(self),
            bus_write_post(
                *old(bus),
                *final(bus),
                smv_addr(*old(self), *old(bus), mode, ll, hh),
                old(self).yr,
            ),
    {
        let v = self.yr;
        self.set_memory_value(bus, v, ll, hh, mode);
    }

    /// Transfer the accumulator to X; set N and Z.
    pub fn tax(&mut self, bus: &mut DataBus, mode: AddressMode, ll: u8, hh: u8)
        ensures
            final(self).xr == old(self).ac,
            final(self).sr == nz_flags(old(self).sr, old(self).ac),
            only_x_and_sr_changed(*old(self), *final(self)),
            *final(bus) == *old(bus),
    {
        self.xr = self.ac;
        let v = self.xr;
        self.set_flag(SRFlag::Negative, (v & 0x80) != 0);
        self.set_flag(SRFlag::Zero, v == 0);
    }

    /// Transfer the accumulator to Y; set N and Z.
    pub fn tay(&mut self, bus: &mut DataBus, mode: AddressMode, ll: u8, hh: u8)
        ensures
            final(self).yr == old(self).ac,
            final(self).sr == nz_flags(old(self).sr, old(self).ac),
            only_y_and_sr_changed(*old(self), *final(self)),
            *final(bus) == *old(bus),
    {
        self.yr = self.ac;
        let v = self.yr;
        self.set_flag(SRFlag::Negative, (v & 0x80) != 0);
        self.set_flag(SRFlag::Zero, v == 0);
    }

    /// Transfer the stack pointer to X; set N and Z.
    pub fn tsx(&mut self, bus: &mut DataBus, mode: AddressMode, ll: u8, hh: u8)
        ensures
            final(self).xr == old(self).sp,
            final(self).sr == nz_flags(old(self).sr, old(self).sp),
            only_x_and_sr_changed(*old(self), *final(self)),
            *final(bus) == *old(bus),
    {
        self.xr = self.sp;
        let v = self.xr;
        self.set_flag(SRFlag::Negative, (v & 0x80) != 0);
        self.set_flag(SRFlag::Zero, v == 0);
    }

    /// Transfer X to the accumulator; set N and Z.
    pub fn txa(&mut self, bus: &mut DataBus, mode: AddressMode, ll: u8, hh: u8)
        ensures
            final(self).ac == old(self).xr,
            final(self).sr == nz_flags(old(self).sr, old(self).xr),
            only_ac_and_sr_changed(*old(self), *final(self)),
            *final(bus) == *old(bus),
    {
        self.ac = self.xr;
        let v = self.ac;
        self.set_flag(SRFlag::Negative, (v & 0x80) != 0);
        self.set_flag(SRFlag::Zero, v == 0);
    }

    /// Transfer X to the stack pointer; no flags change.
    pub fn txs(&mut self, bus: &mut DataBus, mode: AddressMode, ll: u8, hh: u8)
        ensures
            final(self).sp == old(self).xr,
            final(self).pc == old(self).pc,
            final(self).ac == old(self).ac,
            final(self).xr == old(self).xr,
            final(self).yr == old(self).yr,
            final(self).sr == old(self).sr,
            final(self).ticks == old(self).ticks,
            cpu_lines_unchanged(*old(self), *final(self)),
            *final(bus) == *old(bus),
    {
        self.sp = self.xr;
    }

    /// Transfer Y to the accumulator; set N and Z.
    pub fn tya(&mut self, bus: &mut DataBus, mode: AddressMode, ll: u8, hh: u8)
        ensures
            final(self).ac == old(self).yr,
            final(self).sr == nz_flags(old(self).sr, old(self).yr),
            only_ac_and_sr_changed(*old(self), *final(self)),
            *final(bus) == *old(bus),
    {
        self.ac = self.yr;
        let v = self.ac;
        self.set_flag(SRFlag::Negative, (v & 0x80) != 0);
        self.set_flag(SRFlag::Zero, v == 0);
    }

    /// The shared branch step: a taken branch moves the program counter by
    /// the signed displacement and costs one extra cycle, two when the
    /// target sits on another page.
    fn branch(&mut self, taken: bool, offset: u8)
        ensures
            branch_post(*old(self), *final(self), taken, offset),
    {
        if taken {
            let target = rel_addr(self.pc, offset as i8);
            if (self.pc & 0xFF00) != (target & 0xFF00) {
                self.ticks = sat_add64(self.ticks, 1);
            }
            self.pc = target;
            self.ticks = sat_add64(self.ticks, 1);
        }
    }
}

/// How a branch instruction acts: not taken, nothing moves; taken, the
/// program counter takes the displaced address and one cycle is charged,
/// or two when the branch crosses a page.
pub open spec fn branch_post(pre: CPU6502, post: CPU6502, taken: bool, offset: u8) -> bool {
    &&& post.ac == pre.ac
    &&& post.xr == pre.xr
    &&& post.yr == pre.yr
    &&& post.sr == pre.sr
    &&& post.sp == pre.sp
    &&& cpu_lines_unchanged(pre, post)
    &&& if taken {
        &&& post.pc == rel_addr_spec(pre.pc, offset as i8)
        &&& post.ticks == if page_crossed_spec(pre.pc, rel_addr_spec(pre.pc, offset as i8)) {
            sat_add64_spec(sat_add64_spec(pre.ticks, 1), 1)
        } else {
            sat_add64_spec(pre.ticks, 1)
        }
    } else {
        &&& post.pc == pre.pc
        &&& post.ticks == pre.ticks
    }
}

/// The status byte PHP pushes: the current one with bits 4 and 5 set.
pub open spec fn php_pushed(sr: u8) -> u8 {
    sr | 0x30
}

/// PHP then PLP leaves the status byte exactly unchanged: the push forces
/// bits 4 and 5 on in the pushed copy only, and the pull ignores those two
/// bits of the pulled byte in favour of the current ones. The pushed byte
/// travels through the stack unchanged by the contracts of `push8` and
/// `pull8`.
pub proof fn lemma_php_plp_identity(sr: u8)
    ensures
        plp_sr(sr, php_pushed(sr)) == sr,
{
    assert((((sr | 0x30) & 0xCF) | (sr & 0x30)) == sr) by (bit_vector);
}

/// The status byte PLP leaves: the pulled byte, except that bits 4 and 5
/// keep their current values.
pub open spec fn plp_sr(current: u8, pulled: u8) -> u8 {
    (pulled & 0xCF) | (current & 0x30)
}

/// The 9-bit sum an ADC computes.
pub open spec fn adc_sum(ac: u8, src: u16, carry: bool) -> u16 {
    (ac + (src & 0xFF) + (if carry {
        1int
    } else {
        0int
    })) as u16
}

/// The flags after an ADC, applied in the order the instruction sets them.
pub open spec fn adc_flags(sr: u8, ac: u8, src: u16, carry: bool) -> u8 {
    let bb = (adc_sum(ac, src, carry) & 0xFF) as u8;
    let s1 = set_bit(sr, 0x02, bb == 0);
    let s2 = set_bit(s1, 0x80, bb & 0x80 != 0);
    let s3 = set_bit(s2, 0x40, ((ac ^ bb) as u16 & ((src & 0xFF) ^ bb as u16) & 0x80) != 0);
    set_bit(s3, 0x01, adc_sum(ac, src, carry) > 0xFF)
}

/// The 17-bit-wrapped difference an SBC computes.
pub open spec fn sbc_diff(ac: u8, src: u16, carry: bool) -> u16 {
    (ac as u16).wrapping_sub(src).wrapping_sub(
        if carry {
            0u16
        } else {
            1u16
        },
    )
}

/// The flags after an SBC, applied in the order the instruction sets them.
pub open spec fn sbc_flags(sr: u8, ac: u8, src: u16, carry: bool) -> u8 {
    let temp = sbc_diff(ac, src, carry);
    let bb = (temp & 0xFF) as u8;
    let s1 = set_bit(sr, 0x02, bb == 0);
    let s2 = set_bit(s1, 0x80, bb & 0x80 != 0);
    let s3 = set_bit(s2, 0x40, ((ac ^ bb) as u16 & (!src ^ bb as u16) & 0x80) != 0);
    set_bit(s3, 0x01, (temp & 0x100) != 0x100)
}

/// The flags after a compare: carry when no borrow, N and Z from the
/// difference.
pub open spec fn compare_flags(sr: u8, reg: u8, src: u16) -> u8 {
    let diff = (reg as u16).wrapping_sub(src);
    let s1 = set_bit(sr, 0x01, diff < 0x100);
    let s2 = set_bit(s1, 0x80, diff & 0x80 != 0);
    set_bit(s2, 0x02, diff & 0xFF == 0)
}

/// The flags after a BIT test.
pub open spec fn bit_flags(sr: u8, ac: u8, src: u16) -> u8 {
    let v = (src & 0xFF) as u8;
    let s1 = set_bit(sr, 0x80, v & 0x80 != 0);
    let s2 = set_bit(s1, 0x40, (src & 0x40) != 0);
    set_bit(s2, 0x02, v & ac == 0)
}

/// The byte an ASL writes back.
pub open spec fn asl_value(src: u16) -> u8 {
    ((((src & 0x7FFF) << 1) as u16) & 0xFF) as u8
}

pub open spec fn asl_flags(sr: u8, src: u16) -> u8 {
    let v = asl_value(src);
    let s1 = set_bit(sr, 0x01, (src & 0x80) != 0);
    let s2 = set_bit(s1, 0x80, v & 0x80 != 0);
    set_bit(s2, 0x02, v == 0)
}

/// The byte an LSR writes back.
pub open spec fn lsr_value(src: u16) -> u8 {
    ((src >> 1) & 0xFF) as u8
}

/// The byte a DEC writes back.
pub open spec fn dec_value(src: u16) -> u8 {
    ((src & 0xFF) as u8).wrapping_sub(1)
}

/// The byte an INC writes back.
pub open spec fn inc_value(src: u16) -> u8 {
    ((src & 0xFF) as u8).wrapping_add(1)
}

pub open spec fn lsr_flags(sr: u8, src: u16) -> u8 {
    let v = ((src >> 1) & 0xFF) as u8;
    let s1 = set_bit(sr, 0x01, (src & 0x01) != 0);
    let s2 = set_bit(s1, 0x80, v & 0x80 != 0);
    set_bit(s2, 0x02, v == 0)
}

/// The byte a ROL writes back: shifted left with the old carry in bit 0.
pub open spec fn rol_value(src: u16, carry: bool) -> u8 {
    let shifted = ((src & 0x7FFF) << 1) as u16;
    let with_c = if carry {
        shifted | 0x1
    } else {
        shifted
    };
    (with_c & 0xFF) as u8
}

pub open spec fn rol_flags(sr: u8, src: u16, carry: bool) -> u8 {
    let shifted = ((src & 0x7FFF) << 1) as u16;
    let with_c = if carry {
        shifted | 0x1
    } else {
        shifted
    };
    let v = (with_c & 0xFF) as u8;
    let s1 = set_bit(sr, 0x01, with_c > 0xFF);
    let s2 = set_bit(s1, 0x80, v & 0x80 != 0);
    set_bit(s2, 0x02, v == 0)
}

/// The byte a ROR writes back: shifted right with the old carry in bit 7.
pub open spec fn ror_value(src: u16, carry: bool) -> u8 {
    let with_c = if carry {
        src | 0x100
    } else {
        src
    };
    (((with_c >> 1) as u16) & 0xFF) as u8
}

pub open spec fn ror_flags(sr: u8, src: u16, carry: bool) -> u8 {
    let with_c = if carry {
        src | 0x100
    } else {
        src
    };
    let v = (((with_c >> 1) as u16) & 0xFF) as u8;
    let s1 = set_bit(sr, 0x01, (with_c & 0x01) != 0);
    let s2 = set_bit(s1, 0x80, v & 0x80 != 0);
    set_bit(s2, 0x02, v == 0)
}

/// Modes a read-modify-write or store instruction may carry.
pub open spec fn writable_mode(mode: AddressMode) -> bool {
    mode == AddressMode::Accumulator || mode == AddressMode::Absolute || mode
        == AddressMode::AbsoluteX || mode == AddressMode::AbsoluteY || mode
        == AddressMode::Zeropage || mode == AddressMode::ZeropageX || mode
        == AddressMode::ZeropageY || mode == AddressMode::IndirectX || mode
        == AddressMode::IndirectY
}

/// What a read-modify-write instruction always guarantees, pure operand or
/// not: registers other than the flags and the accumulator stand still,
/// the accumulator too unless it is the operand, and the cycle counter and
/// DMA stall move only within their per-instruction bounds.
pub open spec fn rmw_keeps(
    cpu0: CPU6502,
    cpu1: CPU6502,
    bus0: DataBus,
    bus1: DataBus,
    mode: AddressMode,
) -> bool {
    &&& cpu1.pc == cpu0.pc
    &&& cpu1.xr == cpu0.xr
    &&& cpu1.yr == cpu0.yr
    &&& cpu1.sp == cpu0.sp
    &&& cpu1.ticks == cpu0.ticks
    &&& cpu_lines_unchanged(cpu0, cpu1)
    &&& mode != AddressMode::Accumulator ==> cpu1.ac == cpu0.ac
    &&& bus1.dma_cycles >= bus0.dma_cycles
    &&& bus1.dma_cycles <= sat_add64_spec(bus0.dma_cycles, 513)
    &&& crate::bus::ppu_timing_unchanged(bus0.ppu, bus1.ppu)
}

/// The bus after a one-byte stack push at the given stack pointer;
/// nothing else on the bus moves.
pub open spec fn stack_pushed1(b0: DataBus, b1: DataBus, sp: u8, byte: u8) -> bool {
    &&& b1.ram@ == b0.ram@.update(0x100 + sp as int, byte)
    &&& b1.ppu == b0.ppu
    &&& b1.controller0 == b0.controller0
    &&& b1.controller1 == b0.controller1
    &&& b1.dma_cycles == b0.dma_cycles
}

/// The bus after a two-byte stack push, high byte first.
pub open spec fn stack_pushed2(b0: DataBus, b1: DataBus, sp: u8, value: u16) -> bool {
    &&& b1.ram@ == b0.ram@.update(0x100 + sp as int, crate::bits::high_byte_spec(value)).update(
        0x100 + sp.wrapping_sub(1) as int,
        crate::bits::low_byte_spec(value),
    )
    &&& b1.ppu == b0.ppu
    &&& b1.controller0 == b0.controller0
    &&& b1.controller1 == b0.controller1
    &&& b1.dma_cycles == b0.dma_cycles
}

/// What `adc` does, as a relation between the machine before and after.
pub open spec fn adc_effect(
    c0: CPU6502,
    c1: CPU6502,
    b0: DataBus,
    b1: DataBus,
    mode: AddressMode,
    ll: u8,
    hh: u8,
) -> bool {
    &&& bus_kept_coarse(b0, b1)
    &&& keeps_pc_xy_sp(c0, c1)
    &&& c1.ticks == ticks_after_read(c0, b0, mode, ll, hh)
    &&& gmv_pure(c0, b0, mode, ll, hh) ==> {
        &&& b1 == b0
        &&& c1.ac == adc_sum(c0.ac, gmv_result(c0, b0, mode, ll, hh), c0.sr & 0x01 != 0) & 0xFF
        &&& c1.sr == adc_flags(c0.sr, c0.ac, gmv_result(c0, b0, mode, ll, hh), c0.sr & 0x01 != 0)
    }
}

/// What `sbc` does.
pub open spec fn sbc_effect(
    c0: CPU6502,
    c1: CPU6502,
    b0: DataBus,
    b1: DataBus,
    mode: AddressMode,
    ll: u8,
    hh: u8,
) -> bool {
    &&& bus_kept_coarse(b0, b1)
    &&& keeps_pc_xy_sp(c0, c1)
    &&& c1.ticks == ticks_after_read(c0, b0, mode, ll, hh)
    &&& gmv_pure(c0, b0, mode, ll, hh) ==> {
        &&& b1 == b0
        &&& c1.ac == (sbc_diff(c0.ac, gmv_result(c0, b0, mode, ll, hh), c0.sr & 0x01 != 0)
            & 0xFF) as u8
        &&& c1.sr == sbc_flags(c0.sr, c0.ac, gmv_result(c0, b0, mode, ll, hh), c0.sr & 0x01 != 0)
    }
}

/// What the three bitwise accumulator instructions do; `op` is 0 for and,
/// 1 for or, 2 for exclusive-or.
pub open spec fn logic_effect(
    c0: CPU6502,
    c1: CPU6502,
    b0: DataBus,
    b1: DataBus,
    mode: AddressMode,
    ll: u8,
    hh: u8,
    op: int,
) -> bool {
    &&& bus_kept_coarse(b0, b1)
    &&& keeps_pc_xy_sp(c0, c1)
    &&& c1.ticks == ticks_after_read(c0, b0, mode, ll, hh)
    &&& gmv_pure(c0, b0, mode, ll, hh) ==> {
        &&& b1 == b0
        &&& c1.ac == if op == 0 {
            c0.ac & (gmv_result(c0, b0, mode, ll, hh) & 0xFF) as u8
        } else if op == 1 {
            c0.ac | (gmv_result(c0, b0, mode, ll, hh) & 0xFF) as u8
        } else {
            c0.ac ^ (gmv_result(c0, b0, mode, ll, hh) & 0xFF) as u8
        }
        &&& c1.sr == nz_flags(c0.sr, c1.ac)
    }
}

/// What `lda` does.
pub open spec fn lda_effect(
    c0: CPU6502,
    c1: CPU6502,
    b0: DataBus,
    b1: DataBus,
    mode: AddressMode,
    ll: u8,
    hh: u8,
) -> bool {
    &&& bus_kept_coarse(b0, b1)
    &&& keeps_pc_xy_sp(c0, c1)
    &&& c1.ticks == ticks_after_read(c0, b0, mode, ll, hh)
    &&& gmv_pure(c0, b0, mode, ll, hh) ==> {
        &&& b1 == b0
        &&& c1.ac == (gmv_result(c0, b0, mode, ll, hh) & 0xFF) as u8
        &&& c1.sr == nz_flags(c0.sr, c1.ac)
    }
}

/// What `ldx` does.
pub open spec fn ldx_effect(
    c0: CPU6502,
    c1: CPU6502,
    b0: DataBus,
    b1: DataBus,
    mode: AddressMode,
    ll: u8,
    hh: u8,
) -> bool {
    &&& bus_kept_coarse(b0, b1)
    &&& c1.pc == c0.pc
    &&& c1.ac == c0.ac
    &&& c1.yr == c0.yr
    &&& c1.sp == c0.sp
    &&& cpu_lines_unchanged(c0, c1)
    &&& c1.ticks == ticks_after_read(c0, b0, mode, ll, hh)
    &&& gmv_pure(c0, b0, mode, ll, hh) ==> {
        &&& b1 == b0
        &&& c1.xr == (gmv_result(c0, b0, mode, ll, hh) & 0xFF) as u8
        &&& c1.sr == nz_flags(c0.sr, c1.xr)
    }
}

/// What `ldy` does.
pub open spec fn ldy_effect(
    c0: CPU6502,
    c1: CPU6502,
    b0: DataBus,
    b1: DataBus,
    mode: AddressMode,
    ll: u8,
    hh: u8,
) -> bool {
    &&& bus_kept_coarse(b0, b1)
    &&& c1.pc == c0.pc
    &&& c1.ac == c0.ac
    &&& c1.xr == c0.xr
    &&& c1.sp == c0.sp
    &&& cpu_lines_unchanged(c0, c1)
    &&& c1.ticks == ticks_after_read(c0, b0, mode, ll, hh)
    &&& gmv_pure(c0, b0, mode, ll, hh) ==> {
        &&& b1 == b0
        &&& c1.yr == (gmv_result(c0, b0, mode, ll, hh) & 0xFF) as u8
        &&& c1.sr == nz_flags(c0.sr, c1.yr)
    }
}

/// What `bit` does.
pub open spec fn bit_effect(
    c0: CPU6502,
    c1: CPU6502,
    b0: DataBus,
    b1: DataBus,
    mode: AddressMode,
    ll: u8,
    hh: u8,
) -> bool {
    &&& bus_kept_coarse(b0, b1)
    &&& keeps_pc_xy_sp(c0, c1)
    &&& c1.ac == c0.ac
    &&& c1.ticks == ticks_after_read(c0, b0, mode, ll, hh)
    &&& gmv_pure(c0, b0, mode, ll, hh) ==> {
        &&& b1 == b0
        &&& c1.sr == bit_flags(c0.sr, c0.ac, gmv_result(c0, b0, mode, ll, hh))
    }
}

/// What the three compares do against the given register value.
pub open spec fn compare_effect(
    c0: CPU6502,
    c1: CPU6502,
    b0: DataBus,
    b1: DataBus,
    mode: AddressMode,
    ll: u8,
    hh: u8,
    reg: u8,
) -> bool {
    &&& bus_kept_coarse(b0, b1)
    &&& keeps_pc_xy_sp(c0, c1)
    &&& c1.ac == c0.ac
    &&& c1.ticks == ticks_after_read(c0, b0, mode, ll, hh)
    &&& gmv_pure(c0, b0, mode, ll, hh) ==> {
        &&& b1 == b0
        &&& c1.sr == compare_flags(c0.sr, reg, gmv_result(c0, b0, mode, ll, hh))
    }
}

/// What a read-modify-write instruction does: `new_value` and `new_sr` are
/// its value and flag functions applied to the fetched operand.
pub open spec fn rmw_effect(
    c0: CPU6502,
    c1: CPU6502,
    b0: DataBus,
    b1: DataBus,
    mode: AddressMode,
    ll: u8,
    hh: u8,
    new_value: u8,
    new_sr: u8,
) -> bool {
    &&& rmw_keeps(c0, c1, b0, b1, mode)
    &&& gmv_pure(c0, b0, mode, ll, hh) ==> {
        &&& c1.sr == new_sr
        &&& mode == AddressMode::Accumulator ==> c1.ac == new_value && b1 == b0
        &&& mode != AddressMode::Accumulator ==> bus_write_post(
            b0,
            b1,
            smv_addr(c0, b0, mode, ll, hh),
            new_value,
        )
    }
}

/// What a store does: the named byte goes to the resolved address and the
/// CPU stands still.
pub open spec fn store_effect(
    c0: CPU6502,
    c1: CPU6502,
    b0: DataBus,
    b1: DataBus,
    mode: AddressMode,
    ll: u8,
    hh: u8,
    value: u8,
) -> bool {
    &&& c1 == c0
    &&& bus_write_post(b0, b1, smv_addr(c0, b0, mode, ll, hh), value)
}

/// What `jmp` does.
pub open spec fn jmp_effect(
    c0: CPU6502,
    c1: CPU6502,
    b0: DataBus,
    b1: DataBus,
    mode: AddressMode,
    ll: u8,
    hh: u8,
) -> bool {
    &&& bus_kept_coarse(b0, b1)
    &&& c1.ac == c0.ac
    &&& c1.xr == c0.xr
    &&& c1.yr == c0.yr
    &&& c1.sr == c0.sr
    &&& c1.sp == c0.sp
    &&& c1.ticks == c0.ticks
    &&& cpu_lines_unchanged(c0, c1)
    &&& mode == AddressMode::Absolute ==> c1.pc == join_bytes_spec(hh, ll) && b1 == b0
    &&& mode == AddressMode::Indirect && peekable(join_bytes_spec(hh, ll)) && peekable(
        join_bytes_spec(hh, ll.wrapping_add(1)),
    ) ==> {
        &&& c1.pc == join_bytes_spec(
            bus_peek(b0, join_bytes_spec(hh, ll.wrapping_add(1))),
            bus_peek(b0, join_bytes_spec(hh, ll)),
        )
        &&& b1 == b0
    }
}

/// What `jsr` does.
pub open spec fn jsr_effect(
    c0: CPU6502,
    c1: CPU6502,
    b0: DataBus,
    b1: DataBus,
    ll: u8,
    hh: u8,
) -> bool {
    &&& stack_pushed2(b0, b1, c0.sp, c0.pc.wrapping_sub(1))
    &&& c1.pc == join_bytes_spec(hh, ll)
    &&& c1.sp == c0.sp.wrapping_sub(2)
    &&& c1.ac == c0.ac
    &&& c1.xr == c0.xr
    &&& c1.yr == c0.yr
    &&& c1.sr == c0.sr
    &&& c1.ticks == c0.ticks
    &&& cpu_lines_unchanged(c0, c1)
}

/// What `rts` does.
pub open spec fn rts_effect(c0: CPU6502, c1: CPU6502, b0: DataBus, b1: DataBus) -> bool {
    &&& b1 == b0
    &&& c1.sp == c0.sp.wrapping_add(2)
    &&& c1.pc == join_bytes_spec(
        b0.ram@[0x100 + c0.sp.wrapping_add(2) as int],
        b0.ram@[0x100 + c0.sp.wrapping_add(1) as int],
    ).wrapping_add(1)
    &&& c1.ac == c0.ac
    &&& c1.xr == c0.xr
    &&& c1.yr == c0.yr
    &&& c1.sr == c0.sr
    &&& c1.ticks == c0.ticks
    &&& cpu_lines_unchanged(c0, c1)
}

/// What `rti` does.
pub open spec fn rti_effect(c0: CPU6502, c1: CPU6502, b0: DataBus, b1: DataBus) -> bool {
    &&& b1 == b0
    &&& c1.sp == c0.sp.wrapping_add(3)
    &&& c1.sr == plp_sr(c0.sr, b0.ram@[0x100 + c0.sp.wrapping_add(1) as int])
    &&& c1.pc == join_bytes_spec(
        b0.ram@[0x100 + c0.sp.wrapping_add(3) as int],
        b0.ram@[0x100 + c0.sp.wrapping_add(2) as int],
    )
    &&& c1.ac == c0.ac
    &&& c1.xr == c0.xr
    &&& c1.yr == c0.yr
    &&& c1.ticks == c0.ticks
    &&& cpu_lines_unchanged(c0, c1)
}

/// What `brk` does.
pub open spec fn brk_effect(c0: CPU6502, c1: CPU6502, b0: DataBus, b1: DataBus) -> bool {
    &&& b1.ram@ == b0.ram@.update(
        0x100 + c0.sp as int,
        crate::bits::high_byte_spec(c0.pc.wrapping_add(1)),
    ).update(
        0x100 + c0.sp.wrapping_sub(1) as int,
        crate::bits::low_byte_spec(c0.pc.wrapping_add(1)),
    ).update(0x100 + c0.sp.wrapping_sub(2) as int, (c0.sr | 0x10) | 0x30)
    &&& b1.ppu == b0.ppu
    &&& b1.controller0 == b0.controller0
    &&& b1.controller1 == b0.controller1
    &&& b1.dma_cycles == b0.dma_cycles
    &&& c1.sp == c0.sp.wrapping_sub(3)
    &&& c1.sr == ((c0.sr | 0x10) | 0x04)
    &&& c1.pc == join_bytes_spec(bus_peek(b0, 0xFFFF), bus_peek(b0, 0xFFFE))
    &&& c1.ac == c0.ac
    &&& c1.xr == c0.xr
    &&& c1.yr == c0.yr
    &&& c1.ticks == c0.ticks
    &&& cpu_lines_unchanged(c0, c1)
}

/// What `pha` does.
pub open spec fn pha_effect(c0: CPU6502, c1: CPU6502, b0: DataBus, b1: DataBus) -> bool {
    &&& stack_pushed1(b0, b1, c0.sp, c0.ac)
    &&& c1.sp == c0.sp.wrapping_sub(1)
    &&& crate::cpu::util::only_sp_changed(c0, c1)
}

/// What `php` does.
pub open spec fn php_effect(c0: CPU6502, c1: CPU6502, b0: DataBus, b1: DataBus) -> bool {
    &&& stack_pushed1(b0, b1, c0.sp, php_pushed(c0.sr))
    &&& c1.sp == c0.sp.wrapping_sub(1)
    &&& crate::cpu::util::only_sp_changed(c0, c1)
}

/// What `pla` does.
pub open spec fn pla_effect(c0: CPU6502, c1: CPU6502, b0: DataBus, b1: DataBus) -> bool {
    &&& b1 == b0
    &&& c1.sp == c0.sp.wrapping_add(1)
    &&& c1.ac == b0.ram@[0x100 + c0.sp.wrapping_add(1) as int]
    &&& c1.sr == nz_flags(c0.sr, c1.ac)
    &&& c1.pc == c0.pc
    &&& c1.xr == c0.xr
    &&& c1.yr == c0.yr
    &&& c1.ticks == c0.ticks
    &&& cpu_lines_unchanged(c0, c1)
}

/// What `plp` does.
pub open spec fn plp_effect(c0: CPU6502, c1: CPU6502, b0: DataBus, b1: DataBus) -> bool {
    &&& b1 == b0
    &&& c1.sp == c0.sp.wrapping_add(1)
    &&& c1.sr == plp_sr(c0.sr, b0.ram@[0x100 + c0.sp.wrapping_add(1) as int])
    &&& c1.pc == c0.pc
    &&& c1.ac == c0.ac
    &&& c1.xr == c0.xr
    &&& c1.yr == c0.yr
    &&& c1.ticks == c0.ticks
    &&& cpu_lines_unchanged(c0, c1)
}

/// Everything of the CPU but X and the status register is unchanged.
pub open spec fn only_x_and_sr_changed(a: CPU6502, b: CPU6502) -> bool {
    &&& b.pc == a.pc
    &&& b.ac == a.ac
    &&& b.yr == a.yr
    &&& b.sp == a.sp
    &&& b.ticks == a.ticks
    &&& cpu_lines_unchanged(a, b)
}

/// Everything of the CPU but Y and the status register is unchanged.
pub open spec fn only_y_and_sr_changed(a: CPU6502, b: CPU6502) -> bool {
    &&& b.pc == a.pc
    &&& b.ac == a.ac
    &&& b.xr == a.xr
    &&& b.sp == a.sp
    &&& b.ticks == a.ticks
    &&& cpu_lines_unchanged(a, b)
}

/// Everything of the CPU but the accumulator and the status register is
/// unchanged.
pub open spec fn only_ac_and_sr_changed(a: CPU6502, b: CPU6502) -> bool {
    &&& b.pc == a.pc
    &&& b.xr == a.xr
    &&& b.yr == a.yr
    &&& b.sp == a.sp
    &&& b.ticks == a.ticks
    &&& cpu_lines_unchanged(a, b)
}

} // verus!
