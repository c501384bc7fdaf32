//! The 6502-family CPU interpreter: fetch, addressing, execution, flags,
//! stack and interrupt delivery.

pub mod address_mode;
pub mod execution;
pub mod instruction;
pub mod instructions_info;
pub mod util;

use vstd::prelude::*;
use crate::bits::join_bytes_spec;
use crate::bits::sat_add64;
use crate::bits::sat_add64_spec;
use crate::bus::DataBus;
use crate::bus::bus_peek;
use crate::bus::bus_wf;
use crate::bus::peekable;
use crate::cpu::instructions_info::Instruction;
use crate::cpu::instructions_info::instruction_size_spec;
use crate::cpu::instructions_info::instruction_ticks_spec;
use crate::cpu::util::SRFlag;

verus! {

/// The processor state: registers, cycle counter and interrupt lines.
pub struct CPU6502 {
    /// Program counter.
    pub pc: u16,
    /// Accumulator register.
    pub ac: u8,
    /// X register.
    pub xr: u8,
    /// Y register.
    pub yr: u8,
    /// Status register (NV-BDIZC).
    pub sr: u8,
    /// Stack pointer into page $0100-$01FF.
    pub sp: u8,
    /// Clock cycles since power-up; grows monotonically and sticks at the
    /// maximum instead of wrapping.
    pub ticks: u64,
    pub irq_requested: bool,
    pub nmi_requested: bool,
    /// The diagnostic channel for undocumented opcodes: each unique one
    /// met so far, recorded once.
    pub illegal_opcodes: Vec<u8>,
}

/// Registers and interrupt lines other than the given ones are unchanged.
pub open spec fn cpu_regs_unchanged(a: CPU6502, b: CPU6502) -> bool {
    &&& b.pc == a.pc
    &&& b.ac == a.ac
    &&& b.xr == a.xr
    &&& b.yr == a.yr
    &&& b.sr == a.sr
    &&& b.sp == a.sp
    &&& cpu_lines_unchanged(a, b)
}

pub open spec fn cpu_lines_unchanged(a: CPU6502, b: CPU6502) -> bool {
    &&& b.irq_requested == a.irq_requested
    &&& b.nmi_requested == a.nmi_requested
    &&& b.illegal_opcodes@ == a.illegal_opcodes@
}

/// The status byte an NMI or IRQ pushes: bit 5 set, bit 4 (break) clear.
pub open spec fn interrupt_pushed_sr(sr: u8) -> u8 {
    (sr | 0x20) & !0x10
}

/// The same processor with another cycle count.
pub open spec fn with_ticks(c: CPU6502, t: u64) -> CPU6502 {
    CPU6502 {
        pc: c.pc,
        ac: c.ac,
        xr: c.xr,
        yr: c.yr,
        sr: c.sr,
        sp: c.sp,
        ticks: t,
        irq_requested: c.irq_requested,
        nmi_requested: c.nmi_requested,
        illegal_opcodes: c.illegal_opcodes,
    }
}

/// The same bus with its DMA stall collected.
pub open spec fn drained(b: DataBus) -> DataBus {
    DataBus {
        ram: b.ram,
        ppu: b.ppu,
        controller0: b.controller0,
        controller1: b.controller1,
        dma_cycles: 0,
    }
}

/// One whole instruction step, fetch path: the program counter moves past
/// the instruction and its base cycles are charged, the fetched opcode
/// acts as its dispatch relation on that state, and any DMA stall the
/// instruction caused is collected into the cycle counter.
pub open spec fn fetched_operand(b0: DataBus, c0: CPU6502, which: int) -> u8 {
    if instruction_size_spec(bus_peek(b0, c0.pc)) > which {
        bus_peek(b0, c0.pc.wrapping_add(which as u16))
    } else {
        0u8
    }
}

pub open spec fn step_effect(c0: CPU6502, c1: CPU6502, b0: DataBus, b1: DataBus) -> bool {
    exists|cm: CPU6502, bm: DataBus|
        #[trigger] crate::cpu::instruction::opcode_effect(
            fetched_cpu(c0, b0),
            cm,
            b0,
            bm,
            bus_peek(b0, c0.pc),
            fetched_operand(b0, c0, 1),
            fetched_operand(b0, c0, 2),
        ) && c1 == with_ticks(cm, crate::bits::sat_add64_spec(cm.ticks, bm.dma_cycles)) && b1
            == drained(bm)
}

/// The processor after the fetch step of one instruction: the program
/// counter has moved past the instruction and its base cycles are charged,
/// before the opcode acts.
pub open spec fn fetched_cpu(c: CPU6502, b: DataBus) -> CPU6502 {
    let op = bus_peek(b, c.pc);
    CPU6502 {
        pc: c.pc.wrapping_add(instruction_size_spec(op) as u16),
        ac: c.ac,
        xr: c.xr,
        yr: c.yr,
        sr: c.sr,
        sp: c.sp,
        ticks: crate::bits::sat_add64_spec(c.ticks, instruction_ticks_spec(op) as u64),
        irq_requested: c.irq_requested,
        nmi_requested: c.nmi_requested,
        illegal_opcodes: c.illegal_opcodes,
    }
}

impl CPU6502 {
    /// The documented power-up state; the program counter starts where the
    /// widely used CPU test image expects it and is reloaded by `reset`.
    pub fn new() -> (r: CPU6502)
        ensures
            r.pc == 0xC000,
            r.ac == 0,
            r.xr == 0,
            r.yr == 0,
            r.sr == 0x24,
            r.sp == 0xFD,
            r.ticks == 4,
            !r.irq_requested,
            !r.nmi_requested,
            r.illegal_opcodes@.len() == 0,
    {
        CPU6502 {
            pc: 0xC000,
            ac: 0x00,
            xr: 0x00,
            yr: 0x00,
            sr: 0x24,
            sp: 0xFD,
            ticks: 4,
            irq_requested: false,
            nmi_requested: false,
            illegal_opcodes: Vec::new(),
        }
    }

    /// One CPU step: service a pending interrupt, or fetch, decode and run
    /// one instruction, collecting any DMA stall the instruction caused.
    /// A pending NMI is taken first; a pending IRQ is taken only while the
    /// interrupt-disable flag is clear, and stays pending otherwise. Every
    /// step charges at least two cycles (seven for an interrupt) and the
    /// cycle counter never decreases.
    #[verifier::rlimit(60)]
    #[verifier::spinoff_prover]
    pub fn process_next_opcode(&mut self, bus: &mut DataBus) -> (r: (u8, u8, u8))
        requires
            bus_wf(*old(bus)),
        ensures
            bus_wf(*final(bus)),
            final(bus).dma_cycles == 0,
            final(self).ticks >= old(self).ticks,
            final(self).ticks <= sat_add64_spec(
                old(self).ticks,
                sat_add64_spec(old(bus).dma_cycles, 1033),
            ),
            old(self).ticks + 1033 + old(bus).dma_cycles <= u64::MAX ==> final(self).ticks >= old(
                self,
            ).ticks + 2,
            crate::bus::ppu_timing_unchanged(old(bus).ppu, final(bus).ppu),
            old(self).nmi_requested ==> r == (0u8, 0u8, 0u8) && !final(self).nmi_requested,
            !old(self).nmi_requested && old(self).irq_requested && old(self).sr & 0x04 == 0 ==> r
                == (0u8, 0u8, 0u8) && !final(self).irq_requested,
            (!old(self).nmi_requested && !(old(self).irq_requested && old(self).sr & 0x04 == 0)
                && peekable(old(self).pc) && peekable(old(self).pc.wrapping_add(1)) && peekable(
                old(self).pc.wrapping_add(2),
            )) ==> {
                &&& r.0 == bus_peek(*old(bus), old(self).pc)
                &&& r.1 == if instruction_size_spec(r.0) >= 2 {
                    bus_peek(*old(bus), old(self).pc.wrapping_add(1))
                } else {
                    0u8
                }
                &&& r.2 == if instruction_size_spec(r.0) >= 3 {
                    bus_peek(*old(bus), old(self).pc.wrapping_add(2))
                } else {
                    0u8
                }
                // The step is the fetch (program counter past the
                // instruction, base cycles charged) followed by the
                // opcode's own effect and the collection of any DMA stall.
                &&& step_effect(*old(self), *final(self), *old(bus), *final(bus))
            },
    {
        if self.nmi_requested {
            self.nmi(bus);
            let stall = bus.dma_cycles;
            bus.dma_cycles = 0;
            self.ticks = sat_add64(self.ticks, stall);
            return (0, 0, 0);
        }
        if self.irq_requested && self.sr & 0x04 == 0 {
            self.irq(bus);
            let stall = bus.dma_cycles;
            bus.dma_cycles = 0;
            self.ticks = sat_add64(self.ticks, stall);
            return (0, 0, 0);
        }
        let opcode = self.load8(bus, self.pc);
        let inst = Instruction::get_instruction(opcode);
        let ll = if inst.size >= 2 {
            self.load8(bus, self.pc.wrapping_add(1))
        } else {
            0
        };
        let hh = if inst.size >= 3 {
            self.load8(bus, self.pc.wrapping_add(2))
        } else {
            0
        };
        self.ticks = sat_add64(self.ticks, inst.ticks as u64);
        self.pc = self.pc.wrapping_add(inst.size as u16);
        let ghost c_fetched = *self;
        let ghost b_fetched = *bus;
        self.process_opcode(bus, opcode, ll, hh);
        let ghost cm = *self;
        let ghost bm = *bus;
        let stall = bus.dma_cycles;
        bus.dma_cycles = 0;
        self.ticks = sat_add64(self.ticks, stall);
        proof {
            if !old(self).nmi_requested && !(old(self).irq_requested && old(self).sr & 0x04 == 0)
                && peekable(old(self).pc) && peekable(old(self).pc.wrapping_add(1)) && peekable(
                old(self).pc.wrapping_add(2),
            ) {
                assert(b_fetched == *old(bus));
                assert(c_fetched == fetched_cpu(*old(self), *old(bus)));
                assert(crate::cpu::instruction::opcode_effect(
                    fetched_cpu(*old(self), *old(bus)),
                    cm,
                    *old(bus),
                    bm,
                    opcode,
                    ll,
                    hh,
                ));
                assert(*self == with_ticks(cm, sat_add64_spec(cm.ticks, bm.dma_cycles)));
                assert(*bus == drained(bm));
                assert(step_effect(*old(self), *self, *old(bus), *bus)) by {
                    assert(opcode == bus_peek(*old(bus), old(self).pc));
                    assert(ll == fetched_operand(*old(bus), *old(self), 1));
                    assert(hh == fetched_operand(*old(bus), *old(self), 2));
                    assert(crate::cpu::instruction::opcode_effect(
                        fetched_cpu(*old(self), *old(bus)),
                        cm,
                        *old(bus),
                        bm,
                        bus_peek(*old(bus), old(self).pc),
                        fetched_operand(*old(bus), *old(self), 1),
                        fetched_operand(*old(bus), *old(self), 2),
                    ) && *self == with_ticks(cm, sat_add64_spec(cm.ticks, bm.dma_cycles)) && *bus
                        == drained(bm));
                }
            }
        }
        (opcode, ll, hh)
    }

    /// Service a non-maskable interrupt: push the return address and the
    /// status byte, set interrupt-disable, vector through $FFFA, and charge
    /// seven cycles.
    pub fn nmi(&mut self, bus: &mut DataBus)
        requires
            bus_wf(*old(bus)),
        ensures
            bus_wf(*final(bus)),
            final(bus).dma_cycles == old(bus).dma_cycles,
            final(self).nmi_requested == false,
            final(self).irq_requested == old(self).irq_requested,
            final(self).sp == old(self).sp.wrapping_sub(3),
            final(self).sr == old(self).sr | 0x04,
            final(self).pc == join_bytes_spec(
                bus_peek(*old(bus), 0xFFFB),
                bus_peek(*old(bus), 0xFFFA),
            ),
            final(self).ticks == sat_add64_spec(old(self).ticks, 7),
            final(self).ac == old(self).ac,
            final(self).xr == old(self).xr,
            final(self).yr == old(self).yr,
            final(bus).ram@ == old(bus).ram@.update(
                0x100 + old(self).sp as int,
                crate::bits::high_byte_spec(old(self).pc),
            ).update(
                0x100 + old(self).sp.wrapping_sub(1) as int,
                crate::bits::low_byte_spec(old(self).pc),
            ).update(
                0x100 + old(self).sp.wrapping_sub(2) as int,
                interrupt_pushed_sr(old(self).sr),
            ),
            final(bus).ppu == old(bus).ppu,
            final(bus).controller0 == old(bus).controller0,
            final(bus).controller1 == old(bus).controller1,
    {
        self.nmi_requested = false;
        self.push16(bus, self.pc);
        let sr = (self.sr | 0x20) & !0x10;
        self.push8(bus, sr);
        self.pc = self.load16(bus, 0xFFFA);
        self.set_flag(SRFlag::InterruptDisable, true);
        self.ticks = sat_add64(self.ticks, 7);
    }

    /// Service a maskable interrupt: as `nmi`, but through $FFFE.
    pub fn irq(&mut self, bus: &mut DataBus)
        requires
            bus_wf(*old(bus)),
        ensures
            bus_wf(*final(bus)),
            final(bus).dma_cycles == old(bus).dma_cycles,
            final(self).irq_requested == false,
            final(self).nmi_requested == old(self).nmi_requested,
            final(self).sp == old(self).sp.wrapping_sub(3),
            final(self).sr == old(self).sr | 0x04,
            final(self).pc == join_bytes_spec(
                bus_peek(*old(bus), 0xFFFF),
                bus_peek(*old(bus), 0xFFFE),
            ),
            final(self).ticks == sat_add64_spec(old(self).ticks, 7),
            final(self).ac == old(self).ac,
            final(self).xr == old(self).xr,
            final(self).yr == old(self).yr,
            final(bus).ram@ == old(bus).ram@.update(
                0x100 + old(self).sp as int,
                crate::bits::high_byte_spec(old(self).pc),
            ).update(
                0x100 + old(self).sp.wrapping_sub(1) as int,
                crate::bits::low_byte_spec(old(self).pc),
            ).update(
                0x100 + old(self).sp.wrapping_sub(2) as int,
                interrupt_pushed_sr(old(self).sr),
            ),
            final(bus).ppu == old(bus).ppu,
            final(bus).controller0 == old(bus).controller0,
            final(bus).controller1 == old(bus).controller1,
    {
        self.irq_requested = false;
        self.push16(bus, self.pc);
        let sr = (self.sr | 0x20) & !0x10;
        self.push8(bus, sr);
        self.pc = self.load16(bus, 0xFFFE);
        self.set_flag(SRFlag::InterruptDisable, true);
        self.ticks = sat_add64(self.ticks, 7);
    }
}

} // verus!
