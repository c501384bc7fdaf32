//! Operand fetch and store for every addressing mode, the opcode dispatch
//! table, and the interrupt request lines.

use vstd::prelude::*;
use crate::bits::join_bytes;
use crate::bits::join_bytes_spec;
use crate::bits::page_crossed;
use crate::bits::page_crossed_spec;
use crate::bits::rel_addr;
use crate::bits::rel_addr_spec;
use crate::bits::sat_add64;
use crate::bits::sat_add64_spec;
use crate::bus::DataBus;
use crate::bus::bus_peek;
use crate::bus::bus_wf;
use crate::bus::bus_write_post;
use crate::bus::peekable;
use crate::cpu::CPU6502;
use crate::cpu::cpu_lines_unchanged;
use crate::cpu::address_mode::AddressMode;
use crate::cpu::execution::adc_effect;
use crate::cpu::execution::asl_flags;
use crate::cpu::execution::asl_value;
use crate::cpu::execution::bit_effect;
use crate::cpu::execution::branch_post;
use crate::cpu::execution::brk_effect;
use crate::cpu::execution::compare_effect;
use crate::cpu::execution::dec_value;
use crate::cpu::execution::inc_value;
use crate::cpu::execution::jmp_effect;
use crate::cpu::execution::jsr_effect;
use crate::cpu::execution::lda_effect;
use crate::cpu::execution::ldx_effect;
use crate::cpu::execution::ldy_effect;
use crate::cpu::execution::logic_effect;
use crate::cpu::execution::lsr_flags;
use crate::cpu::execution::lsr_value;
use crate::cpu::execution::nz_flags;
use crate::cpu::execution::only_ac_and_sr_changed;
use crate::cpu::execution::only_x_and_sr_changed;
use crate::cpu::execution::only_y_and_sr_changed;
use crate::cpu::execution::pha_effect;
use crate::cpu::execution::php_effect;
use crate::cpu::execution::pla_effect;
use crate::cpu::execution::plp_effect;
use crate::cpu::execution::rmw_effect;
use crate::cpu::execution::rol_flags;
use crate::cpu::execution::rol_value;
use crate::cpu::execution::ror_flags;
use crate::cpu::execution::ror_value;
use crate::cpu::execution::rti_effect;
use crate::cpu::execution::rts_effect;
use crate::cpu::execution::sbc_effect;
use crate::cpu::execution::store_effect;
use crate::cpu::execution::writable_mode;
use crate::cpu::util::only_sr_changed;

verus! {

/// The zero-page byte a pointer read returns; zero-page reads are always
/// side-effect-free.
pub open spec fn zp_peek(bus: DataBus, addr: u8) -> u8 {
    bus_peek(bus, addr as u16)
}

/// The effective pointer of the pre-indexed (indirect,X) mode.
pub open spec fn indirect_x_addr(cpu: CPU6502, bus: DataBus, ll: u8) -> u16 {
    join_bytes_spec(
        zp_peek(bus, ll.wrapping_add(cpu.xr).wrapping_add(1)),
        zp_peek(bus, ll.wrapping_add(cpu.xr)),
    )
}

/// The base pointer of the post-indexed (indirect),Y mode, before Y.
pub open spec fn indirect_y_base(bus: DataBus, ll: u8) -> u16 {
    join_bytes_spec(zp_peek(bus, ll.wrapping_add(1)), zp_peek(bus, ll))
}

/// Whether every address an operand fetch touches is side-effect-free, so
/// that the fetched value is a pure function of the machine state.
pub open spec fn gmv_pure(cpu: CPU6502, bus: DataBus, mode: AddressMode, ll: u8, hh: u8) -> bool {
    match mode {
        AddressMode::Absolute => peekable(join_bytes_spec(hh, ll)),
        AddressMode::AbsoluteX => peekable(join_bytes_spec(hh, ll).wrapping_add(cpu.xr as u16)),
        AddressMode::AbsoluteY => peekable(join_bytes_spec(hh, ll).wrapping_add(cpu.yr as u16)),
        AddressMode::Indirect => {
            let a = join_bytes_spec(hh, ll);
            &&& peekable(a)
            &&& peekable(a.wrapping_add(1))
            &&& peekable(join_bytes_spec(bus_peek(bus, a.wrapping_add(1)), bus_peek(bus, a)))
            &&& peekable(
                join_bytes_spec(bus_peek(bus, a.wrapping_add(1)), bus_peek(bus, a)).wrapping_add(
                    1,
                ),
            )
        },
        AddressMode::IndirectX => peekable(indirect_x_addr(cpu, bus, ll)),
        AddressMode::IndirectY => peekable(
            indirect_y_base(bus, ll).wrapping_add(cpu.yr as u16),
        ),
        _ => true,
    }
}

/// The operand an addressing mode produces when every address it touches
/// is side-effect-free. Memory modes produce a byte; the indirect mode
/// produces the full 16-bit word behind the pointer, and the relative mode
/// the displaced program counter.
pub open spec fn gmv_result(cpu: CPU6502, bus: DataBus, mode: AddressMode, ll: u8, hh: u8) -> u16 {
    match mode {
        AddressMode::Unknown => 0u16,
        AddressMode::Accumulator => cpu.ac as u16,
        AddressMode::Absolute => bus_peek(bus, join_bytes_spec(hh, ll)) as u16,
        AddressMode::AbsoluteX => bus_peek(
            bus,
            join_bytes_spec(hh, ll).wrapping_add(cpu.xr as u16),
        ) as u16,
        AddressMode::AbsoluteY => bus_peek(
            bus,
            join_bytes_spec(hh, ll).wrapping_add(cpu.yr as u16),
        ) as u16,
        AddressMode::Immediate => ll as u16,
        AddressMode::Implied => 0u16,
        AddressMode::Indirect => {
            let a = join_bytes_spec(hh, ll);
            let ind = join_bytes_spec(bus_peek(bus, a.wrapping_add(1)), bus_peek(bus, a));
            join_bytes_spec(bus_peek(bus, ind.wrapping_add(1)), bus_peek(bus, ind))
        },
        AddressMode::IndirectX => bus_peek(bus, indirect_x_addr(cpu, bus, ll)) as u16,
        AddressMode::IndirectY => bus_peek(
            bus,
            indirect_y_base(bus, ll).wrapping_add(cpu.yr as u16),
        ) as u16,
        AddressMode::Relative => rel_addr_spec(cpu.pc, ll as i8),
        AddressMode::Zeropage => bus_peek(bus, ll as u16) as u16,
        AddressMode::ZeropageX => bus_peek(bus, ll.wrapping_add(cpu.xr) as u16) as u16,
        AddressMode::ZeropageY => bus_peek(bus, ll.wrapping_add(cpu.yr) as u16) as u16,
    }
}

/// The page-cross penalty an operand fetch charges: indexed reads pay
/// `penalty` when indexing carries into the high address byte.
pub open spec fn gmv_extra_ticks(
    cpu: CPU6502,
    bus: DataBus,
    mode: AddressMode,
    ll: u8,
    hh: u8,
    penalty: u8,
) -> u64 {
    match mode {
        AddressMode::AbsoluteX => {
            let a = join_bytes_spec(hh, ll);
            if page_crossed_spec(a, a.wrapping_add(cpu.xr as u16)) {
                penalty as u64
            } else {
                0u64
            }
        },
        AddressMode::AbsoluteY => {
            let a = join_bytes_spec(hh, ll);
            if page_crossed_spec(a, a.wrapping_add(cpu.yr as u16)) {
                penalty as u64
            } else {
                0u64
            }
        },
        AddressMode::IndirectY => {
            let base = indirect_y_base(bus, ll);
            if page_crossed_spec(base, base.wrapping_add(cpu.yr as u16)) {
                penalty as u64
            } else {
                0u64
            }
        },
        _ => 0u64,
    }
}

/// The address a store or read-modify-write resolves to; the zero-page
/// pointer reads it may need are always side-effect-free.
pub open spec fn smv_addr(cpu: CPU6502, bus: DataBus, mode: AddressMode, ll: u8, hh: u8) -> u16 {
    match mode {
        AddressMode::Absolute => join_bytes_spec(hh, ll),
        AddressMode::AbsoluteX => join_bytes_spec(hh, ll).wrapping_add(cpu.xr as u16),
        AddressMode::AbsoluteY => join_bytes_spec(hh, ll).wrapping_add(cpu.yr as u16),
        AddressMode::Zeropage => join_bytes_spec(hh, ll),
        AddressMode::ZeropageX => join_bytes_spec(hh, ll).wrapping_add(cpu.xr as u16) & 0xFF,
        AddressMode::ZeropageY => ll.wrapping_add(cpu.yr) as u16,
        AddressMode::IndirectX => indirect_x_addr(cpu, bus, ll),
        AddressMode::IndirectY => indirect_y_base(bus, ll).wrapping_add(cpu.yr as u16),
        _ => 0u16,
    }
}

/// What `asl` does with the fetched operand.
pub open spec fn asl_effect(
    c0: CPU6502,
    c1: CPU6502,
    b0: DataBus,
    b1: DataBus,
    mode: AddressMode,
    ll: u8,
    hh: u8,
) -> bool {
    rmw_effect(
        c0,
        c1,
        b0,
        b1,
        mode,
        ll,
        hh,
        asl_value(gmv_result(c0, b0, mode, ll, hh)),
        asl_flags(c0.sr, gmv_result(c0, b0, mode, ll, hh)),
    )
}

/// What `lsr` does with the fetched operand.
pub open spec fn lsr_effect(
    c0: CPU6502,
    c1: CPU6502,
    b0: DataBus,
    b1: DataBus,
    mode: AddressMode,
    ll: u8,
    hh: u8,
) -> bool {
    rmw_effect(
        c0,
        c1,
        b0,
        b1,
        mode,
        ll,
        hh,
        lsr_value(gmv_result(c0, b0, mode, ll, hh)),
        lsr_flags(c0.sr, gmv_result(c0, b0, mode, ll, hh)),
    )
}

/// What `rol` does with the fetched operand and the old carry.
pub open spec fn rol_effect(
    c0: CPU6502,
    c1: CPU6502,
    b0: DataBus,
    b1: DataBus,
    mode: AddressMode,
    ll: u8,
    hh: u8,
) -> bool {
    rmw_effect(
        c0,
        c1,
        b0,
        b1,
        mode,
        ll,
        hh,
        rol_value(gmv_result(c0, b0, mode, ll, hh), c0.sr & 0x01 != 0),
        rol_flags(c0.sr, gmv_result(c0, b0, mode, ll, hh), c0.sr & 0x01 != 0),
    )
}

/// What `ror` does with the fetched operand and the old carry.
pub open spec fn ror_effect(
    c0: CPU6502,
    c1: CPU6502,
    b0: DataBus,
    b1: DataBus,
    mode: AddressMode,
    ll: u8,
    hh: u8,
) -> bool {
    rmw_effect(
        c0,
        c1,
        b0,
        b1,
        mode,
        ll,
        hh,
        ror_value(gmv_result(c0, b0, mode, ll, hh), c0.sr & 0x01 != 0),
        ror_flags(c0.sr, gmv_result(c0, b0, mode, ll, hh), c0.sr & 0x01 != 0),
    )
}

/// What `dec` does with the fetched operand.
pub open spec fn dec_effect(
    c0: CPU6502,
    c1: CPU6502,
    b0: DataBus,
    b1: DataBus,
    mode: AddressMode,
    ll: u8,
    hh: u8,
) -> bool {
    rmw_effect(
        c0,
        c1,
        b0,
        b1,
        mode,
        ll,
        hh,
        dec_value(gmv_result(c0, b0, mode, ll, hh)),
        nz_flags(c0.sr, dec_value(gmv_result(c0, b0, mode, ll, hh))),
    )
}

/// What `inc` does with the fetched operand.
pub open spec fn inc_effect(
    c0: CPU6502,
    c1: CPU6502,
    b0: DataBus,
    b1: DataBus,
    mode: AddressMode,
    ll: u8,
    hh: u8,
) -> bool {
    rmw_effect(
        c0,
        c1,
        b0,
        b1,
        mode,
        ll,
        hh,
        inc_value(gmv_result(c0, b0, mode, ll, hh)),
        nz_flags(c0.sr, inc_value(gmv_result(c0, b0, mode, ll, hh))),
    )
}

/// One implied instruction that only rewrites the status register.
pub open spec fn flags_effect(c0: CPU6502, c1: CPU6502, b0: DataBus, b1: DataBus, sr: u8) -> bool {
    &&& c1.sr == sr
    &&& only_sr_changed(c0, c1)
    &&& b1 == b0
}

/// What one dispatched opcode does to the whole machine, documented
/// opcodes through their instruction's relation with the table's
/// addressing mode, undocumented ones changing nothing but the diagnostic
/// list.
pub open spec fn opcode_effect(
    c0: CPU6502,
    c1: CPU6502,
    b0: DataBus,
    b1: DataBus,
    opcode: u8,
    ll: u8,
    hh: u8,
) -> bool {
    match opcode {
        0x00 => brk_effect(c0, c1, b0, b1),
        0x01 => logic_effect(c0, c1, b0, b1, AddressMode::IndirectX, ll, hh, 1),
        0x05 => logic_effect(c0, c1, b0, b1, AddressMode::Zeropage, ll, hh, 1),
        0x06 => asl_effect(c0, c1, b0, b1, AddressMode::Zeropage, ll, hh),
        0x08 => php_effect(c0, c1, b0, b1),
        0x09 => logic_effect(c0, c1, b0, b1, AddressMode::Immediate, ll, hh, 1),
        0x0A => asl_effect(c0, c1, b0, b1, AddressMode::Accumulator, ll, hh),
        0x0D => logic_effect(c0, c1, b0, b1, AddressMode::Absolute, ll, hh, 1),
        0x0E => asl_effect(c0, c1, b0, b1, AddressMode::Absolute, ll, hh),
        0x10 => branch_post(c0, c1, c0.sr & 0x80 == 0, ll) && b1 == b0,
        0x11 => logic_effect(c0, c1, b0, b1, AddressMode::IndirectY, ll, hh, 1),
        0x15 => logic_effect(c0, c1, b0, b1, AddressMode::ZeropageX, ll, hh, 1),
        0x16 => asl_effect(c0, c1, b0, b1, AddressMode::ZeropageX, ll, hh),
        0x18 => flags_effect(c0, c1, b0, b1, c0.sr & !0x01),
        0x19 => logic_effect(c0, c1, b0, b1, AddressMode::AbsoluteY, ll, hh, 1),
        0x1D => logic_effect(c0, c1, b0, b1, AddressMode::AbsoluteX, ll, hh, 1),
        0x1E => asl_effect(c0, c1, b0, b1, AddressMode::AbsoluteX, ll, hh),
        0x20 => jsr_effect(c0, c1, b0, b1, ll, hh),
        0x21 => logic_effect(c0, c1, b0, b1, AddressMode::IndirectX, ll, hh, 0),
        0x24 => bit_effect(c0, c1, b0, b1, AddressMode::Zeropage, ll, hh),
        0x25 => logic_effect(c0, c1, b0, b1, AddressMode::Zeropage, ll, hh, 0),
        0x26 => rol_effect(c0, c1, b0, b1, AddressMode::Zeropage, ll, hh),
        0x28 => plp_effect(c0, c1, b0, b1),
        0x29 => logic_effect(c0, c1, b0, b1, AddressMode::Immediate, ll, hh, 0),
        0x2A => rol_effect(c0, c1, b0, b1, AddressMode::Accumulator, ll, hh),
        0x2C => bit_effect(c0, c1, b0, b1, AddressMode::Absolute, ll, hh),
        0x2D => logic_effect(c0, c1, b0, b1, AddressMode::Absolute, ll, hh, 0),
        0x2E => rol_effect(c0, c1, b0, b1, AddressMode::Absolute, ll, hh),
        0x30 => branch_post(c0, c1, c0.sr & 0x80 != 0, ll) && b1 == b0,
        0x31 => logic_effect(c0, c1, b0, b1, AddressMode::IndirectY, ll, hh, 0),
        0x35 => logic_effect(c0, c1, b0, b1, AddressMode::ZeropageX, ll, hh, 0),
        0x36 => rol_effect(c0, c1, b0, b1, AddressMode::ZeropageX, ll, hh),
        0x38 => flags_effect(c0, c1, b0, b1, c0.sr | 0x01),
        0x39 => logic_effect(c0, c1, b0, b1, AddressMode::AbsoluteY, ll, hh, 0),
        0x3D => logic_effect(c0, c1, b0, b1, AddressMode::AbsoluteX, ll, hh, 0),
        0x3E => rol_effect(c0, c1, b0, b1, AddressMode::AbsoluteX, ll, hh),
        0x40 => rti_effect(c0, c1, b0, b1),
        0x41 => logic_effect(c0, c1, b0, b1, AddressMode::IndirectX, ll, hh, 2),
        0x45 => logic_effect(c0, c1, b0, b1, AddressMode::Zeropage, ll, hh, 2),
        0x46 => lsr_effect(c0, c1, b0, b1, AddressMode::Zeropage, ll, hh),
        0x48 => pha_effect(c0, c1, b0, b1),
        0x49 => logic_effect(c0, c1, b0, b1, AddressMode::Immediate, ll, hh, 2),
        0x4A => lsr_effect(c0, c1, b0, b1, AddressMode::Accumulator, ll, hh),
        0x4C => jmp_effect(c0, c1, b0, b1, AddressMode::Absolute, ll, hh),
        0x4D => logic_effect(c0, c1, b0, b1, AddressMode::Absolute, ll, hh, 2),
        0x4E => lsr_effect(c0, c1, b0, b1, AddressMode::Absolute, ll, hh),
        0x50 => branch_post(c0, c1, c0.sr & 0x40 == 0, ll) && b1 == b0,
        0x51 => logic_effect(c0, c1, b0, b1, AddressMode::IndirectY, ll, hh, 2),
        0x55 => logic_effect(c0, c1, b0, b1, AddressMode::ZeropageX, ll, hh, 2),
        0x56 => lsr_effect(c0, c1, b0, b1, AddressMode::ZeropageX, ll, hh),
        0x58 => flags_effect(c0, c1, b0, b1, c0.sr & !0x04),
        0x59 => logic_effect(c0, c1, b0, b1, AddressMode::AbsoluteY, ll, hh, 2),
        0x5D => logic_effect(c0, c1, b0, b1, AddressMode::AbsoluteX, ll, hh, 2),
        0x5E => lsr_effect(c0, c1, b0, b1, AddressMode::AbsoluteX, ll, hh),
        0x60 => rts_effect(c0, c1, b0, b1),
        0x61 => adc_effect(c0, c1, b0, b1, AddressMode::IndirectX, ll, hh),
        0x65 => adc_effect(c0, c1, b0, b1, AddressMode::Zeropage, ll, hh),
        0x66 => ror_effect(c0, c1, b0, b1, AddressMode::Zeropage, ll, hh),
        0x68 => pla_effect(c0, c1, b0, b1),
        0x69 => adc_effect(c0, c1, b0, b1, AddressMode::Immediate, ll, hh),
        0x6A => ror_effect(c0, c1, b0, b1, AddressMode::Accumulator, ll, hh),
        0x6C => jmp_effect(c0, c1, b0, b1, AddressMode::Indirect, ll, hh),
        0x6D => adc_effect(c0, c1, b0, b1, AddressMode::Absolute, ll, hh),
        0x6E => ror_effect(c0, c1, b0, b1, AddressMode::Absolute, ll, hh),
        0x70 => branch_post(c0, c1, c0.sr & 0x40 != 0, ll) && b1 == b0,
        0x71 => adc_effect(c0, c1, b0, b1, AddressMode::IndirectY, ll, hh),
        0x75 => adc_effect(c0, c1, b0, b1, AddressMode::ZeropageX, ll, hh),
        0x76 => ror_effect(c0, c1, b0, b1, AddressMode::ZeropageX, ll, hh),
        0x78 => flags_effect(c0, c1, b0, b1, c0.sr | 0x04),
        0x79 => adc_effect(c0, c1, b0, b1, AddressMode::AbsoluteY, ll, hh),
        0x7D => adc_effect(c0, c1, b0, b1, AddressMode::AbsoluteX, ll, hh),
        0x7E => ror_effect(c0, c1, b0, b1, AddressMode::AbsoluteX, ll, hh),
        0x81 => store_effect(c0, c1, b0, b1, AddressMode::IndirectX, ll, hh, c0.ac),
        0x84 => store_effect(c0, c1, b0, b1, AddressMode::Zeropage, ll, hh, c0.yr),
        0x85 => store_effect(c0, c1, b0, b1, AddressMode::Zeropage, ll, hh, c0.ac),
        0x86 => store_effect(c0, c1, b0, b1, AddressMode::Zeropage, ll, hh, c0.xr),
        0x88 => {
            &&& c1.yr == c0.yr.wrapping_sub(1)
            &&& c1.sr == nz_flags(c0.sr, c1.yr)
            &&& only_y_and_sr_changed(c0, c1)
            &&& b1 == b0
        },
        0x8A => {
            &&& c1.ac == c0.xr
            &&& c1.sr == nz_flags(c0.sr, c0.xr)
            &&& only_ac_and_sr_changed(c0, c1)
            &&& b1 == b0
        },
        0x8C => store_effect(c0, c1, b0, b1, AddressMode::Absolute, ll, hh, c0.yr),
        0x8D => store_effect(c0, c1, b0, b1, AddressMode::Absolute, ll, hh, c0.ac),
        0x8E => store_effect(c0, c1, b0, b1, AddressMode::Absolute, ll, hh, c0.xr),
        0x90 => branch_post(c0, c1, c0.sr & 0x01 == 0, ll) && b1 == b0,
        0x91 => store_effect(c0, c1, b0, b1, AddressMode::IndirectY, ll, hh, c0.ac),
        0x94 => store_effect(c0, c1, b0, b1, AddressMode::ZeropageX, ll, hh, c0.yr),
        0x95 => store_effect(c0, c1, b0, b1, AddressMode::ZeropageX, ll, hh, c0.ac),
        0x96 => store_effect(c0, c1, b0, b1, AddressMode::ZeropageY, ll, hh, c0.xr),
        0x98 => {
            &&& c1.ac == c0.yr
            &&& c1.sr == nz_flags(c0.sr, c0.yr)
            &&& only_ac_and_sr_changed(c0, c1)
            &&& b1 == b0
        },
        0x99 => store_effect(c0, c1, b0, b1, AddressMode::AbsoluteY, ll, hh, c0.ac),
        0x9A => {
            &&& c1.sp == c0.xr
            &&& c1.pc == c0.pc
            &&& c1.ac == c0.ac
            &&& c1.xr == c0.xr
            &&& c1.yr == c0.yr
            &&& c1.sr == c0.sr
            &&& c1.ticks == c0.ticks
            &&& cpu_lines_unchanged(c0, c1)
            &&& b1 == b0
        },
        0x9D => store_effect(c0, c1, b0, b1, AddressMode::AbsoluteX, ll, hh, c0.ac),
        0xA0 => ldy_effect(c0, c1, b0, b1, AddressMode::Immediate, ll, hh),
        0xA1 => lda_effect(c0, c1, b0, b1, AddressMode::IndirectX, ll, hh),
        0xA2 => ldx_effect(c0, c1, b0, b1, AddressMode::Immediate, ll, hh),
        0xA4 => ldy_effect(c0, c1, b0, b1, AddressMode::Zeropage, ll, hh),
        0xA5 => lda_effect(c0, c1, b0, b1, AddressMode::Zeropage, ll, hh),
        0xA6 => ldx_effect(c0, c1, b0, b1, AddressMode::Zeropage, ll, hh),
        0xA8 => {
            &&& c1.yr == c0.ac
            &&& c1.sr == nz_flags(c0.sr, c0.ac)
            &&& only_y_and_sr_changed(c0, c1)
            &&& b1 == b0
        },
        0xA9 => lda_effect(c0, c1, b0, b1, AddressMode::Immediate, ll, hh),
        0xAA => {
            &&& c1.xr == c0.ac
            &&& c1.sr == nz_flags(c0.sr, c0.ac)
            &&& only_x_and_sr_changed(c0, c1)
            &&& b1 == b0
        },
        0xAC => ldy_effect(c0, c1, b0, b1, AddressMode::Absolute, ll, hh),
        0xAD => lda_effect(c0, c1, b0, b1, AddressMode::Absolute, ll, hh),
        0xAE => ldx_effect(c0, c1, b0, b1, AddressMode::Absolute, ll, hh),
        0xB0 => branch_post(c0, c1, c0.sr & 0x01 != 0, ll) && b1 == b0,
        0xB1 => lda_effect(c0, c1, b0, b1, AddressMode::IndirectY, ll, hh),
        0xB4 => ldy_effect(c0, c1, b0, b1, AddressMode::ZeropageX, ll, hh),
        0xB5 => lda_effect(c0, c1, b0, b1, AddressMode::ZeropageX, ll, hh),
        0xB6 => ldx_effect(c0, c1, b0, b1, AddressMode::ZeropageY, ll, hh),
        0xB8 => flags_effect(c0, c1, b0, b1, c0.sr & !0x40),
        0xB9 => lda_effect(c0, c1, b0, b1, AddressMode::AbsoluteY, ll, hh),
        0xBA => {
            &&& c1.xr == c0.sp
            &&& c1.sr == nz_flags(c0.sr, c0.sp)
            &&& only_x_and_sr_changed(c0, c1)
            &&& b1 == b0
        },
        0xBC => ldy_effect(c0, c1, b0, b1, AddressMode::AbsoluteX, ll, hh),
        0xBD => lda_effect(c0, c1, b0, b1, AddressMode::AbsoluteX, ll, hh),
        0xBE => ldx_effect(c0, c1, b0, b1, AddressMode::AbsoluteY, ll, hh),
        0xC0 => compare_effect(c0, c1, b0, b1, AddressMode::Immediate, ll, hh, c0.yr),
        0xC1 => compare_effect(c0, c1, b0, b1, AddressMode::IndirectX, ll, hh, c0.ac),
        0xC4 => compare_effect(c0, c1, b0, b1, AddressMode::Zeropage, ll, hh, c0.yr),
        0xC5 => compare_effect(c0, c1, b0, b1, AddressMode::Zeropage, ll, hh, c0.ac),
        0xC6 => dec_effect(c0, c1, b0, b1, AddressMode::Zeropage, ll, hh),
        0xC8 => {
            &&& c1.yr == c0.yr.wrapping_add(1)
            &&& c1.sr == nz_flags(c0.sr, c1.yr)
            &&& only_y_and_sr_changed(c0, c1)
            &&& b1 == b0
        },
        0xC9 => compare_effect(c0, c1, b0, b1, AddressMode::Immediate, ll, hh, c0.ac),
        0xCA => {
            &&& c1.xr == c0.xr.wrapping_sub(1)
            &&& c1.sr == nz_flags(c0.sr, c1.xr)
            &&& only_x_and_sr_changed(c0, c1)
            &&& b1 == b0
        },
        0xCC => compare_effect(c0, c1, b0, b1, AddressMode::Absolute, ll, hh, c0.yr),
        0xCD => compare_effect(c0, c1, b0, b1, AddressMode::Absolute, ll, hh, c0.ac),
        0xCE => dec_effect(c0, c1, b0, b1, AddressMode::Absolute, ll, hh),
        0xD0 => branch_post(c0, c1, c0.sr & 0x02 == 0, ll) && b1 == b0,
        0xD1 => compare_effect(c0, c1, b0, b1, AddressMode::IndirectY, ll, hh, c0.ac),
        0xD5 => compare_effect(c0, c1, b0, b1, AddressMode::ZeropageX, ll, hh, c0.ac),
        0xD6 => dec_effect(c0, c1, b0, b1, AddressMode::ZeropageX, ll, hh),
        0xD8 => flags_effect(c0, c1, b0, b1, c0.sr & !0x08),
        0xD9 => compare_effect(c0, c1, b0, b1, AddressMode::AbsoluteY, ll, hh, c0.ac),
        0xDD => compare_effect(c0, c1, b0, b1, AddressMode::AbsoluteX, ll, hh, c0.ac),
        0xDE => dec_effect(c0, c1, b0, b1, AddressMode::AbsoluteX, ll, hh),
        0xE0 => compare_effect(c0, c1, b0, b1, AddressMode::Immediate, ll, hh, c0.xr),
        0xE1 => sbc_effect(c0, c1, b0, b1, AddressMode::IndirectX, ll, hh),
        0xE4 => compare_effect(c0, c1, b0, b1, AddressMode::Zeropage, ll, hh, c0.xr),
        0xE5 => sbc_effect(c0, c1, b0, b1, AddressMode::Zeropage, ll, hh),
        0xE6 => inc_effect(c0, c1, b0, b1, AddressMode::Zeropage, ll, hh),
        0xE8 => {
            &&& c1.xr == c0.xr.wrapping_add(1)
            &&& c1.sr == nz_flags(c0.sr, c1.xr)
            &&& only_x_and_sr_changed(c0, c1)
            &&& b1 == b0
        },
        0xE9 => sbc_effect(c0, c1, b0, b1, AddressMode::Immediate, ll, hh),
        0xEA => c1 == c0 && b1 == b0,
        0xEC => compare_effect(c0, c1, b0, b1, AddressMode::Absolute, ll, hh, c0.xr),
        0xED => sbc_effect(c0, c1, b0, b1, AddressMode::Absolute, ll, hh),
        0xEE => inc_effect(c0, c1, b0, b1, AddressMode::Absolute, ll, hh),
        0xF0 => branch_post(c0, c1, c0.sr & 0x02 != 0, ll) && b1 == b0,
        0xF1 => sbc_effect(c0, c1, b0, b1, AddressMode::IndirectY, ll, hh),
        0xF5 => sbc_effect(c0, c1, b0, b1, AddressMode::ZeropageX, ll, hh),
        0xF6 => inc_effect(c0, c1, b0, b1, AddressMode::ZeropageX, ll, hh),
        0xF8 => flags_effect(c0, c1, b0, b1, c0.sr | 0x08),
        0xF9 => sbc_effect(c0, c1, b0, b1, AddressMode::AbsoluteY, ll, hh),
        0xFD => sbc_effect(c0, c1, b0, b1, AddressMode::AbsoluteX, ll, hh),
        0xFE => inc_effect(c0, c1, b0, b1, AddressMode::AbsoluteX, ll, hh),
        _ => {
            // Undocumented: nothing changes but the diagnostic list.
            &&& b1 == b0
            &&& c1.pc == c0.pc
            &&& c1.ac == c0.ac
            &&& c1.xr == c0.xr
            &&& c1.yr == c0.yr
            &&& c1.sr == c0.sr
            &&& c1.sp == c0.sp
            &&& c1.ticks == c0.ticks
            &&& c1.irq_requested == c0.irq_requested
            &&& c1.nmi_requested == c0.nmi_requested
            &&& c1.illegal_opcodes@.contains(opcode)
        },
    }
}

impl CPU6502 {
    /// Fetch the operand for an addressing mode, charging the page-cross
    /// penalty where the mode pays one. Only the cycle counter changes on
    /// the CPU; the bus is untouched whenever every address is
    /// side-effect-free.
    pub fn get_memory_value(
        &mut self,
        bus: &mut DataBus,
        ll: u8,
        hh: u8,
        mode: AddressMode,
        page_cross_penalty: u8,
    ) -> (r: u16)
        requires
            bus_wf(*old(bus)),
        ensures
            bus_wf(*final(bus)),
            final(bus).ram@ == old(bus).ram@,
            final(bus).dma_cycles == old(bus).dma_cycles,
            final(bus).ppu.mapper == old(bus).ppu.mapper,
            crate::bus::ppu_timing_unchanged(old(bus).ppu, final(bus).ppu),
            final(self).pc == old(self).pc,
            final(self).ac == old(self).ac,
            final(self).xr == old(self).xr,
            final(self).yr == old(self).yr,
            final(self).sr == old(self).sr,
            final(self).sp == old(self).sp,
            cpu_lines_unchanged(*old(self), *final(self)),
            final(self).ticks == sat_add64_spec(
                old(self).ticks,
                gmv_extra_ticks(*old(self), *old(bus), mode, ll, hh, page_cross_penalty),
            ),
            mode != AddressMode::Indirect && mode != AddressMode::Relative ==> r <= 0xFF,
            gmv_pure(*old(self), *old(bus), mode, ll, hh) ==> {
                &&& *final(bus) == *old(bus)
                &&& r == gmv_result(*old(self), *old(bus), mode, ll, hh)
            },
    {
        match mode {
            AddressMode::Accumulator => self.ac as u16,
            AddressMode::Absolute => self.load8(bus, join_bytes(hh, ll)) as u16,
            AddressMode::AbsoluteX => {
                let a = join_bytes(hh, ll);
                let a2 = a.wrapping_add(self.xr as u16);
                if page_crossed(a, a2) {
                    self.ticks = sat_add64(self.ticks, page_cross_penalty as u64);
                }
                self.load8(bus, a2) as u16
            },
            AddressMode::AbsoluteY => {
                let a = join_bytes(hh, ll);
                let a2 = a.wrapping_add(self.yr as u16);
                if page_crossed(a, a2) {
                    self.ticks = sat_add64(self.ticks, page_cross_penalty as u64);
                }
                self.load8(bus, a2) as u16
            },
            AddressMode::Immediate => ll as u16,
            AddressMode::Implied => 0,
            AddressMode::Indirect => {
                let indirect = self.load16(bus, join_bytes(hh, ll));
                self.load16(bus, indirect)
            },
            AddressMode::IndirectX => {
                let p = ll.wrapping_add(self.xr);
                let hh2 = self.load8(bus, p.wrapping_add(1) as u16);
                let ll2 = self.load8(bus, p as u16);
                let address = join_bytes(hh2, ll2);
                self.load8(bus, address) as u16
            },
            AddressMode::IndirectY => {
                let hh2 = self.load8(bus, ll.wrapping_add(1) as u16);
                let ll2 = self.load8(bus, ll as u16);
                let base = join_bytes(hh2, ll2);
                let sum = base.wrapping_add(self.yr as u16);
                if page_crossed(base, sum) {
                    self.ticks = sat_add64(self.ticks, page_cross_penalty as u64);
                }
                self.load8(bus, sum) as u16
            },
            AddressMode::Relative => rel_addr(self.pc, ll as i8),
            AddressMode::Zeropage => self.load8(bus, ll as u16) as u16,
            AddressMode::ZeropageX => self.load8(bus, ll.wrapping_add(self.xr) as u16) as u16,
            AddressMode::ZeropageY => self.load8(bus, ll.wrapping_add(self.yr) as u16) as u16,
            AddressMode::Unknown => 0,
        }
    }

    /// Store a byte at the address an addressing mode resolves to; the
    /// accumulator form stores into the accumulator instead.
    pub fn set_memory_value(&mut self, bus: &mut DataBus, bb: u8, ll: u8, hh: u8, mode: AddressMode)
        requires
            bus_wf(*old(bus)),
            writable_mode(mode),
        ensures
            bus_wf(*final(bus)),
            mode == AddressMode::Accumulator ==> {
                &&& *final(bus) == *old(bus)
                &&& final(self).ac == bb
                &&& final(self).pc == old(self).pc
                &&& final(self).xr == old(self).xr
                &&& final(self).yr == old(self).yr
                &&& final(self).sr == old(self).sr
                &&& final(self).sp == old(self).sp
                &&& final(self).ticks == old(self).ticks
                &&& cpu_lines_unchanged(*old(self), *final(self))
            },
            mode != AddressMode::Accumulator ==> {
                &&& *final(self) == *old(self)
                &&& bus_write_post(
                    *old(bus),
                    *final(bus),
                    smv_addr(*old(self), *old(bus), mode, ll, hh),
                    bb,
                )
            },
            crate::bus::ppu_timing_unchanged(old(bus).ppu, final(bus).ppu),
            final(bus).dma_cycles >= old(bus).dma_cycles,
            final(bus).dma_cycles <= sat_add64_spec(old(bus).dma_cycles, 513),
    {
        match mode {
            AddressMode::Accumulator => {
                self.ac = bb;
            },
            AddressMode::Absolute => {
                let a = join_bytes(hh, ll);
                self.store8(bus, a, bb);
            },
            AddressMode::AbsoluteX => {
                let a = join_bytes(hh, ll).wrapping_add(self.xr as u16);
                self.store8(bus, a, bb);
            },
            AddressMode::AbsoluteY => {
                let a = join_bytes(hh, ll).wrapping_add(self.yr as u16);
                self.store8(bus, a, bb);
            },
            AddressMode::Zeropage => {
                let a = join_bytes(hh, ll);
                self.store8(bus, a, bb);
            },
            AddressMode::ZeropageX => {
                let a = join_bytes(hh, ll).wrapping_add(self.xr as u16) & 0xFF;
                self.store8(bus, a, bb);
            },
            AddressMode::ZeropageY => {
                let a = ll.wrapping_add(self.yr) as u16;
                self.store8(bus, a, bb);
            },
            AddressMode::IndirectX => {
                let p = ll.wrapping_add(self.xr);
                let hh2 = self.load8(bus, p.wrapping_add(1) as u16);
                let ll2 = self.load8(bus, p as u16);
                let a = join_bytes(hh2, ll2);
                self.store8(bus, a, bb);
            },
            AddressMode::IndirectY => {
                let hh2 = self.load8(bus, ll.wrapping_add(1) as u16);
                let ll2 = self.load8(bus, ll as u16);
                let a = join_bytes(hh2, ll2).wrapping_add(self.yr as u16);
                self.store8(bus, a, bb);
            },
            _ => {
                proof {
                    assert(false);
                }
            },
        }
    }

    /// Dispatch one fetched opcode with its operand bytes: each documented
    /// opcode acts as its instruction's relation with the table's
    /// addressing mode; an undocumented opcode is recorded once in the
    /// diagnostic list and changes nothing else. Whatever the instruction,
    /// the cycle counter never decreases and gains at most the page-cross
    /// and branch penalties; at most one DMA stall is charged.
    #[verifier::rlimit(60)]
    pub fn process_opcode(&mut self, bus: &mut DataBus, opcode: u8, ll: u8, hh: u8)
        requires
            bus_wf(*old(bus)),
        ensures
            bus_wf(*final(bus)),
            opcode_effect(*old(self), *final(self), *old(bus), *final(bus), opcode, ll, hh),
            final(self).ticks >= old(self).ticks,
            final(self).ticks <= sat_add64_spec(old(self).ticks, 2),
            final(bus).dma_cycles >= old(bus).dma_cycles,
            final(bus).dma_cycles <= sat_add64_spec(old(bus).dma_cycles, 513),
            crate::bus::ppu_timing_unchanged(old(bus).ppu, final(bus).ppu),
    {
        match opcode {
            0x00 => self.brk(bus, AddressMode::Implied, ll, hh),
            0x01 => self.ora(bus, AddressMode::IndirectX, ll, hh),
            0x05 => self.ora(bus, AddressMode::Zeropage, ll, hh),
            0x06 => self.asl(bus, AddressMode::Zeropage, ll, hh),
            0x08 => self.php(bus, AddressMode::Implied, ll, hh),
            0x09 => self.ora(bus, AddressMode::Immediate, ll, hh),
            0x0A => self.asl(bus, AddressMode::Accumulator, ll, hh),
            0x0D => self.ora(bus, AddressMode::Absolute, ll, hh),
            0x0E => self.asl(bus, AddressMode::Absolute, ll, hh),
            0x10 => self.bpl(bus, AddressMode::Relative, ll, hh),
            0x11 => self.ora(bus, AddressMode::IndirectY, ll, hh),
            0x15 => self.ora(bus, AddressMode::ZeropageX, ll, hh),
            0x16 => self.asl(bus, AddressMode::ZeropageX, ll, hh),
            0x18 => self.clc(bus, AddressMode::Implied, ll, hh),
            0x19 => self.ora(bus, AddressMode::AbsoluteY, ll, hh),
            0x1D => self.ora(bus, AddressMode::AbsoluteX, ll, hh),
            0x1E => self.asl(bus, AddressMode::AbsoluteX, ll, hh),
            0x20 => self.jsr(bus, AddressMode::Absolute, ll, hh),
            0x21 => self.and(bus, AddressMode::IndirectX, ll, hh),
            0x24 => self.bit(bus, AddressMode::Zeropage, ll, hh),
            0x25 => self.and(bus, AddressMode::Zeropage, ll, hh),
            0x26 => self.rol(bus, AddressMode::Zeropage, ll, hh),
            0x28 => self.plp(bus, AddressMode::Implied, ll, hh),
            0x29 => self.and(bus, AddressMode::Immediate, ll, hh),
            0x2A => self.rol(bus, AddressMode::Accumulator, ll, hh),
            0x2C => self.bit(bus, AddressMode::Absolute, ll, hh),
            0x2D => self.and(bus, AddressMode::Absolute, ll, hh),
            0x2E => self.rol(bus, AddressMode::Absolute, ll, hh),
            0x30 => self.bmi(bus, AddressMode::Relative, ll, hh),
            0x31 => self.and(bus, AddressMode::IndirectY, ll, hh),
            0x35 => self.and(bus, AddressMode::ZeropageX, ll, hh),
            0x36 => self.rol(bus, AddressMode::ZeropageX, ll, hh),
            0x38 => self.sec(bus, AddressMode::Implied, ll, hh),
            0x39 => self.and(bus, AddressMode::AbsoluteY, ll, hh),
            0x3D => self.and(bus, AddressMode::AbsoluteX, ll, hh),
            0x3E => self.rol(bus, AddressMode::AbsoluteX, ll, hh),
            0x40 => self.rti(bus, AddressMode::Implied, ll, hh),
            0x41 => self.eor(bus, AddressMode::IndirectX, ll, hh),
            0x45 => self.eor(bus, AddressMode::Zeropage, ll, hh),
            0x46 => self.lsr(bus, AddressMode::Zeropage, ll, hh),
            0x48 => self.pha(bus, AddressMode::Implied, ll, hh),
            0x49 => self.eor(bus, AddressMode::Immediate, ll, hh),
            0x4A => self.lsr(bus, AddressMode::Accumulator, ll, hh),
            0x4C => self.jmp(bus, AddressMode::Absolute, ll, hh),
            0x4D => self.eor(bus, AddressMode::Absolute, ll, hh),
            0x4E => self.lsr(bus, AddressMode::Absolute, ll, hh),
            0x50 => self.bvc(bus, AddressMode::Relative, ll, hh),
            0x51 => self.eor(bus, AddressMode::IndirectY, ll, hh),
            0x55 => self.eor(bus, AddressMode::ZeropageX, ll, hh),
            0x56 => self.lsr(bus, AddressMode::ZeropageX, ll, hh),
            0x58 => self.cli(bus, AddressMode::Implied, ll, hh),
            0x59 => self.eor(bus, AddressMode::AbsoluteY, ll, hh),
            0x5D => self.eor(bus, AddressMode::AbsoluteX, ll, hh),
            0x5E => self.lsr(bus, AddressMode::AbsoluteX, ll, hh),
            0x60 => self.rts(bus, AddressMode::Implied, ll, hh),
            0x61 => self.adc(bus, AddressMode::IndirectX, ll, hh),
            0x65 => self.adc(bus, AddressMode::Zeropage, ll, hh),
            0x66 => self.ror(bus, AddressMode::Zeropage, ll, hh),
            0x68 => self.pla(bus, AddressMode::Implied, ll, hh),
            0x69 => self.adc(bus, AddressMode::Immediate, ll, hh),
            0x6A => self.ror(bus, AddressMode::Accumulator, ll, hh),
            0x6C => self.jmp(bus, AddressMode::Indirect, ll, hh),
            0x6D => self.adc(bus, AddressMode::Absolute, ll, hh),
            0x6E => self.ror(bus, AddressMode::Absolute, ll, hh),
            0x70 => self.bvs(bus, AddressMode::Relative, ll, hh),
            0x71 => self.adc(bus, AddressMode::IndirectY, ll, hh),
            0x75 => self.adc(bus, AddressMode::ZeropageX, ll, hh),
            0x76 => self.ror(bus, AddressMode::ZeropageX, ll, hh),
            0x78 => self.sei(bus, AddressMode::Implied, ll, hh),
            0x79 => self.adc(bus, AddressMode::AbsoluteY, ll, hh),
            0x7D => self.adc(bus, AddressMode::AbsoluteX, ll, hh),
            0x7E => self.ror(bus, AddressMode::AbsoluteX, ll, hh),
            0x81 => self.sta(bus, AddressMode::IndirectX, ll, hh),
            0x84 => self.sty(bus, AddressMode::Zeropage, ll, hh),
            0x85 => self.sta(bus, AddressMode::Zeropage, ll, hh),
            0x86 => self.stx(bus, AddressMode::Zeropage, ll, hh),
            0x88 => self.dey(bus, AddressMode::Implied, ll, hh),
            0x8A => self.txa(bus, AddressMode::Implied, ll, hh),
            0x8C => self.sty(bus, AddressMode::Absolute, ll, hh),
            0x8D => self.sta(bus, AddressMode::Absolute, ll, hh),
            0x8E => self.stx(bus, AddressMode::Absolute, ll, hh),
            0x90 => self.bcc(bus, AddressMode::Relative, ll, hh),
            0x91 => self.sta(bus, AddressMode::IndirectY, ll, hh),
            0x94 => self.sty(bus, AddressMode::ZeropageX, ll, hh),
            0x95 => self.sta(bus, AddressMode::ZeropageX, ll, hh),
            0x96 => self.stx(bus, AddressMode::ZeropageY, ll, hh),
            0x98 => self.tya(bus, AddressMode::Implied, ll, hh),
            0x99 => self.sta(bus, AddressMode::AbsoluteY, ll, hh),
            0x9A => self.txs(bus, AddressMode::Implied, ll, hh),
            0x9D => self.sta(bus, AddressMode::AbsoluteX, ll, hh),
            0xA0 => self.ldy(bus, AddressMode::Immediate, ll, hh),
            0xA1 => self.lda(bus, AddressMode::IndirectX, ll, hh),
            0xA2 => self.ldx(bus, AddressMode::Immediate, ll, hh),
            0xA4 => self.ldy(bus, AddressMode::Zeropage, ll, hh),
            0xA5 => self.lda(bus, AddressMode::Zeropage, ll, hh),
            0xA6 => self.ldx(bus, AddressMode::Zeropage, ll, hh),
            0xA8 => self.tay(bus, AddressMode::Implied, ll, hh),
            0xA9 => self.lda(bus, AddressMode::Immediate, ll, hh),
            0xAA => self.tax(bus, AddressMode::Implied, ll, hh),
            0xAC => self.ldy(bus, AddressMode::Absolute, ll, hh),
            0xAD => self.lda(bus, AddressMode::Absolute, ll, hh),
            0xAE => self.ldx(bus, AddressMode::Absolute, ll, hh),
            0xB0 => self.bcs(bus, AddressMode::Relative, ll, hh),
            0xB1 => self.lda(bus, AddressMode::IndirectY, ll, hh),
            0xB4 => self.ldy(bus, AddressMode::ZeropageX, ll, hh),
            0xB5 => self.lda(bus, AddressMode::ZeropageX, ll, hh),
            0xB6 => self.ldx(bus, AddressMode::ZeropageY, ll, hh),
            0xB8 => self.clv(bus, AddressMode::Implied, ll, hh),
            0xB9 => self.lda(bus, AddressMode::AbsoluteY, ll, hh),
            0xBA => self.tsx(bus, AddressMode::Implied, ll, hh),
            0xBC => self.ldy(bus, AddressMode::AbsoluteX, ll, hh),
            0xBD => self.lda(bus, AddressMode::AbsoluteX, ll, hh),
            0xBE => self.ldx(bus, AddressMode::AbsoluteY, ll, hh),
            0xC0 => self.cpy(bus, AddressMode::Immediate, ll, hh),
            0xC1 => self.cmp(bus, AddressMode::IndirectX, ll, hh),
            0xC4 => self.cpy(bus, AddressMode::Zeropage, ll, hh),
            0xC5 => self.cmp(bus, AddressMode::Zeropage, ll, hh),
            0xC6 => self.dec(bus, AddressMode::Zeropage, ll, hh),
            0xC8 => self.iny(bus, AddressMode::Implied, ll, hh),
            0xC9 => self.cmp(bus, AddressMode::Immediate, ll, hh),
            0xCA => self.dex(bus, AddressMode::Implied, ll, hh),
            0xCC => self.cpy(bus, AddressMode::Absolute, ll, hh),
            0xCD => self.cmp(bus, AddressMode::Absolute, ll, hh),
            0xCE => self.dec(bus, AddressMode::Absolute, ll, hh),
            0xD0 => self.bne(bus, AddressMode::Relative, ll, hh),
            0xD1 => self.cmp(bus, AddressMode::IndirectY, ll, hh),
            0xD5 => self.cmp(bus, AddressMode::ZeropageX, ll, hh),
            0xD6 => self.dec(bus, AddressMode::ZeropageX, ll, hh),
            0xD8 => self.cld(bus, AddressMode::Implied, ll, hh),
            0xD9 => self.cmp(bus, AddressMode::AbsoluteY, ll, hh),
            0xDD => self.cmp(bus, AddressMode::AbsoluteX, ll, hh),
            0xDE => self.dec(bus, AddressMode::AbsoluteX, ll, hh),
            0xE0 => self.cpx(bus, AddressMode::Immediate, ll, hh),
            0xE1 => self.sbc(bus, AddressMode::IndirectX, ll, hh),
            0xE4 => self.cpx(bus, AddressMode::Zeropage, ll, hh),
            0xE5 => self.sbc(bus, AddressMode::Zeropage, ll, hh),
            0xE6 => self.inc(bus, AddressMode::Zeropage, ll, hh),
            0xE8 => self.inx(bus, AddressMode::Implied, ll, hh),
            0xE9 => self.sbc(bus, AddressMode::Immediate, ll, hh),
            0xEA => self.nop(bus, AddressMode::Implied, ll, hh),
            0xEC => self.cpx(bus, AddressMode::Absolute, ll, hh),
            0xED => self.sbc(bus, AddressMode::Absolute, ll, hh),
            0xEE => self.inc(bus, AddressMode::Absolute, ll, hh),
            0xF0 => self.beq(bus, AddressMode::Relative, ll, hh),
            0xF1 => self.sbc(bus, AddressMode::IndirectY, ll, hh),
            0xF5 => self.sbc(bus, AddressMode::ZeropageX, ll, hh),
            0xF6 => self.inc(bus, AddressMode::ZeropageX, ll, hh),
            0xF8 => self.sed(bus, AddressMode::Implied, ll, hh),
            0xF9 => self.sbc(bus, AddressMode::AbsoluteY, ll, hh),
            0xFD => self.sbc(bus, AddressMode::AbsoluteX, ll, hh),
            0xFE => self.inc(bus, AddressMode::AbsoluteX, ll, hh),
            _ => self.illegal_op_code(opcode),
        }
    }

    /// Raise the non-maskable interrupt line; the CPU services it at the
    /// next instruction boundary.
    pub fn request_nmi(&mut self)
        ensures
            final(self).nmi_requested == true,
            final(self).pc == old(self).pc,
            final(self).ac == old(self).ac,
            final(self).xr == old(self).xr,
            final(self).yr == old(self).yr,
            final(self).sr == old(self).sr,
            final(self).sp == old(self).sp,
            final(self).ticks == old(self).ticks,
            final(self).irq_requested == old(self).irq_requested,
            final(self).illegal_opcodes@ == old(self).illegal_opcodes@,
    {
        self.nmi_requested = true;
    }

    /// Raise the maskable interrupt line; it is serviced at the next
    /// instruction boundary when interrupts are enabled.
    pub fn request_irq(&mut self)
        ensures
            final(self).irq_requested == true,
            final(self).pc == old(self).pc,
            final(self).ac == old(self).ac,
            final(self).xr == old(self).xr,
            final(self).yr == old(self).yr,
            final(self).sr == old(self).sr,
            final(self).sp == old(self).sp,
            final(self).ticks == old(self).ticks,
            final(self).nmi_requested == old(self).nmi_requested,
            final(self).illegal_opcodes@ == old(self).illegal_opcodes@,
    {
        self.irq_requested = true;
    }

    /// Record an undocumented opcode in the diagnostic channel, once per
    /// unique opcode; it is otherwise a no-op.
    fn illegal_op_code(&mut self, opcode: u8)
        ensures
            final(self).illegal_opcodes@.contains(opcode),
            final(self).pc == old(self).pc,
            final(self).ac == old(self).ac,
            final(self).xr == old(self).xr,
            final(self).yr == old(self).yr,
            final(self).sr == old(self).sr,
            final(self).sp == old(self).sp,
            final(self).ticks == old(self).ticks,
            final(self).irq_requested == old(self).irq_requested,
            final(self).nmi_requested == old(self).nmi_requested,
    {
        let mut i: usize = 0;
        let n = self.illegal_opcodes.len();
        while i < n
            invariant
                n == self.illegal_opcodes@.len(),
                i <= n,
                forall|j: int| 0 <= j < i ==> self.illegal_opcodes@[j] != opcode,
                *self == *old(self),
            decreases n - i,
        {
            if self.illegal_opcodes[i] == opcode {
                proof {
                    assert(self.illegal_opcodes@[i as int] == opcode);
                }
                return ;
            }
            i += 1;
        }
        self.illegal_opcodes.push(opcode);
        proof {
            assert(self.illegal_opcodes@[self.illegal_opcodes@.len() - 1] == opcode);
        }
    }
}

} // verus!
