//! The instruction table: byte size and base cycle cost per opcode, from
//! the documented 6502 tables. Undocumented opcodes take one byte and two
//! cycles and are treated as no-ops elsewhere.

use vstd::prelude::*;

verus! {

/// One table row.
#[derive(Clone, Copy, Debug)]
pub struct Instruction {
    /// Instruction length in bytes, 1 to 3.
    pub size: u8,
    /// Base cycle cost, before taken-branch and page-cross penalties.
    pub ticks: u8,
}

impl Instruction {
    /// Look an opcode up. Every entry is 1 to 3 bytes long and costs at
    /// least two cycles, at most seven.
    pub fn get_instruction(opcode: u8) -> (r: Instruction)
        ensures
            1 <= r.size <= 3,
            2 <= r.ticks <= 7,
            r.size == instruction_size_spec(opcode),
            r.ticks == instruction_ticks_spec(opcode),
    {
        let size = match opcode {
            // Immediate.
            0x09 | 0x29 | 0x49 | 0x69 | 0xA9 | 0xC9 | 0xE9 | 0xA0 | 0xA2 | 0xC0 | 0xE0 => 2,
            // Zero page, plain and indexed.
            0x05 | 0x25 | 0x45 | 0x65 | 0x85 | 0xA5 | 0xC5 | 0xE5 | 0x24 | 0x84 | 0x86 | 0xA4
                | 0xA6 | 0xC4 | 0xE4 | 0x06 | 0x26 | 0x46 | 0x66 | 0xC6 | 0xE6 | 0x15 | 0x35
                | 0x55 | 0x75 | 0x95 | 0xB5 | 0xD5 | 0xF5 | 0x94 | 0xB4 | 0x96 | 0xB6 | 0x16
                | 0x36 | 0x56 | 0x76 | 0xD6 | 0xF6 => 2,
            // Indexed indirect and indirect indexed.
            0x01 | 0x21 | 0x41 | 0x61 | 0x81 | 0xA1 | 0xC1 | 0xE1 | 0x11 | 0x31 | 0x51 | 0x71
                | 0x91 | 0xB1 | 0xD1 | 0xF1 => 2,
            // Relative branches.
            0x10 | 0x30 | 0x50 | 0x70 | 0x90 | 0xB0 | 0xD0 | 0xF0 => 2,
            // Absolute, plain and indexed, plus the two jumps and JSR.
            0x0D | 0x2D | 0x4D | 0x6D | 0x8D | 0xAD | 0xCD | 0xED | 0x2C | 0x8C | 0x8E | 0xAC
                | 0xAE | 0xCC | 0xEC | 0x0E | 0x2E | 0x4E | 0x6E | 0xCE | 0xEE | 0x20 | 0x4C
                | 0x6C | 0x1D | 0x3D | 0x5D | 0x7D | 0xBD | 0xDD | 0xFD | 0xBC | 0x9D | 0x19
                | 0x39 | 0x59 | 0x79 | 0xB9 | 0xD9 | 0xF9 | 0xBE | 0x99 | 0x1E | 0x3E | 0x5E
                | 0x7E | 0xDE | 0xFE => 3,
            // Implied, stack and accumulator forms, and everything
            // undocumented.
            _ => 1,
        };
        let ticks = match opcode {
            // Read-modify-write on absolute,X.
            0x1E | 0x3E | 0x5E | 0x7E | 0xDE | 0xFE => 7,
            // BRK.
            0x00 => 7,
            // Read-modify-write on absolute; JSR, RTS, RTI; indexed
            // indirect; STA on the one-cycle-extra forms; RMW on zp,X.
            0x0E | 0x2E | 0x4E | 0x6E | 0xCE | 0xEE | 0x20 | 0x60 | 0x40 | 0x01 | 0x21 | 0x41
                | 0x61 | 0x81 | 0xA1 | 0xC1 | 0xE1 | 0x91 | 0x16 | 0x36 | 0x56 | 0x76 | 0xD6
                | 0xF6 => 6,
            // Read-modify-write on zero page; indirect indexed loads; STA
            // absolute indexed; JMP indirect.
            0x06 | 0x26 | 0x46 | 0x66 | 0xC6 | 0xE6 | 0x11 | 0x31 | 0x51 | 0x71 | 0xB1 | 0xD1
                | 0xF1 | 0x9D | 0x99 | 0x6C => 5,
            // Absolute and indexed reads and writes; zp,X and zp,Y; the two
            // four-cycle stack pulls.
            0x0D | 0x2D | 0x4D | 0x6D | 0x8D | 0xAD | 0xCD | 0xED | 0x2C | 0x8C | 0x8E | 0xAC
                | 0xAE | 0xCC | 0xEC | 0x1D | 0x3D | 0x5D | 0x7D | 0xBD | 0xDD | 0xFD | 0xBC
                | 0x19 | 0x39 | 0x59 | 0x79 | 0xB9 | 0xD9 | 0xF9 | 0xBE | 0x15 | 0x35 | 0x55
                | 0x75 | 0x95 | 0xB5 | 0xD5 | 0xF5 | 0x94 | 0xB4 | 0x96 | 0xB6 | 0x68 | 0x28 => 4,
            // Zero page reads and writes; the two three-cycle stack pushes;
            // JMP absolute.
            0x05 | 0x25 | 0x45 | 0x65 | 0x85 | 0xA5 | 0xC5 | 0xE5 | 0x24 | 0x84 | 0x86 | 0xA4
                | 0xA6 | 0xC4 | 0xE4 | 0x48 | 0x08 | 0x4C => 3,
            // Immediate, implied, accumulator, branches, and everything
            // undocumented.
            _ => 2,
        };
        Instruction { size, ticks }
    }
}

pub open spec fn instruction_size_spec(opcode: u8) -> u8 {
    match opcode {
        0x09 | 0x29 | 0x49 | 0x69 | 0xA9 | 0xC9 | 0xE9 | 0xA0 | 0xA2 | 0xC0 | 0xE0 => 2u8,
        0x05 | 0x25 | 0x45 | 0x65 | 0x85 | 0xA5 | 0xC5 | 0xE5 | 0x24 | 0x84 | 0x86 | 0xA4 | 0xA6
            | 0xC4 | 0xE4 | 0x06 | 0x26 | 0x46 | 0x66 | 0xC6 | 0xE6 | 0x15 | 0x35 | 0x55 | 0x75
            | 0x95 | 0xB5 | 0xD5 | 0xF5 | 0x94 | 0xB4 | 0x96 | 0xB6 | 0x16 | 0x36 | 0x56 | 0x76
            | 0xD6 | 0xF6 => 2u8,
        0x01 | 0x21 | 0x41 | 0x61 | 0x81 | 0xA1 | 0xC1 | 0xE1 | 0x11 | 0x31 | 0x51 | 0x71 | 0x91
            | 0xB1 | 0xD1 | 0xF1 => 2u8,
        0x10 | 0x30 | 0x50 | 0x70 | 0x90 | 0xB0 | 0xD0 | 0xF0 => 2u8,
        0x0D | 0x2D | 0x4D | 0x6D | 0x8D | 0xAD | 0xCD | 0xED | 0x2C | 0x8C | 0x8E | 0xAC | 0xAE
            | 0xCC | 0xEC | 0x0E | 0x2E | 0x4E | 0x6E | 0xCE | 0xEE | 0x20 | 0x4C | 0x6C | 0x1D
            | 0x3D | 0x5D | 0x7D | 0xBD | 0xDD | 0xFD | 0xBC | 0x9D | 0x19 | 0x39 | 0x59 | 0x79
            | 0xB9 | 0xD9 | 0xF9 | 0xBE | 0x99 | 0x1E | 0x3E | 0x5E | 0x7E | 0xDE | 0xFE => 3u8,
        _ => 1u8,
    }
}

pub open spec fn instruction_ticks_spec(opcode: u8) -> u8 {
    match opcode {
        0x1E | 0x3E | 0x5E | 0x7E | 0xDE | 0xFE => 7u8,
        0x00 => 7u8,
        0x0E | 0x2E | 0x4E | 0x6E | 0xCE | 0xEE | 0x20 | 0x60 | 0x40 | 0x01 | 0x21 | 0x41 | 0x61
            | 0x81 | 0xA1 | 0xC1 | 0xE1 | 0x91 | 0x16 | 0x36 | 0x56 | 0x76 | 0xD6 | 0xF6 => 6u8,
        0x06 | 0x26 | 0x46 | 0x66 | 0xC6 | 0xE6 | 0x11 | 0x31 | 0x51 | 0x71 | 0xB1 | 0xD1 | 0xF1
            | 0x9D | 0x99 | 0x6C => 5u8,
        0x0D | 0x2D | 0x4D | 0x6D | 0x8D | 0xAD | 0xCD | 0xED | 0x2C | 0x8C | 0x8E | 0xAC | 0xAE
            | 0xCC | 0xEC | 0x1D | 0x3D | 0x5D | 0x7D | 0xBD | 0xDD | 0xFD | 0xBC | 0x19 | 0x39
            | 0x59 | 0x79 | 0xB9 | 0xD9 | 0xF9 | 0xBE | 0x15 | 0x35 | 0x55 | 0x75 | 0x95 | 0xB5
            | 0xD5 | 0xF5 | 0x94 | 0xB4 | 0x96 | 0xB6 | 0x68 | 0x28 => 4u8,
        0x05 | 0x25 | 0x45 | 0x65 | 0x85 | 0xA5 | 0xC5 | 0xE5 | 0x24 | 0x84 | 0x86 | 0xA4 | 0xA6
            | 0xC4 | 0xE4 | 0x48 | 0x08 | 0x4C => 3u8,
        _ => 2u8,
    }
}

} // verus!
