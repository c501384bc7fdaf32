//! The addressing modes of the instruction set.

use vstd::prelude::*;

verus! {

/// How an instruction finds its operand.
#[derive(Clone, Copy, Debug, PartialEq, Eq, Structural)]
pub enum AddressMode {
    /// Unknown addressing mode.
    Unknown,
    /// Operand is the accumulator.
    Accumulator,
    /// Operand is at address $HHLL.
    Absolute,
    /// Operand is at the address incremented by X, with carry.
    AbsoluteX,
    /// Operand is at the address incremented by Y, with carry.
    AbsoluteY,
    /// Operand is the byte itself.
    Immediate,
    /// Operand implied by the instruction.
    Implied,
    /// Operand is at the 16-bit address stored at $HHLL.
    Indirect,
    /// Operand is at the address stored at zero page $LL + X, 8-bit wrap.
    IndirectX,
    /// Operand is at the address stored at zero page $LL, incremented by Y.
    IndirectY,
    /// Branch target is PC plus a signed 8-bit displacement.
    Relative,
    /// Operand is at zero page $LL.
    Zeropage,
    /// Operand is at zero page $LL + X, without page transition.
    ZeropageX,
    /// Operand is at zero page $LL + Y, without page transition.
    ZeropageY,
}

} // verus!
