//! A cycle-scheduled emulator core for the classic 8-bit home console:
//! a 6502-family CPU interpreter, a per-dot picture processing unit, and
//! the memory bus that connects them, with machine-checked contracts.

pub mod bits;
pub mod bus;
pub mod console;
pub mod cpu;
pub mod input;
pub mod mapper;
pub mod palette;
pub mod ppu;
pub mod rom;
