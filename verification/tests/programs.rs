use nes_core::bus::DataBus;
use nes_core::cpu::CPU6502;

/// Run one instruction placed at the bottom of RAM and return the cycles
/// it charged.
fn cycles_of(program: &[u8]) -> u64 {
    let mut cpu = CPU6502::new();
    let mut bus = DataBus::new();
    for (i, b) in program.iter().enumerate() {
        bus.write(i as u16, *b);
    }
    cpu.pc = 0x0000;
    let before = cpu.ticks;
    cpu.process_next_opcode(&mut bus);
    cpu.ticks - before
}

#[test]
fn base_cycle_costs_match_the_documented_table() {
    assert_eq!(cycles_of(&[0xEA]), 2); // NOP
    assert_eq!(cycles_of(&[0xA9, 0x01]), 2); // LDA #
    assert_eq!(cycles_of(&[0xA5, 0x80]), 3); // LDA zp
    assert_eq!(cycles_of(&[0xB5, 0x80]), 4); // LDA zp,X
    assert_eq!(cycles_of(&[0xAD, 0x80, 0x01]), 4); // LDA abs
    assert_eq!(cycles_of(&[0xA1, 0x80]), 6); // LDA (zp,X)
    assert_eq!(cycles_of(&[0xB1, 0x80]), 5); // LDA (zp),Y no cross
    assert_eq!(cycles_of(&[0x85, 0x80]), 3); // STA zp
    assert_eq!(cycles_of(&[0x8D, 0x80, 0x01]), 4); // STA abs
    assert_eq!(cycles_of(&[0x9D, 0x80, 0x01]), 5); // STA abs,X
    assert_eq!(cycles_of(&[0x91, 0x80]), 6); // STA (zp),Y
    assert_eq!(cycles_of(&[0x06, 0x80]), 5); // ASL zp
    assert_eq!(cycles_of(&[0x16, 0x80]), 6); // ASL zp,X
    assert_eq!(cycles_of(&[0x0E, 0x80, 0x01]), 6); // ASL abs
    assert_eq!(cycles_of(&[0x1E, 0x80, 0x01]), 7); // ASL abs,X
    assert_eq!(cycles_of(&[0x4C, 0x80, 0x01]), 3); // JMP abs
    assert_eq!(cycles_of(&[0x6C, 0x80, 0x01]), 5); // JMP (abs)
    assert_eq!(cycles_of(&[0x20, 0x80, 0x01]), 6); // JSR
    assert_eq!(cycles_of(&[0x60]), 6); // RTS
    assert_eq!(cycles_of(&[0x40]), 6); // RTI
    assert_eq!(cycles_of(&[0x48]), 3); // PHA
    assert_eq!(cycles_of(&[0x08]), 3); // PHP
    assert_eq!(cycles_of(&[0x68]), 4); // PLA
    assert_eq!(cycles_of(&[0x28]), 4); // PLP
    assert_eq!(cycles_of(&[0x00]), 7); // BRK
    assert_eq!(cycles_of(&[0xC9, 0x01]), 2); // CMP #
    assert_eq!(cycles_of(&[0xE6, 0x80]), 5); // INC zp
    assert_eq!(cycles_of(&[0x18]), 2); // CLC
    assert_eq!(cycles_of(&[0xAA]), 2); // TAX
    // An untaken branch costs only its base two cycles; the zero flag is
    // clear at power-up, so BEQ falls through.
    assert_eq!(cycles_of(&[0xF0, 0x10]), 2);
}

#[test]
fn instruction_sizes_advance_the_program_counter() {
    let cases: [(Vec<u8>, u16); 5] = [
        (vec![0xEA], 1),
        (vec![0xA9, 0x00], 2),
        (vec![0xA5, 0x10], 2),
        (vec![0xAD, 0x10, 0x00], 3),
        (vec![0x02], 1),
    ];
    for (program, size) in cases {
        let mut cpu = CPU6502::new();
        let mut bus = DataBus::new();
        for (i, b) in program.iter().enumerate() {
            bus.write(i as u16, *b);
        }
        cpu.pc = 0x0000;
        cpu.process_next_opcode(&mut bus);
        assert_eq!(cpu.pc, size);
    }
}

#[test]
fn a_counting_loop_runs_to_completion() {
    // LDX #5; DEX; BNE -3; STX $10 -- X counts down to zero.
    let program = [0xA2, 0x05, 0xCA, 0xD0, 0xFD, 0x86, 0x10];
    let mut cpu = CPU6502::new();
    let mut bus = DataBus::new();
    for (i, b) in program.iter().enumerate() {
        bus.write(0x0020 + i as u16, *b);
    }
    bus.write(0x0010, 0xEE);
    cpu.pc = 0x0020;
    // 1 load + 5 x (DEX, BNE) + 1 store.
    for _ in 0..12 {
        cpu.process_next_opcode(&mut bus);
    }
    assert_eq!(cpu.xr, 0);
    assert_eq!(bus.read(0x0010), 0x00);
    assert_eq!(cpu.pc, 0x0020 + 7);
}

#[test]
fn fetch_returns_the_instruction_bytes() {
    let mut cpu = CPU6502::new();
    let mut bus = DataBus::new();
    bus.write(0x0000, 0xAD);
    bus.write(0x0001, 0x34);
    bus.write(0x0002, 0x12);
    cpu.pc = 0x0000;
    let (op, ll, hh) = cpu.process_next_opcode(&mut bus);
    assert_eq!((op, ll, hh), (0xAD, 0x34, 0x12));
    // One-byte instructions hand back zero operand bytes.
    bus.write(0x0003, 0xEA);
    let (op, ll, hh) = cpu.process_next_opcode(&mut bus);
    assert_eq!((op, ll, hh), (0xEA, 0x00, 0x00));
}
