use nes_core::bus::DataBus;
use nes_core::cpu::CPU6502;
use nes_core::cpu::address_mode::AddressMode;
use nes_core::cpu::util::SRFlag;

fn machine() -> (CPU6502, DataBus) {
    (CPU6502::new(), DataBus::new())
}

#[test]
fn ram_mirrors_every_two_kib() {
    let mut bus = DataBus::new();
    bus.write(0x0123, 0x42);
    for k in 0..4u16 {
        assert_eq!(bus.read(0x0123 + k * 0x0800), 0x42);
    }
    bus.write(0x1FFF, 0x77);
    assert_eq!(bus.read(0x07FF), 0x77);
}

#[test]
fn php_then_plp_preserves_the_flag_byte() {
    let (mut cpu, mut bus) = machine();
    for sr in [0x00u8, 0x24, 0xCF, 0xFF, 0x5A] {
        cpu.sr = sr;
        cpu.php(&mut bus, AddressMode::Implied, 0, 0);
        cpu.plp(&mut bus, AddressMode::Implied, 0, 0);
        assert_eq!(cpu.sr, sr);
    }
}

#[test]
fn php_pushes_with_bits_4_and_5_set() {
    let (mut cpu, mut bus) = machine();
    cpu.sr = 0x80;
    let sp = cpu.sp;
    cpu.php(&mut bus, AddressMode::Implied, 0, 0);
    assert_eq!(bus.read(0x0100 + sp as u16), 0xB0);
}

#[test]
fn jmp_indirect_wraps_inside_the_pointer_page() {
    let (mut cpu, mut bus) = machine();
    bus.write(0x02FF, 0x34);
    bus.write(0x0300, 0xFF);
    bus.write(0x0200, 0x12);
    cpu.jmp(&mut bus, AddressMode::Indirect, 0xFF, 0x02);
    // The high byte comes from $0200, not $0300: the documented bug.
    assert_eq!(cpu.pc, 0x1234);
}

#[test]
fn adc_sets_carry_without_overflow_on_ff_plus_one() {
    let (mut cpu, mut bus) = machine();
    cpu.ac = 0xFF;
    cpu.set_flag(SRFlag::Carry, false);
    cpu.adc(&mut bus, AddressMode::Immediate, 0x01, 0);
    assert_eq!(cpu.ac, 0x00);
    assert!(cpu.get_flag(SRFlag::Carry));
    assert!(!cpu.get_flag(SRFlag::Overflow));
    assert!(cpu.get_flag(SRFlag::Zero));
}

#[test]
fn adc_sets_overflow_and_negative_on_7f_plus_one() {
    let (mut cpu, mut bus) = machine();
    cpu.ac = 0x7F;
    cpu.set_flag(SRFlag::Carry, false);
    cpu.adc(&mut bus, AddressMode::Immediate, 0x01, 0);
    assert_eq!(cpu.ac, 0x80);
    assert!(cpu.get_flag(SRFlag::Overflow));
    assert!(cpu.get_flag(SRFlag::Negative));
    assert!(!cpu.get_flag(SRFlag::Carry));
}

#[test]
fn taken_branch_charges_one_cycle_and_a_page_cross_two() {
    let (mut cpu, mut bus) = machine();
    // After fetching the two branch bytes the counter sits at $80F2;
    // +$20 lands on the next page.
    cpu.pc = 0x80F2;
    cpu.set_flag(SRFlag::Carry, false);
    let before = cpu.ticks;
    cpu.bcc(&mut bus, AddressMode::Relative, 0x20, 0);
    assert_eq!(cpu.pc, 0x8112);
    assert_eq!(cpu.ticks - before, 2);
    // No page cross: one extra cycle.
    cpu.pc = 0x8002;
    let before = cpu.ticks;
    cpu.bcc(&mut bus, AddressMode::Relative, 0x20, 0);
    assert_eq!(cpu.pc, 0x8022);
    assert_eq!(cpu.ticks - before, 1);
    // Not taken: nothing moves.
    cpu.set_flag(SRFlag::Carry, true);
    let before = cpu.ticks;
    let pc = cpu.pc;
    cpu.bcc(&mut bus, AddressMode::Relative, 0x20, 0);
    assert_eq!(cpu.pc, pc);
    assert_eq!(cpu.ticks, before);
}

#[test]
fn oam_dma_copies_a_page_and_wraps_through_oam() {
    let mut bus = DataBus::new();
    for i in 0..256u16 {
        bus.write(0x0200 + i, (i as u8).wrapping_add(3));
    }
    bus.ppu.oam_address = 0x10;
    bus.write(0x4014, 0x02);
    for i in 0..256usize {
        assert_eq!(bus.ppu.oam_memory[(i + 0x10) % 256], (i as u8).wrapping_add(3));
    }
    assert_eq!(bus.dma_cycles, 513);
}

#[test]
fn oam_dma_stalls_the_cpu_for_at_least_513_cycles() {
    let (mut cpu, mut bus) = machine();
    // An STA at $4014 triggers the transfer inside the instruction.
    bus.write(0x0000, 0x8D);
    bus.write(0x0001, 0x14);
    bus.write(0x0002, 0x40);
    cpu.pc = 0x0000;
    let before = cpu.ticks;
    cpu.process_next_opcode(&mut bus);
    assert!(cpu.ticks - before >= 513 + 4);
    assert_eq!(bus.dma_cycles, 0);
}

#[test]
fn stack_push_pull_roundtrip() {
    let (mut cpu, mut bus) = machine();
    cpu.push16(&mut bus, 0xBEEF);
    cpu.push8(&mut bus, 0x42);
    assert_eq!(cpu.pull8(&mut bus), 0x42);
    assert_eq!(cpu.pull16(&mut bus), 0xBEEF);
    assert_eq!(cpu.sp, 0xFD);
}

#[test]
fn stack_pointer_wraps_within_its_page() {
    let (mut cpu, mut bus) = machine();
    cpu.sp = 0x00;
    cpu.push8(&mut bus, 0x99);
    assert_eq!(cpu.sp, 0xFF);
    assert_eq!(cpu.pull8(&mut bus), 0x99);
    assert_eq!(cpu.sp, 0x00);
}

#[test]
fn nmi_vectors_and_costs_seven_cycles() {
    let (mut cpu, mut bus) = machine();
    cpu.pc = 0x1234;
    cpu.request_nmi();
    let before = cpu.ticks;
    let sp = cpu.sp;
    cpu.process_next_opcode(&mut bus);
    // The empty cartridge space reads zero, so the vector is $0000.
    assert_eq!(cpu.pc, 0x0000);
    assert_eq!(cpu.ticks - before, 7);
    assert_eq!(cpu.sp, sp.wrapping_sub(3));
    assert!(!cpu.nmi_requested);
    // The pushed status has bit 5 set and the break bit clear.
    assert_eq!(bus.read(0x0100 + sp.wrapping_sub(2) as u16), (0x24 | 0x20) & !0x10);
}

#[test]
fn nmi_outranks_a_pending_irq() {
    let (mut cpu, mut bus) = machine();
    cpu.sr = 0x20;
    cpu.request_irq();
    cpu.request_nmi();
    cpu.process_next_opcode(&mut bus);
    assert!(!cpu.nmi_requested);
    assert!(cpu.irq_requested);
}

#[test]
fn masked_irq_stays_pending_until_interrupts_are_enabled() {
    let (mut cpu, mut bus) = machine();
    // Interrupt-disable is set at power-up; the step runs the NOP at PC
    // instead of taking the interrupt.
    bus.write(0x0000, 0xEA);
    cpu.pc = 0x0000;
    cpu.request_irq();
    cpu.process_next_opcode(&mut bus);
    assert!(cpu.irq_requested);
    assert_eq!(cpu.pc, 0x0001);
    // With the flag cleared the pending IRQ is serviced.
    cpu.sr = cpu.sr & !0x04;
    let sp = cpu.sp;
    cpu.process_next_opcode(&mut bus);
    assert!(!cpu.irq_requested);
    assert_eq!(cpu.sp, sp.wrapping_sub(3));
    assert_eq!(cpu.sr & 0x04, 0x04);
}

#[test]
fn undocumented_opcode_is_a_two_cycle_no_op() {
    let (mut cpu, mut bus) = machine();
    cpu.pc = 0x0000;
    bus.write(0x0000, 0x02);
    let before = cpu.ticks;
    cpu.process_next_opcode(&mut bus);
    assert_eq!(cpu.pc, 0x0001);
    assert_eq!(cpu.ticks - before, 2);
}

#[test]
fn lda_immediate_sets_negative_and_zero() {
    let (mut cpu, mut bus) = machine();
    cpu.lda(&mut bus, AddressMode::Immediate, 0x80, 0);
    assert_eq!(cpu.ac, 0x80);
    assert!(cpu.get_flag(SRFlag::Negative));
    cpu.lda(&mut bus, AddressMode::Immediate, 0x00, 0);
    assert!(cpu.get_flag(SRFlag::Zero));
}

#[test]
fn read_modify_write_touches_memory_in_place() {
    let (mut cpu, mut bus) = machine();
    bus.write(0x0040, 0x41);
    cpu.inc(&mut bus, AddressMode::Zeropage, 0x40, 0);
    assert_eq!(bus.read(0x0040), 0x42);
    cpu.asl(&mut bus, AddressMode::Zeropage, 0x40, 0);
    assert_eq!(bus.read(0x0040), 0x84);
    cpu.lsr(&mut bus, AddressMode::Zeropage, 0x40, 0);
    assert_eq!(bus.read(0x0040), 0x42);
    cpu.dec(&mut bus, AddressMode::Zeropage, 0x40, 0);
    assert_eq!(bus.read(0x0040), 0x41);
}

#[test]
fn sbc_borrows_and_compares_set_carry() {
    let (mut cpu, mut bus) = machine();
    cpu.ac = 0x10;
    cpu.set_flag(SRFlag::Carry, true);
    cpu.sbc(&mut bus, AddressMode::Immediate, 0x08, 0);
    assert_eq!(cpu.ac, 0x08);
    assert!(cpu.get_flag(SRFlag::Carry));
    cpu.cmp(&mut bus, AddressMode::Immediate, 0x08, 0);
    assert!(cpu.get_flag(SRFlag::Carry));
    assert!(cpu.get_flag(SRFlag::Zero));
    cpu.cmp(&mut bus, AddressMode::Immediate, 0x09, 0);
    assert!(!cpu.get_flag(SRFlag::Carry));
}

#[test]
fn jsr_and_rts_pair_up() {
    let (mut cpu, mut bus) = machine();
    cpu.pc = 0x0203;
    cpu.jsr(&mut bus, AddressMode::Absolute, 0x10, 0x01);
    assert_eq!(cpu.pc, 0x0110);
    cpu.rts(&mut bus, AddressMode::Implied, 0, 0);
    assert_eq!(cpu.pc, 0x0203);
}
