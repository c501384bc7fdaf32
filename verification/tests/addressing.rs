use nes_core::bus::DataBus;
use nes_core::cpu::CPU6502;
use nes_core::cpu::address_mode::AddressMode;
use nes_core::ppu::Ppu;

fn machine() -> (CPU6502, DataBus) {
    (CPU6502::new(), DataBus::new())
}

#[test]
fn zeropage_x_wraps_inside_the_zero_page() {
    let (mut cpu, mut bus) = machine();
    bus.write(0x0001, 0x5A);
    cpu.xr = 0x02;
    cpu.lda(&mut bus, AddressMode::ZeropageX, 0xFF, 0);
    assert_eq!(cpu.ac, 0x5A);
}

#[test]
fn indirect_x_goes_through_the_zero_page_pointer() {
    let (mut cpu, mut bus) = machine();
    cpu.xr = 0x04;
    bus.write(0x0024, 0x34);
    bus.write(0x0025, 0x02);
    bus.write(0x0234, 0x99);
    cpu.lda(&mut bus, AddressMode::IndirectX, 0x20, 0);
    assert_eq!(cpu.ac, 0x99);
}

#[test]
fn indirect_y_adds_y_and_charges_the_page_cross() {
    let (mut cpu, mut bus) = machine();
    cpu.yr = 0x10;
    bus.write(0x0020, 0xF8);
    bus.write(0x0021, 0x02);
    bus.write(0x0308, 0x77);
    let before = cpu.ticks;
    cpu.lda(&mut bus, AddressMode::IndirectY, 0x20, 0);
    assert_eq!(cpu.ac, 0x77);
    assert_eq!(cpu.ticks - before, 1);
}

#[test]
fn absolute_x_read_charges_the_page_cross() {
    let (mut cpu, mut bus) = machine();
    cpu.xr = 0x10;
    bus.write(0x0308, 0x66);
    let before = cpu.ticks;
    cpu.lda(&mut bus, AddressMode::AbsoluteX, 0xF8, 0x02);
    assert_eq!(cpu.ac, 0x66);
    assert_eq!(cpu.ticks - before, 1);
    // No cross, no extra cycle.
    bus.write(0x0211, 0x55);
    let before = cpu.ticks;
    cpu.lda(&mut bus, AddressMode::AbsoluteX, 0x01, 0x02);
    assert_eq!(cpu.ac, 0x55);
    assert_eq!(cpu.ticks, before);
}

#[test]
fn stores_never_charge_the_page_cross() {
    let (mut cpu, mut bus) = machine();
    cpu.ac = 0x42;
    cpu.xr = 0x10;
    let before = cpu.ticks;
    cpu.sta(&mut bus, AddressMode::AbsoluteX, 0xF8, 0x02);
    assert_eq!(bus.read(0x0308), 0x42);
    assert_eq!(cpu.ticks, before);
}

#[test]
fn undocumented_opcodes_are_recorded_once_each() {
    let (mut cpu, mut bus) = machine();
    bus.write(0x0000, 0x02);
    bus.write(0x0001, 0x02);
    bus.write(0x0002, 0x03);
    cpu.pc = 0x0000;
    cpu.process_next_opcode(&mut bus);
    cpu.process_next_opcode(&mut bus);
    cpu.process_next_opcode(&mut bus);
    assert_eq!(cpu.illegal_opcodes, vec![0x02, 0x03]);
}

#[test]
fn scroll_register_builds_the_temporary_address() {
    let mut ppu = Ppu::new();
    // First write: coarse X and fine X.
    ppu.write_register_cpu_address(0x2005, 0b0111_1101);
    assert_eq!(ppu.t & 0x001F, 0b01111);
    assert_eq!(ppu.x, 0b101);
    assert!(ppu.w);
    // Second write: coarse Y and fine Y.
    ppu.write_register_cpu_address(0x2005, 0b0101_1110);
    assert_eq!((ppu.t >> 5) & 0x1F, 0b01011);
    assert_eq!((ppu.t >> 12) & 0x7, 0b110);
    assert!(!ppu.w);
}

#[test]
fn address_register_copies_t_into_v_on_the_second_write() {
    let mut ppu = Ppu::new();
    ppu.write_register_cpu_address(0x2006, 0x21);
    assert!(ppu.w);
    assert_eq!(ppu.v, 0);
    ppu.write_register_cpu_address(0x2006, 0x08);
    assert!(!ppu.w);
    assert_eq!(ppu.v, 0x2108);
    assert_eq!(ppu.t, 0x2108);
}

#[test]
fn control_register_write_selects_the_nametable_in_t() {
    let mut ppu = Ppu::new();
    ppu.write_register_cpu_address(0x2000, 0x03);
    assert_eq!(ppu.t, 0x0C00);
    assert_eq!(ppu.ppuctrl.bits, 0x03);
}

#[test]
fn write_only_registers_read_as_zero() {
    let mut ppu = Ppu::new();
    ppu.write_register_cpu_address(0x2001, 0xFF);
    assert_eq!(ppu.read_register_cpu_address(0x2000), 0);
    assert_eq!(ppu.read_register_cpu_address(0x2001), 0);
    assert_eq!(ppu.read_register_cpu_address(0x2003), 0);
    assert_eq!(ppu.read_register_cpu_address(0x2005), 0);
    assert_eq!(ppu.read_register_cpu_address(0x2006), 0);
}

#[test]
fn dma_port_reads_zero() {
    let mut bus = DataBus::new();
    assert_eq!(bus.read(0x4014), 0);
    assert_eq!(bus.read(0x4000), 0);
}
