use nes_core::console::NesConsole;
use nes_core::palette::get_rgb_color;
use nes_core::palette::get_rgb_color_split;
use nes_core::rom::RomFile;

/// A one-bank NROM image whose PRG is all NOPs and whose reset vector
/// points at $8000.
fn nop_cartridge() -> Vec<u8> {
    let mut data = vec![0x4E, 0x45, 0x53, 0x1A, 1, 1, 0, 0, 0, 0, 0, 0, 0, 0, 0, 0];
    let mut prg = vec![0xEAu8; 0x4000];
    prg[0x3FFC] = 0x00;
    prg[0x3FFD] = 0x80;
    prg[0x3FFA] = 0x00;
    prg[0x3FFB] = 0x00;
    data.extend(prg);
    data.extend(std::iter::repeat(0u8).take(0x2000));
    data
}

fn booted_console() -> NesConsole {
    let rom = RomFile::new(&nop_cartridge()).unwrap();
    let mut nes = NesConsole::new();
    nes.bus.connect_cartridge(&rom).unwrap();
    nes.reset();
    nes
}

#[test]
fn reset_loads_the_vector_and_drops_the_stack_pointer() {
    let mut nes = booted_console();
    assert_eq!(nes.cpu.pc, 0x8000);
    assert_eq!(nes.cpu.sp, 0xFA);
    assert_eq!(nes.cpu.sr & 0x04, 0x04);
    nes.reset();
    assert_eq!(nes.cpu.sp, 0xF7);
}

#[test]
fn every_step_charges_at_least_two_cycles() {
    let mut nes = booted_console();
    let mut last = nes.cpu.ticks;
    for _ in 0..2000 {
        nes.tick();
        assert!(nes.cpu.ticks >= last + 2);
        last = nes.cpu.ticks;
    }
}

#[test]
fn nop_takes_exactly_two_cycles_and_one_step() {
    let mut nes = booted_console();
    let before = nes.cpu.ticks;
    nes.tick();
    assert_eq!(nes.cpu.ticks - before, 2);
    assert_eq!(nes.cpu.pc, 0x8001);
}

#[test]
fn render_full_frame_fires_exactly_one_vblank() {
    let mut nes = booted_console();
    assert_eq!(nes.bus.ppu.frame_count, 0);
    nes.render_full_frame();
    assert_eq!(nes.bus.ppu.frame_count, 1);
    nes.render_full_frame();
    assert_eq!(nes.bus.ppu.frame_count, 2);
}

#[test]
fn nmi_is_delivered_at_the_next_instruction_boundary() {
    let mut nes = booted_console();
    // Enable the v-blank NMI and run one frame; the CPU must have taken
    // the (zero-filled) NMI vector.
    nes.bus.write(0x2000, 0x80);
    nes.render_full_frame();
    let sp = nes.cpu.sp;
    nes.tick();
    assert_eq!(nes.cpu.pc, 0x0000);
    assert_eq!(nes.cpu.sp, sp.wrapping_sub(3));
    assert_eq!(nes.cpu.sr & 0x04, 0x04);
}

#[test]
fn frame_output_converts_palette_indices() {
    let mut nes = booted_console();
    nes.bus.ppu.output[0] = 0x01;
    nes.bus.ppu.output[1] = 0x3C;

    let mut rgba = vec![0u8; 256 * 240 * 4];
    nes.get_output_rgba_u8(&mut rgba);
    assert_eq!(&rgba[0..4], &[0x00, 0x00, 0xFC, 0xFF]);
    assert_eq!(&rgba[4..8], &[0x00, 0xFC, 0xFC, 0xFF]);

    let mut rgb = vec![0u8; 256 * 240 * 3];
    nes.get_output_rgb_u8(&mut rgb);
    assert_eq!(&rgb[0..3], &[0x00, 0x00, 0xFC]);

    let mut packed = vec![0u32; 256 * 240];
    nes.get_output_rgba_u32(&mut packed);
    assert_eq!(packed[0], 0xFF0000FC);
    assert_eq!(packed[1], 0xFF00FCFC);
}

#[test]
fn palette_table_matches_the_canonical_values() {
    assert_eq!(get_rgb_color(0x00), 0x7C7C7C);
    assert_eq!(get_rgb_color(0x0D), 0x000000);
    assert_eq!(get_rgb_color(0x21), 0x3CBCFC);
    assert_eq!(get_rgb_color(0x3D), 0xF8D8F8);
    for idx in 0x40..=0xFFu8 {
        assert_eq!(get_rgb_color(idx), 0x000000);
    }
    assert_eq!(get_rgb_color_split(0x16), (0xF8, 0x38, 0x00));
}

#[test]
fn cpu_reads_program_bytes_through_the_cartridge() {
    let mut image = nop_cartridge();
    // Place LDA #$42 at the reset target.
    image[16] = 0xA9;
    image[17] = 0x42;
    let rom = RomFile::new(&image).unwrap();
    let mut nes = NesConsole::new();
    nes.bus.connect_cartridge(&rom).unwrap();
    nes.reset();
    nes.tick();
    assert_eq!(nes.cpu.ac, 0x42);
    assert_eq!(nes.cpu.pc, 0x8002);
}

#[test]
fn ppu_advances_three_dots_per_cpu_cycle() {
    let mut nes = booted_console();
    let dot0 = nes.bus.ppu.dot;
    nes.tick();
    // One NOP: two cycles, six dots from the pre-render line's start.
    assert_eq!(nes.bus.ppu.dot, dot0 + 6);
}
