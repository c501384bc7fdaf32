use nes_core::ppu::Ppu;

#[test]
fn palette_backdrop_aliases_on_reads() {
    let mut ppu = Ppu::new();
    // Address $3F00 through the data port: two $2006 writes, then data.
    ppu.write_register_cpu_address(0x2006, 0x3F);
    ppu.write_register_cpu_address(0x2006, 0x00);
    ppu.write_register_cpu_address(0x2007, 0x21);
    assert_eq!(ppu.read_vram(0x3F00), 0x21);
    assert_eq!(ppu.read_vram(0x3F10), 0x21);
    // Writing through the mirror lands on the same backdrop slot.
    ppu.write_register_cpu_address(0x2006, 0x3F);
    ppu.write_register_cpu_address(0x2006, 0x10);
    ppu.write_register_cpu_address(0x2007, 0x2C);
    assert_eq!(ppu.read_vram(0x3F00), 0x2C);
    assert_eq!(ppu.palette_vram[0], 0x2C);
}

#[test]
fn data_port_roundtrip_with_increment_one() {
    let mut ppu = Ppu::new();
    // Increment flag 1: control bit 2 clear.
    ppu.write_register_cpu_address(0x2000, 0x00);
    ppu.write_register_cpu_address(0x2006, 0x21);
    ppu.write_register_cpu_address(0x2006, 0x00);
    ppu.write_register_cpu_address(0x2007, 0x55);
    ppu.write_register_cpu_address(0x2007, 0xAA);
    // Read back from the start; the first read returns the stale buffer.
    ppu.write_register_cpu_address(0x2006, 0x21);
    ppu.write_register_cpu_address(0x2006, 0x00);
    let _stale = ppu.read_register_cpu_address(0x2007);
    assert_eq!(ppu.read_register_cpu_address(0x2007), 0x55);
    assert_eq!(ppu.read_register_cpu_address(0x2007), 0xAA);
}

#[test]
fn data_port_steps_by_thirty_two_when_selected() {
    let mut ppu = Ppu::new();
    ppu.write_register_cpu_address(0x2000, 0x04);
    ppu.write_register_cpu_address(0x2006, 0x20);
    ppu.write_register_cpu_address(0x2006, 0x00);
    ppu.write_register_cpu_address(0x2007, 0x11);
    ppu.write_register_cpu_address(0x2007, 0x22);
    assert_eq!(ppu.read_vram(0x2000), 0x11);
    assert_eq!(ppu.read_vram(0x2020), 0x22);
}

#[test]
fn status_read_clears_vblank_and_write_toggle() {
    let mut ppu = Ppu::new();
    ppu.ppustatus = 0xE0;
    ppu.write_register_cpu_address(0x2005, 0x10);
    assert!(ppu.w);
    let status = ppu.read_register_cpu_address(0x2002);
    assert_eq!(status, 0xE0);
    assert_eq!(ppu.ppustatus, 0x60);
    assert!(!ppu.w);
}

#[test]
fn oam_port_stores_and_steps_the_address() {
    let mut ppu = Ppu::new();
    ppu.write_register_cpu_address(0x2003, 0xFE);
    ppu.write_register_cpu_address(0x2004, 0x12);
    ppu.write_register_cpu_address(0x2004, 0x34);
    ppu.write_register_cpu_address(0x2004, 0x56);
    assert_eq!(ppu.oam_memory[0xFE], 0x12);
    assert_eq!(ppu.oam_memory[0xFF], 0x34);
    assert_eq!(ppu.oam_memory[0x00], 0x56);
    ppu.write_register_cpu_address(0x2003, 0x00);
    assert_eq!(ppu.read_register_cpu_address(0x2004), 0x56);
}

#[test]
fn nametable_mirror_window_reads_back() {
    let mut ppu = Ppu::new();
    ppu.write_vram(0x2005, 0x99);
    assert_eq!(ppu.read_vram(0x3005), 0x99);
}

/// A cartridge whose header carries the given mirroring bit in flag byte 6.
fn ppu_with_mirroring(flags6: u8) -> Ppu {
    let mut image = vec![0x4E, 0x45, 0x53, 0x1A, 1, 0, flags6, 0, 0, 0, 0, 0, 0, 0, 0, 0];
    image.extend(std::iter::repeat(0u8).take(0x4000));
    let rom = nes_core::rom::RomFile::new(&image).unwrap();
    let mut ppu = Ppu::new();
    ppu.mapper = Some(rom.get_mapper().unwrap());
    ppu
}

#[test]
fn vertical_mirroring_repeats_the_tables_side_by_side() {
    let mut ppu = ppu_with_mirroring(0x01);
    ppu.write_vram(0x2005, 0x11);
    ppu.write_vram(0x2405, 0x22);
    // $2800/$2C00 mirror $2000/$2400.
    assert_eq!(ppu.read_vram(0x2805), 0x11);
    assert_eq!(ppu.read_vram(0x2C05), 0x22);
    assert_eq!(ppu.read_vram(0x2405), 0x22);
}

#[test]
fn horizontal_mirroring_stacks_the_tables() {
    let mut ppu = ppu_with_mirroring(0x00);
    ppu.write_vram(0x2005, 0x33);
    ppu.write_vram(0x2805, 0x44);
    // $2400 mirrors $2000; $2C00 mirrors $2800.
    assert_eq!(ppu.read_vram(0x2405), 0x33);
    assert_eq!(ppu.read_vram(0x2C05), 0x44);
    assert_eq!(ppu.read_vram(0x2805), 0x44);
}

#[test]
fn dot_and_scanline_stay_in_range() {
    let mut ppu = Ppu::new();
    ppu.ppumask = 0x18;
    for _ in 0..100_000 {
        ppu.tick();
        assert!(ppu.dot <= 340);
        assert!(ppu.scanline <= 261);
    }
}

#[test]
fn one_vblank_fires_per_frame_of_dots() {
    let mut ppu = Ppu::new();
    assert_eq!(ppu.frame_count, 0);
    for _ in 0..89342 {
        ppu.tick();
    }
    assert_eq!(ppu.frame_count, 1);
    for _ in 0..89342 {
        ppu.tick();
    }
    assert_eq!(ppu.frame_count, 2);
}

#[test]
fn vblank_raises_nmi_only_when_enabled() {
    let mut ppu = Ppu::new();
    for _ in 0..89342 {
        ppu.tick();
    }
    assert!(!ppu.nmi_line);
    ppu.write_register_cpu_address(0x2000, 0x80);
    for _ in 0..89342 {
        ppu.tick();
    }
    assert!(ppu.nmi_line);
}

/// A PPU mid-scanline with sprite zero active at the current dot and a
/// non-transparent background pixel under it.
fn sprite_zero_setup(dot: u16) -> Ppu {
    let mut ppu = Ppu::new();
    ppu.ppumask = 0x1E;
    ppu.scanline = 10;
    ppu.dot = dot;
    ppu.sprite_x_pos[0] = 1;
    ppu.sprite_pattern_lo[0] = 0xFF;
    ppu.sprite_at[0] = 0;
    ppu.palette_vram[0x11] = 0x01;
    let x = (dot - 1) as usize;
    ppu.output[10 * 256 + x] = 0x01;
    ppu
}

#[test]
fn sprite_zero_hit_fires_before_the_last_column() {
    let mut ppu = sprite_zero_setup(255);
    ppu.render_sprites();
    assert_eq!(ppu.ppustatus & 0x40, 0x40);
}

#[test]
fn sprite_zero_hit_never_fires_at_x_255() {
    let mut ppu = sprite_zero_setup(256);
    ppu.render_sprites();
    assert_eq!(ppu.ppustatus & 0x40, 0);
}

#[test]
fn disabled_rendering_paints_the_backdrop() {
    let mut ppu = Ppu::new();
    ppu.palette_vram[0] = 0x2C;
    for _ in 0..89342 {
        ppu.tick();
    }
    assert_eq!(ppu.output[120 * 256 + 128], 0x2C);
    assert_eq!(ppu.output[0], 0x2C);
}

#[test]
fn uniform_background_renders_through_the_pipeline() {
    // CHR RAM cartridge; tile 1 is solid color 1 (low plane set).
    let mut image = vec![0x4E, 0x45, 0x53, 0x1A, 1, 0, 0, 0, 0, 0, 0, 0, 0, 0, 0, 0];
    image.extend(std::iter::repeat(0u8).take(0x4000));
    let rom = nes_core::rom::RomFile::new(&image).unwrap();
    let mut mapper = rom.get_mapper().unwrap();
    for row in 0..8 {
        mapper.write_chr(16 + row, 0xFF);
    }
    let mut ppu = Ppu::new();
    ppu.mapper = Some(mapper);
    // Every nametable entry shows tile 1; attributes select palette 0.
    for a in 0x2000..0x23C0u16 {
        ppu.write_vram(a, 0x01);
    }
    ppu.palette_vram[0] = 0x0F;
    ppu.palette_vram[1] = 0x21;
    ppu.ppumask = 0x08;
    // Two frames: the first lets the fetch pipeline settle.
    for _ in 0..2 * 89342 {
        ppu.tick();
    }
    assert_eq!(ppu.output[120 * 256 + 128], 0x21);
    assert_eq!(ppu.output[50 * 256 + 64], 0x21);
}

#[test]
fn sprite_evaluation_latches_patterns_and_honours_flips() {
    // A cartridge with CHR RAM so the pattern table is writable.
    let mut image = vec![0x4E, 0x45, 0x53, 0x1A, 1, 0, 0, 0, 0, 0, 0, 0, 0, 0, 0, 0];
    image.extend(std::iter::repeat(0u8).take(0x4000));
    let rom = nes_core::rom::RomFile::new(&image).unwrap();
    let mut mapper = rom.get_mapper().unwrap();
    mapper.write_chr(2 * 16 + 4, 0b1010_0000);
    mapper.write_chr(2 * 16 + 3, 0b1100_0000);

    let mut ppu = Ppu::new();
    ppu.mapper = Some(mapper);
    ppu.scanline = 9;
    ppu.dot = 256;
    // Sprite 0: top at 5 (row 4 of tile 2), mirrored horizontally.
    ppu.oam_memory[0] = 5;
    ppu.oam_memory[1] = 2;
    ppu.oam_memory[2] = 0x40;
    ppu.oam_memory[3] = 20;
    // Sprite 1: same tile, flipped vertically (row 7 - 4 = 3).
    ppu.oam_memory[4] = 5;
    ppu.oam_memory[5] = 2;
    ppu.oam_memory[6] = 0x80;
    ppu.oam_memory[7] = 21;
    // Sprite 2: off this scanline.
    ppu.oam_memory[8] = 100;
    ppu.sprite_evaluation();
    assert_eq!(ppu.sprite_at[0], 0x40);
    assert_eq!(ppu.sprite_x_pos[0], 20);
    assert_eq!(ppu.sprite_pattern_lo[0], 0b0000_0101);
    assert_eq!(ppu.sprite_at[1], 0x80);
    assert_eq!(ppu.sprite_x_pos[1], 21);
    assert_eq!(ppu.sprite_pattern_lo[1], 0b1100_0000);
    assert_eq!(ppu.sprite_x_pos[2], 0);
}

#[test]
fn a_ninth_in_range_sprite_sets_the_overflow_flag() {
    let mut ppu = Ppu::new();
    ppu.scanline = 9;
    ppu.dot = 256;
    for s in 0..9 {
        ppu.oam_memory[s * 4] = 5;
    }
    ppu.sprite_evaluation();
    assert_eq!(ppu.ppustatus & 0x20, 0x20);
}

#[test]
fn eight_in_range_sprites_leave_the_overflow_flag_clear() {
    let mut ppu = Ppu::new();
    ppu.scanline = 9;
    ppu.dot = 256;
    for s in 0..8 {
        ppu.oam_memory[s * 4] = 5;
    }
    // The remaining records sit far below the scanline.
    for s in 8..64 {
        ppu.oam_memory[s * 4] = 200;
    }
    ppu.sprite_evaluation();
    assert_eq!(ppu.ppustatus & 0x20, 0);
}

#[test]
fn scroll_coarse_x_wraps_into_the_next_nametable() {
    let mut ppu = Ppu::new();
    ppu.v = 0x001F;
    ppu.inc_horizontal();
    assert_eq!(ppu.v, 0x0400);
    ppu.inc_horizontal();
    assert_eq!(ppu.v, 0x0401);
}

#[test]
fn scroll_coarse_y_rolls_over_at_29() {
    let mut ppu = Ppu::new();
    // Fine Y at 7, coarse Y at 29: the step flips the vertical nametable.
    ppu.v = 0x7000 | (29 << 5);
    ppu.inc_vertical();
    assert_eq!(ppu.v, 0x0800);
    // Coarse Y at 31 rolls to 0 without the flip.
    ppu.v = 0x7000 | (31 << 5);
    ppu.inc_vertical();
    assert_eq!(ppu.v, 0x0000);
    // Fine Y below 7 just counts.
    ppu.v = 0x1000;
    ppu.inc_vertical();
    assert_eq!(ppu.v, 0x2000);
}
