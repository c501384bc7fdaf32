use nes_core::rom::LoadError;
use nes_core::rom::RomFile;
use nes_core::rom::RomHeader;

/// A minimal one-bank NROM image: header, 16 KiB of PRG filled with
/// `prg_fill`, 8 KiB of CHR counting upwards.
fn sample_image(prg_fill: u8) -> Vec<u8> {
    let mut data = vec![0x4E, 0x45, 0x53, 0x1A, 1, 1, 0, 0, 0, 0, 0, 0, 0, 0, 0, 0];
    data.extend(std::iter::repeat(prg_fill).take(0x4000));
    for i in 0..0x2000usize {
        data.push((i % 256) as u8);
    }
    data
}

#[test]
fn header_fields_parse() {
    let data = sample_image(0xEA);
    let header = RomHeader::new(&data);
    assert!(header.is_valid());
    assert_eq!(header.prg_rom_size, 1);
    assert_eq!(header.chr_rom_size, 1);
    assert_eq!(header.get_mapper_id(), 0);
}

#[test]
fn bad_magic_is_rejected() {
    let mut data = sample_image(0xEA);
    data[0] = 0x4D;
    assert!(matches!(RomFile::new(&data), Err(LoadError::InvalidMagic)));
}

#[test]
fn short_image_is_rejected() {
    let data = vec![0x4E, 0x45, 0x53];
    assert!(matches!(RomFile::new(&data), Err(LoadError::Truncated)));
    let mut truncated = sample_image(0xEA);
    truncated.truncate(0x2000);
    assert!(matches!(RomFile::new(&truncated), Err(LoadError::Truncated)));
}

#[test]
fn unsupported_mapper_is_rejected() {
    let mut data = sample_image(0xEA);
    data[6] = 0x10;
    let rom = RomFile::new(&data).unwrap();
    assert!(matches!(rom.get_mapper(), Err(LoadError::UnsupportedMapper)));
}

#[test]
fn prg_blocks_split_correctly() {
    let rom = RomFile::new(&sample_image(0xA9)).unwrap();
    assert_eq!(rom.pgr_data.len(), 0x4000);
    assert_eq!(rom.chr_data.len(), 0x2000);
    assert_eq!(rom.pgr_data[0], 0xA9);
    assert_eq!(rom.chr_data[5], 5);
}

#[test]
fn single_bank_prg_mirrors_upper_window() {
    let rom = RomFile::new(&sample_image(0x60)).unwrap();
    let mapper = rom.get_mapper().unwrap();
    assert_eq!(mapper.rel_address(0x8000), 0x0000);
    assert_eq!(mapper.rel_address(0xC123), 0x0123);
    assert_eq!(mapper.read_prg(0x8000), 0x60);
    assert_eq!(mapper.read_prg(0xC000), 0x60);
    // Below the PRG window the cartridge answers zero.
    assert_eq!(mapper.read_prg(0x6000), 0);
}

#[test]
fn chr_rom_ignores_writes() {
    let rom = RomFile::new(&sample_image(0xEA)).unwrap();
    let mut mapper = rom.get_mapper().unwrap();
    let before = mapper.read_chr(0x0123);
    mapper.write_chr(0x0123, before.wrapping_add(1));
    assert_eq!(mapper.read_chr(0x0123), before);
}

#[test]
fn chr_ram_accepts_writes() {
    let mut data = sample_image(0xEA);
    data[5] = 0;
    data.truncate(16 + 0x4000);
    let rom = RomFile::new(&data).unwrap();
    let mut mapper = rom.get_mapper().unwrap();
    assert_eq!(mapper.read_chr(0x1FFF), 0);
    mapper.write_chr(0x1FFF, 0x77);
    assert_eq!(mapper.read_chr(0x1FFF), 0x77);
}
