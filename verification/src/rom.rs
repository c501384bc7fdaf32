//! Cartridge images: the 16-byte iNES header and the PRG/CHR payload.

use vstd::prelude::*;

verus! {

/// Why a cartridge image was rejected.
#[derive(Clone, Copy, Debug, PartialEq, Eq, Structural)]
pub enum LoadError {
    /// The four magic bytes do not spell the iNES signature.
    InvalidMagic,
    /// The image is shorter than the header says it should be.
    Truncated,
    /// The mapper id is not one this core implements, or the bank counts
    /// do not fit that mapper.
    UnsupportedMapper,
}

/// The parsed 16-byte iNES header.
#[derive(Clone, Copy, Debug)]
pub struct RomHeader {
    /// The four magic bytes, expected to spell "NES" followed by 0x1A.
    pub nes: [u8; 4],
    /// PRG-ROM size in 16 KiB units.
    pub prg_rom_size: u8,
    /// CHR-ROM size in 8 KiB units; 0 means the cartridge has CHR RAM.
    pub chr_rom_size: u8,
    pub flags6: u8,
    pub flags7: u8,
    pub prg_ram_size: u8,
    pub flags9: u8,
    pub flags10: u8,
}

impl RomHeader {
    /// Parse the first 16 bytes of a cartridge image.
    pub fn new(data: &Vec<u8>) -> (r: RomHeader)
        requires
            data@.len() >= 16,
        ensures
            r.nes@ == data@.subrange(0, 4),
            r.prg_rom_size == data@[4],
            r.chr_rom_size == data@[5],
            r.flags6 == data@[6],
            r.flags7 == data@[7],
            r.prg_ram_size == data@[8],
            r.flags9 == data@[9],
            r.flags10 == data@[10],
    {
        let nes: [u8; 4] = [data[0], data[1], data[2], data[3]];
        proof {
            assert(nes@ =~= data@.subrange(0, 4));
        }
        RomHeader {
            nes,
            prg_rom_size: data[4],
            chr_rom_size: data[5],
            flags6: data[6],
            flags7: data[7],
            prg_ram_size: data[8],
            flags9: data[9],
            flags10: data[10],
        }
    }

    pub open spec fn mapper_id_spec(self) -> u8 {
        (self.flags6 >> 4) | (self.flags7 & 0xF0)
    }

    /// The mapper id: low nibble from flag byte 6, high nibble from flag byte 7.
    pub fn get_mapper_id(&self) -> (r: u8)
        ensures
            r == self.mapper_id_spec(),
    {
        (self.flags6 >> 4) | (self.flags7 & 0xF0)
    }

    pub open spec fn is_valid_spec(self) -> bool {
        self.nes@ == seq![0x4Eu8, 0x45u8, 0x53u8, 0x1Au8]
    }

    /// True when the magic bytes spell the iNES signature.
    pub fn is_valid(&self) -> (r: bool)
        ensures
            r == self.is_valid_spec(),
    {
        let ok = self.nes[0] == 0x4E && self.nes[1] == 0x45 && self.nes[2] == 0x53 && self.nes[3]
            == 0x1A;
        proof {
            if ok {
                assert(self.nes@ =~= seq![0x4Eu8, 0x45u8, 0x53u8, 0x1Au8]);
            }
        }
        ok
    }
}

/// A parsed cartridge image: header plus the PRG and CHR byte blocks.
pub struct RomFile {
    pub header: RomHeader,
    pub pgr_data: Vec<u8>,
    pub chr_data: Vec<u8>,
}

impl RomFile {
    /// The block sizes match what the header promises.
    pub open spec fn wf(self) -> bool {
        &&& self.pgr_data@.len() == self.header.prg_rom_size as int * 0x4000
        &&& self.chr_data@.len() == self.header.chr_rom_size as int * 0x2000
    }

    /// Parse a whole cartridge image. Fails on a bad signature or an image
    /// shorter than the header's bank counts require; no partial state
    /// survives a failure.
    pub fn new(data: &Vec<u8>) -> (r: Result<RomFile, LoadError>)
        ensures
            match r {
                Ok(rom) => {
                    &&& data@.len() >= 16
                    &&& rom.wf()
                    &&& rom.header.is_valid_spec()
                    &&& rom.header.prg_rom_size == data@[4]
                    &&& rom.header.chr_rom_size == data@[5]
                    &&& rom.header.flags6 == data@[6]
                    &&& rom.header.flags7 == data@[7]
                    &&& rom.pgr_data@ == data@.subrange(16, 16 + data@[4] as int * 0x4000)
                    &&& rom.chr_data@ == data@.subrange(
                        16 + data@[4] as int * 0x4000,
                        16 + data@[4] as int * 0x4000 + data@[5] as int * 0x2000,
                    )
                },
                Err(LoadError::Truncated) => data@.len() < 16 || (data@[4] as int * 0x4000
                    + data@[5] as int * 0x2000 + 16 > data@.len()
                    && seq![data@[0], data@[1], data@[2], data@[3]] == seq![
                    0x4Eu8,
                    0x45u8,
                    0x53u8,
                    0x1Au8,
                ]),
                Err(LoadError::InvalidMagic) => data@.len() >= 16 && seq![
                    data@[0],
                    data@[1],
                    data@[2],
                    data@[3],
                ] != seq![0x4Eu8, 0x45u8, 0x53u8, 0x1Au8],
                Err(LoadError::UnsupportedMapper) => false,
            },
    {
        if data.len() < 16 {
            return Err(LoadError::Truncated);
        }
        let header = RomHeader::new(data);
        proof {
            assert(header.nes@ =~= seq![data@[0], data@[1], data@[2], data@[3]]);
        }
        if !header.is_valid() {
            return Err(LoadError::InvalidMagic);
        }
        let prg_len: usize = header.prg_rom_size as usize * 0x4000;
        let chr_len: usize = header.chr_rom_size as usize * 0x2000;
        if data.len() < 16 || data.len() - 16 < prg_len || data.len() - 16 - prg_len < chr_len {
            return Err(LoadError::Truncated);
        }
        let pgr_data = copy_range(data, 16, prg_len);
        let chr_data = copy_range(data, 16 + prg_len, chr_len);
        Ok(RomFile { header, pgr_data, chr_data })
    }

    /// Build the mapper the header names. Only NROM (mapper id 0) is
    /// implemented; every other id fails, as do bank counts NROM cannot
    /// carry.
    pub fn get_mapper(&self) -> (r: Result<crate::mapper::Mapper0, LoadError>)
        requires
            self.wf(),
        ensures
            match r {
                Ok(m) => {
                    &&& self.header.mapper_id_spec() == 0
                    &&& m.wf()
                    &&& m.header == self.header
                    &&& m.pgr_data@ == self.pgr_data@
                },
                Err(e) => {
                    &&& e == LoadError::UnsupportedMapper
                    &&& (self.header.mapper_id_spec() != 0 || self.header.chr_rom_size > 1 || (
                    self.header.prg_rom_size != 1 && self.header.prg_rom_size != 2))
                },
            },
    {
        if self.header.get_mapper_id() != 0 {
            return Err(LoadError::UnsupportedMapper);
        }
        crate::mapper::Mapper0::new(self)
    }
}

/// A fresh copy of `len` bytes of `src` starting at `start`.
fn copy_range(src: &Vec<u8>, start: usize, len: usize) -> (r: Vec<u8>)
    requires
        start + len <= src@.len(),
    ensures
        r@ == src@.subrange(start as int, start as int + len as int),
{
    proof {
        vstd::std_specs::vec::axiom_spec_len(src);
    }
    let mut out: Vec<u8> = Vec::new();
    let mut i: usize = 0;
    while i < len
        invariant
            start + len <= src@.len(),
            src@.len() <= usize::MAX,
            i <= len,
            out@ == src@.subrange(start as int, start as int + i as int),
        decreases len - i,
    {
        out.push(src[start + i]);
        proof {
            assert(out@ =~= src@.subrange(start as int, start as int + i as int + 1));
        }
        i += 1;
    }
    out
}

} // verus!
