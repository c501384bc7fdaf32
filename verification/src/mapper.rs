//! The NROM cartridge mapper: fixed PRG banks and one CHR bank (ROM or RAM).

use vstd::prelude::*;
use crate::rom::LoadError;
use crate::rom::RomFile;
use crate::rom::RomHeader;

verus! {

/// NROM, mapper id 0: one or two 16 KiB PRG banks and either one 8 KiB CHR
/// ROM bank or 8 KiB of CHR RAM.
pub struct Mapper0 {
    pub header: RomHeader,
    pub pgr_data: Vec<u8>,
    pub chr_data: Vec<u8>,
}

impl Mapper0 {
    /// NROM bank-count invariant: 1 or 2 PRG banks, one 8 KiB CHR block
    /// (RAM when the header says the cartridge brings no CHR ROM).
    pub open spec fn wf(self) -> bool {
        &&& (self.header.prg_rom_size == 1 || self.header.prg_rom_size == 2)
        &&& self.pgr_data@.len() == self.header.prg_rom_size as int * 0x4000
        &&& self.chr_data@.len() == 0x2000
    }

    /// True when CHR is RAM and writes through the CHR channel land.
    pub open spec fn chr_writable(self) -> bool {
        self.header.chr_rom_size == 0
    }

    /// Build the mapper from a parsed image. Fails when the bank counts do
    /// not fit NROM.
    pub fn new(rom: &RomFile) -> (r: Result<Mapper0, LoadError>)
        requires
            rom.wf(),
        ensures
            match r {
                Ok(m) => {
                    &&& m.wf()
                    &&& m.header == rom.header
                    &&& m.pgr_data@ == rom.pgr_data@
                    &&& m.chr_data@ == if rom.header.chr_rom_size == 0 {
                        Seq::new(0x2000, |i: int| 0u8)
                    } else {
                        rom.chr_data@
                    }
                    &&& (rom.header.prg_rom_size == 1 || rom.header.prg_rom_size == 2)
                    &&& rom.header.chr_rom_size <= 1
                },
                Err(e) => {
                    &&& e == LoadError::UnsupportedMapper
                    &&& (rom.header.chr_rom_size > 1 || (rom.header.prg_rom_size != 1
                        && rom.header.prg_rom_size != 2))
                },
            },
    {
        if rom.header.chr_rom_size > 1 {
            return Err(LoadError::UnsupportedMapper);
        }
        if rom.header.prg_rom_size != 1 && rom.header.prg_rom_size != 2 {
            return Err(LoadError::UnsupportedMapper);
        }
        let chr_data = if rom.header.chr_rom_size == 0 {
            zero_vec(0x2000)
        } else {
            clone_bytes(&rom.chr_data)
        };
        Ok(Mapper0 { header: rom.header, pgr_data: clone_bytes(&rom.pgr_data), chr_data })
    }

    /// The offset into the PRG block for a CPU-space address; with a single
    /// bank the upper 16 KiB window mirrors the lower.
    pub open spec fn rel_address_spec(self, address: u16) -> u16 {
        if self.header.prg_rom_size == 1 {
            ((address - 0x8000) % 0x4000) as u16
        } else {
            (address - 0x8000) as u16
        }
    }

    pub fn rel_address(&self, address: u16) -> (r: u16)
        requires
            address >= 0x8000,
        ensures
            r == self.rel_address_spec(address),
    {
        match self.header.prg_rom_size {
            1 => (address - 0x8000) % 0x4000,
            _ => address - 0x8000,
        }
    }

    /// What a PRG-channel read returns: 0 below the PRG window, a PRG byte
    /// (mirrored for a single bank) at $8000 and above.
    pub open spec fn prg_peek_spec(self, addr: u16) -> u8 {
        if addr < 0x8000 {
            0
        } else {
            self.pgr_data@[self.rel_address_spec(addr) as int]
        }
    }

    /// Read a byte through the cartridge's CPU-side channel.
    pub fn read_prg(&self, addr: u16) -> (r: u8)
        requires
            self.wf(),
            addr >= 0x4020,
        ensures
            r == self.prg_peek_spec(addr),
    {
        if addr < 0x8000 {
            0
        } else {
            self.pgr_data[self.rel_address(addr) as usize]
        }
    }

    /// PRG is read-only on NROM: writes are silently discarded.
    pub fn write_prg(&mut self, addr: u16, value: u8)
        ensures
            *final(self) == *old(self),
    {
    }

    /// Read a byte through the cartridge's PPU-side (pattern table) channel.
    pub fn read_chr(&self, addr: u16) -> (r: u8)
        requires
            self.wf(),
            addr < 0x2000,
        ensures
            r == self.chr_data@[addr as int],
    {
        self.chr_data[addr as usize]
    }

    /// Write a byte through the CHR channel; lands only when CHR is RAM.
    pub fn write_chr(&mut self, addr: u16, value: u8)
        requires
            old(self).wf(),
            addr < 0x2000,
        ensures
            final(self).wf(),
            final(self).header == old(self).header,
            final(self).pgr_data@ == old(self).pgr_data@,
            final(self).chr_data@ == if old(self).chr_writable() {
                old(self).chr_data@.update(addr as int, value)
            } else {
                old(self).chr_data@
            },
    {
        if self.header.chr_rom_size != 0 {
            return ;
        }
        self.chr_data[addr as usize] = value;
    }
}

/// A vector of `len` zero bytes.
fn zero_vec(len: usize) -> (r: Vec<u8>)
    ensures
        r@ == Seq::new(len as nat, |i: int| 0u8),
{
    let mut out: Vec<u8> = Vec::new();
    let mut i: usize = 0;
    while i < len
        invariant
            i <= len,
            out@ == Seq::new(i as nat, |j: int| 0u8),
        decreases len - i,
    {
        out.push(0);
        proof {
            assert(out@ =~= Seq::new(i as nat + 1, |j: int| 0u8));
        }
        i += 1;
    }
    out
}

/// A fresh copy of a byte vector.
fn clone_bytes(src: &Vec<u8>) -> (r: Vec<u8>)
    ensures
        r@ == src@,
{
    proof {
        vstd::std_specs::vec::axiom_spec_len(src);
    }
    let mut out: Vec<u8> = Vec::new();
    let mut i: usize = 0;
    while i < src.len()
        invariant
            i <= src@.len(),
            src@.len() <= usize::MAX,
            out@ == src@.subrange(0, i as int),
        decreases src@.len() - i,
    {
        out.push(src[i]);
        proof {
            assert(out@ =~= src@.subrange(0, i as int + 1));
        }
        i += 1;
    }
    proof {
        assert(out@ =~= src@);
    }
    out
}

} // verus!
