//! The memory bus: 2 KiB of mirrored RAM, the PPU register window, the
//! controller ports, the OAM DMA port, and the cartridge space.

use vstd::prelude::*;
use crate::bits::sat_add64;
use crate::bits::sat_add64_spec;
use crate::input::InputType;
use crate::input::input_post;
use crate::input::output_post;
use crate::input::output_result;
use crate::mapper::Mapper0;
use crate::ppu::Ppu;
use crate::ppu::ppu_wf;
use crate::ppu::reg_read_post;
use crate::ppu::reg_read_result;
use crate::ppu::reg_write_post;
use crate::rom::LoadError;
use crate::rom::RomFile;

verus! {

/// Fold `n` into the window starting at `start` that repeats every
/// `repeat` addresses.
pub fn repeat_every(n: u16, start: u16, repeat: u16) -> (r: u16)
    requires
        start <= n,
        repeat > 0,
        start + repeat <= 0x10000,
    ensures
        r == ((n - start) as int % repeat as int) + start,
{
    ((n - start) % repeat) + start
}

/// The unified CPU-side address space.
pub struct DataBus {
    /// 2 KiB of internal RAM, mirrored four times across $0000-$1FFF.
    pub ram: Vec<u8>,
    /// The picture processing unit, reached through $2000-$3FFF; it also
    /// holds the cartridge mapper, shared with the PPU's own bus.
    pub ppu: Ppu,
    pub controller0: Option<InputType>,
    pub controller1: Option<InputType>,
    /// CPU stall cycles an OAM DMA has charged and the CPU has not yet
    /// collected.
    pub dma_cycles: u64,
}

/// RAM mirroring: the index a CPU address below $2000 lands on.
pub open spec fn ram_index(address: u16) -> int {
    address as int % 2048
}

/// PPU register mirroring: the register a window address lands on.
pub open spec fn ppu_reg(address: u16) -> u16 {
    (0x2000 + ((address - 0x2000) as int % 8)) as u16
}

pub open spec fn bus_wf(b: DataBus) -> bool {
    &&& b.ram@.len() == 2048
    &&& ppu_wf(b.ppu)
}

/// Addresses whose reads return a value without any side effect.
pub open spec fn peekable(address: u16) -> bool {
    address < 0x2000 || (address >= 0x4000 && address != 0x4016 && address != 0x4017)
}

/// What a side-effect-free read returns: RAM through its mirror, zero for
/// the APU/IO block, the cartridge above $4020.
pub open spec fn bus_peek(b: DataBus, address: u16) -> u8 {
    if address < 0x2000 {
        b.ram@[ram_index(address)]
    } else if address < 0x4020 {
        0u8
    } else {
        match b.ppu.mapper {
            Some(m) => m.prg_peek_spec(address),
            None => 0u8,
        }
    }
}

/// A DMA page whose 256 reads are all side-effect-free.
pub open spec fn dma_page_peekable(page: u8) -> bool {
    page < 0x20 || page >= 0x41
}

/// The source index inside a DMA page that fills OAM slot `k` when the OAM
/// address starts at `a`.
pub open spec fn dma_src(a: u8, k: int) -> int {
    (k - a) % 256
}

/// No CPU-side bus operation can move the PPU's clock, frame signal or
/// NMI line: those belong to the PPU's own tick.
pub open spec fn ppu_timing_unchanged(a: Ppu, b: Ppu) -> bool {
    &&& b.dot == a.dot
    &&& b.scanline == a.scanline
    &&& b.frame_count == a.frame_count
    &&& b.nmi_line == a.nmi_line
}

/// Fields of the PPU that a bus operation other than a register access
/// never touches.
pub open spec fn ppu_core_untouched(a: Ppu, b: Ppu) -> bool {
    &&& b.vram@ == a.vram@
    &&& b.palette_vram@ == a.palette_vram@
    &&& b.mapper == a.mapper
    &&& b.output@ == a.output@
    &&& b.ppuctrl == a.ppuctrl
    &&& b.ppumask == a.ppumask
    &&& b.ppustatus == a.ppustatus
    &&& b.v == a.v
    &&& b.t == a.t
    &&& b.x == a.x
    &&& b.w == a.w
    &&& b.vram_buffer == a.vram_buffer
    &&& b.dot == a.dot
    &&& b.scanline == a.scanline
    &&& b.frame_count == a.frame_count
    &&& b.nmi_line == a.nmi_line
    &&& b.secondary_oam_memory@ == a.secondary_oam_memory@
    &&& b.sprite_pattern_lo@ == a.sprite_pattern_lo@
    &&& b.sprite_pattern_hi@ == a.sprite_pattern_hi@
    &&& b.sprite_at@ == a.sprite_at@
    &&& b.sprite_x_pos@ == a.sprite_x_pos@
    &&& b.sprite_count == a.sprite_count
    &&& b.nt_latch == a.nt_latch
    &&& b.at_latch == a.at_latch
    &&& b.pattern_latch_lo == a.pattern_latch_lo
    &&& b.pattern_latch_hi == a.pattern_latch_hi
    &&& b.lo_at_reg == a.lo_at_reg
    &&& b.hi_at_reg == a.hi_at_reg
    &&& b.lo_bitmap_reg == a.lo_bitmap_reg
    &&& b.hi_bitmap_reg == a.hi_bitmap_reg
}

/// Everything one bus read does: RAM and cartridge reads are pure, a PPU
/// window read acts on the selected register, a controller-port read
/// shifts that controller, and nothing else moves.
pub open spec fn bus_read_post(pre: DataBus, post: DataBus, address: u16, r: u8) -> bool {
    &&& post.ram@ == pre.ram@
    &&& post.dma_cycles == pre.dma_cycles
    &&& post.ppu.mapper == pre.ppu.mapper
    &&& peekable(address) ==> r == bus_peek(pre, address) && post == pre
    &&& 0x2000 <= address < 0x4000 ==> {
        &&& r == reg_read_result(pre.ppu, ppu_reg(address))
        &&& reg_read_post(pre.ppu, post.ppu, ppu_reg(address))
        &&& post.controller0 == pre.controller0
        &&& post.controller1 == pre.controller1
    }
    &&& address == 0x4016 ==> {
        &&& post.ppu == pre.ppu
        &&& post.controller1 == pre.controller1
        &&& match (pre.controller0, post.controller0) {
            (Some(c0), Some(c1)) => r == output_result(c0) && output_post(c0, c1),
            (None, None) => r == 0,
            _ => false,
        }
    }
    &&& address == 0x4017 ==> {
        &&& post.ppu == pre.ppu
        &&& post.controller0 == pre.controller0
        &&& match (pre.controller1, post.controller1) {
            (Some(c0), Some(c1)) => r == output_result(c0) && output_post(c0, c1),
            (None, None) => r == 0,
            _ => false,
        }
    }
}

/// Everything one bus write does: RAM and the PPU window take the value,
/// $4014 runs an OAM DMA and charges 513 stall cycles, $4016 strobes both
/// controllers, and the rest is discarded.
pub open spec fn bus_write_post(pre: DataBus, post: DataBus, address: u16, value: u8) -> bool {
    &&& address < 0x2000 ==> {
        &&& post.ram@ == pre.ram@.update(ram_index(address), value)
        &&& post.ppu == pre.ppu
        &&& post.controller0 == pre.controller0
        &&& post.controller1 == pre.controller1
        &&& post.dma_cycles == pre.dma_cycles
    }
    &&& 0x2000 <= address < 0x4000 ==> {
        &&& reg_write_post(pre.ppu, post.ppu, ppu_reg(address), value)
        &&& post.ram@ == pre.ram@
        &&& post.controller0 == pre.controller0
        &&& post.controller1 == pre.controller1
        &&& post.dma_cycles == pre.dma_cycles
    }
    &&& address == 0x4014 ==> {
        &&& post.ram@ == pre.ram@
        &&& post.dma_cycles == sat_add64_spec(pre.dma_cycles, 513)
        &&& post.ppu.vram@ == pre.ppu.vram@
        &&& post.ppu.palette_vram@ == pre.ppu.palette_vram@
        &&& post.ppu.mapper == pre.ppu.mapper
        &&& post.ppu.oam_memory@.len() == 256
        &&& ppu_timing_unchanged(pre.ppu, post.ppu)
        &&& dma_page_peekable(value) ==> {
            &&& ppu_core_untouched(pre.ppu, post.ppu)
            &&& post.ppu.oam_address == pre.ppu.oam_address
            &&& post.controller0 == pre.controller0
            &&& post.controller1 == pre.controller1
            &&& forall|k: int|
                0 <= k < 256 ==> post.ppu.oam_memory@[k] == bus_peek(
                    pre,
                    (value as int * 256 + dma_src(pre.ppu.oam_address, k)) as u16,
                )
        }
    }
    &&& address == 0x4016 ==> {
        &&& post.ram@ == pre.ram@
        &&& post.ppu == pre.ppu
        &&& post.dma_cycles == pre.dma_cycles
        &&& match (pre.controller0, post.controller0) {
            (Some(c0), Some(c1)) => input_post(c0, c1, value),
            (None, None) => true,
            _ => false,
        }
        &&& match (pre.controller1, post.controller1) {
            (Some(c0), Some(c1)) => input_post(c0, c1, value),
            (None, None) => true,
            _ => false,
        }
    }
    &&& (0x4000 <= address < 0x4020 && address != 0x4014 && address != 0x4016) || address
        >= 0x4020 ==> post == pre
}

/// RAM mirroring round trip: a byte written at an address below $0800
/// reads back unchanged from that address and from each of its three
/// mirrors one, two and three times $0800 above it.
pub proof fn lemma_ram_mirror_roundtrip(pre: DataBus, post: DataBus, a: u16, k: u16, v: u8)
    requires
        bus_wf(pre),
        a < 0x800,
        k < 4,
        bus_write_post(pre, post, a, v),
    ensures
        peekable((a + k * 0x800) as u16),
        bus_peek(post, (a + k * 0x800) as u16) == v,
{
    let mirror = a + k * 0x800;
    vstd::arithmetic::div_mod::lemma_mod_multiples_vanish(k as int, a as int, 2048);
    vstd::arithmetic::div_mod::lemma_small_mod(a as nat, 2048);
    assert(ram_index(mirror as u16) == a as int);
    assert(ram_index(a) == a as int);
}

impl DataBus {
    /// A bus with zeroed RAM, a power-up PPU and empty controller ports.
    pub fn new() -> (r: DataBus)
        ensures
            bus_wf(r),
            r.ram@ == Seq::new(2048, |i: int| 0u8),
            r.ppu.mapper is None,
            r.controller0 is None,
            r.controller1 is None,
            r.dma_cycles == 0,
            r.ppu.frame_count == 0,
    {
        DataBus {
            ram: crate::bits::filled_vec(2048, 0),
            ppu: Ppu::new(),
            controller0: None,
            controller1: None,
            dma_cycles: 0,
        }
    }

    /// Build the cartridge's mapper and hand it to the PPU-side bus.
    /// Fails, leaving the bus unchanged, when the mapper id is not NROM or
    /// the bank counts do not fit it.
    pub fn connect_cartridge(&mut self, rom: &RomFile) -> (r: Result<(), LoadError>)
        requires
            bus_wf(*old(self)),
            rom.wf(),
        ensures
            bus_wf(*final(self)),
            final(self).ram@ == old(self).ram@,
            final(self).controller0 == old(self).controller0,
            final(self).controller1 == old(self).controller1,
            final(self).dma_cycles == old(self).dma_cycles,
            crate::ppu::ports_untouched(old(self).ppu, final(self).ppu),
            match r {
                Ok(()) => {
                    &&& rom.header.mapper_id_spec() == 0
                    &&& final(self).ppu.mapper matches Some(m) && m.header == rom.header
                        && m.pgr_data@ == rom.pgr_data@
                },
                Err(e) => {
                    &&& e == LoadError::UnsupportedMapper
                    &&& *final(self) == *old(self)
                    &&& (rom.header.mapper_id_spec() != 0 || rom.header.chr_rom_size > 1 || (
                    rom.header.prg_rom_size != 1 && rom.header.prg_rom_size != 2))
                },
            },
    {
        if rom.header.get_mapper_id() != 0 {
            return Err(LoadError::UnsupportedMapper);
        }
        match Mapper0::new(rom) {
            Ok(m) => {
                self.ppu.mapper = Some(m);
                Ok(())
            },
            Err(e) => Err(e),
        }
    }

    /// Read one byte from the CPU address space. RAM and cartridge reads
    /// are pure; a read in the PPU window acts on the selected register; a
    /// controller-port read shifts that controller.
    pub fn read(&mut self, address: u16) -> (r: u8)
        requires
            bus_wf(*old(self)),
        ensures
            bus_wf(*final(self)),
            bus_read_post(*old(self), *final(self), address, r),
    {
        if address < 0x2000 {
            self.ram[(address as usize) % 2048]
        } else if address < 0x4000 {
            let reg = repeat_every(address, 0x2000, 8);
            self.ppu.read_register_cpu_address(reg)
        } else if address == 0x4016 {
            match &mut self.controller0 {
                Some(c) => c.output(),
                None => 0,
            }
        } else if address == 0x4017 {
            match &mut self.controller1 {
                Some(c) => c.output(),
                None => 0,
            }
        } else if address < 0x4020 {
            // The APU and IO block, including the write-only DMA port.
            0
        } else {
            match &self.ppu.mapper {
                Some(m) => m.read_prg(address),
                None => 0,
            }
        }
    }

    /// Write one byte into the CPU address space. RAM and the PPU window
    /// take the value; $4014 starts an OAM DMA that copies 256 bytes from
    /// page `value` into OAM, wrapping through the current OAM address, and
    /// charges 513 stall cycles; $4016 strobes both controllers; cartridge
    /// writes are discarded by NROM.
    pub fn write(&mut self, address: u16, value: u8)
        requires
            bus_wf(*old(self)),
        ensures
            bus_wf(*final(self)),
            bus_write_post(*old(self), *final(self), address, value),
    {
        if address < 0x2000 {
            self.ram[(address as usize) % 2048] = value;
        } else if address < 0x4000 {
            let reg = repeat_every(address, 0x2000, 8);
            self.ppu.write_register_cpu_address(reg, value);
        } else if address == 0x4014 {
            self.oam_dma(value);
        } else if address == 0x4016 {
            match &mut self.controller0 {
                Some(c) => c.input(value),
                None => (),
            }
            match &mut self.controller1 {
                Some(c) => c.input(value),
                None => (),
            }
        } else if address < 0x4020 {
            // The rest of the APU and IO block is out of scope: a no-op.
        } else {
            match &mut self.ppu.mapper {
                Some(m) => m.write_prg(address, value),
                None => (),
            }
        }
    }

    /// The OAM DMA transfer: 256 consecutive reads from page `page`, each
    /// stored into OAM at the current OAM address plus the read's index,
    /// wrapping modulo 256; the CPU is stalled for 513 cycles.
    fn oam_dma(&mut self, page: u8)
        requires
            bus_wf(*old(self)),
        ensures
            bus_wf(*final(self)),
            final(self).ram@ == old(self).ram@,
            final(self).dma_cycles == sat_add64_spec(old(self).dma_cycles, 513),
            final(self).ppu.vram@ == old(self).ppu.vram@,
            final(self).ppu.palette_vram@ == old(self).ppu.palette_vram@,
            final(self).ppu.mapper == old(self).ppu.mapper,
            final(self).ppu.oam_memory@.len() == 256,
            ppu_timing_unchanged(old(self).ppu, final(self).ppu),
            dma_page_peekable(page) ==> {
                &&& ppu_core_untouched(old(self).ppu, final(self).ppu)
                &&& final(self).ppu.oam_address == old(self).ppu.oam_address
                &&& final(self).controller0 == old(self).controller0
                &&& final(self).controller1 == old(self).controller1
                &&& forall|k: int|
                    0 <= k < 256 ==> final(self).ppu.oam_memory@[k] == bus_peek(
                        *old(self),
                        (page as int * 256 + dma_src(old(self).ppu.oam_address, k)) as u16,
                    )
            },
    {
        let oam_addr = self.ppu.oam_address;
        let mut i: usize = 0;
        while i < 256
            invariant
                bus_wf(*self),
                bus_wf(*old(self)),
                i <= 256,
                oam_addr == old(self).ppu.oam_address,
                self.ram@ == old(self).ram@,
                self.dma_cycles == old(self).dma_cycles,
                self.ppu.vram@ == old(self).ppu.vram@,
                self.ppu.palette_vram@ == old(self).ppu.palette_vram@,
                self.ppu.mapper == old(self).ppu.mapper,
                ppu_timing_unchanged(old(self).ppu, self.ppu),
                dma_page_peekable(page) ==> {
                    &&& ppu_core_untouched(old(self).ppu, self.ppu)
                    &&& self.ppu.oam_address == old(self).ppu.oam_address
                    &&& self.controller0 == old(self).controller0
                    &&& self.controller1 == old(self).controller1
                    &&& forall|k: int|
                        0 <= k < 256 && dma_src(oam_addr, k) < i ==> self.ppu.oam_memory@[k]
                            == bus_peek(
                            *old(self),
                            (page as int * 256 + dma_src(oam_addr, k)) as u16,
                        )
                    &&& forall|k: int|
                        0 <= k < 256 && dma_src(oam_addr, k) >= i ==> self.ppu.oam_memory@[k]
                            == old(self).ppu.oam_memory@[k]
                },
            decreases 256 - i,
        {
            let addr: u16 = (page as u16) * 256 + (i as u16);
            let v = self.read(addr);
            let slot: usize = (i + oam_addr as usize) % 256;
            self.ppu.oam_memory[slot] = v;
            proof {
                if dma_page_peekable(page) {
                    assert(dma_src(oam_addr, slot as int) == i as int);
                }
            }
            i += 1;
        }
        self.dma_cycles = sat_add64(self.dma_cycles, 513);
    }
}

} // verus!
