//! The console: wires the CPU, the bus and the PPU together and drives the
//! master clock, three PPU dots per CPU cycle.

use vstd::prelude::*;
use crate::bits::join_bytes;
use crate::bits::join_bytes_spec;
use crate::bits::sat_add64_spec;
use crate::bus::DataBus;
use crate::bus::bus_peek;
use crate::bus::bus_wf;
use crate::cpu::CPU6502;
use crate::palette::get_rgb_color;
use crate::palette::get_rgb_color_split;
use crate::palette::rgb_color_spec;
use crate::ppu::dot_pos;
use crate::ppu::frame_dots;
use crate::ppu::lemma_mod_step;
use crate::ppu::lemma_one_vblank_per_frame;
use crate::ppu::lemma_trigger_pos;
use crate::ppu::ppu_wf;
use crate::ppu::vblank_hits;

verus! {

/// The whole machine.
pub struct NesConsole {
    pub cpu: CPU6502,
    pub bus: DataBus,
}

/// A console is sound when its bus is, with no DMA stall left uncollected
/// between instructions.
pub open spec fn console_wf(c: NesConsole) -> bool {
    &&& bus_wf(c.bus)
    &&& c.bus.dma_cycles == 0
}

/// How many dots lie between the PPU's position and the next v-blank
/// signal.
pub open spec fn dots_to_vblank(p: crate::ppu::Ppu) -> int {
    (crate::ppu::vblank_pos() - dot_pos(p)) % frame_dots()
}

impl NesConsole {
    /// A powered-up console with no cartridge connected yet.
    pub fn new() -> (r: NesConsole)
        ensures
            console_wf(r),
            r.bus.ppu.frame_count == 0,
            r.cpu.ticks == 4,
            r.bus.ppu.mapper is None,
    {
        NesConsole { cpu: CPU6502::new(), bus: DataBus::new() }
    }

    /// The power-up reset: the stack pointer drops by three with nothing
    /// written, interrupts are disabled, and the program counter loads from
    /// the reset vector at $FFFC/$FFFD.
    pub fn reset(&mut self)
        requires
            console_wf(*old(self)),
        ensures
            console_wf(*final(self)),
            final(self).bus == old(self).bus,
            final(self).cpu.sp == old(self).cpu.sp.wrapping_sub(3),
            final(self).cpu.sr == old(self).cpu.sr | 0x04,
            final(self).cpu.pc == join_bytes_spec(
                bus_peek(old(self).bus, 0xFFFD),
                bus_peek(old(self).bus, 0xFFFC),
            ),
            final(self).cpu.ac == old(self).cpu.ac,
            final(self).cpu.xr == old(self).cpu.xr,
            final(self).cpu.yr == old(self).cpu.yr,
            final(self).cpu.ticks == old(self).cpu.ticks,
    {
        let pc_high = self.bus.read(0xFFFD);
        let pc_low = self.bus.read(0xFFFC);
        self.cpu.sp = self.cpu.sp.wrapping_sub(3);
        self.cpu.sr = self.cpu.sr | 0x04;
        self.cpu.pc = join_bytes(pc_high, pc_low);
    }

    /// One master step: execute one CPU instruction, then run the PPU three
    /// dots per CPU cycle the instruction consumed, and hand any NMI the
    /// PPU raised to the CPU at this instruction boundary. Every step
    /// consumes at least two CPU cycles and at most one v-blank passes.
    pub fn tick(&mut self)
        requires
            console_wf(*old(self)),
        ensures
            console_wf(*final(self)),
            final(self).cpu.ticks >= old(self).cpu.ticks,
            old(self).cpu.ticks + 1033 <= u64::MAX ==> final(self).cpu.ticks >= old(
                self,
            ).cpu.ticks + 2,
            final(self).bus.ppu.frame_count == old(self).bus.ppu.frame_count
                || final(self).bus.ppu.frame_count == sat_add64_spec(
                old(self).bus.ppu.frame_count,
                1,
            ),
            final(self).bus.ppu.frame_count >= old(self).bus.ppu.frame_count,
            (old(self).cpu.ticks + 1033 <= u64::MAX && old(self).bus.ppu.frame_count < u64::MAX
                && final(self).bus.ppu.frame_count == old(self).bus.ppu.frame_count)
                ==> dots_to_vblank(final(self).bus.ppu) == dots_to_vblank(old(self).bus.ppu) - 3
                * (final(self).cpu.ticks - old(self).cpu.ticks),
            // The PPU runs exactly three dots per CPU cycle charged, and
            // the frame signal counts exactly the v-blank dots passed.
            3 * (final(self).cpu.ticks - old(self).cpu.ticks) <= 3099,
            dot_pos(final(self).bus.ppu) == (dot_pos(old(self).bus.ppu) + 3
                * (final(self).cpu.ticks - old(self).cpu.ticks)) % 89342,
            final(self).bus.ppu.frame_count == sat_add64_spec(
                old(self).bus.ppu.frame_count,
                vblank_hits(
                    dot_pos(old(self).bus.ppu),
                    (3 * (final(self).cpu.ticks - old(self).cpu.ticks)) as nat,
                ) as u64,
            ),
            // Any NMI the PPU raised is handed to the CPU at this boundary.
            final(self).bus.ppu.nmi_line == false,
    {
        let before = self.cpu.ticks;
        self.cpu.process_next_opcode(&mut self.bus);
        let delta: u64 = self.cpu.ticks - before;
        let n: u64 = 3 * delta;
        let ghost pos0 = dot_pos(self.bus.ppu);
        let ghost f0 = self.bus.ppu.frame_count;
        let ghost cpu_mid = self.cpu;
        let mut j: u64 = 0;
        while j < n
            invariant
                ppu_wf(self.bus.ppu),
                bus_wf(self.bus),
                self.bus.dma_cycles == 0,
                j <= n,
                n <= 3099,
                0 <= pos0 < frame_dots(),
                dot_pos(self.bus.ppu) == (pos0 + j) % frame_dots(),
                self.bus.ppu.frame_count == sat_add64_spec(
                    f0,
                    vblank_hits(pos0, j as nat) as u64,
                ),
                vblank_hits(pos0, j as nat) <= j,
                self.cpu == cpu_mid,
                cpu_mid.ticks >= old(self).cpu.ticks,
                old(self).cpu.ticks + 1033 <= u64::MAX ==> cpu_mid.ticks >= old(self).cpu.ticks
                    + 2,
                f0 == old(self).bus.ppu.frame_count,
            decreases n - j,
        {
            let ghost pre = self.bus.ppu;
            self.bus.ppu.tick();
            proof {
                lemma_trigger_pos(pre);
                lemma_mod_step(pos0 + j);
                crate::ppu::lemma_hits_le_n(pos0, (j + 1) as nat);
            }
            j += 1;
        }
        proof {
            lemma_one_vblank_per_frame(pos0);
            if old(self).cpu.ticks + 1033 <= u64::MAX && f0 < u64::MAX
                && self.bus.ppu.frame_count == f0 {
                crate::ppu::lemma_vblank_hits_closed(pos0, n as nat);
                let m = frame_dots();
                let k0 = (crate::ppu::vblank_pos() - pos0) % m;
                vstd::arithmetic::div_mod::lemma_mod_division_less_than_divisor(
                    crate::ppu::vblank_pos() - pos0,
                    m,
                );
                vstd::arithmetic::div_mod::lemma_sub_mod_noop_right(
                    crate::ppu::vblank_pos(),
                    pos0 + n,
                    m,
                );
                vstd::arithmetic::div_mod::lemma_fundamental_div_mod(
                    crate::ppu::vblank_pos() - pos0,
                    m,
                );
                let q = (crate::ppu::vblank_pos() - pos0) / m;
                vstd::arithmetic::div_mod::lemma_mod_multiples_vanish(q, k0 - n, m);
                vstd::arithmetic::div_mod::lemma_small_mod((k0 - n) as nat, m as nat);
            }
        }
        if self.bus.ppu.nmi_line {
            self.bus.ppu.nmi_line = false;
            self.cpu.request_nmi();
        }
    }

    /// Run whole master steps until exactly one v-blank has fired: the PPU
    /// is run through every dot up to the v-blank trigger and stops within
    /// one instruction's dots past it.
    pub fn render_full_frame(&mut self)
        requires
            console_wf(*old(self)),
            old(self).bus.ppu.frame_count < u64::MAX,
            old(self).cpu.ticks + 32768 <= u64::MAX,
        ensures
            console_wf(*final(self)),
            final(self).bus.ppu.frame_count == old(self).bus.ppu.frame_count + 1,
            final(self).cpu.ticks >= old(self).cpu.ticks,
            3 * (final(self).cpu.ticks - old(self).cpu.ticks) > dots_to_vblank(
                old(self).bus.ppu,
            ),
            0 < (dot_pos(final(self).bus.ppu) - crate::ppu::vblank_pos()) % frame_dots() <= 3099,
    {
        proof {
            vstd::arithmetic::div_mod::lemma_mod_division_less_than_divisor(
                crate::ppu::vblank_pos() - dot_pos(self.bus.ppu),
                frame_dots(),
            );
        }
        loop
            invariant_except_break
                console_wf(*self),
                self.bus.ppu.frame_count == old(self).bus.ppu.frame_count,
                self.cpu.ticks >= old(self).cpu.ticks,
                old(self).bus.ppu.frame_count < u64::MAX,
                old(self).cpu.ticks + 32768 <= u64::MAX,
                3 * self.cpu.ticks + dots_to_vblank(self.bus.ppu) == 3 * old(self).cpu.ticks
                    + dots_to_vblank(old(self).bus.ppu),
                dots_to_vblank(old(self).bus.ppu) < frame_dots(),
                0 <= dots_to_vblank(self.bus.ppu),
            ensures
                console_wf(*self),
                self.bus.ppu.frame_count == old(self).bus.ppu.frame_count + 1,
                self.cpu.ticks >= old(self).cpu.ticks,
                3 * (self.cpu.ticks - old(self).cpu.ticks) > dots_to_vblank(old(self).bus.ppu),
                0 < (dot_pos(self.bus.ppu) - crate::ppu::vblank_pos()) % frame_dots() <= 3099,
            decreases dots_to_vblank(self.bus.ppu),
        {
            proof {
                vstd::arithmetic::div_mod::lemma_mod_division_less_than_divisor(
                    crate::ppu::vblank_pos() - dot_pos(self.bus.ppu),
                    frame_dots(),
                );
            }
            let ghost pre = *self;
            let before = self.bus.ppu.frame_count;
            self.tick();
            if self.bus.ppu.frame_count != before {
                proof {
                    let m = frame_dots();
                    let p0 = dot_pos(pre.bus.ppu);
                    let n = 3 * (self.cpu.ticks - pre.cpu.ticks);
                    let k0 = (crate::ppu::vblank_pos() - p0) % m;
                    lemma_one_vblank_per_frame(p0);
                    crate::ppu::lemma_vblank_hits_closed(p0, n as nat);
                    vstd::arithmetic::div_mod::lemma_small_mod(
                        crate::ppu::vblank_pos() as nat,
                        m as nat,
                    );
                    vstd::arithmetic::div_mod::lemma_sub_mod_noop(
                        p0 + n,
                        crate::ppu::vblank_pos(),
                        m,
                    );
                    vstd::arithmetic::div_mod::lemma_fundamental_div_mod(
                        crate::ppu::vblank_pos() - p0,
                        m,
                    );
                    let q = (crate::ppu::vblank_pos() - p0) / m;
                    vstd::arithmetic::div_mod::lemma_mod_multiples_vanish(-q, n - k0, m);
                    vstd::arithmetic::div_mod::lemma_small_mod((n - k0) as nat, m as nat);
                }
                break ;
            }
        }
    }

    /// Copy the frame out as RGBA bytes, one four-byte group per pixel,
    /// alpha always opaque.
    #[verifier::rlimit(30)]
    pub fn get_output_rgba_u8(&self, buf: &mut Vec<u8>)
        requires
            console_wf(*self),
            old(buf)@.len() == 245760,
        ensures
            final(buf)@.len() == 245760,
            forall|i: int|
                0 <= i < 61440 ==> {
                    &&& final(buf)@[4 * i] == ((rgb_color_spec(self.bus.ppu.output@[i]) >> 16)
                        & 0xFF) as u8
                    &&& final(buf)@[4 * i + 1] == ((rgb_color_spec(self.bus.ppu.output@[i]) >> 8)
                        & 0xFF) as u8
                    &&& final(buf)@[4 * i + 2] == (rgb_color_spec(self.bus.ppu.output@[i])
                        & 0xFF) as u8
                    &&& final(buf)@[4 * i + 3] == 0xFFu8
                },
    {
        let mut i: usize = 0;
        while i < 61440
            invariant
                console_wf(*self),
                buf@.len() == 245760,
                i <= 61440,
                forall|k: int|
                    0 <= k < i ==> {
                        &&& buf@[4 * k] == ((rgb_color_spec(self.bus.ppu.output@[k]) >> 16)
                            & 0xFF) as u8
                        &&& buf@[4 * k + 1] == ((rgb_color_spec(self.bus.ppu.output@[k]) >> 8)
                            & 0xFF) as u8
                        &&& buf@[4 * k + 2] == (rgb_color_spec(self.bus.ppu.output@[k])
                            & 0xFF) as u8
                        &&& buf@[4 * k + 3] == 0xFFu8
                    },
            decreases 61440 - i,
        {
            let color_idx = self.bus.ppu.output[i];
            let (r, g, b) = get_rgb_color_split(color_idx);
            buf[i * 4] = r;
            buf[i * 4 + 1] = g;
            buf[i * 4 + 2] = b;
            buf[i * 4 + 3] = 0xFF;
            proof {
                assert forall|k: int|
                    0 <= k < i + 1 implies {
                        &&& buf@[4 * k] == ((rgb_color_spec(self.bus.ppu.output@[k]) >> 16)
                            & 0xFF) as u8
                        &&& buf@[4 * k + 1] == ((rgb_color_spec(self.bus.ppu.output@[k]) >> 8)
                            & 0xFF) as u8
                        &&& buf@[4 * k + 2] == (rgb_color_spec(self.bus.ppu.output@[k])
                            & 0xFF) as u8
                        &&& buf@[4 * k + 3] == 0xFFu8
                    } by {
                    if k == i {
                        assert(buf@[4 * k] == ((rgb_color_spec(self.bus.ppu.output@[k]) >> 16)
                            & 0xFF) as u8);
                        assert(buf@[4 * k + 1] == ((rgb_color_spec(self.bus.ppu.output@[k]) >> 8)
                            & 0xFF) as u8);
                        assert(buf@[4 * k + 2] == (rgb_color_spec(self.bus.ppu.output@[k])
                            & 0xFF) as u8);
                        assert(buf@[4 * k + 3] == 0xFFu8);
                    }
                }
            }
            i += 1;
        }
    }

    /// Copy the frame out as RGB bytes, one three-byte group per pixel.
    pub fn get_output_rgb_u8(&self, buf: &mut Vec<u8>)
        requires
            console_wf(*self),
            old(buf)@.len() == 184320,
        ensures
            final(buf)@.len() == 184320,
            forall|i: int|
                0 <= i < 61440 ==> {
                    &&& final(buf)@[3 * i] == ((rgb_color_spec(self.bus.ppu.output@[i]) >> 16)
                        & 0xFF) as u8
                    &&& final(buf)@[3 * i + 1] == ((rgb_color_spec(self.bus.ppu.output@[i]) >> 8)
                        & 0xFF) as u8
                    &&& final(buf)@[3 * i + 2] == (rgb_color_spec(self.bus.ppu.output@[i])
                        & 0xFF) as u8
                },
    {
        let mut i: usize = 0;
        while i < 61440
            invariant
                console_wf(*self),
                buf@.len() == 184320,
                i <= 61440,
                forall|k: int|
                    0 <= k < i ==> {
                        &&& buf@[3 * k] == ((rgb_color_spec(self.bus.ppu.output@[k]) >> 16)
                            & 0xFF) as u8
                        &&& buf@[3 * k + 1] == ((rgb_color_spec(self.bus.ppu.output@[k]) >> 8)
                            & 0xFF) as u8
                        &&& buf@[3 * k + 2] == (rgb_color_spec(self.bus.ppu.output@[k])
                            & 0xFF) as u8
                    },
            decreases 61440 - i,
        {
            let color_idx = self.bus.ppu.output[i];
            let (r, g, b) = get_rgb_color_split(color_idx);
            buf[i * 3] = r;
            buf[i * 3 + 1] = g;
            buf[i * 3 + 2] = b;
            proof {
                assert(buf@[3 * i as int] == ((rgb_color_spec(self.bus.ppu.output@[i as int])
                    >> 16) & 0xFF) as u8);
                assert(buf@[3 * i as int + 1] == ((rgb_color_spec(self.bus.ppu.output@[i as int])
                    >> 8) & 0xFF) as u8);
                assert(buf@[3 * i as int + 2] == (rgb_color_spec(self.bus.ppu.output@[i as int])
                    & 0xFF) as u8);
            }
            i += 1;
        }
    }

    /// Copy the frame out as packed words, 0xAARRGGBB with alpha opaque.
    pub fn get_output_rgba_u32(&self, buf: &mut Vec<u32>)
        requires
            console_wf(*self),
            old(buf)@.len() == 61440,
        ensures
            final(buf)@.len() == 61440,
            forall|i: int|
                0 <= i < 61440 ==> final(buf)@[i] == rgb_color_spec(self.bus.ppu.output@[i])
                    | 0xFF000000,
    {
        let mut i: usize = 0;
        while i < 61440
            invariant
                console_wf(*self),
                buf@.len() == 61440,
                i <= 61440,
                forall|k: int|
                    0 <= k < i ==> buf@[k] == rgb_color_spec(self.bus.ppu.output@[k]) | 0xFF000000,
            decreases 61440 - i,
        {
            let color_idx = self.bus.ppu.output[i];
            let color = get_rgb_color(color_idx);
            buf[i] = color | 0xFF000000;
            proof {
                assert(buf@[i as int] == rgb_color_spec(self.bus.ppu.output@[i as int])
                    | 0xFF000000);
            }
            i += 1;
        }
    }
}

} // verus!
