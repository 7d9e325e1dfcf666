//! The machine state and the memory bus dispatcher: a 16-bit address space
//! with four disjoint regions (mirrored RAM, mirrored PPU registers, the
//! unimplemented APU/IO gap, and cartridge space), plus the bus latch that
//! models open-bus reads.

use vstd::prelude::*;

use crate::cpu::{Cpu, P};
use crate::drawing::{empty_bitmap, Bitmap, Colour};
use crate::inst::{decode_spec, u16_of, Inst, UnalignedU16};
use crate::nes_file::{mapper_read_spec, mapper_write_spec, mapper_wf, Mapper, MapperV};
use crate::drawing::pixel_index;
use crate::ppu::{
    ctrl_from_bits, mask_from_bits, ppu_read_effect, ppu_reg_value, ppu_wf, ppu_write_spec,
    spec_colour_of, spec_sprite_visible_x, spec_sprite_visible_y, spec_sprite_width, Ppu, PpuV,
    Status,
};

verus! {

/// A fatal stop of the core. Every variant marks a condition the hardware
/// model refuses to emulate silently: the surrounding application stops
/// loudly instead of running on with wrong results.
#[derive(Copy, Clone, Debug, PartialEq, Eq, Structural)]
pub enum Fault {
    /// A read or write touched the APU/IO gap at 0x4000..0x4020, which is
    /// a deliberate coverage gap.
    ApuUnimplemented,
    /// The cartridge mapper does not serve the address under its current
    /// state, or an unimplemented mapper family or window assignment was
    /// reached.
    RomUnmapped,
    /// The fetched instruction is an undocumented one with no modeled
    /// effect.
    UnofficialInstruction,
}

/// The root aggregate: CPU registers, the PPU, the cartridge, the fixed
/// 2KB work RAM, the open-bus latch, the output frame, and the cycle
/// counter the driver maintains.
#[derive(Debug)]
pub struct State {
    pub cpu: Cpu,
    pub ppu: Ppu,
    pub rom: Mapper,
    pub ram: Vec<u8>,
    pub bus: u8,
    pub current_texture: Bitmap,
    pub cycles: u64,
}

/// The mathematical shape of the machine.
#[verifier::ext_equal]
pub struct StateV {
    pub cpu: Cpu,
    pub ppu: PpuV,
    pub rom: MapperV,
    pub ram: Seq<u8>,
    pub bus: u8,
    pub texture: Seq<Colour>,
    pub cycles: u64,
}

impl View for State {
    type V = StateV;

    open spec fn view(&self) -> StateV {
        StateV {
            cpu: self.cpu,
            ppu: self.ppu@,
            rom: self.rom@,
            ram: self.ram@,
            bus: self.bus,
            texture: self.current_texture.pixels@,
            cycles: self.cycles,
        }
    }
}

/// Well-formedness of the machine: RAM and frame at their fixed sizes,
/// the PPU and the mapper well-formed.
pub open spec fn state_wf(s: StateV) -> bool {
    &&& s.ram.len() == 2048
    &&& ppu_wf(s.ppu)
    &&& mapper_wf(s.rom)
    &&& s.texture.len() == 61440
}

/// Which fault an unserved address raises: the APU/IO gap is a deliberate
/// coverage gap; everything else unserved belongs to the cartridge.
pub open spec fn fault_for(adr: u16) -> Fault {
    if 0x4000 <= adr && adr < 0x4020 {
        Fault::ApuUnimplemented
    } else {
        Fault::RomUnmapped
    }
}

/// The value a CPU read of a PPU register returns, before side effects:
/// the status register exposes its three bits over the low bits of the
/// bus latch; the sprite-data and video-data latches read back; every
/// other register reads as the open bus.
pub open spec fn ppu_reg_read_value(s: StateV, adr: u16) -> u8 {
    ppu_reg_value(s.ppu, s.bus, adr)
}

/// The byte a bus lookup returns, with no side effect: RAM mirrored every
/// 2KB, PPU registers mirrored every 8 bytes, `None` over the APU/IO gap
/// and over cartridge addresses the mapper does not serve.
pub open spec fn read_pure_spec(s: StateV, adr: u16) -> Option<u8> {
    if adr < 0x2000 {
        Some(s.ram[(adr % 2048) as int])
    } else if adr < 0x4000 {
        Some(ppu_reg_read_value(s, adr))
    } else if adr < 0x4020 {
        None
    } else {
        mapper_read_spec(s.rom, adr)
    }
}

/// A side-effecting bus read: the returned byte is the pure lookup, the
/// bus latch takes that byte, and a PPU status read additionally clears
/// the vblank bit. An unserved address faults and leaves the machine
/// unchanged.
pub open spec fn read_spec(s: StateV, adr: u16) -> (Result<u8, Fault>, StateV) {
    match read_pure_spec(s, adr) {
        Some(v) => (
            Ok(v),
            StateV {
                bus: v,
                ppu: if 0x2000 <= adr && adr < 0x4000 {
                    ppu_read_effect(s.ppu, adr)
                } else {
                    s.ppu
                },
                ..s
            },
        ),
        None => (Err(fault_for(adr)), s),
    }
}

/// A bus write: RAM stores through the mirror, PPU registers latch with
/// their side effects, cartridge writes go to the mapper, and the bus
/// latch takes the written value. The APU/IO gap and cartridge addresses
/// the mapper refuses fault and leave the machine unchanged.
pub open spec fn write_spec(s: StateV, adr: u16, val: u8) -> (Result<(), Fault>, StateV) {
    if adr < 0x2000 {
        (Ok(()), StateV { ram: s.ram.update((adr % 2048) as int, val), bus: val, ..s })
    } else if adr < 0x4000 {
        (Ok(()), StateV { ppu: ppu_write_spec(s.ppu, adr, val), bus: val, ..s })
    } else if adr < 0x4020 {
        (Err(Fault::ApuUnimplemented), s)
    } else {
        let w = mapper_write_spec(s.rom, adr, val);
        if w.0 is Some {
            (Ok(()), StateV { rom: w.1, bus: val, ..s })
        } else {
            (Err(Fault::RomUnmapped), s)
        }
    }
}

/// What fetching the instruction at the program counter yields: the three
/// bytes under the program counter read purely, decoded; or the fault of
/// the first unreadable byte.
pub open spec fn fetch_spec(s: StateV) -> Result<Inst, Fault> {
    let pc = s.cpu.pc;
    match read_pure_spec(s, pc) {
        None => Err(fault_for(pc)),
        Some(b0) => match read_pure_spec(s, pc.wrapping_add(1)) {
            None => Err(fault_for(pc.wrapping_add(1))),
            Some(b1) => match read_pure_spec(s, pc.wrapping_add(2)) {
                None => Err(fault_for(pc.wrapping_add(2))),
                Some(b2) => Ok(decode_spec(b0, b1, b2)),
            },
        },
    }
}

impl State {
    /// Well-formedness of the machine.
    pub open spec fn wf(&self) -> bool {
        state_wf(self@)
    }

    /// Build a fresh machine around a loaded cartridge: registers and
    /// memories at their power-on values, the program counter read from
    /// the cartridge's reset vector, little-endian. Fails exactly when
    /// the mapper does not serve the reset vector.
    pub fn new(rom: Mapper) -> (r: Result<State, Fault>)
        requires
            rom.wf(),
        ensures
            match r {
                Ok(st) => {
                    &&& mapper_read_spec(rom@, 0xFFFC) is Some
                    &&& mapper_read_spec(rom@, 0xFFFD) is Some
                    &&& st.wf()
                    &&& st@.cpu == (Cpu {
                        a: 0,
                        x: 0,
                        y: 0,
                        s: 0xFD,
                        p: P { c: false, z: false, i: false, d: false, b: false, v: false, n: false },
                        pc: u16_of(
                            UnalignedU16 {
                                lo: mapper_read_spec(rom@, 0xFFFC)->Some_0,
                                hi: mapper_read_spec(rom@, 0xFFFD)->Some_0,
                            },
                        ),
                    })
                    &&& st@.rom == rom@
                    &&& st@.ram == Seq::new(2048, |k: int| 0u8)
                    &&& st@.bus == 0
                    &&& st@.cycles == 0
                    &&& st@.ppu.scanline == 0
                    &&& st@.ppu.dot == 0
                    &&& st@.ppu.frame == 0
                    &&& st@.ppu.cycles == 0
                    &&& st@.ppu.status == (Status {
                        sprite_overflow: false,
                        sprite_0_hit: false,
                        vblank: false,
                    })
                    &&& st@.ppu.ctrl == ctrl_from_bits(0)
                    &&& st@.ppu.mask == mask_from_bits(0)
                    &&& st@.ppu.w_latch == false
                },
                Err(e) => {
                    &&& e == Fault::RomUnmapped
                    &&& (mapper_read_spec(rom@, 0xFFFC) is None || mapper_read_spec(
                        rom@,
                        0xFFFD,
                    ) is None)
                },
            },
    {
        let lo = match rom.get_cpu(0xFFFC) {
            Some(v) => v,
            None => {
                return Err(Fault::RomUnmapped);
            },
        };
        let hi = match rom.get_cpu(0xFFFD) {
            Some(v) => v,
            None => {
                return Err(Fault::RomUnmapped);
            },
        };
        let pc = ((hi as u16) << 8) | (lo as u16);
        let cpu = Cpu { a: 0, x: 0, y: 0, s: 0xFD, p: P::new(), pc };
        Ok(
            State {
                cpu,
                ppu: Ppu::default(),
                rom,
                ram: crate::buf::zero_vec(2048),
                bus: 0,
                current_texture: empty_bitmap(),
                cycles: 0,
            },
        )
    }

    /// Look a byte up on the bus with no side effect: no latch update, no
    /// status-register clear.
    pub fn mem_pure(&self, adr: u16) -> (r: Result<u8, Fault>)
        requires
            self.wf(),
        ensures
            match read_pure_spec(self@, adr) {
                Some(v) => r == Ok::<u8, Fault>(v),
                None => r == Err::<u8, Fault>(fault_for(adr)),
            },
    {
        if adr < 0x2000 {
            Ok(self.ram[(adr % 2048) as usize])
        } else if adr < 0x4000 {
            Ok(self.read_ppu_pure(adr))
        } else if adr < 0x4020 {
            Err(Fault::ApuUnimplemented)
        } else {
            match self.rom.get_cpu(adr) {
                Some(v) => Ok(v),
                None => Err(Fault::RomUnmapped),
            }
        }
    }

    /// The value of a PPU register read, before side effects.
    fn read_ppu_pure(&self, adr: u16) -> (r: u8)
        ensures
            r == ppu_reg_read_value(self@, adr),
    {
        let reg = adr % 8;
        if reg == 2 {
            (self.ppu.status.into_bits() & 0xE0) | (self.bus & 0x1F)
        } else if reg == 4 {
            self.ppu.oam_data.0
        } else if reg == 7 {
            self.ppu.data.0
        } else {
            self.bus
        }
    }

    /// Read a byte through the bus, with its side effects: the bus latch
    /// takes the byte, and a PPU status read clears the vblank bit. An
    /// unserved address faults and leaves the machine unchanged.
    pub fn mem(&mut self, adr: u16) -> (r: Result<u8, Fault>)
        requires
            old(self).wf(),
        ensures
            r == read_spec(old(self)@, adr).0,
            final(self)@ == read_spec(old(self)@, adr).1,
            final(self).wf(),
    {
        let ghost s0 = self@;
        if adr < 0x2000 {
            let v = self.ram[(adr % 2048) as usize];
            self.bus = v;
            proof {
                assert(self@ =~~= read_spec(s0, adr).1);
            }
            Ok(v)
        } else if adr < 0x4000 {
            let v = self.read_ppu_pure(adr);
            if adr % 8 == 2 {
                self.ppu.status.vblank = false;
                self.ppu.w_latch = false;
            }
            self.bus = v;
            proof {
                assert(self@ =~~= read_spec(s0, adr).1);
            }
            Ok(v)
        } else if adr < 0x4020 {
            Err(Fault::ApuUnimplemented)
        } else {
            match self.rom.get_cpu(adr) {
                Some(v) => {
                    self.bus = v;
                    proof {
                        assert(self@ =~~= read_spec(s0, adr).1);
                    }
                    Ok(v)
                },
                None => Err(Fault::RomUnmapped),
            }
        }
    }

    /// Latch a CPU write into a PPU register, with its documented side
    /// effects; nothing else of the machine changes.
    pub fn write_ppu(&mut self, adr: u16, val: u8)
        requires
            old(self).wf(),
        ensures
            final(self).ppu@ == ppu_write_spec(old(self).ppu@, adr, val),
            final(self).cpu == old(self).cpu,
            final(self).rom == old(self).rom,
            final(self).ram == old(self).ram,
            final(self).bus == old(self).bus,
            final(self).current_texture == old(self).current_texture,
            final(self).cycles == old(self).cycles,
            final(self).wf(),
    {
        self.ppu.write_reg(adr, val);
    }

    /// Write a byte through the bus, with its side effects per region;
    /// the bus latch takes the written value. The APU/IO gap and
    /// cartridge addresses the mapper refuses fault and leave the machine
    /// unchanged.
    pub fn set_mem(&mut self, adr: u16, val: u8) -> (r: Result<(), Fault>)
        requires
            old(self).wf(),
        ensures
            r == write_spec(old(self)@, adr, val).0,
            final(self)@ == write_spec(old(self)@, adr, val).1,
            final(self).wf(),
    {
        let ghost s0 = self@;
        if adr < 0x2000 {
            self.ram.set((adr % 2048) as usize, val);
            self.bus = val;
            proof {
                assert(self@ =~~= write_spec(s0, adr, val).1);
            }
            Ok(())
        } else if adr < 0x4000 {
            self.write_ppu(adr, val);
            self.bus = val;
            proof {
                assert(self@ =~~= write_spec(s0, adr, val).1);
            }
            Ok(())
        } else if adr < 0x4020 {
            Err(Fault::ApuUnimplemented)
        } else {
            match self.rom.set_cpu(adr, val) {
                Some(_) => {
                    self.bus = val;
                    proof {
                        assert(self@ =~~= write_spec(s0, adr, val).1);
                    }
                    Ok(())
                },
                None => {
                    proof {
                        assert(self@ =~~= write_spec(s0, adr, val).1);
                    }
                    Err(Fault::RomUnmapped)
                },
            }
        }
    }

    /// Decode the instruction under the program counter from a pure
    /// three-byte window, without bus side effects.
    pub fn next_inst(&self) -> (r: Result<Inst, Fault>)
        requires
            self.wf(),
        ensures
            r == fetch_spec(self@),
    {
        let b0 = match self.mem_pure(self.cpu.pc) {
            Ok(v) => v,
            Err(e) => {
                return Err(e);
            },
        };
        let b1 = match self.mem_pure(self.cpu.pc.wrapping_add(1)) {
            Ok(v) => v,
            Err(e) => {
                return Err(e);
            },
        };
        let b2 = match self.mem_pure(self.cpu.pc.wrapping_add(2)) {
            Ok(v) => v,
            Err(e) => {
                return Err(e);
            },
        };
        Ok(crate::inst::parse_instruction([b0, b1, b2]))
    }
}

/// The colour resolution of one visible dot: either some sprite record
/// covering the dot both vertically and horizontally supplies the first
/// entry of the sprite palette its attribute byte names, or the dot falls
/// back to the first entry of the first background palette.
pub open spec fn pixel_colour_ok(p: PpuV, c: Colour) -> bool {
    ||| exists|k: int|
        0 <= k < 64 && spec_sprite_visible_y(p.scanline, #[trigger] p.oam[k])
            && spec_sprite_visible_x(p.dot, spec_sprite_width(p.ctrl.sprite_size), p.oam[k]) && c
            == spec_colour_of(p.palettes[4 + p.oam[k].attr.palette][0])
    ||| c == spec_colour_of(p.palettes[0][0])
}

/// One step of the dot/scanline/frame grid: the dot advances and carries
/// into the scanline, which carries into the frame counter.
pub open spec fn ppu_tick(d: u16, s: u16, f: u64) -> (u16, u16, u64)
    recommends
        d <= 340,
        s <= 261,
        f < u64::MAX,
{
    if d < 340 {
        ((d + 1) as u16, s, f)
    } else if s < 261 {
        (0, (s + 1) as u16, f)
    } else {
        (0, 0, (f + 1) as u64)
    }
}

/// The grid after `n` steps.
pub open spec fn ppu_tick_n(n: nat, d: u16, s: u16, f: u64) -> (u16, u16, u64)
    decreases n,
{
    if n == 0 {
        (d, s, f)
    } else {
        let prev = ppu_tick_n((n - 1) as nat, d, s, f);
        ppu_tick(prev.0, prev.1, prev.2)
    }
}

/// The vblank bit after the events of one step at the pre-step
/// coordinates: it is set entering the post-render scanline when the
/// control register enables it, and it is forced clear at the origin of
/// the frame.
pub open spec fn vblank_after(p: PpuV) -> bool {
    if p.scanline == 0 && p.dot == 0 {
        false
    } else if p.scanline == 241 && p.dot == 0 {
        p.status.vblank || p.ctrl.nmi_enable
    } else {
        p.status.vblank
    }
}

/// Timing wraparound: from the origin of a frame, the grid position after
/// `n` of the 341 x 262 steps of a frame is given in closed form by
/// division and remainder, and the frame counter ticks exactly at the
/// full count.
pub proof fn lemma_ppu_frame_wraparound(f: u64, n: nat)
    requires
        f < u64::MAX,
        n <= 89342,
    ensures
        ppu_tick_n(n, 0, 0, f).0 == n % 341,
        ppu_tick_n(n, 0, 0, f).1 == (n / 341) % 262,
        ppu_tick_n(n, 0, 0, f).2 == (if n == 89342 {
            f + 1
        } else {
            f as int
        }),
    decreases n,
{
    if n > 0 {
        let m = (n - 1) as nat;
        lemma_ppu_frame_wraparound(f, m);
        let prev = ppu_tick_n(m, 0, 0, f);
        assert(m < 89342);
        assert(prev.0 == m % 341 && prev.1 == (m / 341) % 262 && prev.2 == f);
        if m % 341 < 340 {
            assert(n % 341 == m % 341 + 1 && n / 341 == m / 341) by (nonlinear_arith)
                requires
                    n == m + 1,
                    m % 341 < 340,
            ;
        } else {
            assert(m % 341 == 340);
            assert(n % 341 == 0 && n / 341 == m / 341 + 1) by (nonlinear_arith)
                requires
                    n == m + 1,
                    m % 341 == 340,
            ;
            if (m / 341) % 262 < 261 {
                assert((n / 341) % 262 == (m / 341) % 262 + 1) by (nonlinear_arith)
                    requires
                        n / 341 == m / 341 + 1,
                        (m / 341) % 262 < 261,
                        m / 341 < 262,
                ;
                assert(m / 341 < 262) by (nonlinear_arith)
                    requires
                        m < 89342,
                ;
            } else {
                assert((m / 341) % 262 == 261);
                assert(m == 89341) by (nonlinear_arith)
                    requires
                        m < 89342,
                        m % 341 == 340,
                        (m / 341) % 262 == 261,
                ;
                assert(n == 89342);
                assert(n % 341 == 0 && (n / 341) % 262 == 0) by (nonlinear_arith)
                    requires
                        n == 89342,
                ;
            }
        }
    }
}

/// The frame origin is reached exactly once per full step count: at no
/// step strictly inside a frame does the grid sit at the origin again.
pub proof fn lemma_frame_origin_once(f: u64, k: nat)
    requires
        f < u64::MAX,
        0 < k < 89342,
    ensures
        !(ppu_tick_n(k, 0, 0, f).0 == 0 && ppu_tick_n(k, 0, 0, f).1 == 0),
{
    lemma_ppu_frame_wraparound(f, k);
    if k % 341 == 0 && (k / 341) % 262 == 0 {
        assert(k == 0 || k >= 89342) by (nonlinear_arith)
            requires
                k % 341 == 0,
                (k / 341) % 262 == 0,
                k < 89342,
        ;
    }
}

impl State {
    /// Raise the vblank status bit if the control register enables it.
    pub fn set_vblank(&mut self)
        requires
            old(self).wf(),
        ensures
            final(self)@ == (StateV {
                ppu: PpuV {
                    status: Status {
                        vblank: old(self)@.ppu.status.vblank || old(self)@.ppu.ctrl.nmi_enable,
                        ..old(self)@.ppu.status
                    },
                    ..old(self)@.ppu
                },
                ..old(self)@
            }),
            final(self).wf(),
    {
        let ghost s0 = self@;
        if self.ppu.ctrl.nmi_enable {
            self.ppu.status.vblank = true;
        }
        proof {
            assert(self@ =~= (StateV {
                ppu: PpuV {
                    status: Status {
                        vblank: s0.ppu.status.vblank || s0.ppu.ctrl.nmi_enable,
                        ..s0.ppu.status
                    },
                    ..s0.ppu
                },
                ..s0
            }));
        }
    }

    /// The colour of the current visible dot: gather the sprite records,
    /// order them by X coordinate with render priority and then the
    /// original index breaking ties, keep the first eight that cover this
    /// scanline, and take the first of those covering this dot; fall back
    /// to the background palette when none does.
    fn select_pixel_colour(&self) -> (c: Colour)
        requires
            self.wf(),
        ensures
            pixel_colour_ok(self@.ppu, c),
    {
        let mut keys: Vec<u32> = Vec::new();
        let mut i: usize = 0;
        while i < 64
            invariant
                self.wf(),
                i <= 64,
                keys@.len() == i,
                forall|t: int| 0 <= t < i ==> (#[trigger] keys@[t]) % 256 < 64,
            decreases 64 - i,
        {
            let sp = self.ppu.oam.sprites[i];
            let prio: u32 = if sp.attr.priority {
                256
            } else {
                0
            };
            let k: u32 = ((sp.x as u32) << 9) | prio | (i as u32);
            proof {
                let xx = sp.x;
                let ii = i as u32;
                let pp = prio;
                assert(ii < 64 && (pp == 0 || pp == 256) ==> (((xx as u32) << 9) | pp | ii) % 256
                    == ii) by (bit_vector);
            }
            keys.push(k);
            i += 1;
        }
        // Insertion sort, ascending; every element keeps its shape.
        let mut a: usize = 1;
        while a < 64
            invariant
                self.wf(),
                keys@.len() == 64,
                forall|t: int| 0 <= t < 64 ==> (#[trigger] keys@[t]) % 256 < 64,
                1 <= a <= 64,
            decreases 64 - a,
        {
            let mut b: usize = a;
            while b > 0
                invariant
                    self.wf(),
                    keys@.len() == 64,
                    forall|t: int| 0 <= t < 64 ==> (#[trigger] keys@[t]) % 256 < 64,
                    b <= a < 64,
                decreases b,
            {
                if keys[b - 1] > keys[b] {
                    let lo = keys[b];
                    let hi = keys[b - 1];
                    keys.set(b - 1, lo);
                    keys.set(b, hi);
                    b -= 1;
                } else {
                    break;
                }
            }
            a += 1;
        }
        // First eight scanline-covering sprites in order; first of those
        // covering this dot.
        let mut count: usize = 0;
        let mut j: usize = 0;
        while j < 64 && count < 8
            invariant
                self.wf(),
                keys@.len() == 64,
                forall|t: int| 0 <= t < 64 ==> (#[trigger] keys@[t]) % 256 < 64,
                j <= 64,
                count <= 8,
            decreases 64 - j,
        {
            let idx = (keys[j] % 256) as usize;
            let sp = self.ppu.oam.sprites[idx];
            if self.ppu.sprite_is_visible_y(&sp) {
                if self.ppu.sprite_is_visible_x(&sp) {
                    let c = self.ppu.sprite_get_colour(&sp);
                    proof {
                        assert(self@.ppu.oam[idx as int] == sp);
                    }
                    return c;
                }
                count = count + 1;
            }
            j += 1;
        }
        self.ppu.background_get_colour()
    }

    /// Advance the video processor by one dot: paint the current dot of
    /// the visible region, raise the vblank bit entering the post-render
    /// scanline (when enabled) and force it clear at the frame origin,
    /// then step the dot/scanline/frame grid.
    #[verifier::rlimit(100)]
    #[verifier::spinoff_prover]
    pub fn step_ppu(&mut self)
        requires
            old(self).wf(),
            old(self)@.ppu.cycles < u64::MAX,
            old(self)@.ppu.frame < u64::MAX,
        ensures
            ({
                let p0 = old(self)@.ppu;
                let after = ppu_tick(p0.dot, p0.scanline, p0.frame);
                &&& final(self)@.ppu.dot == after.0
                &&& final(self)@.ppu.scanline == after.1
                &&& final(self)@.ppu.frame == after.2
                &&& final(self)@.ppu.cycles == p0.cycles + 1
                &&& final(self)@.ppu.status.vblank == vblank_after(p0)
                &&& final(self)@.ppu.status.sprite_overflow == p0.status.sprite_overflow
                &&& final(self)@.ppu.status.sprite_0_hit == p0.status.sprite_0_hit
                &&& final(self)@.ppu.ctrl == p0.ctrl
                &&& final(self)@.ppu.mask == p0.mask
                &&& final(self)@.ppu.oam_adr == p0.oam_adr
                &&& final(self)@.ppu.oam_data == p0.oam_data
                &&& final(self)@.ppu.scroll == p0.scroll
                &&& final(self)@.ppu.adr == p0.adr
                &&& final(self)@.ppu.data == p0.data
                &&& final(self)@.ppu.w_latch == p0.w_latch
                &&& final(self)@.ppu.vram == p0.vram
                &&& final(self)@.ppu.oam == p0.oam
                &&& final(self)@.ppu.palettes == p0.palettes
                &&& final(self)@.cpu == old(self)@.cpu
                &&& final(self)@.rom == old(self)@.rom
                &&& final(self)@.ram == old(self)@.ram
                &&& final(self)@.bus == old(self)@.bus
                &&& final(self)@.cycles == old(self)@.cycles
                &&& if p0.scanline < 240 && p0.dot < 256 {
                    exists|c: Colour|
                        #[trigger] pixel_colour_ok(p0, c) && final(self)@.texture
                            == old(self)@.texture.update(
                            pixel_index(p0.scanline as int, p0.dot as int),
                            c,
                        )
                } else {
                    final(self)@.texture == old(self)@.texture
                }
            }),
            final(self).wf(),
    {
        self.paint_and_flags();
        self.advance_grid();
    }

    /// The per-dot work before the grid advances: count the cycle, paint
    /// the visible dot, raise the vblank bit entering the post-render
    /// scanline (when enabled) and force it clear at the frame origin.
    #[verifier::rlimit(100)]
    #[verifier::spinoff_prover]
    fn paint_and_flags(&mut self)
        requires
            old(self).wf(),
            old(self)@.ppu.cycles < u64::MAX,
        ensures
            ({
                let p0 = old(self)@.ppu;
                &&& final(self)@.ppu.dot == p0.dot
                &&& final(self)@.ppu.scanline == p0.scanline
                &&& final(self)@.ppu.frame == p0.frame
                &&& final(self)@.ppu.cycles == p0.cycles + 1
                &&& final(self)@.ppu.status.vblank == vblank_after(p0)
                &&& final(self)@.ppu.status.sprite_overflow == p0.status.sprite_overflow
                &&& final(self)@.ppu.status.sprite_0_hit == p0.status.sprite_0_hit
                &&& final(self)@.ppu.ctrl == p0.ctrl
                &&& final(self)@.ppu.mask == p0.mask
                &&& final(self)@.ppu.oam_adr == p0.oam_adr
                &&& final(self)@.ppu.oam_data == p0.oam_data
                &&& final(self)@.ppu.scroll == p0.scroll
                &&& final(self)@.ppu.adr == p0.adr
                &&& final(self)@.ppu.data == p0.data
                &&& final(self)@.ppu.w_latch == p0.w_latch
                &&& final(self)@.ppu.vram == p0.vram
                &&& final(self)@.ppu.oam == p0.oam
                &&& final(self)@.ppu.palettes == p0.palettes
                &&& final(self)@.cpu == old(self)@.cpu
                &&& final(self)@.rom == old(self)@.rom
                &&& final(self)@.ram == old(self)@.ram
                &&& final(self)@.bus == old(self)@.bus
                &&& final(self)@.cycles == old(self)@.cycles
                &&& if p0.scanline < 240 && p0.dot < 256 {
                    exists|c: Colour|
                        #[trigger] pixel_colour_ok(p0, c) && final(self)@.texture
                            == old(self)@.texture.update(
                            pixel_index(p0.scanline as int, p0.dot as int),
                            c,
                        )
                } else {
                    final(self)@.texture == old(self)@.texture
                }
            }),
            final(self).wf(),
    {
        let ghost p0 = self@.ppu;
        self.ppu.cycles = self.ppu.cycles + 1;
        let line = self.ppu.scanline;
        let dot = self.ppu.dot;
        if line < 240 && dot < 256 {
            let c = self.select_pixel_colour();
            self.current_texture.set(line as usize, dot as usize, c);
            proof {
                assert(pixel_colour_ok(p0, c));
            }
        }
        if line == 241 && dot == 0 {
            self.set_vblank();
        }
        if line == 0 && dot == 0 && self.ppu.status.vblank {
            self.ppu.status.vblank = false;
        }
    }

    /// Step the dot/scanline/frame grid by one dot.
    #[verifier::rlimit(100)]
    #[verifier::spinoff_prover]
    fn advance_grid(&mut self)
        requires
            old(self).wf(),
            old(self)@.ppu.frame < u64::MAX,
        ensures
            ({
                let p0 = old(self)@.ppu;
                let after = ppu_tick(p0.dot, p0.scanline, p0.frame);
                &&& final(self)@.ppu == (PpuV {
                    dot: after.0,
                    scanline: after.1,
                    frame: after.2,
                    ..p0
                })
                &&& final(self)@.cpu == old(self)@.cpu
                &&& final(self)@.rom == old(self)@.rom
                &&& final(self)@.ram == old(self)@.ram
                &&& final(self)@.bus == old(self)@.bus
                &&& final(self)@.cycles == old(self)@.cycles
                &&& final(self)@.texture == old(self)@.texture
            }),
            final(self).wf(),
    {
        if self.ppu.dot < 340 {
            self.ppu.dot = self.ppu.dot + 1;
        } else if self.ppu.scanline < 261 {
            self.ppu.dot = 0;
            self.ppu.scanline = self.ppu.scanline + 1;
        } else {
            self.ppu.dot = 0;
            self.ppu.scanline = 0;
            self.ppu.frame = self.ppu.frame + 1;
        }
    }

    /// Advance the video processor in lockstep with elapsed CPU cycles:
    /// three dots per cycle, and the driver's cycle counter stepped by
    /// the cycles themselves.
    pub fn step_ppu_many(&mut self, times: u32)
        requires
            old(self).wf(),
            old(self)@.cycles + times <= u64::MAX,
            old(self)@.ppu.cycles + 3 * (times as u64) <= u64::MAX,
            old(self)@.ppu.frame + 3 * (times as u64) <= u64::MAX,
        ensures
            final(self)@.cycles == old(self)@.cycles + times,
            final(self)@.ppu.cycles == old(self)@.ppu.cycles + 3 * (times as u64),
            ({
                let after = ppu_tick_n(
                    3 * (times as nat),
                    old(self)@.ppu.dot,
                    old(self)@.ppu.scanline,
                    old(self)@.ppu.frame,
                );
                final(self)@.ppu.dot == after.0 && final(self)@.ppu.scanline == after.1
                    && final(self)@.ppu.frame == after.2
            }),
            final(self)@.cpu == old(self)@.cpu,
            final(self)@.rom == old(self)@.rom,
            final(self)@.ram == old(self)@.ram,
            final(self)@.bus == old(self)@.bus,
            final(self).wf(),
    {
        let ghost s0 = self@;
        self.cycles = self.cycles + times as u64;
        let total: u64 = 3 * (times as u64);
        let mut k: u64 = 0;
        while k < total
            invariant
                self.wf(),
                k <= total,
                total == 3 * (times as u64),
                s0.ppu.cycles + total <= u64::MAX,
                s0.ppu.frame + total <= u64::MAX,
                self@.ppu.cycles == s0.ppu.cycles + k,
                ({
                    let after = ppu_tick_n(k as nat, s0.ppu.dot, s0.ppu.scanline, s0.ppu.frame);
                    self@.ppu.dot == after.0 && self@.ppu.scanline == after.1 && self@.ppu.frame
                        == after.2
                }),
                self@.ppu.frame <= s0.ppu.frame + k,
                self@.cpu == s0.cpu,
                self@.rom == s0.rom,
                self@.ram == s0.ram,
                self@.bus == s0.bus,
                self@.cycles == s0.cycles + times,
            decreases total - k,
        {
            proof {
                assert(ppu_tick_n(
                    (k + 1) as nat,
                    s0.ppu.dot,
                    s0.ppu.scanline,
                    s0.ppu.frame,
                ) == ppu_tick(self@.ppu.dot, self@.ppu.scanline, self@.ppu.frame));
            }
            self.step_ppu();
            k += 1;
        }
    }

    /// Decode and perform the instruction under the program counter.
    pub fn next(&mut self) -> (r: Result<(), Fault>)
        requires
            old(self).wf(),
        ensures
            match fetch_spec(old(self)@) {
                Ok(i) => r == crate::evaluate::eval_spec(old(self)@, i).0 && final(self)@
                    == crate::evaluate::eval_spec(old(self)@, i).1,
                Err(e) => r == Err::<(), Fault>(e) && final(self)@ == old(self)@,
            },
            final(self).wf(),
    {
        let i = match self.next_inst() {
            Ok(i) => i,
            Err(e) => {
                return Err(e);
            },
        };
        i.evaluate(self)
    }

    /// Decode and perform one instruction, by value: the stepped machine
    /// together with the outcome.
    pub fn next_step(self) -> (r: (State, Result<(), Fault>))
        requires
            self.wf(),
        ensures
            match fetch_spec(self@) {
                Ok(i) => r.1 == crate::evaluate::eval_spec(self@, i).0 && r.0@
                    == crate::evaluate::eval_spec(self@, i).1,
                Err(e) => r.1 == Err::<(), Fault>(e) && r.0@ == self@,
            },
            r.0.wf(),
    {
        let mut st = self;
        let r = st.next(); 
        (st, r)
    }
}

/// Reading a RAM address twice with no write between yields the same byte:
/// the first read's only effects are the bus latch, which RAM values do
/// not depend on.
pub proof fn lemma_ram_reread(s: StateV, adr: u16)
    requires
        state_wf(s),
        adr < 0x2000,
    ensures
        read_spec(read_spec(s, adr).1, adr).0 == read_spec(s, adr).0,
{
}

/// Reading the PPU status register observes the vblank bit and clears it:
/// the first read's top bit mirrors the stored vblank flag, and a second
/// read immediately after observes it clear.
pub proof fn lemma_status_read_side_effect(s: StateV, adr: u16)
    requires
        state_wf(s),
        0x2000 <= adr && adr < 0x4000,
        adr % 8 == 2,
    ensures
        read_spec(s, adr).0 is Ok,
        (read_spec(s, adr).0->Ok_0 & 0x80 == 0x80) == s.ppu.status.vblank,
        read_spec(s, adr).1.ppu.status.vblank == false,
        read_spec(read_spec(s, adr).1, adr).0->Ok_0 & 0x80 == 0,
{
    let st = s.ppu.status;
    let b = s.bus;
    let vb = st.vblank;
    let hit = st.sprite_0_hit;
    let ovf = st.sprite_overflow;
    assert((((((if vb { 0x80u8 } else { 0u8 }) | (if hit { 0x40u8 } else { 0u8 }) | (if ovf {
        0x20u8
    } else {
        0u8
    })) & 0xE0) | (b & 0x1F)) & 0x80 == 0x80) == vb) by (bit_vector);
    let s1 = read_spec(s, adr).1;
    let st1 = s1.ppu.status;
    let b1 = s1.bus;
    let hit1 = st1.sprite_0_hit;
    let ovf1 = st1.sprite_overflow;
    assert(((((0u8 | (if hit1 { 0x40u8 } else { 0u8 }) | (if ovf1 { 0x20u8 } else { 0u8 })) & 0xE0)
        | (b1 & 0x1F)) & 0x80) == 0) by (bit_vector);
}

} // verus!
