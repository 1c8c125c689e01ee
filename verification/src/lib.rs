//! An 8-bit cartridge-console core: instruction processor, picture unit,
//! memory bus and frame scheduler, with bit-exact flag and cycle semantics.
pub mod apu;
pub mod color;
pub mod cpu;
pub mod framebuffer;
pub mod mem;
pub mod ppu;
pub mod texture;

use vstd::prelude::*;

verus! {

/// A game controller, implemented by the host. `poll` latches the
/// host's current input; the eight queries report the latched state.
pub trait Controller {
    fn poll(&mut self);

    fn a(&self) -> bool;

    fn b(&self) -> bool;

    fn select(&self) -> bool;

    fn start(&self) -> bool;

    fn up(&self) -> bool;

    fn down(&self) -> bool;

    fn left(&self) -> bool;

    fn right(&self) -> bool;
}

/// A fatal condition that ends the session: the program under emulation
/// did something this core does not model.
#[derive(Debug, Copy, Clone, PartialEq, Eq, Structural)]
pub enum Fault {
    /// An undocumented opcode, or the software-interrupt opcode, was decoded.
    UnimplementedOpcode(u8),
    /// A read of an unmapped address or of a write-only register.
    BusReadViolation(u16),
    /// A write to an unmapped address or to a read-only register.
    BusWriteViolation(u16),
    /// A buffered video-memory read from an unmapped video address.
    VramReadOutOfRange(u16),
    /// A video-memory write to an unmapped or read-only video address.
    VramWriteOutOfRange(u16),
}

/// The required fixed-layout cartridge header and the two data areas
/// behind it: a 16-byte header opening with the fixed magic, byte 4
/// equal to 2 (32 KB of program data), byte 5 equal to 1 (8 KB of
/// graphics data), byte 6 equal to 1 (the single supported
/// mirroring/mapper configuration) and bytes 7 to 10 zero, followed by
/// the 32 KB program image and 8 KB of graphics data.
pub open spec fn spec_cartridge_ok(g: Seq<u8>) -> bool {
    &&& g.len() >= 0x10 + 0x8000 + 0x2000
    &&& g[0] == 0x4eu8
    &&& g[1] == 0x45u8
    &&& g[2] == 0x53u8
    &&& g[3] == 0x1au8
    &&& g[4] == 2u8
    &&& g[5] == 1u8
    &&& g[6] == 1u8
    &&& g[7] == 0u8
    &&& g[8] == 0u8
    &&& g[9] == 0u8
    &&& g[10] == 0u8
}

/// The render hook of the frame loop: past the render point, the
/// first time in the frame (the render count still reads the frame's
/// start value), the picture unit clears and redraws; otherwise
/// nothing happens. Which pixels the redraw leaves is the render
/// pass's own contract; here only the rest of the state is pinned.
pub open spec fn frame_render_hook<C: Controller>(start: Nes<C>, a: Nes<C>, h: Nes<C>) -> bool {
    if a.mem.cycles > 27252 && a.mem.ppu.renders@ == start.mem.ppu.renders@ {
        &&& h.cpu == a.cpu
        &&& h.mem.ram == a.mem.ram
        &&& h.mem.text == a.mem.text
        &&& h.mem.apu == a.mem.apu
        &&& h.mem.cycles == a.mem.cycles
        &&& h.mem.c_strobe == a.mem.c_strobe
        &&& h.mem.c1 == a.mem.c1
        &&& h.mem.c1_index == a.mem.c1_index
        &&& h.mem.c2 == a.mem.c2
        &&& h.mem.c2_index == a.mem.c2_index
        &&& h.mem.nmis == a.mem.nmis
        &&& h.mem.ppu == (ppu::Ppu {
            framebuffer: h.mem.ppu.framebuffer,
            renders: h.mem.ppu.renders,
            ..a.mem.ppu
        })
        &&& h.mem.ppu.wf()
        &&& h.mem.ppu.renders@ == a.mem.ppu.renders@ + 1
    } else {
        h == a
    }
}

/// The interrupt hook of the frame loop: at or past the interrupt
/// point, the first time in the frame, the non-maskable interrupt is
/// delivered when it was enabled at the frame's start: the program
/// counter and the raw status byte are pushed and the counter loads
/// the fixed vector, at a cost of five cycles.
pub open spec fn frame_nmi_hook<C: Controller>(
    start: Nes<C>,
    h: Nes<C>,
    m: Nes<C>,
    enabled: bool,
) -> bool {
    if h.mem.cycles >= 27280 && h.mem.nmis@ == start.mem.nmis@ && enabled {
        &&& m.cpu == (cpu::Cpu {
            pc: mem::Memory::<C>::pure_16(h.mem, 0xfffa),
            sp: h.cpu.sp.wrapping_sub(3),
            ..h.cpu
        })
        &&& m.mem.wf()
        &&& m.mem.ram@ == h.mem.ram@.update(
            0x100 + h.cpu.sp.wrapping_sub(1) as int,
            (h.cpu.pc % 256) as u8,
        ).update(0x100 + h.cpu.sp.wrapping_sub(1) as int + 1, (h.cpu.pc / 256) as u8).update(
            0x100 + h.cpu.sp.wrapping_sub(2) as int,
            cpu::status_byte(h.cpu),
        )
        &&& m.mem.text@ == h.mem.text@
        &&& m.mem.ppu == h.mem.ppu
        &&& m.mem.apu == h.mem.apu
        &&& m.mem.c_strobe == h.mem.c_strobe
        &&& m.mem.c1 == h.mem.c1
        &&& m.mem.c1_index == h.mem.c1_index
        &&& m.mem.c2 == h.mem.c2
        &&& m.mem.c2_index == h.mem.c2_index
        &&& m.mem.cycles == h.mem.cycles + 5
        &&& m.mem.nmis@ == h.mem.nmis@ + 1
    } else {
        m == h
    }
}

/// One processor step of the frame loop, completing without fault:
/// the cartridge stores are untouched, the counters move only through
/// the hooks, the cycle counter grows by the step's cost, and
/// wherever the step was determined by plain memory it is exactly the
/// step relation.
pub open spec fn frame_exec<C: Controller>(m: Nes<C>, b: Nes<C>) -> bool {
    &&& b.mem.wf()
    &&& b.mem.same_rom(&m.mem)
    &&& b.mem.ppu.renders == m.mem.ppu.renders
    &&& b.mem.nmis == m.mem.nmis
    &&& m.mem.cycles + 1 <= b.mem.cycles <= m.mem.cycles + 600
    &&& (cpu::spec_step_determined(m.cpu, m.mem) ==> cpu::spec_step(m.cpu, m.mem, b.cpu, b.mem))
}

/// One full pass of the frame loop: the render hook, then the
/// interrupt hook, then one completed processor step.
pub open spec fn frame_step<C: Controller>(
    start: Nes<C>,
    a: Nes<C>,
    b: Nes<C>,
    enabled: bool,
) -> bool {
    &&& a.mem.cycles < 29781
    &&& exists|h: Nes<C>, m: Nes<C>|
        #![trigger frame_nmi_hook(start, h, m, enabled)]
        frame_render_hook(start, a, h) && frame_nmi_hook(start, h, m, enabled) && frame_exec(m, b)
}

/// The frame loop's reachability: `b` results from `a` by zero or
/// more full passes, the hooks referenced to the frame's start state.
pub open spec fn frame_reaches<C: Controller>(
    start: Nes<C>,
    a: Nes<C>,
    b: Nes<C>,
    enabled: bool,
) -> bool
    decreases (if a.mem.cycles < 30500 {
        30500int - a.mem.cycles
    } else {
        0int
    }),
{
    ||| b == a
    ||| exists|m: Nes<C>|
        #![trigger frame_step(start, a, m, enabled)]
        frame_step(start, a, m, enabled) && (if m.mem.cycles <= a.mem.cycles {
            false
        } else {
            frame_reaches(start, m, b, enabled)
        })
}

/// Reachability extends by one more pass at its end.
proof fn lemma_frame_reaches_snoc<C: Controller>(
    start: Nes<C>,
    a: Nes<C>,
    b: Nes<C>,
    c: Nes<C>,
    enabled: bool,
)
    requires
        frame_reaches(start, a, b, enabled),
        frame_step(start, b, c, enabled),
    ensures
        frame_reaches(start, a, c, enabled),
    decreases (if a.mem.cycles < 30500 {
        30500int - a.mem.cycles
    } else {
        0int
    }),
{
    let (h, hm) = choose|h: Nes<C>, hm: Nes<C>|
        #![trigger frame_nmi_hook(start, h, hm, enabled)]
        frame_render_hook(start, b, h) && frame_nmi_hook(start, h, hm, enabled) && frame_exec(
            hm,
            c,
        );
    assert(frame_render_hook(start, b, h) && frame_nmi_hook(start, h, hm, enabled) && frame_exec(
        hm,
        c,
    ));
    assert(h.mem.cycles == b.mem.cycles);
    assert(hm.mem.cycles >= h.mem.cycles);
    assert(c.mem.cycles > b.mem.cycles);
    if b == a {
        assert(frame_step(start, a, c, enabled) && (if c.mem.cycles <= a.mem.cycles {
            false
        } else {
            frame_reaches(start, c, c, enabled)
        }));
    } else {
        let m = choose|m: Nes<C>|
            #![trigger frame_step(start, a, m, enabled)]
            frame_step(start, a, m, enabled) && (if m.mem.cycles <= a.mem.cycles {
                false
            } else {
                frame_reaches(start, m, b, enabled)
            });
        lemma_frame_reaches_snoc(start, m, b, c, enabled);
        assert(frame_step(start, a, m, enabled) && (if m.mem.cycles <= a.mem.cycles {
            false
        } else {
            frame_reaches(start, m, c, enabled)
        }));
    }
}

/// One console session: the processor and the bus that owns every
/// other device, so a single reference reaches all shared state.
pub struct Nes<C: Controller> {
    pub cpu: cpu::Cpu,
    pub mem: mem::Memory<C>,
}

impl<C: Controller> Nes<C> {
    pub open spec fn wf(&self) -> bool {
        self.mem.wf()
    }

    /// Accepts a cartridge image: the header must pass the fixed
    /// layout check, else no session is created. On success the
    /// program and graphics data are installed, the program counter
    /// is loaded from the reset vector, and the cycle counter is zero.
    pub fn load_from_memory(game: &[u8]) -> (r: Option<Nes<C>>)
        ensures
            r is Some <==> spec_cartridge_ok(game@),
            r matches Some(nes) ==> {
                &&& nes.wf()
                &&& nes.mem.cycles == 0
                &&& nes.mem.text@ == game@.subrange(0x10, 0x8010)
                &&& nes.mem.ppu.chr@ == game@.subrange(0x8010, 0xa010)
                &&& nes.cpu == (cpu::Cpu {
                    pc: ((nes.mem.text@[0x7ffc] + nes.mem.text@[0x7ffd] * 256) as u16),
                    a: 0,
                    x: 0,
                    y: 0,
                    sp: 0,
                    n: false,
                    v: false,
                    d: false,
                    i: false,
                    z: false,
                    c: false,
                })
                &&& nes.mem.c_strobe == false
                &&& nes.mem.c1 is None
                &&& nes.mem.c2 is None
                &&& nes.mem.apu.pending@.len() == 0
                &&& nes.mem.ppu.ppuctrl == 0
                &&& nes.mem.ppu.ppumask == 0
                &&& nes.mem.ppu.oamaddr == 0
                &&& nes.mem.ppu.ppuaddr == 0
                &&& nes.mem.ppu.latch == false
                &&& nes.mem.ppu.renders@ == 0
                &&& nes.mem.nmis@ == 0
                &&& forall|k: int| 0 <= k < 0x800 ==> nes.mem.ram@[k] == 0u8
                &&& forall|k: int| 0 <= k < 0x100 ==> nes.mem.ppu.oam@[k] == 0u8
            },
    {
        if game.len() < 0x10 + 0x8000 + 0x2000 {
            return None;
        }
        if game[0] != 0x4e || game[1] != 0x45 || game[2] != 0x53 || game[3] != 0x1a {
            return None;
        }
        if game[4] != 0x02 {
            return None;
        }
        if game[5] != 0x01 {
            return None;
        }
        if game[6] != 0x01 {
            return None;
        }
        if game[7] != 0x00 || game[8] != 0x00 || game[9] != 0x00 || game[10] != 0x00 {
            return None;
        }
        let text = copy_range(game, 0x10, 0x8000);
        let chr = copy_range(game, 0x8010, 0x2000);
        let apu = apu::Apu::new();
        let ppu = ppu::Ppu::new(chr);
        let mut bus: mem::Memory<C> = mem::Memory::new(text, apu, ppu);
        let cpu = cpu::Cpu::new(&mut bus);
        Some(Nes { cpu, mem: bus })
    }

    /// Runs one frame: repeatedly executes instructions until the
    /// fixed cycle budget elapses; once past the render point the
    /// picture unit clears and redraws the frame (exactly once per
    /// frame), and at the interrupt point the non-maskable interrupt
    /// is asserted, exactly once, if and only if vblank-NMI was
    /// enabled before the frame began. Afterwards the cycle counter
    /// reads zero.
    pub fn run(&mut self) -> (r: Result<(), Fault>)
        requires
            old(self).wf(),
        ensures
            final(self).wf(),
            final(self).mem.same_rom(&old(self).mem),
            r is Ok ==> final(self).mem.cycles == 0,
            final(self).mem.ppu.renders@ <= old(self).mem.ppu.renders@ + 1,
            final(self).mem.nmis@ <= old(self).mem.nmis@ + 1,
            r is Ok && old(self).mem.cycles <= 27252 ==> final(self).mem.ppu.renders@ == old(
                self,
            ).mem.ppu.renders@ + 1,
            r is Ok && old(self).mem.cycles <= 27252 ==> final(self).mem.nmis@ == old(
                self,
            ).mem.nmis@ + (if old(self).mem.ppu.ppuctrl >= 128 {
                1int
            } else {
                0int
            }),
            old(self).mem.cycles >= 29781 ==> r is Ok && *final(self) == (Nes {
                mem: mem::Memory { cycles: 0, ..old(self).mem },
                ..*old(self)
            }),
            r is Ok ==> exists|g: Nes<C>|
                #![trigger g.cpu]
                frame_reaches(*old(self), *old(self), g, old(self).mem.ppu.ppuctrl >= 128)
                    && g.mem.cycles >= 29781 && final(self).cpu == g.cpu && final(self).mem == (
                mem::Memory { cycles: 0, ..g.mem }),
    {
        let nmi_enabled: bool = self.mem.ppu.ppuctrl >= 128;
        let mut nmi_sent: bool = false;
        let mut screen_drawn: bool = false;
        while self.mem.cycles < 29781
            invariant
                self.wf(),
                self.mem.same_rom(&old(self).mem),
                nmi_enabled == (old(self).mem.ppu.ppuctrl >= 128),
                screen_drawn ==> self.mem.ppu.renders@ == old(self).mem.ppu.renders@ + 1,
                !screen_drawn ==> self.mem.ppu.renders@ == old(self).mem.ppu.renders@ && (
                self.mem.cycles <= 27252 + 600 || *self == *old(self)),
                nmi_sent ==> self.mem.nmis@ == old(self).mem.nmis@ + (if nmi_enabled {
                    1int
                } else {
                    0int
                }),
                !nmi_sent ==> self.mem.nmis@ == old(self).mem.nmis@ && (self.mem.cycles <= 27280
                    + 600 || *self == *old(self)),
                old(self).mem.cycles >= 29781 ==> *self == *old(self),
                frame_reaches(*old(self), *old(self), *self, nmi_enabled),
            decreases (if self.mem.cycles < 29781 {
                29781int - self.mem.cycles
            } else {
                0int
            }),
        {
            let ghost iter_pre = *self;
            if self.mem.cycles > 27252 && !screen_drawn {
                screen_drawn = true;
                self.mem.ppu.clear();
                self.mem.ppu.draw();
            }
            let ghost after_render = *self;
            if self.mem.cycles >= 27280 && !nmi_sent {
                nmi_sent = true;
                if nmi_enabled {
                    self.cpu.nmi(&mut self.mem)?;
                }
            }
            let ghost after_nmi = *self;
            self.cpu.execute(&mut self.mem)?;
            proof {
                assert(frame_render_hook(*old(self), iter_pre, after_render));
                assert(frame_nmi_hook(*old(self), after_render, after_nmi, nmi_enabled));
                assert(frame_exec(after_nmi, *self));
                assert(frame_step(*old(self), iter_pre, *self, nmi_enabled));
                lemma_frame_reaches_snoc(*old(self), *old(self), iter_pre, *self, nmi_enabled);
            }
        }
        self.mem.cycles = 0;
        Ok(())
    }

    /// The current frame as bytes, four per pixel, row-major: blue,
    /// green, red, then one zero byte.
    pub fn framebuffer(&self) -> (bytes: Vec<u8>)
        requires
            self.wf(),
        ensures
            bytes@.len() == 256 * 240 * 4,
            forall|k: int|
                0 <= k < 256 * 240 ==> {
                    &&& bytes@[4 * k] == self.mem.ppu.framebuffer.data@[k].blue
                    &&& bytes@[4 * k + 1] == self.mem.ppu.framebuffer.data@[k].green
                    &&& bytes@[4 * k + 2] == self.mem.ppu.framebuffer.data@[k].red
                    &&& bytes@[4 * k + 3] == 0u8
                },
    {
        self.mem.ppu.framebuffer.to_bytes()
    }

    /// Pads a partially filled interleaved stereo buffer the host's
    /// sound engine returned: the final filled sample pair repeats to
    /// the end of the buffer.
    pub fn play_audio(&self, buf: &mut Vec<i16>, filled: usize)
        requires
            2 <= filled <= old(buf)@.len(),
            filled % 2 == 0,
        ensures
            final(buf)@.len() == old(buf)@.len(),
            forall|k: int| 0 <= k < filled ==> final(buf)@[k] == old(buf)@[k],
            forall|k: int|
                filled <= k < old(buf)@.len() ==> final(buf)@[k] == (if k % 2 == 0 {
                    old(buf)@[filled - 2]
                } else {
                    old(buf)@[filled - 1]
                }),
    {
        apu::Apu::tick(buf, filled);
    }

    /// Connects a controller to port 0 or 1.
    pub fn connect(&mut self, port: usize, controller: C)
        ensures
            port == 0 ==> *final(self) == (Nes {
                mem: mem::Memory { c1: Some(controller), ..old(self).mem },
                ..*old(self)
            }),
            port == 1 ==> *final(self) == (Nes {
                mem: mem::Memory { c2: Some(controller), ..old(self).mem },
                ..*old(self)
            }),
            port >= 2 ==> *final(self) == *old(self),
    {
        self.mem.connect_controller(port, controller);
    }

    /// Hands the sound-register writes of the frame to the host,
    /// oldest first.
    pub fn take_sound_writes(&mut self) -> (writes: Vec<(u16, u8)>)
        ensures
            writes@ == old(self).mem.apu.pending@,
            final(self).mem.apu.pending@.len() == 0,
            final(self).mem.apu.channel_status == old(self).mem.apu.channel_status,
            *final(self) == (Nes {
                mem: mem::Memory { apu: final(self).mem.apu, ..old(self).mem },
                ..*old(self)
            }),
    {
        self.mem.apu.take_pending()
    }

    /// Stores the channel-status byte the host's sound engine
    /// reported, served back on reads of the channel-status register.
    pub fn set_sound_status(&mut self, status: u8)
        ensures
            *final(self) == (Nes {
                mem: mem::Memory {
                    apu: apu::Apu { channel_status: status, ..old(self).mem.apu },
                    ..old(self).mem
                },
                ..*old(self)
            }),
    {
        self.mem.apu.set_channel_status(status);
    }
}

/// Copies `len` bytes of a slice starting at `start`.
fn copy_range(src: &[u8], start: usize, len: usize) -> (v: Vec<u8>)
    requires
        start + len <= src@.len(),
    ensures
        v@ == src@.subrange(start as int, start as int + len),
{
    let n: usize = src.len();
    let mut v: Vec<u8> = Vec::new();
    let mut i: usize = 0;
    while i < len
        invariant
            start + len <= src@.len(),
            n == src@.len(),
            i <= len,
            v@ == src@.subrange(start as int, start as int + i),
        decreases len - i,
    {
        v.push(src[start + i]);
        proof {
            assert(v@ == src@.subrange(start as int, start as int + i + 1));
        }
        i = i + 1;
    }
    v
}

} // verus!
