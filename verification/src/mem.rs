//! The memory bus: internal RAM, the cartridge program window, the
//! picture-unit register window, the sound/IO block, controller input,
//! and the shared cycle counter that every bus access advances.
use vstd::prelude::*;

use crate::Controller;
use crate::Fault;
use crate::apu::Apu;
use crate::ppu::Ppu;

verus! {

/// One controller's eight latched buttons, as plain values.
#[derive(Debug, Copy, Clone, PartialEq, Eq, Structural)]
pub struct Pad {
    pub a: bool,
    pub b: bool,
    pub select: bool,
    pub start: bool,
    pub up: bool,
    pub down: bool,
    pub left: bool,
    pub right: bool,
}

/// The bit a controller reports at position `index` of its serial read
/// sequence: A, B, select, start, then the four directions with
/// conflicting-direction suppression (up with down held, or left with
/// right held, reads as released); every position past the eighth
/// reports the exhausted bit 1.
pub open spec fn spec_pad_bit(pad: Pad, index: u8) -> bool {
    if index == 0 {
        pad.a
    } else if index == 1 {
        pad.b
    } else if index == 2 {
        pad.select
    } else if index == 3 {
        pad.start
    } else if index == 4 {
        pad.up && !pad.down
    } else if index == 5 {
        pad.down && !pad.up
    } else if index == 6 {
        pad.left && !pad.right
    } else if index == 7 {
        pad.right && !pad.left
    } else {
        true
    }
}

/// Computes the serial-sequence bit for a latched pad.
pub fn pad_bit(pad: &Pad, index: u8) -> (b: bool)
    ensures
        b == spec_pad_bit(*pad, index),
{
    if index == 0 {
        pad.a
    } else if index == 1 {
        pad.b
    } else if index == 2 {
        pad.select
    } else if index == 3 {
        pad.start
    } else if index == 4 {
        pad.up && !pad.down
    } else if index == 5 {
        pad.down && !pad.up
    } else if index == 6 {
        pad.left && !pad.right
    } else if index == 7 {
        pad.right && !pad.left
    } else {
        true
    }
}

/// Latches a controller's eight buttons as plain values.
fn snapshot_pad<C: Controller>(c: &C) -> Pad {
    Pad {
        a: c.a(),
        b: c.b(),
        select: c.select(),
        start: c.start(),
        up: c.up(),
        down: c.down(),
        left: c.left(),
        right: c.right(),
    }
}

/// Byte-wide bus access, with 16-bit convenience forms built from two
/// 8-bit accesses, low byte first.
pub trait Mem {
    /// The state the bus dispatch relies on.
    spec fn mem_wf(&self) -> bool;

    /// Room left on the cycle counter for one more access.
    spec fn cycles_ok(&self) -> bool;

    fn read(&mut self, addr: u16) -> (r: Result<u8, Fault>)
        requires
            old(self).mem_wf(),
            old(self).cycles_ok(),
        ensures
            final(self).mem_wf(),
    ;

    fn write(&mut self, addr: u16, value: u8) -> (r: Result<(), Fault>)
        requires
            old(self).mem_wf(),
            old(self).cycles_ok(),
        ensures
            final(self).mem_wf(),
    ;

    fn read16(&mut self, addr: u16) -> (r: Result<u16, Fault>)
        requires
            old(self).mem_wf(),
            old(self).cycles_ok(),
        ensures
            final(self).mem_wf(),
    ;

    fn write16(&mut self, addr: u16, value: u16) -> (r: Result<(), Fault>)
        requires
            old(self).mem_wf(),
            old(self).cycles_ok(),
        ensures
            final(self).mem_wf(),
    ;
}

/// The bus. It owns every device it dispatches to, so one `&mut` reaches
/// all shared state, and the cycle counter every access advances.
pub struct Memory<C: Controller> {
    /// 2 KB of internal work RAM, mirrored across the bottom 8 KB.
    pub ram: Vec<u8>,
    /// The fixed 32 KB read-only program image.
    pub text: Vec<u8>,
    /// The picture unit, behind its 8-register window.
    pub ppu: Ppu,
    /// The sound-register sink.
    pub apu: Apu,
    /// The shared cycle counter; every 8-bit access costs 1.
    pub cycles: u64,
    /// The controller strobe latch, shared by both ports.
    pub c_strobe: bool,
    pub c1: Option<C>,
    pub c1_index: u8,
    pub c2: Option<C>,
    pub c2_index: u8,
    /// Ghost count of delivered non-maskable interrupts, so the frame
    /// scheduler can promise exactly one delivery per enabled frame.
    pub nmis: Ghost<int>,
}

impl<C: Controller> Memory<C> {
    pub open spec fn wf(&self) -> bool {
        &&& self.ram@.len() == 0x800
        &&& self.text@.len() == 0x8000
        &&& self.ppu.wf()
        &&& self.c1_index <= 8
        &&& self.c2_index <= 8
    }

    /// Everything the cartridge fixed at load.
    pub open spec fn same_rom(&self, other: &Self) -> bool {
        &&& self.text@ == other.text@
        &&& self.ppu.same_rom(&other.ppu)
    }

    pub open spec fn same_ram(&self, other: &Self) -> bool {
        self.ram@ == other.ram@
    }

    pub open spec fn same_ppu(&self, other: &Self) -> bool {
        self.ppu == other.ppu
    }

    pub open spec fn same_apu(&self, other: &Self) -> bool {
        self.apu == other.apu
    }

    pub open spec fn same_pads(&self, other: &Self) -> bool {
        &&& self.c_strobe == other.c_strobe
        &&& self.c1 == other.c1
        &&& self.c1_index == other.c1_index
        &&& self.c2 == other.c2
        &&& self.c2_index == other.c2_index
    }

    /// Nothing but the cycle counter moved.
    pub open spec fn only_cycles(&self, other: &Self) -> bool {
        &&& self.same_ram(other)
        &&& self.text@ == other.text@
        &&& self.same_ppu(other)
        &&& self.same_apu(other)
        &&& self.same_pads(other)
        &&& self.nmis == other.nmis
    }

    /// The addresses a read faults on: the write-only picture
    /// registers, the write-only sound/IO block, and the unmapped gap
    /// below the cartridge window.
    pub open spec fn read_refused(addr: u16) -> bool {
        ||| (0x2000 <= addr < 0x4000 && (addr % 8 == 0 || addr % 8 == 1 || addr % 8 == 3 || addr
            % 8 == 5 || addr % 8 == 6))
        ||| (0x4000 <= addr < 0x4015)
        ||| (0x4018 <= addr < 0x8000)
    }

    /// The addresses a write faults on: the read-only status register,
    /// the two unmapped sound holes, the unmapped gap, and the
    /// read-only cartridge window.
    pub open spec fn write_refused(addr: u16) -> bool {
        ||| (0x2000 <= addr < 0x4000 && addr % 8 == 2)
        ||| addr == 0x4009
        ||| addr == 0x400d
        ||| addr >= 0x4018
    }

    /// Builds the bus around a 32 KB program image and the devices.
    pub fn new(text: Vec<u8>, apu: Apu, ppu: Ppu) -> (m: Memory<C>)
        requires
            text@.len() == 0x8000,
            ppu.wf(),
        ensures
            m.wf(),
            m.text@ == text@,
            m.ppu == ppu,
            m.apu == apu,
            m.cycles == 0,
            m.c_strobe == false,
            m.c1 is None,
            m.c1_index == 0,
            m.c2 is None,
            m.c2_index == 0,
            m.nmis@ == 0,
            forall|k: int| 0 <= k < 0x800 ==> m.ram@[k] == 0u8,
    {
        Memory {
            ram: crate::ppu::zero_vec(0x800),
            text,
            ppu,
            apu,
            cycles: 0,
            c_strobe: false,
            c1: None,
            c1_index: 0,
            c2: None,
            c2_index: 0,
            nmis: Ghost(0),
        }
    }

    /// Connects a controller to port 0 or 1; other ports are ignored.
    pub fn connect_controller(&mut self, port: usize, controller: C)
        ensures
            port == 0 ==> *final(self) == (Memory {
                c1: Some(controller),
                ..*old(self)
            }),
            port == 1 ==> *final(self) == (Memory {
                c2: Some(controller),
                ..*old(self)
            }),
            port >= 2 ==> *final(self) == *old(self),
    {
        match port {
            0 => self.c1 = Some(controller),
            1 => self.c2 = Some(controller),
            _ => {},
        }
    }

    /// Charges internal cycles to the shared counter.
    pub fn add_cycles(&mut self, n: u64)
        requires
            old(self).cycles + n <= u64::MAX,
        ensures
            final(self).cycles == old(self).cycles + n,
            final(self).only_cycles(old(self)),
    {
        self.cycles = self.cycles + n;
    }

    /// Dispatches a single-byte read by address range, costing one
    /// cycle. Reads of the status, data and sprite-data picture
    /// registers, and controller reads, have their documented side
    /// effects; a read of a write-only register or unmapped address is
    /// a fatal protocol violation.
    pub fn read(&mut self, addr: u16) -> (r: Result<u8, Fault>)
        requires
            old(self).wf(),
            old(self).cycles < 0x1000_0000,
        ensures
            final(self).wf(),
            final(self).same_rom(old(self)),
            final(self).cycles == old(self).cycles + 1,
            final(self).same_ram(old(self)),
            final(self).ppu.renders == old(self).ppu.renders,
            final(self).nmis == old(self).nmis,
            final(self).apu.pending@ == old(self).apu.pending@,
            r matches Err(f) ==> f is BusReadViolation || f is VramReadOutOfRange,
            Self::read_refused(addr) ==> r == Err::<u8, Fault>(Fault::BusReadViolation(addr))
                && final(self).only_cycles(old(self)),
            addr < 0x2000 ==> r == Ok::<u8, Fault>(old(self).ram@[(addr % 0x800) as int])
                && final(self).only_cycles(old(self)),
            addr >= 0x8000 ==> r == Ok::<u8, Fault>(old(self).text@[(addr % 0x8000) as int])
                && final(self).only_cycles(old(self)),
            (0x2000 <= addr < 0x4000 && addr % 8 == 2) ==> r == Ok::<u8, Fault>(
                Ppu::spec_status(old(self).ppu, old(self).cycles),
            ) && final(self).ppu == (Ppu {
                ppustatus: Ppu::spec_status(old(self).ppu, old(self).cycles),
                latch: false,
                ..old(self).ppu
            }) && final(self).same_apu(old(self)) && final(self).same_pads(old(self)),
            (0x2000 <= addr < 0x4000 && addr % 8 == 4) ==> r == Ok::<u8, Fault>(
                old(self).ppu.oam@[old(self).ppu.oamaddr as int],
            ) && final(self).only_cycles(old(self)),
            (0x2000 <= addr < 0x4000 && addr % 8 == 7) ==> final(self).same_apu(old(self))
                && final(self).same_pads(old(self)) && Ppu::read_data_rel(
                old(self).ppu,
                final(self).ppu,
                r,
            ),
            addr == 0x4015 ==> r == Ok::<u8, Fault>(old(self).apu.channel_status) && final(self).only_cycles(old(self)),
            addr == 0x4016 ==> final(self).same_ppu(old(self)) && final(self).same_apu(old(self))
                && final(self).c_strobe == old(self).c_strobe && final(self).c2 == old(self).c2
                && final(self).c2_index == old(self).c2_index && (if old(self).c_strobe {
                final(self).c1_index == old(self).c1_index && (old(self).c1 is None ==> r == Ok::<
                    u8,
                    Fault,
                >(0x40) && final(self).c1 is None) && (r == Ok::<u8, Fault>(0x40) || r == Ok::<
                    u8,
                    Fault,
                >(0x41))
            } else {
                final(self).c1 == old(self).c1 && final(self).c1_index == (if old(self).c1_index
                    < 8 {
                    (old(self).c1_index + 1) as u8
                } else {
                    old(self).c1_index
                }) && (old(self).c1 is None ==> r == (if old(self).c1_index < 8 {
                    Ok::<u8, Fault>(0x40)
                } else {
                    Ok::<u8, Fault>(0x41)
                })) && (old(self).c1_index >= 8 ==> r == Ok::<u8, Fault>(0x41)) && (r == Ok::<
                    u8,
                    Fault,
                >(0x40) || r == Ok::<u8, Fault>(0x41))
            }),
            addr == 0x4017 ==> final(self).same_ppu(old(self)) && final(self).same_apu(old(self))
                && final(self).c_strobe == old(self).c_strobe && final(self).c1 == old(self).c1
                && final(self).c1_index == old(self).c1_index && (if old(self).c_strobe {
                final(self).c2_index == old(self).c2_index && (old(self).c2 is None ==> r == Ok::<
                    u8,
                    Fault,
                >(0x40) && final(self).c2 is None) && (r == Ok::<u8, Fault>(0x40) || r == Ok::<
                    u8,
                    Fault,
                >(0x41))
            } else {
                final(self).c2 == old(self).c2 && final(self).c2_index == (if old(self).c2_index
                    < 8 {
                    (old(self).c2_index + 1) as u8
                } else {
                    old(self).c2_index
                }) && (old(self).c2 is None ==> r == (if old(self).c2_index < 8 {
                    Ok::<u8, Fault>(0x40)
                } else {
                    Ok::<u8, Fault>(0x41)
                })) && (old(self).c2_index >= 8 ==> r == Ok::<u8, Fault>(0x41)) && (r == Ok::<
                    u8,
                    Fault,
                >(0x40) || r == Ok::<u8, Fault>(0x41))
            }),
    {
        self.cycles = self.cycles + 1;
        if addr < 0x2000 {
            Ok(self.ram[(addr % 0x800) as usize])
        } else if addr < 0x4000 {
            match addr % 8 {
                2 => {
                    let cyc = self.cycles - 1;
                    Ok(self.ppu.read_ppustatus(cyc))
                },
                4 => Ok(self.ppu.read_oamdata()),
                7 => self.ppu.read_ppudata(),
                _ => Err(Fault::BusReadViolation(addr)),
            }
        } else if addr >= 0x8000 {
            Ok(self.text[(addr % 0x8000) as usize])
        } else if addr == 0x4015 {
            Ok(self.apu.read_snd_chn())
        } else if addr == 0x4016 {
            if self.c_strobe {
                match &mut self.c1 {
                    Some(c1) => {
                        c1.poll();
                        let bit: u8 = if c1.a() {
                            1
                        } else {
                            0
                        };
                        Ok(0x40 + bit)
                    },
                    None => Ok(0x40),
                }
            } else {
                let index = self.c1_index;
                let state: bool = match &self.c1 {
                    Some(c1) => {
                        let pad = snapshot_pad(c1);
                        pad_bit(&pad, index)
                    },
                    None => index >= 8,
                };
                if self.c1_index < 8 {
                    self.c1_index = self.c1_index + 1;
                }
                Ok(
                    0x40 + (if state {
                        1u8
                    } else {
                        0u8
                    }),
                )
            }
        } else if addr == 0x4017 {
            if self.c_strobe {
                match &mut self.c2 {
                    Some(c2) => {
                        c2.poll();
                        let bit: u8 = if c2.a() {
                            1
                        } else {
                            0
                        };
                        Ok(0x40 + bit)
                    },
                    None => Ok(0x40),
                }
            } else {
                let index = self.c2_index;
                let state: bool = match &self.c2 {
                    Some(c2) => {
                        let pad = snapshot_pad(c2);
                        pad_bit(&pad, index)
                    },
                    None => index >= 8,
                };
                if self.c2_index < 8 {
                    self.c2_index = self.c2_index + 1;
                }
                Ok(
                    0x40 + (if state {
                        1u8
                    } else {
                        0u8
                    }),
                )
            }
        } else {
            Err(Fault::BusReadViolation(addr))
        }
    }

    /// Dispatches a single-byte write by address range, costing one
    /// cycle. Sound-register writes are forwarded to the sink; a write
    /// of the sprite-table transfer address performs the 256-byte
    /// transfer, each source read costing one further cycle; a write of
    /// a read-only register or unmapped address is a fatal protocol
    /// violation.
    pub fn write(&mut self, addr: u16, value: u8) -> (r: Result<(), Fault>)
        requires
            old(self).wf(),
            old(self).cycles < 0xfff_f000,
        ensures
            final(self).wf(),
            final(self).same_rom(old(self)),
            old(self).cycles + 1 <= final(self).cycles <= old(self).cycles + 257,
            addr != 0x4014 ==> final(self).cycles == old(self).cycles + 1,
            final(self).ppu.renders == old(self).ppu.renders,
            final(self).nmis == old(self).nmis,
            r matches Err(f) ==> f is BusWriteViolation || f is VramWriteOutOfRange
                || f is BusReadViolation,
            Self::write_refused(addr) ==> r == Err::<(), Fault>(Fault::BusWriteViolation(addr))
                && final(self).only_cycles(old(self)),
            addr < 0x2000 ==> r == Ok::<(), Fault>(()) && final(self).ram@ == old(self).ram@.update((addr % 0x800) as int, value) && final(self).same_ppu(old(self))
                && final(self).same_apu(old(self)) && final(self).same_pads(old(self)),
            (0x2000 <= addr < 0x4000 && addr % 8 == 0) ==> r == Ok::<(), Fault>(()) && final(self).ppu == (Ppu { ppuctrl: value, ..old(self).ppu }) && final(self).same_ram(old(self))
                && final(self).same_apu(old(self)) && final(self).same_pads(old(self)),
            (0x2000 <= addr < 0x4000 && addr % 8 == 1) ==> r == Ok::<(), Fault>(()) && final(self).ppu == (Ppu { ppumask: value, ..old(self).ppu }) && final(self).same_ram(old(self))
                && final(self).same_apu(old(self)) && final(self).same_pads(old(self)),
            (0x2000 <= addr < 0x4000 && addr % 8 == 3) ==> r == Ok::<(), Fault>(()) && final(self).ppu == (Ppu { oamaddr: value, ..old(self).ppu }) && final(self).same_ram(old(self))
                && final(self).same_apu(old(self)) && final(self).same_pads(old(self)),
            (0x2000 <= addr < 0x4000 && addr % 8 == 4) ==> r == Ok::<(), Fault>(()) && final(self).ppu == (Ppu {
                oam: final(self).ppu.oam,
                oamaddr: old(self).ppu.oamaddr.wrapping_add(1),
                ..old(self).ppu
            }) && final(self).ppu.oam@ == old(self).ppu.oam@.update(
                old(self).ppu.oamaddr as int,
                value,
            ) && final(self).same_ram(old(self)) && final(self).same_apu(old(self)) && final(self).same_pads(old(self)),
            (0x2000 <= addr < 0x4000 && addr % 8 == 5) ==> r == Ok::<(), Fault>(()) && final(self).ppu == (if old(self).ppu.latch {
                Ppu { ppuscroll_y: value, latch: false, ..old(self).ppu }
            } else {
                Ppu { ppuscroll_x: value, latch: true, ..old(self).ppu }
            }) && final(self).same_ram(old(self)) && final(self).same_apu(old(self)) && final(self).same_pads(old(self)),
            (0x2000 <= addr < 0x4000 && addr % 8 == 6) ==> r == Ok::<(), Fault>(()) && final(self).ppu == (if old(self).ppu.latch {
                Ppu {
                    ppuaddr: ((old(self).ppu.ppuaddr / 256) * 256 + value) as u16,
                    latch: false,
                    ..old(self).ppu
                }
            } else {
                Ppu {
                    ppuaddr: ((value as u16) * 256 + old(self).ppu.ppuaddr % 256) as u16,
                    latch: true,
                    ..old(self).ppu
                }
            }) && final(self).same_ram(old(self)) && final(self).same_apu(old(self)) && final(self).same_pads(old(self)),
            (0x2000 <= addr < 0x4000 && addr % 8 == 7) ==> final(self).same_ram(old(self))
                && final(self).same_apu(old(self)) && final(self).same_pads(old(self))
                && Ppu::write_data_rel(old(self).ppu, final(self).ppu, value, r),
            Self::sound_write_addr(addr) ==> r == Ok::<(), Fault>(()) && final(self).apu.pending@ == old(self).apu.pending@.push((addr, value)) && final(self).apu.channel_status == old(self).apu.channel_status && final(self).same_ram(
                old(self),
            ) && final(self).same_ppu(old(self)) && final(self).same_pads(old(self)),
            (0x4010 <= addr <= 0x4013) ==> r == Ok::<(), Fault>(()) && final(self).only_cycles(
                old(self),
            ),
            addr == 0x4016 ==> r == Ok::<(), Fault>(()) && final(self).same_ram(old(self))
                && final(self).same_ppu(old(self)) && final(self).same_apu(old(self)) && final(self).c_strobe == (value % 2 == 1) && (if old(self).c_strobe && value % 2 == 0 {
                final(self).c1_index == 0 && final(self).c2_index == 0
            } else {
                final(self).c1 == old(self).c1 && final(self).c2 == old(self).c2 && final(self).c1_index == old(self).c1_index && final(self).c2_index == old(self).c2_index
            }),
            addr == 0x4014 ==> final(self).same_ram(old(self)) && final(self).same_apu(old(self))
                && final(self).same_pads(old(self)) && (if value < 0x20 {
                r == Ok::<(), Fault>(()) && final(self).cycles == old(self).cycles + 257 && final(self).ppu == (Ppu { oam: final(self).ppu.oam, ..old(self).ppu }) && final(self).ppu.oam@.len() == 0x100 && (forall|k: int|
                    0 <= k < 256 ==> final(self).ppu.oam@[k] == old(self).ram@[((value * 256 + ((k
                        - old(self).ppu.oamaddr) % 256)) % 0x800) as int])
            } else if value < 0x80 {
                r == Err::<(), Fault>(Fault::BusReadViolation(((value as u16) * 256) as u16)) && final(self).cycles == old(self).cycles + 2 && final(self).same_ppu(old(self))
            } else {
                r == Ok::<(), Fault>(()) && final(self).cycles == old(self).cycles + 257 && final(self).ppu == (Ppu { oam: final(self).ppu.oam, ..old(self).ppu }) && final(self).ppu.oam@.len() == 0x100 && (forall|k: int|
                    0 <= k < 256 ==> final(self).ppu.oam@[k] == old(self).text@[((value - 0x80)
                        * 256 + ((k - old(self).ppu.oamaddr) % 256)) as int])
            }),
    {
        self.cycles = self.cycles + 1;
        if addr < 0x2000 {
            self.ram.set((addr % 0x800) as usize, value);
            Ok(())
        } else if addr < 0x4000 {
            match addr % 8 {
                0 => {
                    self.ppu.write_ppuctrl(value);
                    Ok(())
                },
                1 => {
                    self.ppu.write_ppumask(value);
                    Ok(())
                },
                3 => {
                    self.ppu.write_oamaddr(value);
                    Ok(())
                },
                4 => {
                    self.ppu.write_oamdata(value);
                    Ok(())
                },
                5 => {
                    self.ppu.write_ppuscroll(value);
                    Ok(())
                },
                6 => {
                    self.ppu.write_ppuaddr(value);
                    Ok(())
                },
                7 => self.ppu.write_ppudata(value),
                _ => Err(Fault::BusWriteViolation(addr)),
            }
        } else if addr == 0x4000 {
            self.apu.write_sq1_vol(value);
            Ok(())
        } else if addr == 0x4001 {
            self.apu.write_sq1_sweep(value);
            Ok(())
        } else if addr == 0x4002 {
            self.apu.write_sq1_lo(value);
            Ok(())
        } else if addr == 0x4003 {
            self.apu.write_sq1_hi(value);
            Ok(())
        } else if addr == 0x4004 {
            self.apu.write_sq2_vol(value);
            Ok(())
        } else if addr == 0x4005 {
            self.apu.write_sq2_sweep(value);
            Ok(())
        } else if addr == 0x4006 {
            self.apu.write_sq2_lo(value);
            Ok(())
        } else if addr == 0x4007 {
            self.apu.write_sq2_hi(value);
            Ok(())
        } else if addr == 0x4008 {
            self.apu.write_tri_linear(value);
            Ok(())
        } else if addr == 0x400a {
            self.apu.write_tri_lo(value);
            Ok(())
        } else if addr == 0x400b {
            self.apu.write_tri_hi(value);
            Ok(())
        } else if addr == 0x400c {
            self.apu.write_noise_vol(value);
            Ok(())
        } else if addr == 0x400e {
            self.apu.write_noise_lo(value);
            Ok(())
        } else if addr == 0x400f {
            self.apu.write_noise_hi(value);
            Ok(())
        } else if addr == 0x4010 {
            self.apu.write_dmc_freq(value);
            Ok(())
        } else if addr == 0x4011 {
            self.apu.write_dmc_raw(value);
            Ok(())
        } else if addr == 0x4012 {
            self.apu.write_dmc_start(value);
            Ok(())
        } else if addr == 0x4013 {
            self.apu.write_dmc_len(value);
            Ok(())
        } else if addr == 0x4014 {
            self.sprite_dma(value)
        } else if addr == 0x4015 {
            self.apu.write_snd_chn(value);
            Ok(())
        } else if addr == 0x4016 {
            let new_strobe: bool = value % 2 == 1;
            if self.c_strobe && !new_strobe {
                match &mut self.c1 {
                    Some(c1) => c1.poll(),
                    None => {},
                }
                match &mut self.c2 {
                    Some(c2) => c2.poll(),
                    None => {},
                }
                self.c1_index = 0;
                self.c2_index = 0;
            }
            self.c_strobe = new_strobe;
            Ok(())
        } else if addr == 0x4017 {
            self.apu.write_joy2(value);
            Ok(())
        } else {
            Err(Fault::BusWriteViolation(addr))
        }
    }

    /// The sound/IO addresses whose writes are forwarded verbatim to
    /// the sink.
    pub open spec fn sound_write_addr(addr: u16) -> bool {
        ||| (0x4000 <= addr <= 0x4008)
        ||| (0x400a <= addr <= 0x400c)
        ||| addr == 0x400e
        ||| addr == 0x400f
        ||| addr == 0x4015
        ||| addr == 0x4017
    }

    /// The sprite-table transfer: 256 sequential reads from the
    /// selected source page, each byte forwarded to the sprite-table
    /// write entry point and each read costing one cycle.
    fn sprite_dma(&mut self, value: u8) -> (r: Result<(), Fault>)
        requires
            old(self).wf(),
            old(self).cycles < 0xfff_f000 + 1,
            old(self).cycles >= 1,
        ensures
            final(self).wf(),
            final(self).same_rom(old(self)),
            final(self).same_ram(old(self)),
            final(self).same_apu(old(self)),
            final(self).same_pads(old(self)),
            final(self).ppu.renders == old(self).ppu.renders,
            final(self).nmis == old(self).nmis,
            (if value < 0x20 {
                r == Ok::<(), Fault>(()) && final(self).cycles == old(self).cycles + 256 && final(self).ppu == (Ppu { oam: final(self).ppu.oam, ..old(self).ppu }) && final(self).ppu.oam@.len() == 0x100 && (forall|k: int|
                    0 <= k < 256 ==> final(self).ppu.oam@[k] == old(self).ram@[((value * 256 + ((k
                        - old(self).ppu.oamaddr) % 256)) % 0x800) as int])
            } else if value < 0x80 {
                r == Err::<(), Fault>(Fault::BusReadViolation(((value as u16) * 256) as u16)) && final(self).cycles == old(self).cycles + 1 && final(self).same_ppu(old(self))
            } else {
                r == Ok::<(), Fault>(()) && final(self).cycles == old(self).cycles + 256 && final(self).ppu == (Ppu { oam: final(self).ppu.oam, ..old(self).ppu }) && final(self).ppu.oam@.len() == 0x100 && (forall|k: int|
                    0 <= k < 256 ==> final(self).ppu.oam@[k] == old(self).text@[((value - 0x80)
                        * 256 + ((k - old(self).ppu.oamaddr) % 256)) as int])
            }),
    {
        let page: u16 = (value as u16) * 256;
        if value >= 0x20 && value < 0x80 {
            let r = self.read(page);
            match r {
                Err(e) => Err(e),
                Ok(_) => {
                    proof {
                        assert(Self::read_refused(page));
                        assert(false);
                    }
                    Ok(())
                },
            }
        } else {
            let ghost a0 = self.ppu.oamaddr as int;
            let mut i: usize = 0;
            while i < 256
                invariant
                    self.wf(),
                    i <= 256,
                    value < 0x20 || value >= 0x80,
                    page == (value as u16) * 256,
                    self.cycles == old(self).cycles + i,
                    old(self).cycles >= 1,
                    old(self).cycles < 0xfff_f000 + 1,
                    self.same_rom(old(self)),
                    self.same_ram(old(self)),
                    self.same_apu(old(self)),
                    self.same_pads(old(self)),
                    self.nmis == old(self).nmis,
                    a0 == old(self).ppu.oamaddr as int,
                    self.ppu.oamaddr as int == (a0 + i) % 256,
                    self.ppu == (Ppu {
                        oam: self.ppu.oam,
                        oamaddr: self.ppu.oamaddr,
                        ..old(self).ppu
                    }),
                    self.ppu.oam@.len() == 0x100,
                    forall|k: int|
                        0 <= k < 256 && (k - a0) % 256 < i ==> self.ppu.oam@[k] == (if value < 0x20 {
                            old(self).ram@[((value * 256 + ((k - a0) % 256)) % 0x800) as int]
                        } else {
                            old(self).text@[((value - 0x80) * 256 + ((k - a0) % 256)) as int]
                        }),
                    forall|k: int|
                        0 <= k < 256 && (k - a0) % 256 >= i ==> self.ppu.oam@[k] == old(self).ppu.oam@[k],
                decreases 256 - i,
            {
                let addr: u16 = page + i as u16;
                let rb = self.read(addr);
                let b: u8 = match rb {
                    Ok(b) => b,
                    Err(_) => {
                        proof {
                            assert(addr < 0x2000 || addr >= 0x8000);
                            assert(false);
                        }
                        0
                    },
                };
                proof {
                    assert((self.ppu.oamaddr as int - a0) % 256 == i as int) by (nonlinear_arith)
                        requires
                            self.ppu.oamaddr as int == (a0 + i) % 256,
                            0 <= a0 < 256,
                            0 <= i < 256,
                    ;
                }
                self.ppu.write_oamdata(b);
                proof {
                    assert(self.ppu.oamaddr as int == (a0 + i + 1) % 256) by (nonlinear_arith)
                        requires
                            self.ppu.oamaddr as int == (if (a0 + i) % 256 == 255 {
                                0int
                            } else {
                                (a0 + i) % 256 + 1
                            }),
                            0 <= a0 < 256,
                            0 <= i < 256,
                    ;
                    assert forall|k: int| 0 <= k < 256 && k != (a0 + i as int) % 256 implies #[trigger] ((k
                        - a0) % 256) != i as int by {
                        lemma_mod_shift_distinct(k, a0, i as int);
                    }
                }
                i = i + 1;
            }
            Ok(())
        }
    }

    /// Two single-byte reads, low byte first, from `addr` and its
    /// wrapping successor.
    pub fn read16(&mut self, addr: u16) -> (r: Result<u16, Fault>)
        requires
            old(self).wf(),
            old(self).cycles < 0xfff_f000,
        ensures
            final(self).wf(),
            final(self).same_rom(old(self)),
            final(self).same_ram(old(self)),
            old(self).cycles + 1 <= final(self).cycles <= old(self).cycles + 2,
            r is Ok ==> final(self).cycles == old(self).cycles + 2,
            final(self).ppu.renders == old(self).ppu.renders,
            final(self).nmis == old(self).nmis,
            r matches Err(f) ==> f is BusReadViolation || f is VramReadOutOfRange,
            Self::pure_pair(addr) ==> r == Ok::<u16, Fault>(
                Self::pure_16(*old(self), addr),
            ) && final(self).only_cycles(old(self)) && final(self).cycles == old(self).cycles + 2,
    {
        let lo = self.read(addr)?;
        let hi = self.read(addr.wrapping_add(1))?;
        Ok((lo as u16) + (hi as u16) * 256)
    }

    /// An address whose read has no side effect: RAM or the cartridge
    /// window.
    pub open spec fn pure_addr(addr: u16) -> bool {
        addr < 0x2000 || addr >= 0x8000
    }

    /// An address whose read and that of its successor both have no
    /// side effect.
    pub open spec fn pure_pair(addr: u16) -> bool {
        addr < 0x1fff || (0x8000 <= addr < 0xffff)
    }

    /// The byte read from a side-effect-free address.
    pub open spec fn pure_byte(pre: Self, addr: u16) -> u8 {
        if addr < 0x2000 {
            pre.ram@[(addr % 0x800) as int]
        } else {
            pre.text@[(addr % 0x8000) as int]
        }
    }

    /// The 16-bit value read from a side-effect-free address pair:
    /// both bytes from RAM, or both from the cartridge window.
    pub open spec fn pure_16(pre: Self, addr: u16) -> u16 {
        let lo = if addr < 0x2000 {
            pre.ram@[(addr % 0x800) as int]
        } else {
            pre.text@[(addr % 0x8000) as int]
        };
        let hi = if addr + 1 < 0x2000 {
            pre.ram@[((addr + 1) % 0x800) as int]
        } else {
            pre.text@[((addr + 1) % 0x8000) as int]
        };
        (lo + hi * 256) as u16
    }

    /// Two single-byte writes, low byte first, to `addr` and its
    /// wrapping successor.
    pub fn write16(&mut self, addr: u16, value: u16) -> (r: Result<(), Fault>)
        requires
            old(self).wf(),
            old(self).cycles < 0xfff_e000,
        ensures
            final(self).wf(),
            final(self).same_rom(old(self)),
            old(self).cycles + 1 <= final(self).cycles <= old(self).cycles + 514,
            final(self).ppu.renders == old(self).ppu.renders,
            final(self).nmis == old(self).nmis,
            r matches Err(f) ==> f is BusWriteViolation || f is VramWriteOutOfRange
                || f is BusReadViolation,
            (addr + 1 < 0x2000) ==> r == Ok::<(), Fault>(()) && final(self).cycles == old(self).cycles + 2 && final(self).ram@ == old(self).ram@.update(
                (addr % 0x800) as int,
                (value % 256) as u8,
            ).update(((addr + 1) % 0x800) as int, (value / 256) as u8) && final(self).same_ppu(
                old(self),
            ) && final(self).same_apu(old(self)) && final(self).same_pads(old(self)),
    {
        self.write(addr, (value % 256) as u8)?;
        self.write(addr.wrapping_add(1), (value / 256) as u8)?;
        Ok(())
    }

}

/// Shifting two distinct table slots by the same start keeps their
/// wrapped offsets distinct.
proof fn lemma_mod_shift_distinct(k: int, a0: int, i: int)
    by (nonlinear_arith)
    requires
        0 <= k < 256,
        0 <= a0 < 256,
        0 <= i < 256,
        k != (a0 + i) % 256,
    ensures
        (k - a0) % 256 != i,
{
}

impl<C: Controller> Mem for Memory<C> {
    open spec fn mem_wf(&self) -> bool {
        self.wf()
    }

    open spec fn cycles_ok(&self) -> bool {
        self.cycles < 0xfff_e000
    }

    fn read(&mut self, addr: u16) -> (r: Result<u8, Fault>) {
        Memory::read(self, addr)
    }

    fn write(&mut self, addr: u16, value: u8) -> (r: Result<(), Fault>) {
        Memory::write(self, addr, value)
    }

    fn read16(&mut self, addr: u16) -> (r: Result<u16, Fault>) {
        Memory::read16(self, addr)
    }

    fn write16(&mut self, addr: u16, value: u16) -> (r: Result<(), Fault>) {
        Memory::write16(self, addr, value)
    }
}

} // verus!
