//! The picture-processing unit: video memory, registers, and the
//! once-per-frame render pass.
use vstd::prelude::*;

use crate::Fault;
use crate::color::Color;
use crate::color::XRGB8888;
use crate::framebuffer::Framebuffer;

verus! {

/// The fixed 64-entry hardware color table, as a specification value.
pub open spec fn spec_nes_palette(idx: u8) -> Color {
    match idx {
        0x00 => Color { red: 0x66, green: 0x66, blue: 0x66, alpha: 255 },
        0x01 => Color { red: 0x00, green: 0x2a, blue: 0x88, alpha: 255 },
        0x02 => Color { red: 0x14, green: 0x12, blue: 0xa7, alpha: 255 },
        0x03 => Color { red: 0x3b, green: 0x00, blue: 0xa4, alpha: 255 },
        0x04 => Color { red: 0x5c, green: 0x00, blue: 0x7e, alpha: 255 },
        0x05 => Color { red: 0x6e, green: 0x00, blue: 0x40, alpha: 255 },
        0x06 => Color { red: 0x6c, green: 0x06, blue: 0x00, alpha: 255 },
        0x07 => Color { red: 0x56, green: 0x1d, blue: 0x00, alpha: 255 },
        0x08 => Color { red: 0x33, green: 0x35, blue: 0x00, alpha: 255 },
        0x09 => Color { red: 0x0b, green: 0x48, blue: 0x00, alpha: 255 },
        0x0a => Color { red: 0x00, green: 0x52, blue: 0x00, alpha: 255 },
        0x0b => Color { red: 0x00, green: 0x4f, blue: 0x08, alpha: 255 },
        0x0c => Color { red: 0x00, green: 0x40, blue: 0x4d, alpha: 255 },
        0x0d => Color { red: 0x00, green: 0x00, blue: 0x00, alpha: 255 },
        0x0e => Color { red: 0x00, green: 0x00, blue: 0x00, alpha: 255 },
        0x0f => Color { red: 0x00, green: 0x00, blue: 0x00, alpha: 255 },
        0x10 => Color { red: 0xad, green: 0xad, blue: 0xad, alpha: 255 },
        0x11 => Color { red: 0x15, green: 0x5f, blue: 0xd9, alpha: 255 },
        0x12 => Color { red: 0x42, green: 0x40, blue: 0xff, alpha: 255 },
        0x13 => Color { red: 0x75, green: 0x27, blue: 0xfe, alpha: 255 },
        0x14 => Color { red: 0xa0, green: 0x1a, blue: 0xcc, alpha: 255 },
        0x15 => Color { red: 0xb7, green: 0x1e, blue: 0x7b, alpha: 255 },
        0x16 => Color { red: 0xb5, green: 0x31, blue: 0x20, alpha: 255 },
        0x17 => Color { red: 0x99, green: 0x4e, blue: 0x00, alpha: 255 },
        0x18 => Color { red: 0x6b, green: 0x6d, blue: 0x00, alpha: 255 },
        0x19 => Color { red: 0x38, green: 0x87, blue: 0x00, alpha: 255 },
        0x1a => Color { red: 0x0c, green: 0x93, blue: 0x00, alpha: 255 },
        0x1b => Color { red: 0x00, green: 0x8f, blue: 0x32, alpha: 255 },
        0x1c => Color { red: 0x00, green: 0x7c, blue: 0x8d, alpha: 255 },
        0x1d => Color { red: 0x00, green: 0x00, blue: 0x00, alpha: 255 },
        0x1e => Color { red: 0x00, green: 0x00, blue: 0x00, alpha: 255 },
        0x1f => Color { red: 0x00, green: 0x00, blue: 0x00, alpha: 255 },
        0x20 => Color { red: 0xff, green: 0xfe, blue: 0xff, alpha: 255 },
        0x21 => Color { red: 0x64, green: 0xb0, blue: 0xff, alpha: 255 },
        0x22 => Color { red: 0x92, green: 0x90, blue: 0xff, alpha: 255 },
        0x23 => Color { red: 0xc6, green: 0x76, blue: 0xff, alpha: 255 },
        0x24 => Color { red: 0xf3, green: 0x6a, blue: 0xff, alpha: 255 },
        0x25 => Color { red: 0xfe, green: 0x6e, blue: 0xcc, alpha: 255 },
        0x26 => Color { red: 0xfe, green: 0x81, blue: 0x70, alpha: 255 },
        0x27 => Color { red: 0xea, green: 0x9e, blue: 0x22, alpha: 255 },
        0x28 => Color { red: 0xbc, green: 0xbe, blue: 0x00, alpha: 255 },
        0x29 => Color { red: 0x88, green: 0xd8, blue: 0x00, alpha: 255 },
        0x2a => Color { red: 0x5c, green: 0xe4, blue: 0x30, alpha: 255 },
        0x2b => Color { red: 0x45, green: 0xe0, blue: 0x82, alpha: 255 },
        0x2c => Color { red: 0x48, green: 0xcd, blue: 0xde, alpha: 255 },
        0x2d => Color { red: 0x4f, green: 0x4f, blue: 0x4f, alpha: 255 },
        0x2e => Color { red: 0x00, green: 0x00, blue: 0x00, alpha: 255 },
        0x2f => Color { red: 0x00, green: 0x00, blue: 0x00, alpha: 255 },
        0x30 => Color { red: 0xff, green: 0xfe, blue: 0xff, alpha: 255 },
        0x31 => Color { red: 0xc0, green: 0xdf, blue: 0xff, alpha: 255 },
        0x32 => Color { red: 0xd3, green: 0xd2, blue: 0xff, alpha: 255 },
        0x33 => Color { red: 0xe8, green: 0xc8, blue: 0xff, alpha: 255 },
        0x34 => Color { red: 0xfb, green: 0xc2, blue: 0xff, alpha: 255 },
        0x35 => Color { red: 0xfe, green: 0xc4, blue: 0xea, alpha: 255 },
        0x36 => Color { red: 0xfe, green: 0xcc, blue: 0xc5, alpha: 255 },
        0x37 => Color { red: 0xf7, green: 0xd8, blue: 0xa5, alpha: 255 },
        0x38 => Color { red: 0xe4, green: 0xe5, blue: 0x94, alpha: 255 },
        0x39 => Color { red: 0xcf, green: 0xef, blue: 0x96, alpha: 255 },
        0x3a => Color { red: 0xbd, green: 0xf4, blue: 0xab, alpha: 255 },
        0x3b => Color { red: 0xb3, green: 0xf3, blue: 0xcc, alpha: 255 },
        0x3c => Color { red: 0xb5, green: 0xeb, blue: 0xf2, alpha: 255 },
        0x3d => Color { red: 0xb8, green: 0xb8, blue: 0xb8, alpha: 255 },
        0x3e => Color { red: 0x00, green: 0x00, blue: 0x00, alpha: 255 },
        _ => Color { red: 0x00, green: 0x00, blue: 0x00, alpha: 255 },
    }
}

/// The fixed 64-entry hardware color table.
pub fn nes_palette(idx: u8) -> (c: Color)
    requires
        idx < 64,
    ensures
        c == spec_nes_palette(idx),
        c.alpha == 255,
{
    match idx {
        0x00 => Color::new(0x66, 0x66, 0x66),
        0x01 => Color::new(0x00, 0x2a, 0x88),
        0x02 => Color::new(0x14, 0x12, 0xa7),
        0x03 => Color::new(0x3b, 0x00, 0xa4),
        0x04 => Color::new(0x5c, 0x00, 0x7e),
        0x05 => Color::new(0x6e, 0x00, 0x40),
        0x06 => Color::new(0x6c, 0x06, 0x00),
        0x07 => Color::new(0x56, 0x1d, 0x00),
        0x08 => Color::new(0x33, 0x35, 0x00),
        0x09 => Color::new(0x0b, 0x48, 0x00),
        0x0a => Color::new(0x00, 0x52, 0x00),
        0x0b => Color::new(0x00, 0x4f, 0x08),
        0x0c => Color::new(0x00, 0x40, 0x4d),
        0x0d => Color::new(0x00, 0x00, 0x00),
        0x0e => Color::new(0x00, 0x00, 0x00),
        0x0f => Color::new(0x00, 0x00, 0x00),
        0x10 => Color::new(0xad, 0xad, 0xad),
        0x11 => Color::new(0x15, 0x5f, 0xd9),
        0x12 => Color::new(0x42, 0x40, 0xff),
        0x13 => Color::new(0x75, 0x27, 0xfe),
        0x14 => Color::new(0xa0, 0x1a, 0xcc),
        0x15 => Color::new(0xb7, 0x1e, 0x7b),
        0x16 => Color::new(0xb5, 0x31, 0x20),
        0x17 => Color::new(0x99, 0x4e, 0x00),
        0x18 => Color::new(0x6b, 0x6d, 0x00),
        0x19 => Color::new(0x38, 0x87, 0x00),
        0x1a => Color::new(0x0c, 0x93, 0x00),
        0x1b => Color::new(0x00, 0x8f, 0x32),
        0x1c => Color::new(0x00, 0x7c, 0x8d),
        0x1d => Color::new(0x00, 0x00, 0x00),
        0x1e => Color::new(0x00, 0x00, 0x00),
        0x1f => Color::new(0x00, 0x00, 0x00),
        0x20 => Color::new(0xff, 0xfe, 0xff),
        0x21 => Color::new(0x64, 0xb0, 0xff),
        0x22 => Color::new(0x92, 0x90, 0xff),
        0x23 => Color::new(0xc6, 0x76, 0xff),
        0x24 => Color::new(0xf3, 0x6a, 0xff),
        0x25 => Color::new(0xfe, 0x6e, 0xcc),
        0x26 => Color::new(0xfe, 0x81, 0x70),
        0x27 => Color::new(0xea, 0x9e, 0x22),
        0x28 => Color::new(0xbc, 0xbe, 0x00),
        0x29 => Color::new(0x88, 0xd8, 0x00),
        0x2a => Color::new(0x5c, 0xe4, 0x30),
        0x2b => Color::new(0x45, 0xe0, 0x82),
        0x2c => Color::new(0x48, 0xcd, 0xde),
        0x2d => Color::new(0x4f, 0x4f, 0x4f),
        0x2e => Color::new(0x00, 0x00, 0x00),
        0x2f => Color::new(0x00, 0x00, 0x00),
        0x30 => Color::new(0xff, 0xfe, 0xff),
        0x31 => Color::new(0xc0, 0xdf, 0xff),
        0x32 => Color::new(0xd3, 0xd2, 0xff),
        0x33 => Color::new(0xe8, 0xc8, 0xff),
        0x34 => Color::new(0xfb, 0xc2, 0xff),
        0x35 => Color::new(0xfe, 0xc4, 0xea),
        0x36 => Color::new(0xfe, 0xcc, 0xc5),
        0x37 => Color::new(0xf7, 0xd8, 0xa5),
        0x38 => Color::new(0xe4, 0xe5, 0x94),
        0x39 => Color::new(0xcf, 0xef, 0x96),
        0x3a => Color::new(0xbd, 0xf4, 0xab),
        0x3b => Color::new(0xb3, 0xf3, 0xcc),
        0x3c => Color::new(0xb5, 0xeb, 0xf2),
        0x3d => Color::new(0xb8, 0xb8, 0xb8),
        0x3e => Color::new(0x00, 0x00, 0x00),
        _ => Color::new(0x00, 0x00, 0x00),
    }
}

/// The pixel a decoded pattern sheet holds at flat index `k`.
///
/// A sheet lays 256 tiles of 8 by 8 pixels out as a 128-by-128 grid, 16
/// tiles to a row. Each pattern byte pair (the low plane at tile offset
/// `row`, the high plane 8 bytes later) yields one row of 2-bit pixels,
/// leftmost pixel in the highest bit.
pub open spec fn pattern_pixel(chr: Seq<u8>, base: int, k: int) -> u8 {
    let t = (k / 1024) * 16 + (k % 128) / 8;
    let row = (k / 128) % 8;
    let col = k % 8;
    let lo = (chr[base + t * 16 + row] >> ((7 - col) as u32)) & 1;
    let hi = (chr[base + t * 16 + 8 + row] >> ((7 - col) as u32)) & 1;
    (hi * 2 + lo) as u8
}

/// The lowest bit of a shifted byte is 0 or 1.
proof fn lemma_low_bit_bound(b: u8, s: u32)
    by (bit_vector)
    ensures
        ((b >> s) & 1) <= 1,
{
}

/// Decodes 4 KB of 2-bit-per-pixel pattern data into a flat 128-by-128
/// sheet of pixel values 0 to 3.
fn decode_sheet(chr: &Vec<u8>, base: usize) -> (sheet: Vec<u8>)
    requires
        base + 0x1000 <= chr@.len(),
    ensures
        sheet@.len() == 0x4000,
        forall|k: int| 0 <= k < 0x4000 ==> sheet@[k] == pattern_pixel(chr@, base as int, k),
        forall|k: int| 0 <= k < 0x4000 ==> sheet@[k] <= 3,
{
    let clen: usize = chr.len();
    let mut sheet: Vec<u8> = Vec::new();
    let mut k: usize = 0;
    while k < 0x4000
        invariant
            base + 0x1000 <= chr@.len(),
            clen == chr@.len(),
            k <= 0x4000,
            sheet@.len() == k,
            forall|m: int| 0 <= m < k ==> sheet@[m] == pattern_pixel(chr@, base as int, m),
            forall|m: int| 0 <= m < k ==> sheet@[m] <= 3,
        decreases 0x4000 - k,
    {
        let t: usize = (k / 1024) * 16 + (k % 128) / 8;
        let row: usize = (k / 128) % 8;
        let col: usize = k % 8;
        let lo: u8 = (chr[base + t * 16 + row] >> ((7 - col) as u32)) & 1;
        let hi: u8 = (chr[base + t * 16 + 8 + row] >> ((7 - col) as u32)) & 1;
        proof {
            lemma_low_bit_bound(chr@[base + t * 16 + row], (7 - col) as u32);
            lemma_low_bit_bound(chr@[base + t * 16 + 8 + row], (7 - col) as u32);
        }
        sheet.push(hi * 2 + lo);
        k = k + 1;
    }
    sheet
}

/// The picture unit. All state is built once from the cartridge's
/// graphics data and mutates only through the register entry points and
/// the render pass.
pub struct Ppu {
    /// The 256-by-240 output buffer.
    pub framebuffer: Framebuffer,
    /// The raw 8 KB of read-only pattern memory.
    pub chr: Vec<u8>,
    /// Pattern bank 0, decoded to one pixel value per byte.
    pub chr0: Vec<u8>,
    /// Pattern bank 1, decoded likewise.
    pub chr1: Vec<u8>,
    /// The shared backdrop color, from palette entry 0.
    pub bg: Color,
    /// Resolved palette colors, 8 groups of 4; entry 0 of each group is
    /// transparent.
    pub palette: Vec<Color>,
    /// 2 KB of nametable storage.
    pub mem: Vec<u8>,
    /// The 32 bytes of palette memory.
    pub pal: Vec<u8>,
    /// The 256-byte sprite table.
    pub oam: Vec<u8>,
    /// The write toggle shared by the scroll and address registers.
    pub latch: bool,
    pub ppuctrl: u8,
    pub ppumask: u8,
    pub ppustatus: u8,
    pub oamaddr: u8,
    pub ppuscroll_x: u8,
    pub ppuscroll_y: u8,
    pub ppuaddr: u16,
    /// The one-byte read-ahead buffer for buffered video-memory reads.
    pub ppudata_buf: u8,
    /// Ghost count of completed render passes, so the frame scheduler
    /// can promise the render runs exactly once per frame.
    pub renders: Ghost<int>,
}

impl Ppu {
    /// Sizes of all the owned stores, and the palette transparency rule.
    pub open spec fn wf(&self) -> bool {
        &&& self.framebuffer.wf()
        &&& self.framebuffer.spec_width() == 256
        &&& self.framebuffer.spec_height() == 240
        &&& self.chr@.len() == 0x2000
        &&& self.chr0@.len() == 0x4000
        &&& self.chr1@.len() == 0x4000
        &&& self.palette@.len() == 32
        &&& self.mem@.len() == 0x800
        &&& self.pal@.len() == 32
        &&& self.oam@.len() == 0x100
        &&& forall|k: int| 0 <= k < 32 && k % 4 == 0 ==> self.palette@[k].alpha == 0
        &&& forall|k: int| 0 <= k < 32 && k % 4 != 0 ==> self.palette@[k].alpha == 255
        &&& forall|k: int| 0 <= k < 0x4000 ==> self.chr0@[k] <= 3
        &&& forall|k: int| 0 <= k < 0x4000 ==> self.chr1@[k] <= 3
    }

    /// Everything the cartridge fixed at load: the pattern stores.
    pub open spec fn same_rom(&self, other: &Ppu) -> bool {
        &&& self.chr@ == other.chr@
        &&& self.chr0@ == other.chr0@
        &&& self.chr1@ == other.chr1@
    }

    /// Builds the unit around 8 KB of pattern data.
    pub fn new(chr: Vec<u8>) -> (ppu: Ppu)
        requires
            chr@.len() == 0x2000,
        ensures
            ppu.wf(),
            ppu.chr@ == chr@,
            forall|k: int| 0 <= k < 0x4000 ==> ppu.chr0@[k] == pattern_pixel(chr@, 0, k),
            forall|k: int| 0 <= k < 0x4000 ==> ppu.chr1@[k] == pattern_pixel(chr@, 0x1000, k),
            ppu.latch == false,
            ppu.ppuctrl == 0,
            ppu.ppumask == 0,
            ppu.ppustatus == 0,
            ppu.oamaddr == 0,
            ppu.ppuscroll_x == 0,
            ppu.ppuscroll_y == 0,
            ppu.ppuaddr == 0,
            ppu.ppudata_buf == 0,
            ppu.renders@ == 0,
            forall|k: int| 0 <= k < 0x800 ==> ppu.mem@[k] == 0u8,
            forall|k: int| 0 <= k < 32 ==> ppu.pal@[k] == 0u8,
            forall|k: int| 0 <= k < 0x100 ==> ppu.oam@[k] == 0u8,
    {
        let chr0 = decode_sheet(&chr, 0);
        let chr1 = decode_sheet(&chr, 0x1000);
        let opaque0 = nes_palette(0);
        let mut palette: Vec<Color> = Vec::new();
        let mut k: usize = 0;
        while k < 32
            invariant
                k <= 32,
                palette@.len() == k,
                opaque0.alpha == 255,
                forall|m: int| 0 <= m < k && m % 4 == 0 ==> palette@[m].alpha == 0,
                forall|m: int| 0 <= m < k && m % 4 != 0 ==> palette@[m].alpha == 255,
            decreases 32 - k,
        {
            if k % 4 == 0 {
                palette.push(Color::transparent());
            } else {
                palette.push(opaque0);
            }
            k = k + 1;
        }
        Ppu {
            framebuffer: Framebuffer::new(256, 240),
            chr,
            chr0,
            chr1,
            bg: nes_palette(0),
            palette,
            mem: zero_vec(0x800),
            pal: zero_vec(32),
            oam: zero_vec(0x100),
            latch: false,
            ppuctrl: 0,
            ppumask: 0,
            ppustatus: 0,
            oamaddr: 0,
            ppuscroll_x: 0,
            ppuscroll_y: 0,
            ppuaddr: 0,
            ppudata_buf: 0,
            renders: Ghost(0),
        }
    }

    pub fn framebuffer(&self) -> (fb: &Framebuffer)
        ensures
            fb == &self.framebuffer,
    {
        &self.framebuffer
    }

    /// Fills the output buffer with the backdrop color.
    pub fn clear(&mut self)
        requires
            old(self).wf(),
        ensures
            final(self).wf(),
            *final(self) == (Ppu { framebuffer: final(self).framebuffer, ..*old(self) }),
            forall|i: int, j: int|
                0 <= i < 256 && 0 <= j < 240 ==> final(self).framebuffer.pixel(i, j) == (XRGB8888 {
                    red: old(self).bg.red,
                    green: old(self).bg.green,
                    blue: old(self).bg.blue,
                }),
    {
        let bg = self.bg;
        self.framebuffer.clear(bg);
    }

    pub fn write_ppuctrl(&mut self, value: u8)
        ensures
            *final(self) == (Ppu { ppuctrl: value, ..*old(self) }),
    {
        self.ppuctrl = value;
    }

    pub fn write_ppumask(&mut self, value: u8)
        ensures
            *final(self) == (Ppu { ppumask: value, ..*old(self) }),
    {
        self.ppumask = value;
    }

    pub fn write_oamaddr(&mut self, value: u8)
        ensures
            *final(self) == (Ppu { oamaddr: value, ..*old(self) }),
    {
        self.oamaddr = value;
    }

    /// Reads the sprite table at the current sprite address, without
    /// advancing it.
    pub fn read_oamdata(&self) -> (r: u8)
        requires
            self.wf(),
        ensures
            r == self.oam@[self.oamaddr as int],
    {
        self.oam[self.oamaddr as usize]
    }

    /// Writes the sprite table at the current sprite address and
    /// advances it, wrapping.
    pub fn write_oamdata(&mut self, value: u8)
        requires
            old(self).wf(),
        ensures
            final(self).wf(),
            final(self).oam@ == old(self).oam@.update(old(self).oamaddr as int, value),
            final(self).oamaddr == old(self).oamaddr.wrapping_add(1),
            *final(self) == (Ppu {
                oam: final(self).oam,
                oamaddr: final(self).oamaddr,
                ..*old(self)
            }),
    {
        let a: usize = self.oamaddr as usize;
        self.oam.set(a, value);
        self.oamaddr = self.oamaddr.wrapping_add(1);
    }

    /// First write sets horizontal scroll, second vertical, by the
    /// shared toggle.
    pub fn write_ppuscroll(&mut self, value: u8)
        ensures
            *final(self) == (if old(self).latch {
                Ppu { ppuscroll_y: value, latch: false, ..*old(self) }
            } else {
                Ppu { ppuscroll_x: value, latch: true, ..*old(self) }
            }),
    {
        if !self.latch {
            self.ppuscroll_x = value;
        } else {
            self.ppuscroll_y = value;
        }
        self.latch = !self.latch;
    }

    /// First write sets the high byte of the video-memory address,
    /// second the low byte, by the shared toggle.
    pub fn write_ppuaddr(&mut self, value: u8)
        ensures
            *final(self) == (if old(self).latch {
                Ppu {
                    ppuaddr: ((old(self).ppuaddr / 256) * 256 + value) as u16,
                    latch: false,
                    ..*old(self)
                }
            } else {
                Ppu {
                    ppuaddr: ((value as u16) * 256 + old(self).ppuaddr % 256) as u16,
                    latch: true,
                    ..*old(self)
                }
            }),
    {
        if !self.latch {
            self.ppuaddr = (value as u16) * 256 + self.ppuaddr % 256;
        } else {
            self.ppuaddr = (self.ppuaddr / 256) * 256 + value as u16;
        }
        self.latch = !self.latch;
    }

    /// The video-memory address step selected by the control register:
    /// 1, or 32 when its third bit is set.
    pub open spec fn vram_step(ctrl: u8) -> u16 {
        if (ctrl / 4) % 2 == 0 {
            1u16
        } else {
            32u16
        }
    }

    /// Buffered video-memory read: returns the previous buffer while
    /// the addressed byte becomes the new buffer, except palette reads,
    /// which bypass the buffer and return at once. The address always
    /// advances by the control-selected step.
    pub fn read_ppudata(&mut self) -> (r: Result<u8, Fault>)
        requires
            old(self).wf(),
        ensures
            final(self).wf(),
            Ppu::read_data_rel(*old(self), *final(self), r),
    {
        let addr = self.ppuaddr;
        let step: u16 = if (self.ppuctrl / 4) % 2 == 0 {
            1
        } else {
            32
        };
        self.ppuaddr = self.ppuaddr.wrapping_add(step);
        let a: u16 = addr % 0x4000;
        if a < 0x2000 {
            let r = self.ppudata_buf;
            self.ppudata_buf = self.chr[a as usize];
            Ok(r)
        } else if a < 0x3000 {
            let r = self.ppudata_buf;
            self.ppudata_buf = self.mem[(a % 0x800) as usize];
            Ok(r)
        } else if a >= 0x3f00 {
            Ok(self.pal[(a % 32) as usize])
        } else {
            Err(Fault::VramReadOutOfRange(a))
        }
    }

    /// Writes video memory at the current address and advances it by
    /// the control-selected step. Palette writes fold the four backdrop
    /// aliases onto their group's entry 0 and keep the resolved colors
    /// and backdrop in step with palette memory.
    pub fn write_ppudata(&mut self, value: u8) -> (r: Result<(), Fault>)
        requires
            old(self).wf(),
        ensures
            final(self).wf(),
            Ppu::write_data_rel(*old(self), *final(self), value, r),
    {
        let addr = self.ppuaddr;
        let step: u16 = if (self.ppuctrl / 4) % 2 == 0 {
            1
        } else {
            32
        };
        self.ppuaddr = self.ppuaddr.wrapping_add(step);
        let a: u16 = addr % 0x4000;
        if 0x2000 <= a && a < 0x3000 {
            self.mem.set((a % 0x800) as usize, value);
            Ok(())
        } else if a >= 0x3f00 {
            let mut pa: u16 = a % 32;
            if pa >= 16 && pa % 4 == 0 {
                pa = pa - 16;
            }
            self.pal.set(pa as usize, value);
            let color = nes_palette(value % 64);
            if pa == 0 {
                self.bg = color;
            } else if pa % 4 != 0 {
                self.palette.set(pa as usize, color);
            }
            Ok(())
        } else {
            Err(Fault::VramWriteOutOfRange(a))
        }
    }

    /// Where a palette-memory write at masked address `a` lands: the
    /// four backdrop aliases fold onto entry 0 of their group.
    pub open spec fn palette_alias(a: u16) -> u16 {
        let pa = a % 32;
        if pa >= 16 && pa % 4 == 0 {
            (pa - 16) as u16
        } else {
            pa
        }
    }

    /// Relates the unit's state before and after one buffered
    /// video-memory read, and the value it returned: the address
    /// advances by the control-selected step; pattern and nametable
    /// reads return the previous buffer while the addressed byte
    /// becomes the new buffer; palette reads bypass the buffer and
    /// return at once; any other address is fatal.
    pub open spec fn read_data_rel(pre: Ppu, post: Ppu, r: Result<u8, Fault>) -> bool {
        let a = pre.ppuaddr % 0x4000;
        &&& post.ppuaddr == pre.ppuaddr.wrapping_add(Ppu::vram_step(pre.ppuctrl))
        &&& if a < 0x2000 {
            r == Ok::<u8, Fault>(pre.ppudata_buf) && post == (Ppu {
                ppuaddr: post.ppuaddr,
                ppudata_buf: pre.chr@[a as int],
                ..pre
            })
        } else if a < 0x3000 {
            r == Ok::<u8, Fault>(pre.ppudata_buf) && post == (Ppu {
                ppuaddr: post.ppuaddr,
                ppudata_buf: pre.mem@[(a % 0x800) as int],
                ..pre
            })
        } else if 0x3f00 <= a {
            r == Ok::<u8, Fault>(pre.pal@[(a % 32) as int]) && post == (Ppu {
                ppuaddr: post.ppuaddr,
                ..pre
            })
        } else {
            r == Err::<u8, Fault>(Fault::VramReadOutOfRange(a)) && post == (Ppu {
                ppuaddr: post.ppuaddr,
                ..pre
            })
        }
    }

    /// Relates the unit's state before and after one video-memory
    /// write: the address advances by the control-selected step;
    /// nametable writes land masked into the 2 KB store; palette
    /// writes fold the backdrop aliases onto entry 0 of their group
    /// and keep the resolved colors and backdrop in step; any other
    /// address is fatal.
    pub open spec fn write_data_rel(pre: Ppu, post: Ppu, value: u8, r: Result<(), Fault>) -> bool {
        let a = pre.ppuaddr % 0x4000;
        &&& post.ppuaddr == pre.ppuaddr.wrapping_add(Ppu::vram_step(pre.ppuctrl))
        &&& post.renders == pre.renders
        &&& if 0x2000 <= a < 0x3000 {
            r == Ok::<(), Fault>(()) && post == (Ppu {
                ppuaddr: post.ppuaddr,
                mem: post.mem,
                ..pre
            }) && post.mem@ == pre.mem@.update((a % 0x800) as int, value)
        } else if 0x3f00 <= a {
            let pa = Ppu::palette_alias(a);
            &&& r == Ok::<(), Fault>(())
            &&& post.pal@ == pre.pal@.update(pa as int, value)
            &&& post.mem@ == pre.mem@
            &&& post.oam@ == pre.oam@
            &&& post.same_rom(&pre)
            &&& post.framebuffer == pre.framebuffer
            &&& post.latch == pre.latch
            &&& post.ppuctrl == pre.ppuctrl
            &&& post.ppumask == pre.ppumask
            &&& post.ppustatus == pre.ppustatus
            &&& post.oamaddr == pre.oamaddr
            &&& post.ppuscroll_x == pre.ppuscroll_x
            &&& post.ppuscroll_y == pre.ppuscroll_y
            &&& post.ppudata_buf == pre.ppudata_buf
            &&& (pa % 4 != 0 ==> post.palette@ == pre.palette@.update(
                pa as int,
                spec_nes_palette(value % 64),
            ) && post.bg == pre.bg)
            &&& (pa == 0 ==> post.palette@ == pre.palette@ && post.bg == spec_nes_palette(
                value % 64,
            ))
            &&& (pa != 0 && pa % 4 == 0 ==> post.palette@ == pre.palette@ && post.bg == pre.bg)
        } else {
            r == Err::<(), Fault>(Fault::VramWriteOutOfRange(a)) && post == (Ppu {
                ppuaddr: post.ppuaddr,
                ..pre
            })
        }
    }

    /// The decoded pattern bank the control register selects for the
    /// background.
    pub open spec fn bg_sheet_view(&self) -> Seq<u8> {
        if (self.ppuctrl / 16) % 2 == 1 {
            self.chr1@
        } else {
            self.chr0@
        }
    }

    /// The decoded pattern bank the control register selects for
    /// sprites.
    pub open spec fn sprite_sheet_view(&self) -> Seq<u8> {
        if (self.ppuctrl / 8) % 2 == 1 {
            self.chr1@
        } else {
            self.chr0@
        }
    }

    /// The background pixel value at screen row `i`, column `j`, read
    /// from the first nametable without scroll, as the collision
    /// estimate does.
    pub open spec fn bg_pixel(mem: Seq<u8>, sheet: Seq<u8>, i: int, j: int) -> u8 {
        let tile = mem[(i / 8) * 32 + j / 8] as int;
        sheet[((tile / 16) * 8 + i % 8) * 128 + (tile % 16) * 8 + j % 8]
    }

    /// The pixel of tile `tile` at row `r`, column `c` of a decoded
    /// sheet.
    pub open spec fn tile_pixel(sheet: Seq<u8>, tile: int, r: int, c: int) -> u8 {
        sheet[((tile / 16) * 8 + r) * 128 + (tile % 16) * 8 + c]
    }

    /// Whether screen row `i` holds a point, between columns `sx` and
    /// `jlim`, where both the background and sprite 0 (whose top-left
    /// corner is at `(sx, sy)`, tile `tile`) are non-transparent.
    pub open spec fn row_collides(
        mem: Seq<u8>,
        bg: Seq<u8>,
        sp: Seq<u8>,
        tile: int,
        sy: int,
        sx: int,
        jlim: int,
        i: int,
    ) -> bool {
        exists|j: int|
            sx <= j < jlim && Ppu::bg_pixel(mem, bg, i, j) != 0 && Ppu::tile_pixel(
                sp,
                tile,
                i - sy,
                j - sx,
            ) != 0
    }

    /// The sprite-zero collision estimate for the scan position
    /// `(x, y)` derived from the cycle counter: a hit anywhere in the
    /// rows fully behind the estimated scanline, or on the estimated
    /// scanline up to the estimated dot.
    pub open spec fn spr0_hit(&self, y: int, x: int) -> bool {
        let sy = self.oam@[0] + 1;
        let tile = self.oam@[1] as int;
        let sx = self.oam@[3] as int;
        let mem = self.mem@;
        let bg = self.bg_sheet_view();
        let sp = self.sprite_sheet_view();
        let jlim = min_int(sx + 8, 256);
        ||| exists|i: int|
            sy <= i < min_int(min_int(sy + 8, y), 240) && Ppu::row_collides(
                mem,
                bg,
                sp,
                tile,
                sy as int,
                sx,
                jlim,
                i,
            )
        ||| {
            &&& sy <= y < min_int(sy + 8, 240)
            &&& Ppu::row_collides(mem, bg, sp, tile, sy as int, sx, min_int(jlim, x + 1), y)
        }
    }


    /// The status byte the unit reports for the given cycle count:
    /// vertical blank in bit 7, the collision estimate in bit 6.
    pub open spec fn spec_status(ppu: Ppu, cycles: u64) -> u8 {
        let y = (cycles * 3) / 341;
        let x = (cycles * 3) % 341;
        (((if y > 240 {
            128int
        } else {
            0int
        }) + (if ppu.spr0_hit(y as int, x as int) {
            64int
        } else {
            0int
        })) as u8)
    }

    /// Reads the status register: bit 7 reports vertical blank and bit
    /// 6 the sprite-zero collision estimate, both derived from the
    /// cycle counter's implied scan position; the scroll/address write
    /// toggle is cleared as a side effect.
    pub fn read_ppustatus(&mut self, cycles: u64) -> (r: u8)
        requires
            old(self).wf(),
            cycles <= 0x1000_0000,
        ensures
            final(self).wf(),
            r == Ppu::spec_status(*old(self), cycles),
            *final(self) == (Ppu { ppustatus: r, latch: false, ..*old(self) }),
    {
        let dots: u64 = cycles * 3;
        let y64: u64 = dots / 341;
        let x64: u64 = dots % 341;
        let x: usize = x64 as usize;
        let sy: usize = self.oam[0] as usize + 1;
        let tile: usize = self.oam[1] as usize;
        let sx: usize = self.oam[3] as usize;

        let jlim: usize = min_exec_usize(sx + 8, 256);
        let mut ilim: usize = min_exec_usize(sy + 8, 240);
        if y64 < ilim as u64 {
            ilim = y64 as usize;
        }
        let ghost mem = self.mem@;
        let ghost bgv = self.bg_sheet_view();
        let ghost spv = self.sprite_sheet_view();
        let bgs: &Vec<u8> = if (self.ppuctrl / 16) % 2 == 1 {
            &self.chr1
        } else {
            &self.chr0
        };
        let sps: &Vec<u8> = if (self.ppuctrl / 8) % 2 == 1 {
            &self.chr1
        } else {
            &self.chr0
        };

        let mut hit: bool = false;
        let mut i: usize = sy;
        proof {
            assert(ilim as int == min_int(min_int(sy as int + 8, y64 as int), 240));
        }
        while i < ilim
            invariant
                self.wf(),
                sy <= i <= 264,
                i <= ilim || i == sy,
                ilim <= 240,
                ilim <= sy + 8,
                sx < 256,
                tile < 256,
                jlim == min_int(sx as int + 8, 256),
                mem == self.mem@,
                bgv == bgs@,
                spv == sps@,
                bgs@.len() == 0x4000,
                sps@.len() == 0x4000,
                hit == exists|i2: int|
                    sy <= i2 < i && Ppu::row_collides(
                        mem,
                        bgv,
                        spv,
                        tile as int,
                        sy as int,
                        sx as int,
                        jlim as int,
                        i2,
                    ),
            decreases ilim - i,
        {
            let row = row_collision(&self.mem, bgs, sps, tile, sy, sx, jlim, i);
            hit = hit || row;
            i = i + 1;
        }
        if y64 >= sy as u64 && y64 < min_exec_usize(sy + 8, 240) as u64 {
            let y: usize = y64 as usize;
            let jlim2: usize = min_exec_usize(jlim, x + 1);
            let row = row_collision(&self.mem, bgs, sps, tile, sy, sx, jlim2, y);
            hit = hit || row;
        }

        let vbl: u8 = if y64 > 240 {
            128
        } else {
            0
        };
        let status: u8 = vbl + (if hit {
            64u8
        } else {
            0u8
        });
        self.ppustatus = status;
        self.latch = false;
        status
    }
}

/// Scans one screen row for a point where both the background and
/// sprite 0 are non-transparent.
fn row_collision(
    mem: &Vec<u8>,
    bg: &Vec<u8>,
    sp: &Vec<u8>,
    tile: usize,
    sy: usize,
    sx: usize,
    jlim: usize,
    i: usize,
) -> (h: bool)
    requires
        mem@.len() == 0x800,
        bg@.len() == 0x4000,
        sp@.len() == 0x4000,
        tile < 256,
        sy <= i < 240,
        i < sy + 8,
        sx < 256,
        jlim <= 256,
        jlim <= sx + 8,
    ensures
        h == Ppu::row_collides(mem@, bg@, sp@, tile as int, sy as int, sx as int, jlim as int, i as int),
{
    if jlim <= sx {
        return false;
    }
    let mut h: bool = false;
    let mut j: usize = sx;
    while j < jlim
        invariant
            mem@.len() == 0x800,
            bg@.len() == 0x4000,
            sp@.len() == 0x4000,
            tile < 256,
            sy <= i < 240,
            i < sy + 8,
            sx <= j <= 256,
            j <= jlim,
            jlim <= 256,
            jlim <= sx + 8,
            h == exists|j2: int|
                sx <= j2 < j && Ppu::bg_pixel(mem@, bg@, i as int, j2) != 0 && Ppu::tile_pixel(
                    sp@,
                    tile as int,
                    i as int - sy,
                    j2 - sx,
                ) != 0,
        decreases jlim - j,
    {
        let t: usize = mem[(i / 8) * 32 + j / 8] as usize;
        let bgp: u8 = bg[((t / 16) * 8 + i % 8) * 128 + (t % 16) * 8 + j % 8];
        let spp: u8 = sp[((tile / 16) * 8 + (i - sy)) * 128 + (tile % 16) * 8 + (j - sx)];
        let here: bool = bgp != 0 && spp != 0;
        proof {
            if here {
                assert(Ppu::bg_pixel(mem@, bg@, i as int, j as int) != 0);
            }
        }
        h = h || here;
        j = j + 1;
    }
    h
}

/// The smaller of two integers.
pub open spec fn min_int(a: int, b: int) -> int {
    if a <= b {
        a
    } else {
        b
    }
}

/// Computes the smaller of two lengths.
fn min_exec_usize(a: usize, b: usize) -> (r: usize)
    ensures
        r as int == min_int(a as int, b as int),
{
    if a <= b {
        a
    } else {
        b
    }
}

/// A zero-filled byte store of the given length.
pub(crate) fn zero_vec(n: usize) -> (v: Vec<u8>)
    ensures
        v@.len() == n,
        forall|k: int| 0 <= k < n ==> v@[k] == 0u8,
{
    let mut v: Vec<u8> = Vec::new();
    let mut i: usize = 0;
    while i < n
        invariant
            i <= n,
            v@.len() == i,
            forall|k: int| 0 <= k < i ==> v@[k] == 0u8,
        decreases n - i,
    {
        v.push(0);
        i = i + 1;
    }
    v
}


/// The source pixel an 8-by-8 tile blit reads for destination offset
/// `(dx, dy)`: texture coordinates `(u, v)`, honoring the flips.
pub open spec fn sheet_pix(
    sheet: Seq<u8>,
    u: int,
    v: int,
    fx: bool,
    fy: bool,
    dx: int,
    dy: int,
) -> u8 {
    sheet[(v + (if fy {
        7 - dy
    } else {
        dy
    })) * 128 + u + (if fx {
        7 - dx
    } else {
        dx
    })]
}

/// What one 8-by-8 paletted tile blit leaves at screen position
/// `(i, j)`: the resolved palette color where the tile covers the
/// position with a non-transparent pixel, the old pixel elsewhere.
pub open spec fn tile_blit(
    fbold: Framebuffer,
    sheet: Seq<u8>,
    palette: Seq<Color>,
    x: int,
    y: int,
    u: int,
    v: int,
    group: int,
    fx: bool,
    fy: bool,
    i: int,
    j: int,
) -> XRGB8888 {
    if x <= i < x + 8 && y <= j < y + 8 && sheet_pix(sheet, u, v, fx, fy, i - x, j - y) != 0 {
        let c = palette[group * 4 + sheet_pix(sheet, u, v, fx, fy, i - x, j - y)];
        XRGB8888 { red: c.red, green: c.green, blue: c.blue }
    } else {
        fbold.pixel(i, j)
    }
}

/// Blits one 8-by-8 tile from a decoded pattern sheet onto the
/// framebuffer through a palette group, clipping to the screen;
/// palette entry 0 is transparent.
fn draw_tile(
    fb: &mut Framebuffer,
    sheet: &Vec<u8>,
    palette: &Vec<Color>,
    x: i32,
    y: i32,
    u: usize,
    v: usize,
    group: usize,
    flip_x: bool,
    flip_y: bool,
)
    requires
        old(fb).wf(),
        old(fb).spec_width() == 256,
        old(fb).spec_height() == 240,
        sheet@.len() == 0x4000,
        forall|k: int| 0 <= k < 0x4000 ==> sheet@[k] <= 3,
        palette@.len() == 32,
        group < 8,
        u + 8 <= 128,
        v + 8 <= 128,
        -1000 <= x <= 1000,
        -1000 <= y <= 1000,
    ensures
        final(fb).wf(),
        final(fb).spec_width() == 256,
        final(fb).spec_height() == 240,
        forall|i: int, j: int|
            0 <= i < 256 && 0 <= j < 240 ==> final(fb).pixel(i, j) == tile_blit(
                *old(fb),
                sheet@,
                palette@,
                x as int,
                y as int,
                u as int,
                v as int,
                group as int,
                flip_x,
                flip_y,
                i,
                j,
            ),
{
    let mut dy: usize = 0;
    while dy < 8
        invariant
            fb.wf(),
            fb.spec_width() == 256,
            fb.spec_height() == 240,
            sheet@.len() == 0x4000,
            forall|k: int| 0 <= k < 0x4000 ==> sheet@[k] <= 3,
            palette@.len() == 32,
            group < 8,
            u + 8 <= 128,
            v + 8 <= 128,
            -1000 <= x <= 1000,
            -1000 <= y <= 1000,
            dy <= 8,
            forall|i: int, j: int|
                0 <= i < 256 && 0 <= j < 240 ==> fb.pixel(i, j) == (if y <= j < y + dy {
                    tile_blit(
                        *old(fb),
                        sheet@,
                        palette@,
                        x as int,
                        y as int,
                        u as int,
                        v as int,
                        group as int,
                        flip_x,
                        flip_y,
                        i,
                        j,
                    )
                } else {
                    old(fb).pixel(i, j)
                }),
        decreases 8 - dy,
    {
        let mut dx: usize = 0;
        while dx < 8
            invariant
                fb.wf(),
                fb.spec_width() == 256,
                fb.spec_height() == 240,
                sheet@.len() == 0x4000,
                forall|k: int| 0 <= k < 0x4000 ==> sheet@[k] <= 3,
                palette@.len() == 32,
                group < 8,
                u + 8 <= 128,
                v + 8 <= 128,
                -1000 <= x <= 1000,
                -1000 <= y <= 1000,
                dy < 8,
                dx <= 8,
                forall|i: int, j: int|
                    0 <= i < 256 && 0 <= j < 240 ==> fb.pixel(i, j) == (if y <= j < y + dy || (j
                        == y + dy && x <= i < x + dx) {
                        tile_blit(
                            *old(fb),
                            sheet@,
                            palette@,
                            x as int,
                            y as int,
                            u as int,
                            v as int,
                            group as int,
                            flip_x,
                            flip_y,
                            i,
                            j,
                        )
                    } else {
                        old(fb).pixel(i, j)
                    }),
            decreases 8 - dx,
        {
            let srow: usize = if flip_y {
                7 - dy
            } else {
                dy
            };
            let scol: usize = if flip_x {
                7 - dx
            } else {
                dx
            };
            let pix: u8 = sheet[(v + srow) * 128 + u + scol];
            let px: i32 = x + dx as i32;
            let py: i32 = y + dy as i32;
            if pix != 0 && 0 <= px && px < 256 && 0 <= py && py < 240 {
                let c: Color = palette[group * 4 + pix as usize];
                fb.set(px as usize, py as usize, XRGB8888 { red: c.red, green: c.green, blue: c.blue });
            }
            dx = dx + 1;
        }
        dy = dy + 1;
    }
}

impl Ppu {
    /// Draws sprite `spr`: four table bytes give its top-left corner
    /// (the stored row plus one), tile, palette group and flips.
    pub fn draw_sprite(&mut self, spr: usize)
        requires
            old(self).wf(),
            spr < 64,
        ensures
            final(self).wf(),
            *final(self) == (Ppu { framebuffer: final(self).framebuffer, ..*old(self) }),
            ({
                let oam = old(self).oam@;
                let attr = oam[spr * 4 + 2] as int;
                let tile = oam[spr * 4 + 1] as int;
                forall|i: int, j: int|
                    0 <= i < 256 && 0 <= j < 240 ==> final(self).framebuffer.pixel(i, j)
                        == tile_blit(
                        old(self).framebuffer,
                        old(self).sprite_sheet_view(),
                        old(self).palette@,
                        oam[spr * 4 + 3] as int,
                        oam[spr * 4] + 1,
                        (tile % 16) * 8,
                        (tile / 16) * 8,
                        4 + attr % 4,
                        (attr / 64) % 2 == 1,
                        attr >= 128,
                        i,
                        j,
                    )
            }),
    {
        let sy: i32 = self.oam[spr * 4] as i32 + 1;
        let tile: usize = self.oam[spr * 4 + 1] as usize;
        let attr: u8 = self.oam[spr * 4 + 2];
        let sx: i32 = self.oam[spr * 4 + 3] as i32;
        let pal: usize = (attr % 4) as usize;
        let flip_x: bool = (attr / 64) % 2 == 1;
        let flip_y: bool = attr >= 128;
        let u: usize = (tile % 16) * 8;
        let v: usize = (tile / 16) * 8;
        let sheet: &Vec<u8> = if (self.ppuctrl / 8) % 2 == 1 {
            &self.chr1
        } else {
            &self.chr0
        };
        draw_tile(&mut self.framebuffer, sheet, &self.palette, sx, sy, u, v, 4 + pal, flip_x, flip_y);
    }

    /// The horizontal offset of nametable `bg` on screen: one screen
    /// width when the control register's nametable-select bit differs
    /// from `bg`.
    pub open spec fn bg_wrap(ctrl: u8, bg: int) -> int {
        if (ctrl % 2) as int != bg % 2 {
            256
        } else {
            0
        }
    }

    /// The column within nametable `bg` that screen column `i` shows,
    /// after scroll and the nametable offset.
    pub open spec fn bg_sx(ppu: Ppu, bg: int, i: int) -> int {
        i + ppu.ppuscroll_x - Ppu::bg_wrap(ppu.ppuctrl, bg)
    }

    /// The row within a nametable that screen row `j` shows.
    pub open spec fn bg_sy(ppu: Ppu, j: int) -> int {
        j + ppu.ppuscroll_y
    }

    /// Whether nametable `bg` covers screen position `(i, j)`.
    pub open spec fn bg_covered(ppu: Ppu, bg: int, i: int, j: int) -> bool {
        &&& 0 <= Ppu::bg_sx(ppu, bg, i) < 256
        &&& 0 <= Ppu::bg_sy(ppu, j) < 240
    }

    /// The nametable cell behind screen position `(i, j)`.
    pub open spec fn bg_cell(ppu: Ppu, bg: int, i: int, j: int) -> int {
        (Ppu::bg_sy(ppu, j) / 8) * 32 + Ppu::bg_sx(ppu, bg, i) / 8
    }

    /// The pattern pixel nametable `bg` shows at screen position
    /// `(i, j)`.
    pub open spec fn bg_pattern_pix(ppu: Ppu, bg: int, i: int, j: int) -> u8 {
        let sx = Ppu::bg_sx(ppu, bg, i);
        let sy = Ppu::bg_sy(ppu, j);
        let cell = Ppu::bg_cell(ppu, bg, i, j);
        let tile = ppu.mem@[bg * 1024 + cell] as int;
        ppu.bg_sheet_view()[((tile / 16) * 8 + sy % 8) * 128 + (tile % 16) * 8 + sx % 8]
    }

    /// Whether nametable `bg` paints screen position `(i, j)`: it
    /// covers it and the pattern pixel there is not transparent.
    pub open spec fn bg_draws(ppu: Ppu, bg: int, i: int, j: int) -> bool {
        Ppu::bg_covered(ppu, bg, i, j) && Ppu::bg_pattern_pix(ppu, bg, i, j) != 0
    }

    /// The resolved palette color nametable `bg` paints at `(i, j)`.
    pub open spec fn bg_draw_color(ppu: Ppu, bg: int, i: int, j: int) -> XRGB8888 {
        let cell = Ppu::bg_cell(ppu, bg, i, j);
        let c = ppu.palette@[Ppu::spec_bg_attr_group(ppu.mem@, bg, cell) * 4 + Ppu::bg_pattern_pix(
            ppu,
            bg,
            i,
            j,
        )];
        XRGB8888 { red: c.red, green: c.green, blue: c.blue }
    }

    /// What one background pass leaves at screen position `(i, j)`:
    /// where nametable `bg` covers it with a non-transparent pattern
    /// pixel, the resolved palette color of its cell; elsewhere the
    /// pixel the unit already held.
    pub open spec fn bg_cell_pixel(ppu: Ppu, bg: int, i: int, j: int) -> XRGB8888 {
        if Ppu::bg_draws(ppu, bg, i, j) {
            Ppu::bg_draw_color(ppu, bg, i, j)
        } else {
            ppu.framebuffer.pixel(i, j)
        }
    }

    /// What the whole background (first nametable, then the second,
    /// which cover disjoint parts of the screen) leaves at `(i, j)`,
    /// over a pixel `base` already on the buffer.
    pub open spec fn bg_pass_from(ppu: Ppu, base: XRGB8888, i: int, j: int) -> XRGB8888 {
        if Ppu::bg_draws(ppu, 1, i, j) {
            Ppu::bg_draw_color(ppu, 1, i, j)
        } else if Ppu::bg_draws(ppu, 0, i, j) {
            Ppu::bg_draw_color(ppu, 0, i, j)
        } else {
            base
        }
    }

    /// The pattern pixel sprite `s` shows at screen position `(i, j)`,
    /// honoring its flips; meaningful where the sprite covers the
    /// position.
    pub open spec fn sprite_pix_at(ppu: Ppu, s: int, i: int, j: int) -> u8 {
        let tile = ppu.oam@[s * 4 + 1] as int;
        let attr = ppu.oam@[s * 4 + 2] as int;
        sheet_pix(
            ppu.sprite_sheet_view(),
            (tile % 16) * 8,
            (tile / 16) * 8,
            (attr / 64) % 2 == 1,
            attr >= 128,
            i - ppu.oam@[s * 4 + 3],
            j - (ppu.oam@[s * 4] + 1),
        )
    }

    /// Whether sprite `s` paints screen position `(i, j)`: it covers
    /// it and its pattern pixel there is not transparent.
    pub open spec fn sprite_draws_at(ppu: Ppu, s: int, i: int, j: int) -> bool {
        Ppu::sprite_covers(ppu.oam@, s, i, j) && Ppu::sprite_pix_at(ppu, s, i, j) != 0
    }

    /// The resolved palette color sprite `s` paints at `(i, j)`.
    pub open spec fn sprite_color_at(ppu: Ppu, s: int, i: int, j: int) -> XRGB8888 {
        let attr = ppu.oam@[s * 4 + 2] as int;
        let c = ppu.palette@[(4 + attr % 4) * 4 + Ppu::sprite_pix_at(ppu, s, i, j)];
        XRGB8888 { red: c.red, green: c.green, blue: c.blue }
    }

    /// Whether sprite `s` belongs to the given pass: its priority bit
    /// set for the behind-background pass, clear for the front pass.
    pub open spec fn sprite_selected(ppu: Ppu, s: int, behind: bool) -> bool {
        (ppu.oam@[s * 4 + 2] / 32) % 2 == (if behind {
            1int
        } else {
            0int
        })
    }

    /// What one sprite pass leaves at `(i, j)` over a pixel `base`,
    /// after drawing the pass's sprites from index 63 down to `s`:
    /// the lowest-index sprite of the pass that paints the position
    /// wins, since it is drawn last.
    pub open spec fn sprites_from(
        ppu: Ppu,
        base: XRGB8888,
        behind: bool,
        s: int,
        i: int,
        j: int,
    ) -> XRGB8888
        decreases 64 - s,
    {
        if s >= 64 {
            base
        } else {
            let rest = Ppu::sprites_from(ppu, base, behind, s + 1, i, j);
            if Ppu::sprite_selected(ppu, s, behind) && Ppu::sprite_draws_at(ppu, s, i, j) {
                Ppu::sprite_color_at(ppu, s, i, j)
            } else {
                rest
            }
        }
    }

    /// What the whole render pass leaves at `(i, j)`: the
    /// behind-background sprites over the old pixel, the background
    /// over that, and the front sprites on top, each stage present
    /// only when its mask bit enables it.
    pub open spec fn render_pixel(ppu: Ppu, i: int, j: int) -> XRGB8888 {
        let sprites_on = (ppu.ppumask / 16) % 2 == 1;
        let bg_on = (ppu.ppumask / 8) % 2 == 1;
        let p0 = ppu.framebuffer.pixel(i, j);
        let p1 = if sprites_on {
            Ppu::sprites_from(ppu, p0, true, 0, i, j)
        } else {
            p0
        };
        let p2 = if bg_on {
            Ppu::bg_pass_from(ppu, p1, i, j)
        } else {
            p1
        };
        if sprites_on {
            Ppu::sprites_from(ppu, p2, false, 0, i, j)
        } else {
            p2
        }
    }

    /// Whether sprite `s` geometrically covers screen position
    /// `(i, j)`: its stored corner, the row shifted down by one.
    pub open spec fn sprite_covers(oam: Seq<u8>, s: int, i: int, j: int) -> bool {
        &&& oam[s * 4 + 3] <= i < oam[s * 4 + 3] + 8
        &&& oam[s * 4] + 1 <= j < oam[s * 4] + 9
    }

    /// The 2-bit palette group of background cell `i`: the packed
    /// attribute byte behind the nametable covers a 4-by-4-tile block,
    /// two bits per 2-by-2-tile quadrant.
    pub open spec fn spec_bg_attr_group(mem: Seq<u8>, bg: int, i: int) -> u8 {
        (mem[bg * 1024 + 0x3c0 + (i / 128) * 8 + (i / 4) % 8] >> ((4 * ((i / 64) % 2) + 2 * ((i
            / 2) % 2)) as u32)) & 3
    }

    /// Reads the palette group of background cell `i` from the packed
    /// attribute area.
    fn bg_attr_group(&self, bg: usize, i: usize) -> (pal: u8)
        requires
            self.wf(),
            bg < 2,
            i < 0x3c0,
        ensures
            pal == Ppu::spec_bg_attr_group(self.mem@, bg as int, i as int),
            pal <= 3,
    {
        let attr: u8 = self.mem[bg * 1024 + 0x3c0 + (i / 128) * 8 + (i / 4) % 8];
        let shift: u32 = (4 * ((i / 64) % 2) + 2 * ((i / 2) % 2)) as u32;
        proof {
            lemma_two_bit_bound(attr, shift);
        }
        (attr >> shift) & 3
    }

    /// Composites one nametable of the background: 960 tiles, palette
    /// groups from the packed attribute bytes, offset by the scroll
    /// registers and by one screen width when the control register's
    /// nametable-select bit differs from `bg`.
    #[verifier::rlimit(60)]
    pub fn draw_bg(&mut self, bg: usize)
        requires
            old(self).wf(),
            bg < 2,
        ensures
            final(self).wf(),
            *final(self) == (Ppu { framebuffer: final(self).framebuffer, ..*old(self) }),
            forall|i: int, j: int|
                0 <= i < 256 && 0 <= j < 240 ==> final(self).framebuffer.pixel(i, j)
                    == Ppu::bg_cell_pixel(*old(self), bg as int, i, j),
    {
        let scroll_x: i32 = self.ppuscroll_x as i32;
        let scroll_y: i32 = self.ppuscroll_y as i32;
        let wrap: i32 = if (self.ppuctrl % 2) as usize != bg % 2 {
            256
        } else {
            0
        };
        let mut n: usize = 0;
        while n < 0x3c0
            invariant
                self.wf(),
                bg < 2,
                scroll_x == old(self).ppuscroll_x as int,
                scroll_y == old(self).ppuscroll_y as int,
                wrap == Ppu::bg_wrap(old(self).ppuctrl, bg as int),
                n <= 0x3c0,
                *self == (Ppu { framebuffer: self.framebuffer, ..*old(self) }),
                forall|i: int, j: int|
                    0 <= i < 256 && 0 <= j < 240 ==> self.framebuffer.pixel(i, j) == (if
                        Ppu::bg_covered(*old(self), bg as int, i, j) && Ppu::bg_cell(
                        *old(self),
                        bg as int,
                        i,
                        j,
                    ) < n {
                        Ppu::bg_cell_pixel(*old(self), bg as int, i, j)
                    } else {
                        old(self).framebuffer.pixel(i, j)
                    }),
            decreases 0x3c0 - n,
        {
            let tile: usize = self.mem[bg * 1024 + n] as usize;
            let pal: u8 = self.bg_attr_group(bg, n);
            let u: usize = (tile % 16) * 8;
            let v: usize = (tile / 16) * 8;
            let x: i32 = ((n % 32) * 8) as i32 - scroll_x + wrap;
            let y: i32 = ((n / 32) * 8) as i32 - scroll_y;
            let sheet: &Vec<u8> = if (self.ppuctrl / 16) % 2 == 1 {
                &self.chr1
            } else {
                &self.chr0
            };
            let ghost fb_before = self.framebuffer;
            draw_tile(
                &mut self.framebuffer,
                sheet,
                &self.palette,
                x,
                y,
                u,
                v,
                pal as usize,
                false,
                false,
            );
            proof {
                let pre = *old(self);
                assert forall|i: int, j: int| 0 <= i < 256 && 0 <= j < 240 implies
                    self.framebuffer.pixel(i, j) == (if Ppu::bg_covered(pre, bg as int, i, j)
                        && Ppu::bg_cell(pre, bg as int, i, j) < n + 1 {
                        Ppu::bg_cell_pixel(pre, bg as int, i, j)
                    } else {
                        pre.framebuffer.pixel(i, j)
                    }) by {
                    let sx = Ppu::bg_sx(pre, bg as int, i);
                    let sy = Ppu::bg_sy(pre, j);
                    if Ppu::bg_covered(pre, bg as int, i, j) {
                        lemma_bg_cell_rect(sx, sy, n as int);
                        assert(sx == i + scroll_x - wrap);
                        assert(x <= i < x + 8 <==> (n as int % 32) * 8 <= sx < (n as int % 32) * 8
                            + 8);
                        assert(y <= j < y + 8 <==> (n as int / 32) * 8 <= sy < (n as int / 32) * 8
                            + 8);
                    } else {
                        assert(!(x <= i < x + 8 && y <= j < y + 8)) by (nonlinear_arith)
                            requires
                                !(0 <= sx < 256 && 0 <= sy < 240),
                                sx == i + scroll_x - wrap,
                                sy == j + scroll_y,
                                x == (n as int % 32) * 8 - scroll_x + wrap,
                                y == (n as int / 32) * 8 - scroll_y,
                                0 <= n < 960,
                                0 <= i < 256,
                                0 <= j < 240,
                        ;
                    }
                }
            }
            n = n + 1;
        }
    }

    /// The once-per-frame render: behind-background sprites from index
    /// 63 down, then the two background nametables, then front sprites
    /// from index 63 down, each pass gated by its mask bit. Every
    /// pixel of the result is `render_pixel`: the composition of the
    /// three passes, lower sprite indexes winning within a pass.
    pub fn draw(&mut self)
        requires
            old(self).wf(),
        ensures
            final(self).wf(),
            *final(self) == (Ppu {
                framebuffer: final(self).framebuffer,
                renders: final(self).renders,
                ..*old(self)
            }),
            final(self).renders@ == old(self).renders@ + 1,
            (old(self).ppumask / 8) % 4 == 0 ==> final(self).framebuffer == old(self).framebuffer,
            forall|i: int, j: int|
                0 <= i < 256 && 0 <= j < 240 ==> #[trigger] final(self).framebuffer.pixel(i, j)
                    == Ppu::render_pixel(*old(self), i, j),
    {
        let ghost pre = *old(self);
        let sprites_on: bool = (self.ppumask / 16) % 2 == 1;
        let bg_on: bool = (self.ppumask / 8) % 2 == 1;
        if sprites_on {
            let mut spr: usize = 64;
            while spr > 0
                invariant
                    self.wf(),
                    spr <= 64,
                    *self == (Ppu { framebuffer: self.framebuffer, ..pre }),
                    forall|i: int, j: int|
                        0 <= i < 256 && 0 <= j < 240 ==> #[trigger] self.framebuffer.pixel(i, j)
                            == Ppu::sprites_from(
                            pre,
                            pre.framebuffer.pixel(i, j),
                            true,
                            spr as int,
                            i,
                            j,
                        ),
                decreases spr,
            {
                spr = spr - 1;
                let ghost prev = *self;
                if (self.oam[spr * 4 + 2] / 32) % 2 == 1 {
                    self.draw_sprite(spr);
                }
                proof {
                    assert forall|i: int, j: int| 0 <= i < 256 && 0 <= j < 240 implies #[trigger] self.framebuffer.pixel(
                        i,
                        j,
                    ) == Ppu::sprites_from(pre, pre.framebuffer.pixel(i, j), true, spr as int, i, j) by {
                        assert(prev.framebuffer.pixel(i, j) == Ppu::sprites_from(
                            pre,
                            pre.framebuffer.pixel(i, j),
                            true,
                            spr as int + 1,
                            i,
                            j,
                        ));
                    }
                }
            }
        }
        let ghost mid = *self;
        if bg_on {
            self.draw_bg(0);
            let ghost mid0 = *self;
            self.draw_bg(1);
            proof {
                assert forall|i: int, j: int| 0 <= i < 256 && 0 <= j < 240 implies #[trigger] self.framebuffer.pixel(
                    i,
                    j,
                ) == Ppu::bg_pass_from(pre, mid.framebuffer.pixel(i, j), i, j) by {
                    assert(self.framebuffer.pixel(i, j) == Ppu::bg_cell_pixel(mid0, 1, i, j));
                    assert(mid0.framebuffer.pixel(i, j) == Ppu::bg_cell_pixel(mid, 0, i, j));
                }
            }
        }
        if sprites_on {
            let ghost after_bg = *self;
            let mut spr: usize = 64;
            while spr > 0
                invariant
                    self.wf(),
                    spr <= 64,
                    *self == (Ppu { framebuffer: self.framebuffer, ..pre }),
                    after_bg == (Ppu { framebuffer: after_bg.framebuffer, ..pre }),
                    forall|i: int, j: int|
                        0 <= i < 256 && 0 <= j < 240 ==> #[trigger] self.framebuffer.pixel(i, j)
                            == Ppu::sprites_from(
                            pre,
                            after_bg.framebuffer.pixel(i, j),
                            false,
                            spr as int,
                            i,
                            j,
                        ),
                decreases spr,
            {
                spr = spr - 1;
                let ghost prev = *self;
                if (self.oam[spr * 4 + 2] / 32) % 2 == 0 {
                    self.draw_sprite(spr);
                }
                proof {
                    assert forall|i: int, j: int| 0 <= i < 256 && 0 <= j < 240 implies #[trigger] self.framebuffer.pixel(
                        i,
                        j,
                    ) == Ppu::sprites_from(
                        pre,
                        after_bg.framebuffer.pixel(i, j),
                        false,
                        spr as int,
                        i,
                        j,
                    ) by {
                        assert(prev.framebuffer.pixel(i, j) == Ppu::sprites_from(
                            pre,
                            after_bg.framebuffer.pixel(i, j),
                            false,
                            spr as int + 1,
                            i,
                            j,
                        ));
                    }
                }
            }
        }
        proof {
            self.renders@ = self.renders@ + 1;
        }
    }
}

/// The screen rectangle of background cell `n` holds exactly the
/// positions whose nametable coordinates fall in that cell, and within
/// it the in-cell offsets are the coordinate remainders.
proof fn lemma_bg_cell_rect(sx: int, sy: int, n: int)
    by (nonlinear_arith)
    requires
        0 <= sx < 256,
        0 <= sy < 240,
        0 <= n < 960,
    ensures
        ((sy / 8) * 32 + sx / 8 == n) <==> ((n % 32) * 8 <= sx < (n % 32) * 8 + 8 && (n / 32) * 8
            <= sy < (n / 32) * 8 + 8),
        ((n % 32) * 8 <= sx < (n % 32) * 8 + 8) ==> sx % 8 == sx - (n % 32) * 8,
        ((n / 32) * 8 <= sy < (n / 32) * 8 + 8) ==> sy % 8 == sy - (n / 32) * 8,
{
}

/// Two masked bits of a shifted byte stay below four.
proof fn lemma_two_bit_bound(b: u8, s: u32)
    by (bit_vector)
    ensures
        ((b >> s) & 3) <= 3,
{
}

} // verus!
