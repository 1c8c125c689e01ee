//! The fixed-size output pixel buffer and its compositing operations.
use vstd::prelude::*;

use crate::color::Color;
use crate::color::XRGB8888;
use crate::texture::Texture;
use crate::texture::lemma_row_major_in_bounds;
use crate::texture::lemma_row_major_injective;

verus! {

/// Blends one channel of `src` over `dst` with `src`'s alpha.
pub open spec fn blend_channel(dst: u8, src: u8, alpha: u8) -> u8 {
    ((dst * (255 - alpha) + src * alpha) / 255) as u8
}

/// Blends an RGBA color over an opaque pixel.
pub open spec fn blend(dst: XRGB8888, src: Color) -> XRGB8888 {
    XRGB8888 {
        red: blend_channel(dst.red, src.red, src.alpha),
        green: blend_channel(dst.green, src.green, src.alpha),
        blue: blend_channel(dst.blue, src.blue, src.alpha),
    }
}

/// A weighted average of two channel values stays a channel value.
proof fn lemma_blend_bounds(d: int, s: int, a: int)
    by (nonlinear_arith)
    requires
        0 <= d <= 255,
        0 <= s <= 255,
        0 <= a <= 255,
    ensures
        0 <= d * (255 - a) + s * a <= 65025,
        0 <= (d * (255 - a) + s * a) / 255 <= 255,
{
}

/// A row-major buffer of opaque pixels, regenerated once per frame.
pub struct Framebuffer {
    pub data: Vec<XRGB8888>,
    pub width: usize,
    pub height: usize,
}

impl Framebuffer {
    /// The pixel grid holds exactly `width * height` entries, row-major.
    pub open spec fn wf(&self) -> bool {
        self.data@.len() == self.width * self.height
    }

    pub open spec fn spec_width(&self) -> usize {
        self.width
    }

    pub open spec fn spec_height(&self) -> usize {
        self.height
    }

    /// The pixel at column `x` of row `y`.
    pub open spec fn pixel(&self, x: int, y: int) -> XRGB8888 {
        self.data@[y * self.width + x]
    }

    /// A black buffer of the given size.
    pub fn new(width: usize, height: usize) -> (fb: Framebuffer)
        requires
            width * height <= usize::MAX,
        ensures
            fb.wf(),
            fb.spec_width() == width,
            fb.spec_height() == height,
            forall|i: int, j: int|
                0 <= i < width && 0 <= j < height ==> fb.pixel(i, j) == (XRGB8888 {
                    red: 0,
                    green: 0,
                    blue: 0,
                }),
    {
        let total: usize = width * height;
        let mut data: Vec<XRGB8888> = Vec::new();
        let mut i: usize = 0;
        while i < total
            invariant
                i <= total,
                data@.len() == i,
                forall|k: int|
                    0 <= k < i ==> data@[k] == (XRGB8888 { red: 0, green: 0, blue: 0 }),
            decreases total - i,
        {
            data.push(XRGB8888 { red: 0, green: 0, blue: 0 });
            i = i + 1;
        }
        let fb = Framebuffer { data, width, height };
        proof {
            assert forall|i: int, j: int| 0 <= i < width && 0 <= j < height implies fb.pixel(i, j)
                == (XRGB8888 { red: 0, green: 0, blue: 0 }) by {
                lemma_row_major_in_bounds(i, j, width as int, height as int);
            }
        }
        fb
    }

    pub fn width(&self) -> (w: usize)
        ensures
            w == self.spec_width(),
    {
        self.width
    }

    pub fn height(&self) -> (h: usize)
        ensures
            h == self.spec_height(),
    {
        self.height
    }

    /// Reads the pixel at column `x` of row `y`.
    pub fn get(&self, x: usize, y: usize) -> (c: XRGB8888)
        requires
            self.wf(),
            x < self.spec_width(),
            y < self.spec_height(),
        ensures
            c == self.pixel(x as int, y as int),
    {
        let _n: usize = self.data.len();
        proof {
            lemma_row_major_in_bounds(x as int, y as int, self.width as int, self.height as int);
        }
        self.data[y * self.width + x]
    }

    /// Overwrites the pixel at column `x` of row `y`.
    pub fn set(&mut self, x: usize, y: usize, c: XRGB8888)
        requires
            old(self).wf(),
            x < old(self).spec_width(),
            y < old(self).spec_height(),
        ensures
            final(self).wf(),
            final(self).spec_width() == old(self).spec_width(),
            final(self).spec_height() == old(self).spec_height(),
            final(self).pixel(x as int, y as int) == c,
            forall|i: int, j: int|
                0 <= i < old(self).spec_width() && 0 <= j < old(self).spec_height() && !(i == x
                    && j == y) ==> final(self).pixel(i, j) == old(self).pixel(i, j),
    {
        let _n: usize = self.data.len();
        proof {
            lemma_row_major_in_bounds(x as int, y as int, self.width as int, self.height as int);
        }
        let idx: usize = y * self.width + x;
        self.data.set(idx, c);
        proof {
            assert forall|i: int, j: int|
                0 <= i < old(self).spec_width() && 0 <= j < old(self).spec_height() && !(i == x
                    && j == y) implies final(self).pixel(i, j) == old(self).pixel(i, j) by {
                lemma_row_major_in_bounds(i, j, self.width as int, self.height as int);
                lemma_row_major_injective(i, j, x as int, y as int, self.width as int);
            }
        }
    }

    /// Fills the whole buffer with one opaque color, dropping its alpha.
    pub fn clear(&mut self, color: Color)
        requires
            old(self).wf(),
        ensures
            final(self).wf(),
            final(self).spec_width() == old(self).spec_width(),
            final(self).spec_height() == old(self).spec_height(),
            forall|i: int, j: int|
                0 <= i < old(self).spec_width() && 0 <= j < old(self).spec_height() ==> final(self).pixel(i, j) == (XRGB8888 {
                    red: color.red,
                    green: color.green,
                    blue: color.blue,
                }),
    {
        let fill = XRGB8888 { red: color.red, green: color.green, blue: color.blue };
        let n: usize = self.data.len();
        let mut k: usize = 0;
        while k < n
            invariant
                self.data@.len() == n,
                self.width == old(self).width,
                self.height == old(self).height,
                k <= n,
                forall|m: int| 0 <= m < k ==> self.data@[m] == fill,
            decreases n - k,
        {
            self.data.set(k, fill);
            k = k + 1;
        }
        proof {
            assert forall|i: int, j: int|
                0 <= i < old(self).spec_width() && 0 <= j < old(self).spec_height() implies final(self).pixel(i, j) == fill by {
                lemma_row_major_in_bounds(i, j, self.width as int, self.height as int);
            }
        }
    }

    /// Blends `src` over the pixel at `(x, y)`.
    fn blend_at(&mut self, x: usize, y: usize, src: Color)
        requires
            old(self).wf(),
            x < old(self).spec_width(),
            y < old(self).spec_height(),
        ensures
            final(self).wf(),
            final(self).spec_width() == old(self).spec_width(),
            final(self).spec_height() == old(self).spec_height(),
            final(self).pixel(x as int, y as int) == blend(old(self).pixel(x as int, y as int), src),
            forall|i: int, j: int|
                0 <= i < old(self).spec_width() && 0 <= j < old(self).spec_height() && !(i == x
                    && j == y) ==> final(self).pixel(i, j) == old(self).pixel(i, j),
    {
        let dst = self.get(x, y);
        let sa: u32 = src.a() as u32;
        let da: u32 = 255 - sa;
        proof {
            lemma_blend_bounds(dst.red as int, src.red as int, src.alpha as int);
            lemma_blend_bounds(dst.green as int, src.green as int, src.alpha as int);
            lemma_blend_bounds(dst.blue as int, src.blue as int, src.alpha as int);
        }
        let r: u32 = ((dst.r() as u32) * da + (src.r() as u32) * sa) / 255;
        let g: u32 = ((dst.g() as u32) * da + (src.g() as u32) * sa) / 255;
        let b: u32 = ((dst.b() as u32) * da + (src.b() as u32) * sa) / 255;
        self.set(x, y, XRGB8888 { red: r as u8, green: g as u8, blue: b as u8 });
    }

    /// Blits `texture` with alpha blending, its top-left corner at `(x, y)`,
    /// clipped to the buffer.
    pub fn draw(&mut self, texture: &Texture, x: usize, y: usize)
        requires
            old(self).wf(),
            texture.wf(),
            x <= old(self).spec_width(),
            y <= old(self).spec_height(),
        ensures
            final(self).wf(),
            final(self).spec_width() == old(self).spec_width(),
            final(self).spec_height() == old(self).spec_height(),
            forall|i: int, j: int|
                0 <= i < old(self).spec_width() && 0 <= j < old(self).spec_height() ==> final(self).pixel(i, j) == (if x <= i < x + min_usize(
                    texture.spec_width(),
                    (old(self).spec_width() - x) as usize,
                ) && y <= j < y + min_usize(
                    texture.spec_height(),
                    (old(self).spec_height() - y) as usize,
                ) {
                    blend(old(self).pixel(i, j), texture.pixel(i - x, j - y))
                } else {
                    old(self).pixel(i, j)
                }),
    {
        let cw: usize = min_exec(texture.width(), self.width - x);
        let ch: usize = min_exec(texture.height(), self.height - y);
        let mut dy: usize = 0;
        while dy < ch
            invariant
                self.wf(),
                self.width == old(self).width,
                self.height == old(self).height,
                texture.wf(),
                x + cw <= self.width,
                y + ch <= self.height,
                cw <= texture.spec_width(),
                ch <= texture.spec_height(),
                dy <= ch,
                forall|i: int, j: int|
                    0 <= i < self.spec_width() && 0 <= j < self.spec_height() ==> self.pixel(i, j)
                        == (if x <= i < x + cw && y <= j < y + dy {
                        blend(old(self).pixel(i, j), texture.pixel(i - x, j - y))
                    } else {
                        old(self).pixel(i, j)
                    }),
            decreases ch - dy,
        {
            let mut dx: usize = 0;
            while dx < cw
                invariant
                    self.wf(),
                    self.width == old(self).width,
                    self.height == old(self).height,
                    texture.wf(),
                    x + cw <= self.width,
                    y + ch <= self.height,
                    cw <= texture.spec_width(),
                    ch <= texture.spec_height(),
                    dy < ch,
                    dx <= cw,
                    forall|i: int, j: int|
                        0 <= i < self.spec_width() && 0 <= j < self.spec_height() ==> self.pixel(
                            i,
                            j,
                        ) == (if (x <= i < x + cw && y <= j < y + dy) || (j == y + dy && x <= i < x
                            + dx) {
                            blend(old(self).pixel(i, j), texture.pixel(i - x, j - y))
                        } else {
                            old(self).pixel(i, j)
                        }),
                decreases cw - dx,
            {
                let src = texture.get(dx, dy);
                self.blend_at(x + dx, y + dy, src);
                dx = dx + 1;
            }
            dy = dy + 1;
        }
    }

    /// The buffer as bytes, four per pixel, row-major: blue, green, red,
    /// then one zero byte.
    pub fn to_bytes(&self) -> (bytes: Vec<u8>)
        requires
            self.wf(),
            self.spec_width() * self.spec_height() * 4 <= usize::MAX,
        ensures
            bytes@.len() == self.spec_width() * self.spec_height() * 4,
            forall|k: int|
                0 <= k < self.spec_width() * self.spec_height() ==> {
                    &&& bytes@[4 * k] == self.data@[k].blue
                    &&& bytes@[4 * k + 1] == self.data@[k].green
                    &&& bytes@[4 * k + 2] == self.data@[k].red
                    &&& bytes@[4 * k + 3] == 0u8
                },
    {
        let n: usize = self.data.len();
        let mut bytes: Vec<u8> = Vec::new();
        let mut k: usize = 0;
        while k < n
            invariant
                n == self.data@.len(),
                n * 4 <= usize::MAX,
                k <= n,
                bytes@.len() == 4 * k,
                forall|m: int|
                    0 <= m < k ==> {
                        &&& bytes@[4 * m] == self.data@[m].blue
                        &&& bytes@[4 * m + 1] == self.data@[m].green
                        &&& bytes@[4 * m + 2] == self.data@[m].red
                        &&& bytes@[4 * m + 3] == 0u8
                    },
            decreases n - k,
        {
            let p = self.data[k];
            bytes.push(p.blue);
            bytes.push(p.green);
            bytes.push(p.red);
            bytes.push(0);
            k = k + 1;
        }
        bytes
    }
}

/// The smaller of two lengths.
pub open spec fn min_usize(a: usize, b: usize) -> usize {
    if a <= b {
        a
    } else {
        b
    }
}

/// Computes the smaller of two lengths.
pub fn min_exec(a: usize, b: usize) -> (r: usize)
    ensures
        r == min_usize(a, b),
{
    if a <= b {
        a
    } else {
        b
    }
}

} // verus!
