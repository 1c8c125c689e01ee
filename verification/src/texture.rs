//! A small owned 2-D grid of colors, blitted onto the framebuffer.
use vstd::prelude::*;

use crate::color::Color;

verus! {

/// A row-major rectangle of `Color` pixels.
pub struct Texture {
    pub data: Vec<Color>,
    pub width: usize,
    pub height: usize,
}

impl Texture {
    /// The pixel grid holds exactly `width * height` entries, row-major.
    pub open spec fn wf(&self) -> bool {
        self.data@.len() == self.width * self.height
    }

    pub open spec fn spec_width(&self) -> usize {
        self.width
    }

    pub open spec fn spec_height(&self) -> usize {
        self.height
    }

    /// The pixel at column `x` of row `y`.
    pub open spec fn pixel(&self, x: int, y: int) -> Color {
        self.data@[y * self.width + x]
    }

    /// Builds a texture from a row-major pixel slice.
    pub fn new(texture: &[Color], width: usize, height: usize) -> (t: Texture)
        requires
            texture@.len() == width * height,
        ensures
            t.wf(),
            t.spec_width() == width,
            t.spec_height() == height,
            t.data@ == texture@,
    {
        let mut data: Vec<Color> = Vec::new();
        let mut i: usize = 0;
        while i < texture.len()
            invariant
                i <= texture@.len(),
                data@ == texture@.subrange(0, i as int),
            decreases texture@.len() - i,
        {
            data.push(texture[i]);
            i = i + 1;
        }
        proof {
            assert(data@ == texture@);
        }
        Texture { data, width, height }
    }

    pub fn width(&self) -> (w: usize)
        ensures
            w == self.spec_width(),
    {
        self.width
    }

    pub fn height(&self) -> (h: usize)
        ensures
            h == self.spec_height(),
    {
        self.height
    }

    /// Reads the pixel at column `x` of row `y`.
    pub fn get(&self, x: usize, y: usize) -> (c: Color)
        requires
            self.wf(),
            x < self.spec_width(),
            y < self.spec_height(),
        ensures
            c == self.pixel(x as int, y as int),
    {
        let _n: usize = self.data.len();
        proof {
            lemma_row_major_in_bounds(x as int, y as int, self.width as int, self.height as int);
        }
        self.data[y * self.width + x]
    }

    /// Overwrites the pixel at column `x` of row `y`.
    pub fn set(&mut self, x: usize, y: usize, c: Color)
        requires
            old(self).wf(),
            x < old(self).spec_width(),
            y < old(self).spec_height(),
        ensures
            final(self).wf(),
            final(self).spec_width() == old(self).spec_width(),
            final(self).spec_height() == old(self).spec_height(),
            final(self).pixel(x as int, y as int) == c,
            forall|i: int, j: int|
                0 <= i < old(self).spec_width() && 0 <= j < old(self).spec_height() && !(i == x
                    && j == y) ==> final(self).pixel(i, j) == old(self).pixel(i, j),
    {
        let _n: usize = self.data.len();
        proof {
            lemma_row_major_in_bounds(x as int, y as int, self.width as int, self.height as int);
        }
        let idx: usize = y * self.width + x;
        self.data.set(idx, c);
        proof {
            assert forall|i: int, j: int|
                0 <= i < old(self).spec_width() && 0 <= j < old(self).spec_height() && !(i == x
                    && j == y) implies final(self).pixel(i, j) == old(self).pixel(i, j) by {
                lemma_row_major_in_bounds(i, j, self.width as int, self.height as int);
                lemma_row_major_injective(i, j, x as int, y as int, self.width as int);
            }
        }
    }
}

/// A row-major index `y * width + x` stays below `width * height`.
pub proof fn lemma_row_major_in_bounds(x: int, y: int, width: int, height: int)
    by (nonlinear_arith)
    requires
        0 <= x < width,
        0 <= y < height,
    ensures
        0 <= y * width + x < width * height,
{
}

/// Distinct in-row-bounds coordinates give distinct row-major indices.
pub proof fn lemma_row_major_injective(x1: int, y1: int, x2: int, y2: int, width: int)
    by (nonlinear_arith)
    requires
        0 <= x1 < width,
        0 <= x2 < width,
        0 <= y1,
        0 <= y2,
        !(x1 == x2 && y1 == y2),
    ensures
        y1 * width + x1 != y2 * width + x2,
{
}

} // verus!
