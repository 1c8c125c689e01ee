//! Pixel color types used by the picture unit and the framebuffer.
//!
//! `Color` carries an alpha channel and is what palettes resolve to;
//! `XRGB8888` is the opaque 32-bit format of the host-visible framebuffer.
use vstd::prelude::*;

verus! {

/// An RGBA color. Alpha 0 means fully transparent, 255 fully opaque.
#[derive(Debug, Copy, Clone, PartialEq, Eq, Structural)]
pub struct Color {
    pub red: u8,
    pub green: u8,
    pub blue: u8,
    pub alpha: u8,
}

impl Color {
    /// An opaque color with the given components.
    pub fn new(r: u8, g: u8, b: u8) -> (c: Color)
        ensures
            c.red == r,
            c.green == g,
            c.blue == b,
            c.alpha == 255,
    {
        Color { red: r, green: g, blue: b, alpha: 255 }
    }

    /// A color with all four components given.
    pub fn with_alpha(r: u8, g: u8, b: u8, a: u8) -> (c: Color)
        ensures
            c == (Color { red: r, green: g, blue: b, alpha: a }),
    {
        Color { red: r, green: g, blue: b, alpha: a }
    }

    /// The fully transparent color.
    pub fn transparent() -> (c: Color)
        ensures
            c == (Color { red: 0, green: 0, blue: 0, alpha: 0 }),
    {
        Color { red: 0, green: 0, blue: 0, alpha: 0 }
    }

    pub fn r(&self) -> (r: u8)
        ensures
            r == self.red,
    {
        self.red
    }

    pub fn g(&self) -> (r: u8)
        ensures
            r == self.green,
    {
        self.green
    }

    pub fn b(&self) -> (r: u8)
        ensures
            r == self.blue,
    {
        self.blue
    }

    pub fn a(&self) -> (r: u8)
        ensures
            r == self.alpha,
    {
        self.alpha
    }

    pub fn set_r(&mut self, r: u8)
        ensures
            *final(self) == (Color { red: r, ..*old(self) }),
    {
        self.red = r;
    }

    pub fn set_g(&mut self, g: u8)
        ensures
            *final(self) == (Color { green: g, ..*old(self) }),
    {
        self.green = g;
    }

    pub fn set_b(&mut self, b: u8)
        ensures
            *final(self) == (Color { blue: b, ..*old(self) }),
    {
        self.blue = b;
    }

    pub fn set_a(&mut self, a: u8)
        ensures
            *final(self) == (Color { alpha: a, ..*old(self) }),
    {
        self.alpha = a;
    }
}

/// An opaque 32-bit color as the host sees it: one unused byte, then
/// red, green and blue.
#[derive(Debug, Copy, Clone, PartialEq, Eq, Structural)]
pub struct XRGB8888 {
    pub red: u8,
    pub green: u8,
    pub blue: u8,
}

impl XRGB8888 {
    pub fn new(r: u8, g: u8, b: u8) -> (c: XRGB8888)
        ensures
            c == (XRGB8888 { red: r, green: g, blue: b }),
    {
        XRGB8888 { red: r, green: g, blue: b }
    }

    pub fn r(&self) -> (r: u8)
        ensures
            r == self.red,
    {
        self.red
    }

    pub fn g(&self) -> (r: u8)
        ensures
            r == self.green,
    {
        self.green
    }

    pub fn b(&self) -> (r: u8)
        ensures
            r == self.blue,
    {
        self.blue
    }

    pub fn set_r(&mut self, r: u8)
        ensures
            *final(self) == (XRGB8888 { red: r, ..*old(self) }),
    {
        self.red = r;
    }

    pub fn set_g(&mut self, g: u8)
        ensures
            *final(self) == (XRGB8888 { green: g, ..*old(self) }),
    {
        self.green = g;
    }

    pub fn set_b(&mut self, b: u8)
        ensures
            *final(self) == (XRGB8888 { blue: b, ..*old(self) }),
    {
        self.blue = b;
    }
}

} // verus!
