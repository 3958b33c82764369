//! Pixel colors, as the framebuffer and texture model store them: one byte
//! per channel, RGBA order.

use vstd::prelude::*;

verus! {

/// An 8-bit-per-channel RGBA color.
#[derive(Clone, Copy, Debug, PartialEq, Eq, Structural)]
pub struct Rgba {
    pub r: u8,
    pub g: u8,
    pub b: u8,
    pub a: u8,
}

impl Rgba {
    /// Fully transparent black: the initial framebuffer contents and the
    /// initial clear color of a fresh context.
    pub fn transparent_black() -> (c: Rgba)
        ensures
            c == (Rgba { r: 0, g: 0, b: 0, a: 0 }),
    {
        Rgba { r: 0, g: 0, b: 0, a: 0 }
    }
}

} // verus!
