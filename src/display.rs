//! What the host shows: one pixel per byte of the display region, with the
//! byte raised to the fourth power as its intensity.

use vstd::prelude::*;
use crate::cpu::CPU;

verus! {

/// First address of the display region.
pub const DISPLAY_START: u16 = 0x0200;

/// Pixels per row.
pub const DISPLAY_WIDTH: usize = 32;

/// Rows.
pub const DISPLAY_HEIGHT: usize = 32;

/// Pixels in a frame.
pub const DISPLAY_PIXELS: usize = DISPLAY_WIDTH * DISPLAY_HEIGHT;

/// The intensity shown for byte `b`: `b` to the fourth power.
pub open spec fn intensity_spec(b: u8) -> u32 {
    (b * b * b * b) as u32
}

/// `b` to the fourth power, which always fits in 32 bits.
pub fn intensity(b: u8) -> (r: u32)
    ensures
        r as int == b as int * b as int * b as int * b as int,
        r == intensity_spec(b),
{
    let x = b as u32;
    assert(x * x <= 255u32 * 255 && x * x * x <= 255u32 * 255 * 255 && x * x * x * x <= 255u32
        * 255 * 255 * 255) by (nonlinear_arith)
        requires
            x <= 255,
    ;
    let sq = x * x;
    let cube = sq * x;
    cube * x
}

impl CPU {
    /// The frame to show: pixel `i` is the intensity of the byte at
    /// `DISPLAY_START + i`.
    pub fn frame_buffer(&self) -> (r: Vec<u32>)
        ensures
            r@.len() == DISPLAY_PIXELS,
            forall|i: int|
                0 <= i < DISPLAY_PIXELS ==> r@[i] == intensity_spec(
                    self.memory@[DISPLAY_START + i],
                ),
    {
        let mut out: Vec<u32> = Vec::with_capacity(DISPLAY_PIXELS);
        let mut i: usize = 0;
        while i < DISPLAY_PIXELS
            invariant
                i <= DISPLAY_PIXELS,
                out@.len() == i,
                forall|j: int|
                    0 <= j < i ==> out@[j] == intensity_spec(self.memory@[DISPLAY_START + j]),
            decreases DISPLAY_PIXELS - i,
        {
            out.push(intensity(self.memory[DISPLAY_START as usize + i]));
            i = i + 1;
        }
        out
    }
}

} // verus!
