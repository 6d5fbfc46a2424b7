//! Single-pixel access to the frame store.

use vstd::prelude::*;
use crate::display::buffer::FrameBuffer;
use crate::display::dirty::DirtyRange;

verus! {

/// Index of the byte that holds the pixel at column `x`, row `y`.
pub open spec fn pixel_index(x: u8, y: u8) -> int {
    (y / 8) * 128 + x
}

/// The bit of that byte which is the pixel of row `y`.
pub open spec fn pixel_mask(y: u8) -> u8 {
    1u8 << (y % 8)
}

/// `byte` with the pixel of row `y` switched on or off.
pub open spec fn with_pixel(byte: u8, on: bool, y: u8) -> u8 {
    if on {
        byte | pixel_mask(y)
    } else {
        byte & !pixel_mask(y)
    }
}

/// Whether bit `bit` of `byte` is set.
pub open spec fn bit_is_set(byte: u8, bit: u8) -> bool {
    byte & (1u8 << bit) != 0
}

/// Switching a pixel gives its bit the wanted state and leaves the seven
/// other bits of the byte as they were.
pub proof fn lemma_with_pixel(byte: u8, on: bool, y: u8, bit: u8)
    requires
        bit < 8,
    ensures
        bit_is_set(with_pixel(byte, on, y), bit) == if bit == y % 8 {
            on
        } else {
            bit_is_set(byte, bit)
        },
{
    let k: u8 = y % 8;
    assert(k < 8);
    assert((byte | (1u8 << k)) & (1u8 << k) != 0) by (bit_vector)
        requires
            k < 8,
    ;
    assert((byte & !(1u8 << k)) & (1u8 << k) == 0) by (bit_vector)
        requires
            k < 8,
    ;
    if bit != k {
        assert((byte | (1u8 << k)) & (1u8 << bit) == byte & (1u8 << bit)) by (bit_vector)
            requires
                k < 8,
                bit < 8,
                bit != k,
        ;
        assert((byte & !(1u8 << k)) & (1u8 << bit) == byte & (1u8 << bit)) by (bit_vector)
            requires
                k < 8,
                bit < 8,
                bit != k,
        ;
    }
}

impl FrameBuffer {
    /// Switches the pixel at column `x`, row `y` on or off, and marks the
    /// whole store dirty.
    ///
    /// The byte that holds the pixel, `(y / 8) * 128 + x`, must lie in the
    /// store.
    pub fn set_pixel(&mut self, val: bool, x: u8, y: u8)
        requires
            pixel_index(x, y) < 1024,
        ensures
            final(self)@ == old(self)@.update(
                pixel_index(x, y),
                with_pixel(old(self)@[pixel_index(x, y)], val, y),
            ),
            final(self).dirty() == DirtyRange::all(),
            final(self).flushed() == old(self).flushed(),
    {
        let byte_index: usize = ((y / 8) as usize) * 128 + (x as usize);
        let byte_mask: u8 = 1u8 << (y % 8);
        self.invalidate();
        let dest: u8 = self.get(byte_index);
        if val {
            self.put(byte_index, dest | byte_mask);
        } else {
            self.put(byte_index, dest & !byte_mask);
        }
    }
}

} // verus!
