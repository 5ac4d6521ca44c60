//! In-place image filters over raw RGBA pixel buffers.
//!
//! A buffer is a flat run of bytes read four at a time as red, green, blue
//! and alpha. A filter rewrites such a buffer where it lies and is proved,
//! for every buffer, to leave exactly the bytes that [`model`] describes.
//! The general facts about those bytes are proved in [`laws`].

use vstd::prelude::*;

pub mod laws;
pub mod model;

use crate::model::{
    grayscale, grayscale_byte, is_alpha_byte, is_color_byte, is_tail_byte, pixel_start,
};

verus! {

/// Turns every complete pixel of `pixels` gray, in place.
///
/// Red, green and blue of each complete four-byte group are all replaced by
/// their mean, rounded down. Alpha bytes are neither read nor written, and the
/// one to three bytes that may follow the last complete group are left alone.
/// Any buffer is accepted, the empty one included.
pub fn grayscale_rgba(pixels: &mut [u8])
    ensures
        // The buffer becomes its grayscale image, byte for byte.
        final(pixels)@ == grayscale(old(pixels)@),
        // The buffer keeps its length.
        final(pixels)@.len() == old(pixels)@.len(),
        // Each colour channel of a complete pixel holds the mean of what the
        // pixel's red, green and blue were, rounded down.
        forall|i: int|
            is_color_byte(old(pixels)@, i) ==> #[trigger] final(pixels)@[i] as int
                == (old(pixels)@[pixel_start(i)] + old(pixels)@[pixel_start(i) + 1]
                + old(pixels)@[pixel_start(i) + 2]) / 3,
        // Alpha is untouched.
        forall|i: int|
            is_alpha_byte(old(pixels)@, i) ==> #[trigger] final(pixels)@[i] == old(pixels)@[i],
        // So is the tail.
        forall|i: int|
            is_tail_byte(old(pixels)@, i) ==> #[trigger] final(pixels)@[i] == old(pixels)@[i],
{
    let ghost before = pixels@;
    let len = pixels.len();

    let mut i: usize = 0;
    while len - i >= 4
        invariant
            i <= len,
            i % 4 == 0,
            len == before.len(),
            pixels@.len() == before.len(),
            forall|j: int| 0 <= j < i ==> #[trigger] pixels@[j] == grayscale_byte(before, j),
            forall|j: int| i <= j < len ==> #[trigger] pixels@[j] == before[j],
        decreases len - i,
    {
        let r = pixels[i] as u32;
        let g = pixels[i + 1] as u32;
        let b = pixels[i + 2] as u32;

        let gray = ((r + g + b) / 3) as u8;

        pixels[i] = gray;
        pixels[i + 1] = gray;
        pixels[i + 2] = gray;

        i += 4;
    }
}

} // verus!
