//! General facts about the grayscale conversion.

use vstd::prelude::*;

use crate::model::{gray_level, grayscale, grayscale_byte, is_color_byte, pixel_start};

verus! {

/// The mean of three bytes, rounded down, is itself a byte: the gray level is
/// exactly `(r + g + b) / 3` in whole numbers, with nothing cut off.
pub proof fn gray_level_is_truncated_mean(r: u8, g: u8, b: u8)
    ensures
        gray_level(r, g, b) as int == (r + g + b) / 3,
        3 * gray_level(r, g, b) <= r + g + b < 3 * gray_level(r, g, b) + 3,
{
}

/// A colour whose three channels already agree is its own gray level.
pub proof fn gray_level_of_gray(v: u8)
    ensures
        gray_level(v, v, v) == v,
{
}

/// Converting twice gives what converting once gives: after the first pass
/// the three colour channels of every complete pixel agree, and such a pixel
/// is its own gray image.
pub proof fn grayscale_idempotent(s: Seq<u8>)
    ensures
        grayscale(grayscale(s)) == grayscale(s),
{
    let once = grayscale(s);
    assert forall|i: int| 0 <= i < once.len() implies grayscale_byte(once, i) == once[i] by {
        if is_color_byte(once, i) {
            let p = pixel_start(i);
            assert(once[p] == once[p + 1] && once[p] == once[p + 2]);
            gray_level_of_gray(once[p]);
        }
    }
}

} // verus!
