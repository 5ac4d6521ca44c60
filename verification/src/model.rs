//! The mathematical meaning of the filters, over sequences of bytes.
//!
//! A buffer of `n` bytes holds `n / 4` complete pixels, laid out one after
//! another from index 0 as red, green, blue, alpha. The `n % 4` bytes behind
//! them form no pixel and are called the tail.

use vstd::prelude::*;

verus! {

/// The gray level of a colour: the mean of its three channels, rounded down.
pub open spec fn gray_level(r: u8, g: u8, b: u8) -> u8 {
    ((r + g + b) / 3) as u8
}

/// Index of the first byte of the four-byte group that byte `i` falls in.
pub open spec fn pixel_start(i: int) -> int {
    i - i % 4
}

/// Number of leading bytes of `s` that belong to complete pixels; the tail
/// starts here.
pub open spec fn complete_len(s: Seq<u8>) -> int {
    s.len() - s.len() % 4
}

/// Whether byte `i` of `s` is the red, green or blue channel of a complete
/// pixel.
pub open spec fn is_color_byte(s: Seq<u8>, i: int) -> bool {
    0 <= i < complete_len(s) && i % 4 != 3
}

/// Whether byte `i` of `s` is the alpha channel of a complete pixel.
pub open spec fn is_alpha_byte(s: Seq<u8>, i: int) -> bool {
    0 <= i < s.len() && i % 4 == 3
}

/// Whether byte `i` of `s` lies in the tail.
pub open spec fn is_tail_byte(s: Seq<u8>, i: int) -> bool {
    complete_len(s) <= i < s.len()
}

/// Byte `i` of the grayscale image of `s`: the gray level of its pixel where
/// `i` is a colour channel of a complete pixel, and the byte itself where it
/// is an alpha channel or lies in the tail.
pub open spec fn grayscale_byte(s: Seq<u8>, i: int) -> u8 {
    if is_color_byte(s, i) {
        let p = pixel_start(i);
        gray_level(s[p], s[p + 1], s[p + 2])
    } else {
        s[i]
    }
}

/// The grayscale image of a whole buffer.
pub open spec fn grayscale(s: Seq<u8>) -> Seq<u8> {
    Seq::new(s.len(), |i: int| grayscale_byte(s, i))
}

} // verus!
