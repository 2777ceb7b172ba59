//! Plain value types shared by the whole adapter: colorspaces, bit depths
//! and the declared input format.

use vstd::prelude::*;

verus! {

/// Channel layout and semantic interpretation of decoded pixel samples.
#[derive(Clone, Copy, PartialEq, Eq, Structural, Debug)]
pub enum Colorspace {
    /// A single grayscale channel.
    Luma,
    /// Grayscale plus alpha.
    LumaA,
    /// Red, green, blue.
    Rgb,
    /// Red, green, blue, alpha.
    Rgba,
}

/// Bits per sample per channel of decoded pixel data.
#[derive(Clone, Copy, PartialEq, Eq, Structural, Debug)]
pub enum BitDepth {
    /// Eight bits per sample; samples live in `u8`.
    Eight,
    /// Sixteen bits per sample; samples live in `u16`.
    Sixteen,
}

/// Declared format of the input a decoder is bound to.
#[derive(Clone, Copy, PartialEq, Eq, Structural, Debug)]
pub enum ImageFormat {
    Png,
}

/// How many interleaved channels one pixel of the colorspace carries.
pub open spec fn spec_channel_count(cs: Colorspace) -> nat {
    match cs {
        Colorspace::Luma => 1,
        Colorspace::LumaA => 2,
        Colorspace::Rgb => 3,
        Colorspace::Rgba => 4,
    }
}

/// Executable channel count; always between 1 and 4.
pub fn channel_count(cs: Colorspace) -> (r: usize)
    ensures
        r == spec_channel_count(cs),
        1 <= r <= 4,
{
    match cs {
        Colorspace::Luma => 1,
        Colorspace::LumaA => 2,
        Colorspace::Rgb => 3,
        Colorspace::Rgba => 4,
    }
}

} // verus!
