//! Color values.
//!
//! Channels are fixed-point integers in thousandths: an RGBA channel of
//! `1000` is full intensity, matching a CSS component of `1.0`; a hue of
//! `360000` is 360 degrees.

use vstd::prelude::*;

verus! {

/// A color in either the RGBA or the HSLA model, channels in thousandths.
#[derive(Debug, Clone, Copy, PartialEq, Eq)]
pub enum ColorValue {
    /// Red, green, blue and alpha, each nominally in `0 ..= 1000`.
    Rgba { red: i64, green: i64, blue: i64, alpha: i64 },
    /// Hue in thousandths of a degree; saturation, lightness and alpha
    /// nominally in `0 ..= 1000`.
    Hsla { hue: i64, saturation: i64, lightness: i64, alpha: i64 },
}

impl ColorValue {
    /// Whether every channel is within the range the grammars produce.
    pub open spec fn wf(self) -> bool {
        match self {
            ColorValue::Rgba { red, green, blue, alpha } => {
                &&& -crate::units::MAX_MILLI <= red <= crate::units::MAX_MILLI
                &&& -crate::units::MAX_MILLI <= green <= crate::units::MAX_MILLI
                &&& -crate::units::MAX_MILLI <= blue <= crate::units::MAX_MILLI
                &&& -crate::units::MAX_MILLI <= alpha <= crate::units::MAX_MILLI
            },
            ColorValue::Hsla { hue, saturation, lightness, alpha } => {
                &&& -crate::units::MAX_MILLI <= hue <= crate::units::MAX_MILLI
                &&& -crate::units::MAX_MILLI <= saturation <= crate::units::MAX_MILLI
                &&& -crate::units::MAX_MILLI <= lightness <= crate::units::MAX_MILLI
                &&& -crate::units::MAX_MILLI <= alpha <= crate::units::MAX_MILLI
            },
        }
    }
}

/// The channel value, in thousandths, that an eight-bit hex component
/// denotes: `b / 255` rounded to the nearest thousandth.
pub open spec fn hex_channel(b: u8) -> i64 {
    ((b * 1000 + 127) / 255) as i64
}

/// Converts an eight-bit hex component to a channel in thousandths.
pub fn hex_channel_exec(b: u8) -> (r: i64)
    ensures
        r == hex_channel(b),
        0 <= r <= 1000,
{
    let wide: u32 = (b as u32) * 1000 + 127;
    (wide / 255) as i64
}

} // verus!
