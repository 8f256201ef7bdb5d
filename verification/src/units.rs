//! Length values and four-sided rectangles.
//!
//! Scalar magnitudes are fixed-point integers counted in thousandths, so
//! `Val::Px(1500)` is one and a half pixels.

use vstd::prelude::*;

verus! {

/// The largest magnitude, in thousandths, that a length or scalar can
/// carry: fifteen nines of integer digits, then three fraction digits.
pub const MAX_MILLI: i64 = 999999999999999999;

/// A length: either the keyword `auto` or a magnitude in one of the
/// supported units. Magnitudes are in thousandths.
#[derive(Debug, Clone, Copy, PartialEq, Eq)]
pub enum Val {
    /// Automatic sizing.
    Auto,
    /// Logical pixels.
    Px(i64),
    /// Percent of the parent's size.
    Percent(i64),
    /// Percent of the viewport width.
    Vw(i64),
    /// Percent of the viewport height.
    Vh(i64),
    /// Percent of the viewport's smaller dimension.
    VMin(i64),
    /// Percent of the viewport's larger dimension.
    VMax(i64),
}

impl Val {
    /// The magnitude carried by the value, in thousandths; `auto` has none.
    pub open spec fn magnitude(self) -> Option<i64> {
        match self {
            Val::Auto => None,
            Val::Px(m) => Some(m),
            Val::Percent(m) => Some(m),
            Val::Vw(m) => Some(m),
            Val::Vh(m) => Some(m),
            Val::VMin(m) => Some(m),
            Val::VMax(m) => Some(m),
        }
    }

    /// Whether the magnitude is within the range the grammars produce;
    /// every parsed value satisfies this.
    pub open spec fn wf(self) -> bool {
        match self.magnitude() {
            Some(m) => -MAX_MILLI <= m <= MAX_MILLI,
            None => true,
        }
    }
}

/// A four-sided set of lengths for margins, padding and borders.
#[derive(Debug, Clone, Copy, PartialEq, Eq)]
pub struct UiRect {
    /// The left side.
    pub left: Val,
    /// The right side.
    pub right: Val,
    /// The top side.
    pub top: Val,
    /// The bottom side.
    pub bottom: Val,
}

impl UiRect {
    /// A rectangle with the four given sides.
    pub fn new(left: Val, right: Val, top: Val, bottom: Val) -> (r: UiRect)
        ensures
            r == (UiRect { left, right, top, bottom }),
    {
        UiRect { left, right, top, bottom }
    }

    /// A rectangle with the same length on every side.
    pub fn all(v: Val) -> (r: UiRect)
        ensures
            r == (UiRect { left: v, right: v, top: v, bottom: v }),
    {
        UiRect { left: v, right: v, top: v, bottom: v }
    }

    /// A rectangle of zero-pixel sides.
    pub fn zero() -> (r: UiRect)
        ensures
            r == UiRect::zero_spec(),
    {
        UiRect::all(Val::Px(0))
    }

    /// The rectangle of zero-pixel sides.
    pub open spec fn zero_spec() -> UiRect {
        UiRect { left: Val::Px(0), right: Val::Px(0), top: Val::Px(0), bottom: Val::Px(0) }
    }
}

} // verus!
