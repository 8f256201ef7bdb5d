//! Enumerated layout properties and grid placement.
//!
//! These model the target layout engine's vocabulary as plain enumerations;
//! each variant corresponds to one string literal on the attribute surface.

use vstd::prelude::*;

verus! {

/// How an element is laid out.
#[derive(Debug, Clone, Copy, PartialEq, Eq)]
pub enum Display {
    /// Flexbox layout.
    Flex,
    /// Grid layout.
    Grid,
    /// The element is removed from layout entirely; written `none` on the
    /// attribute surface.
    Hidden,
}

/// How an element is positioned.
#[derive(Debug, Clone, Copy, PartialEq, Eq)]
pub enum PositionType {
    /// Positioned in the normal flow.
    Relative,
    /// Positioned against the nearest positioned ancestor.
    Absolute,
}

/// How content overflowing one axis is treated.
#[derive(Debug, Clone, Copy, PartialEq, Eq)]
pub enum OverflowAxis {
    /// Overflowing content is shown.
    Visible,
    /// Overflowing content is clipped.
    Clip,
}

/// Per-axis overflow behaviour.
#[derive(Debug, Clone, Copy, PartialEq, Eq)]
pub struct Overflow {
    /// The horizontal axis.
    pub x: OverflowAxis,
    /// The vertical axis.
    pub y: OverflowAxis,
}

/// Text and layout direction.
#[derive(Debug, Clone, Copy, PartialEq, Eq)]
pub enum Direction {
    /// Inherit from the parent.
    Inherit,
    /// Left to right.
    LeftToRight,
    /// Right to left.
    RightToLeft,
}

/// Cross-axis alignment of this element's items.
#[derive(Debug, Clone, Copy, PartialEq, Eq)]
pub enum AlignItems {
    Default,
    Start,
    End,
    FlexStart,
    FlexEnd,
    Center,
    Baseline,
    Stretch,
}

/// Inline-axis alignment of this element's items.
#[derive(Debug, Clone, Copy, PartialEq, Eq)]
pub enum JustifyItems {
    Default,
    Start,
    End,
    Center,
    Baseline,
    Stretch,
}

/// Cross-axis alignment of this element within its parent.
#[derive(Debug, Clone, Copy, PartialEq, Eq)]
pub enum AlignSelf {
    Auto,
    Start,
    End,
    FlexStart,
    FlexEnd,
    Center,
    Baseline,
    Stretch,
}

/// Inline-axis alignment of this element within its parent.
#[derive(Debug, Clone, Copy, PartialEq, Eq)]
pub enum JustifySelf {
    Auto,
    Start,
    End,
    Center,
    Baseline,
    Stretch,
}

/// Distribution of lines along the cross axis.
#[derive(Debug, Clone, Copy, PartialEq, Eq)]
pub enum AlignContent {
    Default,
    Start,
    End,
    FlexStart,
    FlexEnd,
    Center,
    Stretch,
    SpaceBetween,
    SpaceEvenly,
    SpaceAround,
}

/// Distribution of items along the main axis.
#[derive(Debug, Clone, Copy, PartialEq, Eq)]
pub enum JustifyContent {
    Default,
    Start,
    End,
    FlexStart,
    FlexEnd,
    Center,
    Stretch,
    SpaceBetween,
    SpaceEvenly,
    SpaceAround,
}

/// The main axis of a flexbox container.
#[derive(Debug, Clone, Copy, PartialEq, Eq)]
pub enum FlexDirection {
    Row,
    Column,
    RowReverse,
    ColumnReverse,
}

/// Whether flex items wrap onto further lines.
#[derive(Debug, Clone, Copy, PartialEq, Eq)]
pub enum FlexWrap {
    NoWrap,
    Wrap,
    WrapReverse,
}

/// How auto-placed grid items flow.
#[derive(Debug, Clone, Copy, PartialEq, Eq)]
pub enum GridAutoFlow {
    Row,
    Column,
    RowDense,
    ColumnDense,
}

/// Where lines may break inside text.
#[derive(Debug, Clone, Copy, PartialEq, Eq)]
pub enum LineBreak {
    /// Never wrap.
    NoWrap,
    /// Break at word boundaries.
    WordBoundary,
    /// Break anywhere.
    AnyCharacter,
}

/// Placement of an element on one grid axis: an optional start line, an
/// optional span, and an optional end line.
#[derive(Debug, Clone, Copy, PartialEq, Eq)]
pub struct GridPlacement {
    /// The starting grid line, if pinned.
    pub start: Option<i16>,
    /// How many tracks the element spans; never zero when present.
    pub span: Option<u16>,
    /// The ending grid line, if pinned.
    pub end: Option<i16>,
}

impl GridPlacement {
    /// The automatic placement: no pinned lines, a span of one track.
    pub open spec fn auto_spec() -> GridPlacement {
        GridPlacement { start: None, span: Some(1), end: None }
    }

    /// Automatic placement spanning one track.
    pub fn auto() -> (r: GridPlacement)
        ensures
            r == GridPlacement::auto_spec(),
    {
        GridPlacement { start: None, span: Some(1), end: None }
    }

    /// Pins the starting grid line.
    pub fn set_start(&mut self, start: i16)
        ensures
            *final(self) == (GridPlacement { start: Some(start), ..*old(self) }),
    {
        self.start = Some(start);
    }

    /// Sets the span; a span of zero tracks is not representable.
    pub fn set_span(&mut self, span: u16)
        requires
            span >= 1,
        ensures
            *final(self) == (GridPlacement { span: Some(span), ..*old(self) }),
    {
        self.span = Some(span);
    }

    /// Pins the ending grid line.
    pub fn set_end(&mut self, end: i16)
        ensures
            *final(self) == (GridPlacement { end: Some(end), ..*old(self) }),
    {
        self.end = Some(end);
    }
}

} // verus!
