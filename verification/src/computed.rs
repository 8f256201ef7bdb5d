//! The fully resolved style record handed to the layout engine.

use vstd::prelude::*;

use crate::color::ColorValue;
use crate::handle::Handle;
use crate::layout::{
    AlignContent, AlignItems, AlignSelf, Direction, Display, FlexDirection, FlexWrap,
    GridAutoFlow, GridPlacement, JustifyContent, JustifyItems, JustifySelf, LineBreak, Overflow,
    OverflowAxis, PositionType,
};
use crate::units::{UiRect, Val};

verus! {

/// The layout fields of a computed style. Scalars (`flex_grow`,
/// `flex_shrink`) are in thousandths.
#[derive(Debug, Clone, Copy, PartialEq)]
pub struct Style {
    pub display: Display,
    pub position_type: PositionType,
    pub overflow: Overflow,
    pub direction: Direction,
    pub left: Val,
    pub right: Val,
    pub top: Val,
    pub bottom: Val,
    pub width: Val,
    pub height: Val,
    pub min_width: Val,
    pub min_height: Val,
    pub max_width: Val,
    pub max_height: Val,
    pub align_items: AlignItems,
    pub justify_items: JustifyItems,
    pub align_self: AlignSelf,
    pub justify_self: JustifySelf,
    pub align_content: AlignContent,
    pub justify_content: JustifyContent,
    pub margin: UiRect,
    pub padding: UiRect,
    pub border: UiRect,
    pub flex_direction: FlexDirection,
    pub flex_wrap: FlexWrap,
    pub flex_grow: i64,
    pub flex_shrink: i64,
    pub flex_basis: Val,
    pub row_gap: Val,
    pub column_gap: Val,
    pub grid_auto_flow: GridAutoFlow,
    pub grid_row: GridPlacement,
    pub grid_column: GridPlacement,
}

impl Style {
    /// The default layout: a relative flex row, visible overflow,
    /// automatic insets and sizes, zero margins, unit flex shrink.
    pub open spec fn default_spec() -> Style {
        Style {
            display: Display::Flex,
            position_type: PositionType::Relative,
            overflow: Overflow { x: OverflowAxis::Visible, y: OverflowAxis::Visible },
            direction: Direction::Inherit,
            left: Val::Auto,
            right: Val::Auto,
            top: Val::Auto,
            bottom: Val::Auto,
            width: Val::Auto,
            height: Val::Auto,
            min_width: Val::Auto,
            min_height: Val::Auto,
            max_width: Val::Auto,
            max_height: Val::Auto,
            align_items: AlignItems::Default,
            justify_items: JustifyItems::Default,
            align_self: AlignSelf::Auto,
            justify_self: JustifySelf::Auto,
            align_content: AlignContent::Default,
            justify_content: JustifyContent::Default,
            margin: UiRect::zero_spec(),
            padding: UiRect::zero_spec(),
            border: UiRect::zero_spec(),
            flex_direction: FlexDirection::Row,
            flex_wrap: FlexWrap::NoWrap,
            flex_grow: 0,
            flex_shrink: 1000,
            flex_basis: Val::Auto,
            row_gap: Val::Px(0),
            column_gap: Val::Px(0),
            grid_auto_flow: GridAutoFlow::Row,
            grid_row: GridPlacement::auto_spec(),
            grid_column: GridPlacement::auto_spec(),
        }
    }
}

impl Default for Style {
    /// The default layout record.
    fn default() -> (r: Style)
        ensures
            r == Style::default_spec(),
    {
        Style {
            display: Display::Flex,
            position_type: PositionType::Relative,
            overflow: Overflow { x: OverflowAxis::Visible, y: OverflowAxis::Visible },
            direction: Direction::Inherit,
            left: Val::Auto,
            right: Val::Auto,
            top: Val::Auto,
            bottom: Val::Auto,
            width: Val::Auto,
            height: Val::Auto,
            min_width: Val::Auto,
            min_height: Val::Auto,
            max_width: Val::Auto,
            max_height: Val::Auto,
            align_items: AlignItems::Default,
            justify_items: JustifyItems::Default,
            align_self: AlignSelf::Auto,
            justify_self: JustifySelf::Auto,
            align_content: AlignContent::Default,
            justify_content: JustifyContent::Default,
            margin: UiRect::zero(),
            padding: UiRect::zero(),
            border: UiRect::zero(),
            flex_direction: FlexDirection::Row,
            flex_wrap: FlexWrap::NoWrap,
            flex_grow: 0,
            flex_shrink: 1000,
            flex_basis: Val::Auto,
            row_gap: Val::Px(0),
            column_gap: Val::Px(0),
            grid_auto_flow: GridAutoFlow::Row,
            grid_row: GridPlacement::auto(),
            grid_column: GridPlacement::auto(),
        }
    }
}

/// The merged, fully resolved output of a cascade: one field per
/// property, no expressions left. Created fresh for every merge and
/// discarded after use.
#[derive(Debug, Clone, Copy, PartialEq)]
pub struct ComputedStyle {
    /// The layout fields.
    pub style: Style,
    /// The resolved background color, if any.
    pub background_color: Option<ColorValue>,
    /// The resolved border color, if any.
    pub border_color: Option<ColorValue>,
    /// The resolved foreground color, if any.
    pub color: Option<ColorValue>,
    /// The resolved stacking index, if any.
    pub z_index: Option<i32>,
    /// The handle of the resolved background image, if any.
    pub image: Option<Handle>,
    /// The resolved line-break mode, if any.
    pub line_break: Option<LineBreak>,
}

impl ComputedStyle {
    /// The all-defaults computed style every merge starts from.
    pub open spec fn default_spec() -> ComputedStyle {
        ComputedStyle {
            style: Style::default_spec(),
            background_color: Option::None,
            border_color: Option::None,
            color: Option::None,
            z_index: Option::None,
            image: Option::None,
            line_break: Option::None,
        }
    }
}

impl Default for ComputedStyle {
    /// The all-defaults computed style.
    fn default() -> (r: ComputedStyle)
        ensures
            r == ComputedStyle::default_spec(),
    {
        ComputedStyle {
            style: Style::default(),
            background_color: Option::None,
            border_color: Option::None,
            color: Option::None,
            z_index: Option::None,
            image: Option::None,
            line_break: Option::None,
        }
    }
}

} // verus!
