//! The string vocabularies of the enumerated style properties.
//!
//! Each property maps a fixed set of literals to its enum variants; any
//! other literal is outside the vocabulary.

use vstd::prelude::*;

use crate::layout::{
    AlignContent, AlignItems, AlignSelf, Direction, Display, FlexDirection, FlexWrap,
    GridAutoFlow, JustifyContent, JustifyItems, JustifySelf, LineBreak, OverflowAxis,
    PositionType,
};
use crate::text::str_eq;

verus! {

/// The `display` vocabulary.
pub open spec fn display_of_ident(s: Seq<char>) -> Option<Display> {
    if s == "flex"@ {
        Option::Some(Display::Flex)
    } else if s == "grid"@ {
        Option::Some(Display::Grid)
    } else if s == "none"@ {
        Option::Some(Display::Hidden)
    } else {
        Option::None
    }
}

/// Parses a `display` literal.
pub fn parse_display_ident(s: &str) -> (r: Option<Display>)
    ensures
        r == display_of_ident(s@),
{
    if str_eq(s, "flex") {
        Option::Some(Display::Flex)
    } else if str_eq(s, "grid") {
        Option::Some(Display::Grid)
    } else if str_eq(s, "none") {
        Option::Some(Display::Hidden)
    } else {
        Option::None
    }
}

/// The `position` vocabulary.
pub open spec fn position_of_ident(s: Seq<char>) -> Option<PositionType> {
    if s == "relative"@ {
        Option::Some(PositionType::Relative)
    } else if s == "absolute"@ {
        Option::Some(PositionType::Absolute)
    } else {
        Option::None
    }
}

/// Parses a `position` literal.
pub fn parse_position_ident(s: &str) -> (r: Option<PositionType>)
    ensures
        r == position_of_ident(s@),
{
    if str_eq(s, "relative") {
        Option::Some(PositionType::Relative)
    } else if str_eq(s, "absolute") {
        Option::Some(PositionType::Absolute)
    } else {
        Option::None
    }
}

/// The `overflow` vocabulary.
pub open spec fn overflow_of_ident(s: Seq<char>) -> Option<OverflowAxis> {
    if s == "visible"@ {
        Option::Some(OverflowAxis::Visible)
    } else if s == "clip"@ {
        Option::Some(OverflowAxis::Clip)
    } else {
        Option::None
    }
}

/// Parses a `overflow` literal.
pub fn parse_overflow_ident(s: &str) -> (r: Option<OverflowAxis>)
    ensures
        r == overflow_of_ident(s@),
{
    if str_eq(s, "visible") {
        Option::Some(OverflowAxis::Visible)
    } else if str_eq(s, "clip") {
        Option::Some(OverflowAxis::Clip)
    } else {
        Option::None
    }
}

/// The `direction` vocabulary.
pub open spec fn direction_of_ident(s: Seq<char>) -> Option<Direction> {
    if s == "inherit"@ {
        Option::Some(Direction::Inherit)
    } else if s == "ltr"@ {
        Option::Some(Direction::LeftToRight)
    } else if s == "rtl"@ {
        Option::Some(Direction::RightToLeft)
    } else {
        Option::None
    }
}

/// Parses a `direction` literal.
pub fn parse_direction_ident(s: &str) -> (r: Option<Direction>)
    ensures
        r == direction_of_ident(s@),
{
    if str_eq(s, "inherit") {
        Option::Some(Direction::Inherit)
    } else if str_eq(s, "ltr") {
        Option::Some(Direction::LeftToRight)
    } else if str_eq(s, "rtl") {
        Option::Some(Direction::RightToLeft)
    } else {
        Option::None
    }
}

/// The `align-items` vocabulary.
pub open spec fn align_items_of_ident(s: Seq<char>) -> Option<AlignItems> {
    if s == "default"@ {
        Option::Some(AlignItems::Default)
    } else if s == "start"@ {
        Option::Some(AlignItems::Start)
    } else if s == "end"@ {
        Option::Some(AlignItems::End)
    } else if s == "flex-start"@ {
        Option::Some(AlignItems::FlexStart)
    } else if s == "flex-end"@ {
        Option::Some(AlignItems::FlexEnd)
    } else if s == "center"@ {
        Option::Some(AlignItems::Center)
    } else if s == "baseline"@ {
        Option::Some(AlignItems::Baseline)
    } else if s == "stretch"@ {
        Option::Some(AlignItems::Stretch)
    } else {
        Option::None
    }
}

/// Parses a `align-items` literal.
pub fn parse_align_items_ident(s: &str) -> (r: Option<AlignItems>)
    ensures
        r == align_items_of_ident(s@),
{
    if str_eq(s, "default") {
        Option::Some(AlignItems::Default)
    } else if str_eq(s, "start") {
        Option::Some(AlignItems::Start)
    } else if str_eq(s, "end") {
        Option::Some(AlignItems::End)
    } else if str_eq(s, "flex-start") {
        Option::Some(AlignItems::FlexStart)
    } else if str_eq(s, "flex-end") {
        Option::Some(AlignItems::FlexEnd)
    } else if str_eq(s, "center") {
        Option::Some(AlignItems::Center)
    } else if str_eq(s, "baseline") {
        Option::Some(AlignItems::Baseline)
    } else if str_eq(s, "stretch") {
        Option::Some(AlignItems::Stretch)
    } else {
        Option::None
    }
}

/// The `justify-items` vocabulary.
pub open spec fn justify_items_of_ident(s: Seq<char>) -> Option<JustifyItems> {
    if s == "default"@ {
        Option::Some(JustifyItems::Default)
    } else if s == "start"@ {
        Option::Some(JustifyItems::Start)
    } else if s == "end"@ {
        Option::Some(JustifyItems::End)
    } else if s == "center"@ {
        Option::Some(JustifyItems::Center)
    } else if s == "baseline"@ {
        Option::Some(JustifyItems::Baseline)
    } else if s == "stretch"@ {
        Option::Some(JustifyItems::Stretch)
    } else {
        Option::None
    }
}

/// Parses a `justify-items` literal.
pub fn parse_justify_items_ident(s: &str) -> (r: Option<JustifyItems>)
    ensures
        r == justify_items_of_ident(s@),
{
    if str_eq(s, "default") {
        Option::Some(JustifyItems::Default)
    } else if str_eq(s, "start") {
        Option::Some(JustifyItems::Start)
    } else if str_eq(s, "end") {
        Option::Some(JustifyItems::End)
    } else if str_eq(s, "center") {
        Option::Some(JustifyItems::Center)
    } else if str_eq(s, "baseline") {
        Option::Some(JustifyItems::Baseline)
    } else if str_eq(s, "stretch") {
        Option::Some(JustifyItems::Stretch)
    } else {
        Option::None
    }
}

/// The `align-self` vocabulary.
pub open spec fn align_self_of_ident(s: Seq<char>) -> Option<AlignSelf> {
    if s == "auto"@ {
        Option::Some(AlignSelf::Auto)
    } else if s == "start"@ {
        Option::Some(AlignSelf::Start)
    } else if s == "end"@ {
        Option::Some(AlignSelf::End)
    } else if s == "flex-start"@ {
        Option::Some(AlignSelf::FlexStart)
    } else if s == "flex-end"@ {
        Option::Some(AlignSelf::FlexEnd)
    } else if s == "center"@ {
        Option::Some(AlignSelf::Center)
    } else if s == "baseline"@ {
        Option::Some(AlignSelf::Baseline)
    } else if s == "stretch"@ {
        Option::Some(AlignSelf::Stretch)
    } else {
        Option::None
    }
}

/// Parses a `align-self` literal.
pub fn parse_align_self_ident(s: &str) -> (r: Option<AlignSelf>)
    ensures
        r == align_self_of_ident(s@),
{
    if str_eq(s, "auto") {
        Option::Some(AlignSelf::Auto)
    } else if str_eq(s, "start") {
        Option::Some(AlignSelf::Start)
    } else if str_eq(s, "end") {
        Option::Some(AlignSelf::End)
    } else if str_eq(s, "flex-start") {
        Option::Some(AlignSelf::FlexStart)
    } else if str_eq(s, "flex-end") {
        Option::Some(AlignSelf::FlexEnd)
    } else if str_eq(s, "center") {
        Option::Some(AlignSelf::Center)
    } else if str_eq(s, "baseline") {
        Option::Some(AlignSelf::Baseline)
    } else if str_eq(s, "stretch") {
        Option::Some(AlignSelf::Stretch)
    } else {
        Option::None
    }
}

/// The `justify-self` vocabulary.
pub open spec fn justify_self_of_ident(s: Seq<char>) -> Option<JustifySelf> {
    if s == "auto"@ {
        Option::Some(JustifySelf::Auto)
    } else if s == "start"@ {
        Option::Some(JustifySelf::Start)
    } else if s == "end"@ {
        Option::Some(JustifySelf::End)
    } else if s == "center"@ {
        Option::Some(JustifySelf::Center)
    } else if s == "baseline"@ {
        Option::Some(JustifySelf::Baseline)
    } else if s == "stretch"@ {
        Option::Some(JustifySelf::Stretch)
    } else {
        Option::None
    }
}

/// Parses a `justify-self` literal.
pub fn parse_justify_self_ident(s: &str) -> (r: Option<JustifySelf>)
    ensures
        r == justify_self_of_ident(s@),
{
    if str_eq(s, "auto") {
        Option::Some(JustifySelf::Auto)
    } else if str_eq(s, "start") {
        Option::Some(JustifySelf::Start)
    } else if str_eq(s, "end") {
        Option::Some(JustifySelf::End)
    } else if str_eq(s, "center") {
        Option::Some(JustifySelf::Center)
    } else if str_eq(s, "baseline") {
        Option::Some(JustifySelf::Baseline)
    } else if str_eq(s, "stretch") {
        Option::Some(JustifySelf::Stretch)
    } else {
        Option::None
    }
}

/// The `align-content` vocabulary.
pub open spec fn align_content_of_ident(s: Seq<char>) -> Option<AlignContent> {
    if s == "default"@ {
        Option::Some(AlignContent::Default)
    } else if s == "start"@ {
        Option::Some(AlignContent::Start)
    } else if s == "end"@ {
        Option::Some(AlignContent::End)
    } else if s == "flex-start"@ {
        Option::Some(AlignContent::FlexStart)
    } else if s == "flex-end"@ {
        Option::Some(AlignContent::FlexEnd)
    } else if s == "center"@ {
        Option::Some(AlignContent::Center)
    } else if s == "stretch"@ {
        Option::Some(AlignContent::Stretch)
    } else if s == "space-between"@ {
        Option::Some(AlignContent::SpaceBetween)
    } else if s == "space-evenly"@ {
        Option::Some(AlignContent::SpaceEvenly)
    } else if s == "space-around"@ {
        Option::Some(AlignContent::SpaceAround)
    } else {
        Option::None
    }
}

/// Parses a `align-content` literal.
pub fn parse_align_content_ident(s: &str) -> (r: Option<AlignContent>)
    ensures
        r == align_content_of_ident(s@),
{
    if str_eq(s, "default") {
        Option::Some(AlignContent::Default)
    } else if str_eq(s, "start") {
        Option::Some(AlignContent::Start)
    } else if str_eq(s, "end") {
        Option::Some(AlignContent::End)
    } else if str_eq(s, "flex-start") {
        Option::Some(AlignContent::FlexStart)
    } else if str_eq(s, "flex-end") {
        Option::Some(AlignContent::FlexEnd)
    } else if str_eq(s, "center") {
        Option::Some(AlignContent::Center)
    } else if str_eq(s, "stretch") {
        Option::Some(AlignContent::Stretch)
    } else if str_eq(s, "space-between") {
        Option::Some(AlignContent::SpaceBetween)
    } else if str_eq(s, "space-evenly") {
        Option::Some(AlignContent::SpaceEvenly)
    } else if str_eq(s, "space-around") {
        Option::Some(AlignContent::SpaceAround)
    } else {
        Option::None
    }
}

/// The `justify-content` vocabulary.
pub open spec fn justify_content_of_ident(s: Seq<char>) -> Option<JustifyContent> {
    if s == "default"@ {
        Option::Some(JustifyContent::Default)
    } else if s == "start"@ {
        Option::Some(JustifyContent::Start)
    } else if s == "end"@ {
        Option::Some(JustifyContent::End)
    } else if s == "flex-start"@ {
        Option::Some(JustifyContent::FlexStart)
    } else if s == "flex-end"@ {
        Option::Some(JustifyContent::FlexEnd)
    } else if s == "center"@ {
        Option::Some(JustifyContent::Center)
    } else if s == "stretch"@ {
        Option::Some(JustifyContent::Stretch)
    } else if s == "space-between"@ {
        Option::Some(JustifyContent::SpaceBetween)
    } else if s == "space-evenly"@ {
        Option::Some(JustifyContent::SpaceEvenly)
    } else if s == "space-around"@ {
        Option::Some(JustifyContent::SpaceAround)
    } else {
        Option::None
    }
}

/// Parses a `justify-content` literal.
pub fn parse_justify_content_ident(s: &str) -> (r: Option<JustifyContent>)
    ensures
        r == justify_content_of_ident(s@),
{
    if str_eq(s, "default") {
        Option::Some(JustifyContent::Default)
    } else if str_eq(s, "start") {
        Option::Some(JustifyContent::Start)
    } else if str_eq(s, "end") {
        Option::Some(JustifyContent::End)
    } else if str_eq(s, "flex-start") {
        Option::Some(JustifyContent::FlexStart)
    } else if str_eq(s, "flex-end") {
        Option::Some(JustifyContent::FlexEnd)
    } else if str_eq(s, "center") {
        Option::Some(JustifyContent::Center)
    } else if str_eq(s, "stretch") {
        Option::Some(JustifyContent::Stretch)
    } else if str_eq(s, "space-between") {
        Option::Some(JustifyContent::SpaceBetween)
    } else if str_eq(s, "space-evenly") {
        Option::Some(JustifyContent::SpaceEvenly)
    } else if str_eq(s, "space-around") {
        Option::Some(JustifyContent::SpaceAround)
    } else {
        Option::None
    }
}

/// The `flex-direction` vocabulary.
pub open spec fn flex_direction_of_ident(s: Seq<char>) -> Option<FlexDirection> {
    if s == "row"@ {
        Option::Some(FlexDirection::Row)
    } else if s == "column"@ {
        Option::Some(FlexDirection::Column)
    } else if s == "row-reverse"@ {
        Option::Some(FlexDirection::RowReverse)
    } else if s == "column-reverse"@ {
        Option::Some(FlexDirection::ColumnReverse)
    } else {
        Option::None
    }
}

/// Parses a `flex-direction` literal.
pub fn parse_flex_direction_ident(s: &str) -> (r: Option<FlexDirection>)
    ensures
        r == flex_direction_of_ident(s@),
{
    if str_eq(s, "row") {
        Option::Some(FlexDirection::Row)
    } else if str_eq(s, "column") {
        Option::Some(FlexDirection::Column)
    } else if str_eq(s, "row-reverse") {
        Option::Some(FlexDirection::RowReverse)
    } else if str_eq(s, "column-reverse") {
        Option::Some(FlexDirection::ColumnReverse)
    } else {
        Option::None
    }
}

/// The `flex-wrap` vocabulary.
pub open spec fn flex_wrap_of_ident(s: Seq<char>) -> Option<FlexWrap> {
    if s == "nowrap"@ {
        Option::Some(FlexWrap::NoWrap)
    } else if s == "wrap"@ {
        Option::Some(FlexWrap::Wrap)
    } else if s == "wrap-reverse"@ {
        Option::Some(FlexWrap::WrapReverse)
    } else {
        Option::None
    }
}

/// Parses a `flex-wrap` literal.
pub fn parse_flex_wrap_ident(s: &str) -> (r: Option<FlexWrap>)
    ensures
        r == flex_wrap_of_ident(s@),
{
    if str_eq(s, "nowrap") {
        Option::Some(FlexWrap::NoWrap)
    } else if str_eq(s, "wrap") {
        Option::Some(FlexWrap::Wrap)
    } else if str_eq(s, "wrap-reverse") {
        Option::Some(FlexWrap::WrapReverse)
    } else {
        Option::None
    }
}

/// The `grid-auto-flow` vocabulary.
pub open spec fn grid_auto_flow_of_ident(s: Seq<char>) -> Option<GridAutoFlow> {
    if s == "row"@ {
        Option::Some(GridAutoFlow::Row)
    } else if s == "column"@ {
        Option::Some(GridAutoFlow::Column)
    } else if s == "row-dense"@ {
        Option::Some(GridAutoFlow::RowDense)
    } else if s == "column-dense"@ {
        Option::Some(GridAutoFlow::ColumnDense)
    } else {
        Option::None
    }
}

/// Parses a `grid-auto-flow` literal.
pub fn parse_grid_auto_flow_ident(s: &str) -> (r: Option<GridAutoFlow>)
    ensures
        r == grid_auto_flow_of_ident(s@),
{
    if str_eq(s, "row") {
        Option::Some(GridAutoFlow::Row)
    } else if str_eq(s, "column") {
        Option::Some(GridAutoFlow::Column)
    } else if str_eq(s, "row-dense") {
        Option::Some(GridAutoFlow::RowDense)
    } else if str_eq(s, "column-dense") {
        Option::Some(GridAutoFlow::ColumnDense)
    } else {
        Option::None
    }
}

/// The `line-break` vocabulary.
pub open spec fn line_break_of_ident(s: Seq<char>) -> Option<LineBreak> {
    if s == "nowrap"@ {
        Option::Some(LineBreak::NoWrap)
    } else if s == "word"@ {
        Option::Some(LineBreak::WordBoundary)
    } else if s == "char"@ {
        Option::Some(LineBreak::AnyCharacter)
    } else {
        Option::None
    }
}

/// Parses a `line-break` literal.
pub fn parse_line_break_ident(s: &str) -> (r: Option<LineBreak>)
    ensures
        r == line_break_of_ident(s@),
{
    if str_eq(s, "nowrap") {
        Option::Some(LineBreak::NoWrap)
    } else if str_eq(s, "word") {
        Option::Some(LineBreak::WordBoundary)
    } else if str_eq(s, "char") {
        Option::Some(LineBreak::AnyCharacter)
    } else {
        Option::None
    }
}

/// The canonical literal of a `flex-direction` variant.
pub open spec fn flex_direction_str(v: FlexDirection) -> Seq<char> {
    match v {
        FlexDirection::Row => "row"@,
        FlexDirection::Column => "column"@,
        FlexDirection::RowReverse => "row-reverse"@,
        FlexDirection::ColumnReverse => "column-reverse"@,
    }
}

/// Renders a `flex-direction` variant to its literal.
pub fn flex_direction_to_str(v: FlexDirection) -> (r: &'static str)
    ensures
        r@ == flex_direction_str(v),
{
    match v {
        FlexDirection::Row => "row",
        FlexDirection::Column => "column",
        FlexDirection::RowReverse => "row-reverse",
        FlexDirection::ColumnReverse => "column-reverse",
    }
}

/// The canonical literal of a `flex-wrap` variant.
pub open spec fn flex_wrap_str(v: FlexWrap) -> Seq<char> {
    match v {
        FlexWrap::NoWrap => "nowrap"@,
        FlexWrap::Wrap => "wrap"@,
        FlexWrap::WrapReverse => "wrap-reverse"@,
    }
}

/// Renders a `flex-wrap` variant to its literal.
pub fn flex_wrap_to_str(v: FlexWrap) -> (r: &'static str)
    ensures
        r@ == flex_wrap_str(v),
{
    match v {
        FlexWrap::NoWrap => "nowrap",
        FlexWrap::Wrap => "wrap",
        FlexWrap::WrapReverse => "wrap-reverse",
    }
}

/// The canonical literal of a `grid-auto-flow` variant.
pub open spec fn grid_auto_flow_str(v: GridAutoFlow) -> Seq<char> {
    match v {
        GridAutoFlow::Row => "row"@,
        GridAutoFlow::Column => "column"@,
        GridAutoFlow::RowDense => "row-dense"@,
        GridAutoFlow::ColumnDense => "column-dense"@,
    }
}

/// Renders a `grid-auto-flow` variant to its literal.
pub fn grid_auto_flow_to_str(v: GridAutoFlow) -> (r: &'static str)
    ensures
        r@ == grid_auto_flow_str(v),
{
    match v {
        GridAutoFlow::Row => "row",
        GridAutoFlow::Column => "column",
        GridAutoFlow::RowDense => "row-dense",
        GridAutoFlow::ColumnDense => "column-dense",
    }
}

/// The canonical literal of a `line-break` variant.
pub open spec fn line_break_str(v: LineBreak) -> Seq<char> {
    match v {
        LineBreak::NoWrap => "nowrap"@,
        LineBreak::WordBoundary => "word"@,
        LineBreak::AnyCharacter => "char"@,
    }
}

/// Renders a `line-break` variant to its literal.
pub fn line_break_to_str(v: LineBreak) -> (r: &'static str)
    ensures
        r@ == line_break_str(v),
{
    match v {
        LineBreak::NoWrap => "nowrap",
        LineBreak::WordBoundary => "word",
        LineBreak::AnyCharacter => "char",
    }
}

} // verus!
