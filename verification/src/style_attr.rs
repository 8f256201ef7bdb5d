//! The style attribute: one variant per stylable property, with the
//! field-granular application of one attribute to a computed style, the
//! attribute-string parser and the XML serializer.
//!
//! An attribute carries either a typed deferred expression or, for
//! enumerations with no expression form (flex-direction, flex-wrap,
//! grid-auto-flow, line-break) and for grid placements, a resolved
//! literal. Applying an attribute whose expression does not evaluate
//! leaves the computed style untouched, which is what makes sparse
//! overriding work.

use quick_xml::events::BytesStart;
use vstd::prelude::*;

use crate::asset_ref::AssetRef;
use crate::color::ColorValue;
use crate::computed::{ComputedStyle, Style};
use crate::error::GuiseError;
use crate::expr::Expr;
use crate::grammar;
use crate::handle::Handle;
use crate::layout::{
    AlignContent, AlignItems, AlignSelf, Direction, Display, FlexDirection, FlexWrap,
    GridAutoFlow, GridPlacement, JustifyContent, JustifyItems, JustifySelf, LineBreak, Overflow,
    OverflowAxis, PositionType,
};
use crate::typed_expr::TypedExpr;
use crate::units::{UiRect, Val};
use crate::vocab;
use crate::xml;

verus! {

/// A background image reference: the textual asset reference and the
/// handle obtained when it was requested.
#[derive(Debug, Clone, PartialEq, Eq)]
pub struct ImageRef {
    /// The textual reference as written, with its resolved form.
    pub asset: AssetRef,
    /// The handle handed out for the requested image.
    pub handle: Handle,
}

impl ImageRef {
    /// An identical copy of the reference.
    pub fn dup(&self) -> (r: ImageRef)
        ensures
            r == *self,
    {
        ImageRef { asset: self.asset.dup(), handle: self.handle }
    }
}

/// A single style property, carried as a deferred typed expression or a
/// resolved literal.
pub enum StyleAttr {
    BackgroundImage(Option<ImageRef>),
    BackgroundColor(TypedExpr<Option<ColorValue>>),
    BorderColor(TypedExpr<Option<ColorValue>>),
    Color(TypedExpr<Option<ColorValue>>),
    ZIndex(TypedExpr<i32>),
    Display(TypedExpr<Display>),
    Position(TypedExpr<PositionType>),
    Overflow(TypedExpr<OverflowAxis>),
    OverflowX(TypedExpr<OverflowAxis>),
    OverflowY(TypedExpr<OverflowAxis>),
    Direction(TypedExpr<Direction>),
    Left(TypedExpr<Val>),
    Right(TypedExpr<Val>),
    Top(TypedExpr<Val>),
    Bottom(TypedExpr<Val>),
    Width(TypedExpr<Val>),
    Height(TypedExpr<Val>),
    MinWidth(TypedExpr<Val>),
    MinHeight(TypedExpr<Val>),
    MaxWidth(TypedExpr<Val>),
    MaxHeight(TypedExpr<Val>),
    AlignItems(TypedExpr<AlignItems>),
    JustifyItems(TypedExpr<JustifyItems>),
    AlignSelf(TypedExpr<AlignSelf>),
    JustifySelf(TypedExpr<JustifySelf>),
    AlignContent(TypedExpr<AlignContent>),
    JustifyContent(TypedExpr<JustifyContent>),
    Margin(TypedExpr<UiRect>),
    MarginLeft(TypedExpr<Val>),
    MarginRight(TypedExpr<Val>),
    MarginTop(TypedExpr<Val>),
    MarginBottom(TypedExpr<Val>),
    Padding(TypedExpr<UiRect>),
    PaddingLeft(TypedExpr<Val>),
    PaddingRight(TypedExpr<Val>),
    PaddingTop(TypedExpr<Val>),
    PaddingBottom(TypedExpr<Val>),
    Border(TypedExpr<UiRect>),
    BorderLeft(TypedExpr<Val>),
    BorderRight(TypedExpr<Val>),
    BorderTop(TypedExpr<Val>),
    BorderBottom(TypedExpr<Val>),
    FlexDirection(FlexDirection),
    FlexWrap(FlexWrap),
    Flex(Expr),
    FlexGrow(TypedExpr<i64>),
    FlexShrink(TypedExpr<i64>),
    FlexBasis(TypedExpr<Val>),
    RowGap(TypedExpr<Val>),
    ColumnGap(TypedExpr<Val>),
    Gap(TypedExpr<Val>),
    GridAutoFlow(GridAutoFlow),
    GridRow(GridPlacement),
    GridRowStart(i16),
    GridRowSpan(u16),
    GridRowEnd(i16),
    GridColumn(GridPlacement),
    GridColumnStart(i16),
    GridColumnSpan(u16),
    GridColumnEnd(i16),
    LineBreak(LineBreak),
}

/// What parsing one of the `colors` family of attribute names yields.
pub open spec fn colors_post(
    name: Seq<char>,
    value: Seq<char>,
    r: Option<Result<StyleAttr, GuiseError>>,
) -> bool {
    if name == "background-color"@ {
        match grammar::parse_color_spec(value) {
                Option::Some(c) => r matches Option::Some(Result::Ok(StyleAttr::BackgroundColor(te)))
                    && te.expr == Expr::Color(c),
                Option::None => r matches Option::Some(
                    Result::Err(GuiseError::InvalidAttributeValue(t)),
                ) && t@ == value,
            }
    } else if name == "border-color"@ {
        match grammar::parse_color_spec(value) {
                Option::Some(c) => r matches Option::Some(Result::Ok(StyleAttr::BorderColor(te)))
                    && te.expr == Expr::Color(c),
                Option::None => r matches Option::Some(
                    Result::Err(GuiseError::InvalidAttributeValue(t)),
                ) && t@ == value,
            }
    } else if name == "color"@ {
        match grammar::parse_color_spec(value) {
                Option::Some(c) => r matches Option::Some(Result::Ok(StyleAttr::Color(te)))
                    && te.expr == Expr::Color(c),
                Option::None => r matches Option::Some(
                    Result::Err(GuiseError::InvalidAttributeValue(t)),
                ) && t@ == value,
            }
    } else if name == "z-index"@ {
        match grammar::int_token(value) {
                Option::Some(n) => if i32::MIN <= n <= i32::MAX {
                    r matches Option::Some(Result::Ok(StyleAttr::ZIndex(te))) && te.expr
                        matches Expr::Number(m) && m == n * 1000
                } else {
                    r matches Option::Some(Result::Err(GuiseError::InvalidAttributeValue(t)))
                        && t@ == value
                },
                Option::None => r matches Option::Some(
                    Result::Err(GuiseError::InvalidAttributeValue(t)),
                ) && t@ == value,
            }
    } else {
        r is None
    }
}

/// What parsing one of the `enums` family of attribute names yields.
pub open spec fn enums_post(
    name: Seq<char>,
    value: Seq<char>,
    r: Option<Result<StyleAttr, GuiseError>>,
) -> bool {
    if name == "display"@ {
        match vocab::display_of_ident(value) {
                Option::Some(_) => r matches Option::Some(Result::Ok(StyleAttr::Display(te)))
                    && te.expr matches Expr::Ident(s) && s@ == value,
                Option::None => r matches Option::Some(
                    Result::Err(GuiseError::UnknownAttributeValue(t)),
                ) && t@ == value,
            }
    } else if name == "position"@ {
        match vocab::position_of_ident(value) {
                Option::Some(_) => r matches Option::Some(Result::Ok(StyleAttr::Position(te)))
                    && te.expr matches Expr::Ident(s) && s@ == value,
                Option::None => r matches Option::Some(
                    Result::Err(GuiseError::UnknownAttributeValue(t)),
                ) && t@ == value,
            }
    } else if name == "overflow"@ {
        match vocab::overflow_of_ident(value) {
                Option::Some(_) => r matches Option::Some(Result::Ok(StyleAttr::Overflow(te)))
                    && te.expr matches Expr::Ident(s) && s@ == value,
                Option::None => r matches Option::Some(
                    Result::Err(GuiseError::UnknownAttributeValue(t)),
                ) && t@ == value,
            }
    } else if name == "overflow-x"@ {
        match vocab::overflow_of_ident(value) {
                Option::Some(_) => r matches Option::Some(Result::Ok(StyleAttr::OverflowX(te)))
                    && te.expr matches Expr::Ident(s) && s@ == value,
                Option::None => r matches Option::Some(
                    Result::Err(GuiseError::UnknownAttributeValue(t)),
                ) && t@ == value,
            }
    } else if name == "overflow-y"@ {
        match vocab::overflow_of_ident(value) {
                Option::Some(_) => r matches Option::Some(Result::Ok(StyleAttr::OverflowY(te)))
                    && te.expr matches Expr::Ident(s) && s@ == value,
                Option::None => r matches Option::Some(
                    Result::Err(GuiseError::UnknownAttributeValue(t)),
                ) && t@ == value,
            }
    } else if name == "direction"@ {
        match vocab::direction_of_ident(value) {
                Option::Some(_) => r matches Option::Some(Result::Ok(StyleAttr::Direction(te)))
                    && te.expr matches Expr::Ident(s) && s@ == value,
                Option::None => r matches Option::Some(
                    Result::Err(GuiseError::UnknownAttributeValue(t)),
                ) && t@ == value,
            }
    } else if name == "align-items"@ {
        match vocab::align_items_of_ident(value) {
                Option::Some(_) => r matches Option::Some(Result::Ok(StyleAttr::AlignItems(te)))
                    && te.expr matches Expr::Ident(s) && s@ == value,
                Option::None => r matches Option::Some(
                    Result::Err(GuiseError::UnknownAttributeValue(t)),
                ) && t@ == value,
            }
    } else if name == "justify-items"@ {
        match vocab::justify_items_of_ident(value) {
                Option::Some(_) => r matches Option::Some(Result::Ok(StyleAttr::JustifyItems(te)))
                    && te.expr matches Expr::Ident(s) && s@ == value,
                Option::None => r matches Option::Some(
                    Result::Err(GuiseError::UnknownAttributeValue(t)),
                ) && t@ == value,
            }
    } else if name == "align-self"@ {
        match vocab::align_self_of_ident(value) {
                Option::Some(_) => r matches Option::Some(Result::Ok(StyleAttr::AlignSelf(te)))
                    && te.expr matches Expr::Ident(s) && s@ == value,
                Option::None => r matches Option::Some(
                    Result::Err(GuiseError::UnknownAttributeValue(t)),
                ) && t@ == value,
            }
    } else if name == "justify-self"@ {
        match vocab::justify_self_of_ident(value) {
                Option::Some(_) => r matches Option::Some(Result::Ok(StyleAttr::JustifySelf(te)))
                    && te.expr matches Expr::Ident(s) && s@ == value,
                Option::None => r matches Option::Some(
                    Result::Err(GuiseError::UnknownAttributeValue(t)),
                ) && t@ == value,
            }
    } else if name == "align-content"@ {
        match vocab::align_content_of_ident(value) {
                Option::Some(_) => r matches Option::Some(Result::Ok(StyleAttr::AlignContent(te)))
                    && te.expr matches Expr::Ident(s) && s@ == value,
                Option::None => r matches Option::Some(
                    Result::Err(GuiseError::UnknownAttributeValue(t)),
                ) && t@ == value,
            }
    } else if name == "justify-content"@ {
        match vocab::justify_content_of_ident(value) {
                Option::Some(_) => r matches Option::Some(Result::Ok(StyleAttr::JustifyContent(te)))
                    && te.expr matches Expr::Ident(s) && s@ == value,
                Option::None => r matches Option::Some(
                    Result::Err(GuiseError::UnknownAttributeValue(t)),
                ) && t@ == value,
            }
    } else {
        r is None
    }
}

/// What parsing one of the `insets` family of attribute names yields.
pub open spec fn insets_post(
    name: Seq<char>,
    value: Seq<char>,
    r: Option<Result<StyleAttr, GuiseError>>,
) -> bool {
    if name == "left"@ {
        match grammar::parse_val_spec(value) {
                Option::Some(val) => r matches Option::Some(Result::Ok(StyleAttr::Left(te)))
                    && te.expr == Expr::Length(val),
                Option::None => r matches Option::Some(
                    Result::Err(GuiseError::InvalidAttributeValue(t)),
                ) && t@ == value,
            }
    } else if name == "right"@ {
        match grammar::parse_val_spec(value) {
                Option::Some(val) => r matches Option::Some(Result::Ok(StyleAttr::Right(te)))
                    && te.expr == Expr::Length(val),
                Option::None => r matches Option::Some(
                    Result::Err(GuiseError::InvalidAttributeValue(t)),
                ) && t@ == value,
            }
    } else if name == "top"@ {
        match grammar::parse_val_spec(value) {
                Option::Some(val) => r matches Option::Some(Result::Ok(StyleAttr::Top(te)))
                    && te.expr == Expr::Length(val),
                Option::None => r matches Option::Some(
                    Result::Err(GuiseError::InvalidAttributeValue(t)),
                ) && t@ == value,
            }
    } else if name == "bottom"@ {
        match grammar::parse_val_spec(value) {
                Option::Some(val) => r matches Option::Some(Result::Ok(StyleAttr::Bottom(te)))
                    && te.expr == Expr::Length(val),
                Option::None => r matches Option::Some(
                    Result::Err(GuiseError::InvalidAttributeValue(t)),
                ) && t@ == value,
            }
    } else if name == "width"@ {
        match grammar::parse_val_spec(value) {
                Option::Some(val) => r matches Option::Some(Result::Ok(StyleAttr::Width(te)))
                    && te.expr == Expr::Length(val),
                Option::None => r matches Option::Some(
                    Result::Err(GuiseError::InvalidAttributeValue(t)),
                ) && t@ == value,
            }
    } else if name == "height"@ {
        match grammar::parse_val_spec(value) {
                Option::Some(val) => r matches Option::Some(Result::Ok(StyleAttr::Height(te)))
                    && te.expr == Expr::Length(val),
                Option::None => r matches Option::Some(
                    Result::Err(GuiseError::InvalidAttributeValue(t)),
                ) && t@ == value,
            }
    } else if name == "min-width"@ {
        match grammar::parse_val_spec(value) {
                Option::Some(val) => r matches Option::Some(Result::Ok(StyleAttr::MinWidth(te)))
                    && te.expr == Expr::Length(val),
                Option::None => r matches Option::Some(
                    Result::Err(GuiseError::InvalidAttributeValue(t)),
                ) && t@ == value,
            }
    } else if name == "min-height"@ {
        match grammar::parse_val_spec(value) {
                Option::Some(val) => r matches Option::Some(Result::Ok(StyleAttr::MinHeight(te)))
                    && te.expr == Expr::Length(val),
                Option::None => r matches Option::Some(
                    Result::Err(GuiseError::InvalidAttributeValue(t)),
                ) && t@ == value,
            }
    } else if name == "max-width"@ {
        match grammar::parse_val_spec(value) {
                Option::Some(val) => r matches Option::Some(Result::Ok(StyleAttr::MaxWidth(te)))
                    && te.expr == Expr::Length(val),
                Option::None => r matches Option::Some(
                    Result::Err(GuiseError::InvalidAttributeValue(t)),
                ) && t@ == value,
            }
    } else if name == "max-height"@ {
        match grammar::parse_val_spec(value) {
                Option::Some(val) => r matches Option::Some(Result::Ok(StyleAttr::MaxHeight(te)))
                    && te.expr == Expr::Length(val),
                Option::None => r matches Option::Some(
                    Result::Err(GuiseError::InvalidAttributeValue(t)),
                ) && t@ == value,
            }
    } else {
        r is None
    }
}

/// What parsing one of the `boxes` family of attribute names yields.
pub open spec fn boxes_post(
    name: Seq<char>,
    value: Seq<char>,
    r: Option<Result<StyleAttr, GuiseError>>,
) -> bool {
    if name == "margin"@ {
        match grammar::parse_uirect_spec(value) {
                Option::Some(rect) => r matches Option::Some(Result::Ok(StyleAttr::Margin(te)))
                    && te.expr == Expr::Rect(rect),
                Option::None => r matches Option::Some(
                    Result::Err(GuiseError::InvalidAttributeValue(t)),
                ) && t@ == grammar::uirect_err_token(value),
            }
    } else if name == "margin-left"@ {
        match grammar::parse_val_spec(value) {
                Option::Some(val) => r matches Option::Some(Result::Ok(StyleAttr::MarginLeft(te)))
                    && te.expr == Expr::Length(val),
                Option::None => r matches Option::Some(
                    Result::Err(GuiseError::InvalidAttributeValue(t)),
                ) && t@ == value,
            }
    } else if name == "margin-right"@ {
        match grammar::parse_val_spec(value) {
                Option::Some(val) => r matches Option::Some(Result::Ok(StyleAttr::MarginRight(te)))
                    && te.expr == Expr::Length(val),
                Option::None => r matches Option::Some(
                    Result::Err(GuiseError::InvalidAttributeValue(t)),
                ) && t@ == value,
            }
    } else if name == "margin-top"@ {
        match grammar::parse_val_spec(value) {
                Option::Some(val) => r matches Option::Some(Result::Ok(StyleAttr::MarginTop(te)))
                    && te.expr == Expr::Length(val),
                Option::None => r matches Option::Some(
                    Result::Err(GuiseError::InvalidAttributeValue(t)),
                ) && t@ == value,
            }
    } else if name == "margin-bottom"@ {
        match grammar::parse_val_spec(value) {
                Option::Some(val) => r matches Option::Some(Result::Ok(StyleAttr::MarginBottom(te)))
                    && te.expr == Expr::Length(val),
                Option::None => r matches Option::Some(
                    Result::Err(GuiseError::InvalidAttributeValue(t)),
                ) && t@ == value,
            }
    } else if name == "padding"@ {
        match grammar::parse_uirect_spec(value) {
                Option::Some(rect) => r matches Option::Some(Result::Ok(StyleAttr::Padding(te)))
                    && te.expr == Expr::Rect(rect),
                Option::None => r matches Option::Some(
                    Result::Err(GuiseError::InvalidAttributeValue(t)),
                ) && t@ == grammar::uirect_err_token(value),
            }
    } else if name == "padding-left"@ {
        match grammar::parse_val_spec(value) {
                Option::Some(val) => r matches Option::Some(Result::Ok(StyleAttr::PaddingLeft(te)))
                    && te.expr == Expr::Length(val),
                Option::None => r matches Option::Some(
                    Result::Err(GuiseError::InvalidAttributeValue(t)),
                ) && t@ == value,
            }
    } else if name == "padding-right"@ {
        match grammar::parse_val_spec(value) {
                Option::Some(val) => r matches Option::Some(Result::Ok(StyleAttr::PaddingRight(te)))
                    && te.expr == Expr::Length(val),
                Option::None => r matches Option::Some(
                    Result::Err(GuiseError::InvalidAttributeValue(t)),
                ) && t@ == value,
            }
    } else if name == "padding-top"@ {
        match grammar::parse_val_spec(value) {
                Option::Some(val) => r matches Option::Some(Result::Ok(StyleAttr::PaddingTop(te)))
                    && te.expr == Expr::Length(val),
                Option::None => r matches Option::Some(
                    Result::Err(GuiseError::InvalidAttributeValue(t)),
                ) && t@ == value,
            }
    } else if name == "padding-bottom"@ {
        match grammar::parse_val_spec(value) {
                Option::Some(val) => r matches Option::Some(Result::Ok(StyleAttr::PaddingBottom(te)))
                    && te.expr == Expr::Length(val),
                Option::None => r matches Option::Some(
                    Result::Err(GuiseError::InvalidAttributeValue(t)),
                ) && t@ == value,
            }
    } else if name == "border"@ {
        match grammar::parse_uirect_spec(value) {
                Option::Some(rect) => r matches Option::Some(Result::Ok(StyleAttr::Border(te)))
                    && te.expr == Expr::Rect(rect),
                Option::None => r matches Option::Some(
                    Result::Err(GuiseError::InvalidAttributeValue(t)),
                ) && t@ == grammar::uirect_err_token(value),
            }
    } else if name == "border-left"@ {
        match grammar::parse_val_spec(value) {
                Option::Some(val) => r matches Option::Some(Result::Ok(StyleAttr::BorderLeft(te)))
                    && te.expr == Expr::Length(val),
                Option::None => r matches Option::Some(
                    Result::Err(GuiseError::InvalidAttributeValue(t)),
                ) && t@ == value,
            }
    } else if name == "border-right"@ {
        match grammar::parse_val_spec(value) {
                Option::Some(val) => r matches Option::Some(Result::Ok(StyleAttr::BorderRight(te)))
                    && te.expr == Expr::Length(val),
                Option::None => r matches Option::Some(
                    Result::Err(GuiseError::InvalidAttributeValue(t)),
                ) && t@ == value,
            }
    } else if name == "border-top"@ {
        match grammar::parse_val_spec(value) {
                Option::Some(val) => r matches Option::Some(Result::Ok(StyleAttr::BorderTop(te)))
                    && te.expr == Expr::Length(val),
                Option::None => r matches Option::Some(
                    Result::Err(GuiseError::InvalidAttributeValue(t)),
                ) && t@ == value,
            }
    } else if name == "border-bottom"@ {
        match grammar::parse_val_spec(value) {
                Option::Some(val) => r matches Option::Some(Result::Ok(StyleAttr::BorderBottom(te)))
                    && te.expr == Expr::Length(val),
                Option::None => r matches Option::Some(
                    Result::Err(GuiseError::InvalidAttributeValue(t)),
                ) && t@ == value,
            }
    } else {
        r is None
    }
}

/// What parsing one of the `flexes` family of attribute names yields.
pub open spec fn flexes_post(
    name: Seq<char>,
    value: Seq<char>,
    r: Option<Result<StyleAttr, GuiseError>>,
) -> bool {
    if name == "flex-direction"@ {
        match vocab::flex_direction_of_ident(value) {
                Option::Some(v) => r == Option::Some(
                    Result::<StyleAttr, GuiseError>::Ok(StyleAttr::FlexDirection(v)),
                ),
                Option::None => r matches Option::Some(
                    Result::Err(GuiseError::UnknownAttributeValue(t)),
                ) && t@ == value,
            }
    } else if name == "flex-wrap"@ {
        match vocab::flex_wrap_of_ident(value) {
                Option::Some(v) => r == Option::Some(
                    Result::<StyleAttr, GuiseError>::Ok(StyleAttr::FlexWrap(v)),
                ),
                Option::None => r matches Option::Some(
                    Result::Err(GuiseError::UnknownAttributeValue(t)),
                ) && t@ == value,
            }
    } else if name == "flex"@ {
        match grammar::signed_milli(value) {
                Option::Some(m) => r matches Option::Some(
                    Result::Ok(StyleAttr::Flex(Expr::Number(m2))),
                ) && m2 == m,
                Option::None => r matches Option::Some(
                    Result::Err(GuiseError::InvalidAttributeValue(t)),
                ) && t@ == value,
            }
    } else if name == "flex-grow"@ {
        match grammar::signed_milli(value) {
                Option::Some(m) => r matches Option::Some(Result::Ok(StyleAttr::FlexGrow(te)))
                    && te.expr matches Expr::Number(m2) && m2 == m,
                Option::None => r matches Option::Some(
                    Result::Err(GuiseError::InvalidAttributeValue(t)),
                ) && t@ == value,
            }
    } else if name == "flex-shrink"@ {
        match grammar::signed_milli(value) {
                Option::Some(m) => r matches Option::Some(Result::Ok(StyleAttr::FlexShrink(te)))
                    && te.expr matches Expr::Number(m2) && m2 == m,
                Option::None => r matches Option::Some(
                    Result::Err(GuiseError::InvalidAttributeValue(t)),
                ) && t@ == value,
            }
    } else if name == "flex-basis"@ {
        match grammar::parse_val_spec(value) {
                Option::Some(val) => r matches Option::Some(Result::Ok(StyleAttr::FlexBasis(te)))
                    && te.expr == Expr::Length(val),
                Option::None => r matches Option::Some(
                    Result::Err(GuiseError::InvalidAttributeValue(t)),
                ) && t@ == value,
            }
    } else if name == "row-gap"@ {
        match grammar::parse_val_spec(value) {
                Option::Some(val) => r matches Option::Some(Result::Ok(StyleAttr::RowGap(te)))
                    && te.expr == Expr::Length(val),
                Option::None => r matches Option::Some(
                    Result::Err(GuiseError::InvalidAttributeValue(t)),
                ) && t@ == value,
            }
    } else if name == "column-gap"@ {
        match grammar::parse_val_spec(value) {
                Option::Some(val) => r matches Option::Some(Result::Ok(StyleAttr::ColumnGap(te)))
                    && te.expr == Expr::Length(val),
                Option::None => r matches Option::Some(
                    Result::Err(GuiseError::InvalidAttributeValue(t)),
                ) && t@ == value,
            }
    } else if name == "gap"@ {
        match grammar::parse_val_spec(value) {
                Option::Some(val) => r matches Option::Some(Result::Ok(StyleAttr::Gap(te)))
                    && te.expr == Expr::Length(val),
                Option::None => r matches Option::Some(
                    Result::Err(GuiseError::InvalidAttributeValue(t)),
                ) && t@ == value,
            }
    } else {
        r is None
    }
}

/// What parsing one of the `grids` family of attribute names yields.
pub open spec fn grids_post(
    name: Seq<char>,
    value: Seq<char>,
    r: Option<Result<StyleAttr, GuiseError>>,
) -> bool {
    if name == "grid-auto-flow"@ {
        match vocab::grid_auto_flow_of_ident(value) {
                Option::Some(v) => r == Option::Some(
                    Result::<StyleAttr, GuiseError>::Ok(StyleAttr::GridAutoFlow(v)),
                ),
                Option::None => r matches Option::Some(
                    Result::Err(GuiseError::UnknownAttributeValue(t)),
                ) && t@ == value,
            }
    } else if name == "grid-row"@ {
        match grammar::parse_grid_spec(value) {
                Option::Some(p) => r == Option::Some(
                    Result::<StyleAttr, GuiseError>::Ok(StyleAttr::GridRow(p)),
                ),
                Option::None => r matches Option::Some(
                    Result::Err(GuiseError::InvalidAttributeValue(t)),
                ) && t@ == value,
            }
    } else if name == "grid-row-start"@ {
        match grammar::int_token(value) {
                Option::Some(n) => if i16::MIN <= n <= i16::MAX {
                    r matches Option::Some(Result::Ok(StyleAttr::GridRowStart(x))) && x as int == n
                } else {
                    r matches Option::Some(Result::Err(GuiseError::InvalidAttributeValue(t)))
                        && t@ == value
                },
                Option::None => r matches Option::Some(
                    Result::Err(GuiseError::InvalidAttributeValue(t)),
                ) && t@ == value,
            }
    } else if name == "grid-row-span"@ {
        match grammar::int_token(value) {
                Option::Some(n) => if 0 <= n <= u16::MAX {
                    r matches Option::Some(Result::Ok(StyleAttr::GridRowSpan(x))) && x as int == n
                } else {
                    r matches Option::Some(Result::Err(GuiseError::InvalidAttributeValue(t)))
                        && t@ == value
                },
                Option::None => r matches Option::Some(
                    Result::Err(GuiseError::InvalidAttributeValue(t)),
                ) && t@ == value,
            }
    } else if name == "grid-row-end"@ {
        match grammar::int_token(value) {
                Option::Some(n) => if i16::MIN <= n <= i16::MAX {
                    r matches Option::Some(Result::Ok(StyleAttr::GridRowEnd(x))) && x as int == n
                } else {
                    r matches Option::Some(Result::Err(GuiseError::InvalidAttributeValue(t)))
                        && t@ == value
                },
                Option::None => r matches Option::Some(
                    Result::Err(GuiseError::InvalidAttributeValue(t)),
                ) && t@ == value,
            }
    } else if name == "grid-column"@ {
        match grammar::parse_grid_spec(value) {
                Option::Some(p) => r == Option::Some(
                    Result::<StyleAttr, GuiseError>::Ok(StyleAttr::GridColumn(p)),
                ),
                Option::None => r matches Option::Some(
                    Result::Err(GuiseError::InvalidAttributeValue(t)),
                ) && t@ == value,
            }
    } else if name == "grid-column-start"@ {
        match grammar::int_token(value) {
                Option::Some(n) => if i16::MIN <= n <= i16::MAX {
                    r matches Option::Some(Result::Ok(StyleAttr::GridColumnStart(x))) && x as int == n
                } else {
                    r matches Option::Some(Result::Err(GuiseError::InvalidAttributeValue(t)))
                        && t@ == value
                },
                Option::None => r matches Option::Some(
                    Result::Err(GuiseError::InvalidAttributeValue(t)),
                ) && t@ == value,
            }
    } else if name == "grid-column-span"@ {
        match grammar::int_token(value) {
                Option::Some(n) => if 0 <= n <= u16::MAX {
                    r matches Option::Some(Result::Ok(StyleAttr::GridColumnSpan(x))) && x as int == n
                } else {
                    r matches Option::Some(Result::Err(GuiseError::InvalidAttributeValue(t)))
                        && t@ == value
                },
                Option::None => r matches Option::Some(
                    Result::Err(GuiseError::InvalidAttributeValue(t)),
                ) && t@ == value,
            }
    } else if name == "grid-column-end"@ {
        match grammar::int_token(value) {
                Option::Some(n) => if i16::MIN <= n <= i16::MAX {
                    r matches Option::Some(Result::Ok(StyleAttr::GridColumnEnd(x))) && x as int == n
                } else {
                    r matches Option::Some(Result::Err(GuiseError::InvalidAttributeValue(t)))
                        && t@ == value
                },
                Option::None => r matches Option::Some(
                    Result::Err(GuiseError::InvalidAttributeValue(t)),
                ) && t@ == value,
            }
    } else if name == "line-break"@ {
        match vocab::line_break_of_ident(value) {
                Option::Some(v) => r == Option::Some(
                    Result::<StyleAttr, GuiseError>::Ok(StyleAttr::LineBreak(v)),
                ),
                Option::None => r matches Option::Some(
                    Result::Err(GuiseError::UnknownAttributeValue(t)),
                ) && t@ == value,
            }
    } else {
        r is None
    }
}

/// Flattens the three-way parse result for the family postconditions:
/// a recognized name yields `Some` of its outcome, an unknown name
/// yields `None`.
pub open spec fn lowered(
    r: Result<Option<StyleAttr>, GuiseError>,
) -> Option<Result<StyleAttr, GuiseError>> {
    match r {
        Result::Ok(Option::Some(a)) => Option::Some(Result::Ok(a)),
        Result::Ok(Option::None) => Option::None,
        Result::Err(e) => Option::Some(Result::Err(e)),
    }
}

/// The whole attribute-string surface: the family a name belongs to
/// decides the result, and a name no family knows parses to `Ok(None)`
/// so the caller can route it elsewhere.
pub open spec fn parse_attr_post(
    name: Seq<char>,
    value: Seq<char>,
    r: Result<Option<StyleAttr>, GuiseError>,
) -> bool {
    if is_colors_name(name) {
        colors_post(name, value, lowered(r))
    } else if is_enums_name(name) {
        enums_post(name, value, lowered(r))
    } else if is_insets_name(name) {
        insets_post(name, value, lowered(r))
    } else if is_boxes_name(name) {
        boxes_post(name, value, lowered(r))
    } else if is_flexes_name(name) {
        flexes_post(name, value, lowered(r))
    } else if is_grids_name(name) {
        grids_post(name, value, lowered(r))
    } else {
        r == Result::<Option<StyleAttr>, GuiseError>::Ok(Option::None)
    }
}

/// Whether `name` belongs to the `colors` family.
pub open spec fn is_colors_name(name: Seq<char>) -> bool {
    name == "background-color"@ || name == "border-color"@ || name == "color"@ || name == "z-index"@
}

/// Whether `name` belongs to the `enums` family.
pub open spec fn is_enums_name(name: Seq<char>) -> bool {
    name == "display"@ || name == "position"@ || name == "overflow"@ || name == "overflow-x"@ || name == "overflow-y"@ || name == "direction"@ || name == "align-items"@ || name == "justify-items"@ || name == "align-self"@ || name == "justify-self"@ || name == "align-content"@ || name == "justify-content"@
}

/// Whether `name` belongs to the `insets` family.
pub open spec fn is_insets_name(name: Seq<char>) -> bool {
    name == "left"@ || name == "right"@ || name == "top"@ || name == "bottom"@ || name == "width"@ || name == "height"@ || name == "min-width"@ || name == "min-height"@ || name == "max-width"@ || name == "max-height"@
}

/// Whether `name` belongs to the `boxes` family.
pub open spec fn is_boxes_name(name: Seq<char>) -> bool {
    name == "margin"@ || name == "margin-left"@ || name == "margin-right"@ || name == "margin-top"@ || name == "margin-bottom"@ || name == "padding"@ || name == "padding-left"@ || name == "padding-right"@ || name == "padding-top"@ || name == "padding-bottom"@ || name == "border"@ || name == "border-left"@ || name == "border-right"@ || name == "border-top"@ || name == "border-bottom"@
}

/// Whether `name` belongs to the `flexes` family.
pub open spec fn is_flexes_name(name: Seq<char>) -> bool {
    name == "flex-direction"@ || name == "flex-wrap"@ || name == "flex"@ || name == "flex-grow"@ || name == "flex-shrink"@ || name == "flex-basis"@ || name == "row-gap"@ || name == "column-gap"@ || name == "gap"@
}

/// Whether `name` belongs to the `grids` family.
pub open spec fn is_grids_name(name: Seq<char>) -> bool {
    name == "grid-auto-flow"@ || name == "grid-row"@ || name == "grid-row-start"@ || name == "grid-row-span"@ || name == "grid-row-end"@ || name == "grid-column"@ || name == "grid-column-start"@ || name == "grid-column-span"@ || name == "grid-column-end"@ || name == "line-break"@
}

/// Parses the `colors` family of attribute names; `None` when the name
/// is not in the family.
#[verifier::spinoff_prover]
fn parse_colors(name: &str, value: &str) -> (r: Option<Result<StyleAttr, GuiseError>>)
    ensures
        colors_post(name@, value@, r),
{
    if crate::text::str_eq(name, "background-color") {
        match grammar::parse_color_str(value) {
                Result::Ok(c) => Option::Some(
                    Result::Ok(StyleAttr::BackgroundColor(TypedExpr::from_expr(Expr::Color(c)))),
                ),
                Result::Err(e) => Option::Some(Result::Err(e)),
            }
    } else if crate::text::str_eq(name, "border-color") {
        match grammar::parse_color_str(value) {
                Result::Ok(c) => Option::Some(
                    Result::Ok(StyleAttr::BorderColor(TypedExpr::from_expr(Expr::Color(c)))),
                ),
                Result::Err(e) => Option::Some(Result::Err(e)),
            }
    } else if crate::text::str_eq(name, "color") {
        match grammar::parse_color_str(value) {
                Result::Ok(c) => Option::Some(
                    Result::Ok(StyleAttr::Color(TypedExpr::from_expr(Expr::Color(c)))),
                ),
                Result::Err(e) => Option::Some(Result::Err(e)),
            }
    } else if crate::text::str_eq(name, "z-index") {
        match grammar::parse_i32_str(value) {
                Result::Ok(x) => Option::Some(
                    Result::Ok(
                        StyleAttr::ZIndex(TypedExpr::from_expr(Expr::Number(x as i64 * 1000))),
                    ),
                ),
                Result::Err(e) => Option::Some(Result::Err(e)),
            }
    } else {
        Option::None
    }
}

/// Parses the `enums` family of attribute names; `None` when the name
/// is not in the family.
#[verifier::spinoff_prover]
fn parse_enums(name: &str, value: &str) -> (r: Option<Result<StyleAttr, GuiseError>>)
    ensures
        enums_post(name@, value@, r),
{
    if crate::text::str_eq(name, "display") {
        match vocab::parse_display_ident(value) {
                Option::Some(_) => Option::Some(
                    Result::Ok(
                        StyleAttr::Display(TypedExpr::from_expr(Expr::Ident(value.to_owned()))),
                    ),
                ),
                Option::None => Option::Some(
                    Result::Err(GuiseError::UnknownAttributeValue(value.to_owned())),
                ),
            }
    } else if crate::text::str_eq(name, "position") {
        match vocab::parse_position_ident(value) {
                Option::Some(_) => Option::Some(
                    Result::Ok(
                        StyleAttr::Position(TypedExpr::from_expr(Expr::Ident(value.to_owned()))),
                    ),
                ),
                Option::None => Option::Some(
                    Result::Err(GuiseError::UnknownAttributeValue(value.to_owned())),
                ),
            }
    } else if crate::text::str_eq(name, "overflow") {
        match vocab::parse_overflow_ident(value) {
                Option::Some(_) => Option::Some(
                    Result::Ok(
                        StyleAttr::Overflow(TypedExpr::from_expr(Expr::Ident(value.to_owned()))),
                    ),
                ),
                Option::None => Option::Some(
                    Result::Err(GuiseError::UnknownAttributeValue(value.to_owned())),
                ),
            }
    } else if crate::text::str_eq(name, "overflow-x") {
        match vocab::parse_overflow_ident(value) {
                Option::Some(_) => Option::Some(
                    Result::Ok(
                        StyleAttr::OverflowX(TypedExpr::from_expr(Expr::Ident(value.to_owned()))),
                    ),
                ),
                Option::None => Option::Some(
                    Result::Err(GuiseError::UnknownAttributeValue(value.to_owned())),
                ),
            }
    } else if crate::text::str_eq(name, "overflow-y") {
        match vocab::parse_overflow_ident(value) {
                Option::Some(_) => Option::Some(
                    Result::Ok(
                        StyleAttr::OverflowY(TypedExpr::from_expr(Expr::Ident(value.to_owned()))),
                    ),
                ),
                Option::None => Option::Some(
                    Result::Err(GuiseError::UnknownAttributeValue(value.to_owned())),
                ),
            }
    } else if crate::text::str_eq(name, "direction") {
        match vocab::parse_direction_ident(value) {
                Option::Some(_) => Option::Some(
                    Result::Ok(
                        StyleAttr::Direction(TypedExpr::from_expr(Expr::Ident(value.to_owned()))),
                    ),
                ),
                Option::None => Option::Some(
                    Result::Err(GuiseError::UnknownAttributeValue(value.to_owned())),
                ),
            }
    } else if crate::text::str_eq(name, "align-items") {
        match vocab::parse_align_items_ident(value) {
                Option::Some(_) => Option::Some(
                    Result::Ok(
                        StyleAttr::AlignItems(TypedExpr::from_expr(Expr::Ident(value.to_owned()))),
                    ),
                ),
                Option::None => Option::Some(
                    Result::Err(GuiseError::UnknownAttributeValue(value.to_owned())),
                ),
            }
    } else if crate::text::str_eq(name, "justify-items") {
        match vocab::parse_justify_items_ident(value) {
                Option::Some(_) => Option::Some(
                    Result::Ok(
                        StyleAttr::JustifyItems(TypedExpr::from_expr(Expr::Ident(value.to_owned()))),
                    ),
                ),
                Option::None => Option::Some(
                    Result::Err(GuiseError::UnknownAttributeValue(value.to_owned())),
                ),
            }
    } else if crate::text::str_eq(name, "align-self") {
        match vocab::parse_align_self_ident(value) {
                Option::Some(_) => Option::Some(
                    Result::Ok(
                        StyleAttr::AlignSelf(TypedExpr::from_expr(Expr::Ident(value.to_owned()))),
                    ),
                ),
                Option::None => Option::Some(
                    Result::Err(GuiseError::UnknownAttributeValue(value.to_owned())),
                ),
            }
    } else if crate::text::str_eq(name, "justify-self") {
        match vocab::parse_justify_self_ident(value) {
                Option::Some(_) => Option::Some(
                    Result::Ok(
                        StyleAttr::JustifySelf(TypedExpr::from_expr(Expr::Ident(value.to_owned()))),
                    ),
                ),
                Option::None => Option::Some(
                    Result::Err(GuiseError::UnknownAttributeValue(value.to_owned())),
                ),
            }
    } else if crate::text::str_eq(name, "align-content") {
        match vocab::parse_align_content_ident(value) {
                Option::Some(_) => Option::Some(
                    Result::Ok(
                        StyleAttr::AlignContent(TypedExpr::from_expr(Expr::Ident(value.to_owned()))),
                    ),
                ),
                Option::None => Option::Some(
                    Result::Err(GuiseError::UnknownAttributeValue(value.to_owned())),
                ),
            }
    } else if crate::text::str_eq(name, "justify-content") {
        match vocab::parse_justify_content_ident(value) {
                Option::Some(_) => Option::Some(
                    Result::Ok(
                        StyleAttr::JustifyContent(TypedExpr::from_expr(Expr::Ident(value.to_owned()))),
                    ),
                ),
                Option::None => Option::Some(
                    Result::Err(GuiseError::UnknownAttributeValue(value.to_owned())),
                ),
            }
    } else {
        Option::None
    }
}

/// Parses the `insets` family of attribute names; `None` when the name
/// is not in the family.
#[verifier::spinoff_prover]
fn parse_insets(name: &str, value: &str) -> (r: Option<Result<StyleAttr, GuiseError>>)
    ensures
        insets_post(name@, value@, r),
{
    if crate::text::str_eq(name, "left") {
        match grammar::parse_val_str(value) {
                Result::Ok(val) => Option::Some(
                    Result::Ok(StyleAttr::Left(TypedExpr::from_expr(Expr::Length(val)))),
                ),
                Result::Err(e) => Option::Some(Result::Err(e)),
            }
    } else if crate::text::str_eq(name, "right") {
        match grammar::parse_val_str(value) {
                Result::Ok(val) => Option::Some(
                    Result::Ok(StyleAttr::Right(TypedExpr::from_expr(Expr::Length(val)))),
                ),
                Result::Err(e) => Option::Some(Result::Err(e)),
            }
    } else if crate::text::str_eq(name, "top") {
        match grammar::parse_val_str(value) {
                Result::Ok(val) => Option::Some(
                    Result::Ok(StyleAttr::Top(TypedExpr::from_expr(Expr::Length(val)))),
                ),
                Result::Err(e) => Option::Some(Result::Err(e)),
            }
    } else if crate::text::str_eq(name, "bottom") {
        match grammar::parse_val_str(value) {
                Result::Ok(val) => Option::Some(
                    Result::Ok(StyleAttr::Bottom(TypedExpr::from_expr(Expr::Length(val)))),
                ),
                Result::Err(e) => Option::Some(Result::Err(e)),
            }
    } else if crate::text::str_eq(name, "width") {
        match grammar::parse_val_str(value) {
                Result::Ok(val) => Option::Some(
                    Result::Ok(StyleAttr::Width(TypedExpr::from_expr(Expr::Length(val)))),
                ),
                Result::Err(e) => Option::Some(Result::Err(e)),
            }
    } else if crate::text::str_eq(name, "height") {
        match grammar::parse_val_str(value) {
                Result::Ok(val) => Option::Some(
                    Result::Ok(StyleAttr::Height(TypedExpr::from_expr(Expr::Length(val)))),
                ),
                Result::Err(e) => Option::Some(Result::Err(e)),
            }
    } else if crate::text::str_eq(name, "min-width") {
        match grammar::parse_val_str(value) {
                Result::Ok(val) => Option::Some(
                    Result::Ok(StyleAttr::MinWidth(TypedExpr::from_expr(Expr::Length(val)))),
                ),
                Result::Err(e) => Option::Some(Result::Err(e)),
            }
    } else if crate::text::str_eq(name, "min-height") {
        match grammar::parse_val_str(value) {
                Result::Ok(val) => Option::Some(
                    Result::Ok(StyleAttr::MinHeight(TypedExpr::from_expr(Expr::Length(val)))),
                ),
                Result::Err(e) => Option::Some(Result::Err(e)),
            }
    } else if crate::text::str_eq(name, "max-width") {
        match grammar::parse_val_str(value) {
                Result::Ok(val) => Option::Some(
                    Result::Ok(StyleAttr::MaxWidth(TypedExpr::from_expr(Expr::Length(val)))),
                ),
                Result::Err(e) => Option::Some(Result::Err(e)),
            }
    } else if crate::text::str_eq(name, "max-height") {
        match grammar::parse_val_str(value) {
                Result::Ok(val) => Option::Some(
                    Result::Ok(StyleAttr::MaxHeight(TypedExpr::from_expr(Expr::Length(val)))),
                ),
                Result::Err(e) => Option::Some(Result::Err(e)),
            }
    } else {
        Option::None
    }
}

/// Parses the `boxes` family of attribute names; `None` when the name
/// is not in the family.
#[verifier::spinoff_prover]
fn parse_boxes(name: &str, value: &str) -> (r: Option<Result<StyleAttr, GuiseError>>)
    ensures
        boxes_post(name@, value@, r),
{
    if crate::text::str_eq(name, "margin") {
        match grammar::parse_uirect_str(value) {
                Result::Ok(rect) => Option::Some(
                    Result::Ok(StyleAttr::Margin(TypedExpr::from_expr(Expr::Rect(rect)))),
                ),
                Result::Err(e) => Option::Some(Result::Err(e)),
            }
    } else if crate::text::str_eq(name, "margin-left") {
        match grammar::parse_val_str(value) {
                Result::Ok(val) => Option::Some(
                    Result::Ok(StyleAttr::MarginLeft(TypedExpr::from_expr(Expr::Length(val)))),
                ),
                Result::Err(e) => Option::Some(Result::Err(e)),
            }
    } else if crate::text::str_eq(name, "margin-right") {
        match grammar::parse_val_str(value) {
                Result::Ok(val) => Option::Some(
                    Result::Ok(StyleAttr::MarginRight(TypedExpr::from_expr(Expr::Length(val)))),
                ),
                Result::Err(e) => Option::Some(Result::Err(e)),
            }
    } else if crate::text::str_eq(name, "margin-top") {
        match grammar::parse_val_str(value) {
                Result::Ok(val) => Option::Some(
                    Result::Ok(StyleAttr::MarginTop(TypedExpr::from_expr(Expr::Length(val)))),
                ),
                Result::Err(e) => Option::Some(Result::Err(e)),
            }
    } else if crate::text::str_eq(name, "margin-bottom") {
        match grammar::parse_val_str(value) {
                Result::Ok(val) => Option::Some(
                    Result::Ok(StyleAttr::MarginBottom(TypedExpr::from_expr(Expr::Length(val)))),
                ),
                Result::Err(e) => Option::Some(Result::Err(e)),
            }
    } else if crate::text::str_eq(name, "padding") {
        match grammar::parse_uirect_str(value) {
                Result::Ok(rect) => Option::Some(
                    Result::Ok(StyleAttr::Padding(TypedExpr::from_expr(Expr::Rect(rect)))),
                ),
                Result::Err(e) => Option::Some(Result::Err(e)),
            }
    } else if crate::text::str_eq(name, "padding-left") {
        match grammar::parse_val_str(value) {
                Result::Ok(val) => Option::Some(
                    Result::Ok(StyleAttr::PaddingLeft(TypedExpr::from_expr(Expr::Length(val)))),
                ),
                Result::Err(e) => Option::Some(Result::Err(e)),
            }
    } else if crate::text::str_eq(name, "padding-right") {
        match grammar::parse_val_str(value) {
                Result::Ok(val) => Option::Some(
                    Result::Ok(StyleAttr::PaddingRight(TypedExpr::from_expr(Expr::Length(val)))),
                ),
                Result::Err(e) => Option::Some(Result::Err(e)),
            }
    } else if crate::text::str_eq(name, "padding-top") {
        match grammar::parse_val_str(value) {
                Result::Ok(val) => Option::Some(
                    Result::Ok(StyleAttr::PaddingTop(TypedExpr::from_expr(Expr::Length(val)))),
                ),
                Result::Err(e) => Option::Some(Result::Err(e)),
            }
    } else if crate::text::str_eq(name, "padding-bottom") {
        match grammar::parse_val_str(value) {
                Result::Ok(val) => Option::Some(
                    Result::Ok(StyleAttr::PaddingBottom(TypedExpr::from_expr(Expr::Length(val)))),
                ),
                Result::Err(e) => Option::Some(Result::Err(e)),
            }
    } else if crate::text::str_eq(name, "border") {
        match grammar::parse_uirect_str(value) {
                Result::Ok(rect) => Option::Some(
                    Result::Ok(StyleAttr::Border(TypedExpr::from_expr(Expr::Rect(rect)))),
                ),
                Result::Err(e) => Option::Some(Result::Err(e)),
            }
    } else if crate::text::str_eq(name, "border-left") {
        match grammar::parse_val_str(value) {
                Result::Ok(val) => Option::Some(
                    Result::Ok(StyleAttr::BorderLeft(TypedExpr::from_expr(Expr::Length(val)))),
                ),
                Result::Err(e) => Option::Some(Result::Err(e)),
            }
    } else if crate::text::str_eq(name, "border-right") {
        match grammar::parse_val_str(value) {
                Result::Ok(val) => Option::Some(
                    Result::Ok(StyleAttr::BorderRight(TypedExpr::from_expr(Expr::Length(val)))),
                ),
                Result::Err(e) => Option::Some(Result::Err(e)),
            }
    } else if crate::text::str_eq(name, "border-top") {
        match grammar::parse_val_str(value) {
                Result::Ok(val) => Option::Some(
                    Result::Ok(StyleAttr::BorderTop(TypedExpr::from_expr(Expr::Length(val)))),
                ),
                Result::Err(e) => Option::Some(Result::Err(e)),
            }
    } else if crate::text::str_eq(name, "border-bottom") {
        match grammar::parse_val_str(value) {
                Result::Ok(val) => Option::Some(
                    Result::Ok(StyleAttr::BorderBottom(TypedExpr::from_expr(Expr::Length(val)))),
                ),
                Result::Err(e) => Option::Some(Result::Err(e)),
            }
    } else {
        Option::None
    }
}

/// Parses the `flexes` family of attribute names; `None` when the name
/// is not in the family.
#[verifier::spinoff_prover]
fn parse_flexes(name: &str, value: &str) -> (r: Option<Result<StyleAttr, GuiseError>>)
    ensures
        flexes_post(name@, value@, r),
{
    if crate::text::str_eq(name, "flex-direction") {
        match vocab::parse_flex_direction_ident(value) {
                Option::Some(v) => Option::Some(Result::Ok(StyleAttr::FlexDirection(v))),
                Option::None => Option::Some(
                    Result::Err(GuiseError::UnknownAttributeValue(value.to_owned())),
                ),
            }
    } else if crate::text::str_eq(name, "flex-wrap") {
        match vocab::parse_flex_wrap_ident(value) {
                Option::Some(v) => Option::Some(Result::Ok(StyleAttr::FlexWrap(v))),
                Option::None => Option::Some(
                    Result::Err(GuiseError::UnknownAttributeValue(value.to_owned())),
                ),
            }
    } else if crate::text::str_eq(name, "flex") {
        match grammar::parse_scalar_str(value) {
                Result::Ok(m) => Option::Some(Result::Ok(StyleAttr::Flex(Expr::Number(m)))),
                Result::Err(e) => Option::Some(Result::Err(e)),
            }
    } else if crate::text::str_eq(name, "flex-grow") {
        match grammar::parse_scalar_str(value) {
                Result::Ok(m) => Option::Some(
                    Result::Ok(StyleAttr::FlexGrow(TypedExpr::from_expr(Expr::Number(m)))),
                ),
                Result::Err(e) => Option::Some(Result::Err(e)),
            }
    } else if crate::text::str_eq(name, "flex-shrink") {
        match grammar::parse_scalar_str(value) {
                Result::Ok(m) => Option::Some(
                    Result::Ok(StyleAttr::FlexShrink(TypedExpr::from_expr(Expr::Number(m)))),
                ),
                Result::Err(e) => Option::Some(Result::Err(e)),
            }
    } else if crate::text::str_eq(name, "flex-basis") {
        match grammar::parse_val_str(value) {
                Result::Ok(val) => Option::Some(
                    Result::Ok(StyleAttr::FlexBasis(TypedExpr::from_expr(Expr::Length(val)))),
                ),
                Result::Err(e) => Option::Some(Result::Err(e)),
            }
    } else if crate::text::str_eq(name, "row-gap") {
        match grammar::parse_val_str(value) {
                Result::Ok(val) => Option::Some(
                    Result::Ok(StyleAttr::RowGap(TypedExpr::from_expr(Expr::Length(val)))),
                ),
                Result::Err(e) => Option::Some(Result::Err(e)),
            }
    } else if crate::text::str_eq(name, "column-gap") {
        match grammar::parse_val_str(value) {
                Result::Ok(val) => Option::Some(
                    Result::Ok(StyleAttr::ColumnGap(TypedExpr::from_expr(Expr::Length(val)))),
                ),
                Result::Err(e) => Option::Some(Result::Err(e)),
            }
    } else if crate::text::str_eq(name, "gap") {
        match grammar::parse_val_str(value) {
                Result::Ok(val) => Option::Some(
                    Result::Ok(StyleAttr::Gap(TypedExpr::from_expr(Expr::Length(val)))),
                ),
                Result::Err(e) => Option::Some(Result::Err(e)),
            }
    } else {
        Option::None
    }
}

/// Parses the `grids` family of attribute names; `None` when the name
/// is not in the family.
#[verifier::spinoff_prover]
fn parse_grids(name: &str, value: &str) -> (r: Option<Result<StyleAttr, GuiseError>>)
    ensures
        grids_post(name@, value@, r),
{
    if crate::text::str_eq(name, "grid-auto-flow") {
        match vocab::parse_grid_auto_flow_ident(value) {
                Option::Some(v) => Option::Some(Result::Ok(StyleAttr::GridAutoFlow(v))),
                Option::None => Option::Some(
                    Result::Err(GuiseError::UnknownAttributeValue(value.to_owned())),
                ),
            }
    } else if crate::text::str_eq(name, "grid-row") {
        match grammar::parse_grid_placement_str(value) {
                Result::Ok(p) => Option::Some(Result::Ok(StyleAttr::GridRow(p))),
                Result::Err(e) => Option::Some(Result::Err(e)),
            }
    } else if crate::text::str_eq(name, "grid-row-start") {
        match grammar::parse_i16_str(value) {
                Result::Ok(x) => Option::Some(Result::Ok(StyleAttr::GridRowStart(x))),
                Result::Err(e) => Option::Some(Result::Err(e)),
            }
    } else if crate::text::str_eq(name, "grid-row-span") {
        match grammar::parse_u16_str(value) {
                Result::Ok(x) => Option::Some(Result::Ok(StyleAttr::GridRowSpan(x))),
                Result::Err(e) => Option::Some(Result::Err(e)),
            }
    } else if crate::text::str_eq(name, "grid-row-end") {
        match grammar::parse_i16_str(value) {
                Result::Ok(x) => Option::Some(Result::Ok(StyleAttr::GridRowEnd(x))),
                Result::Err(e) => Option::Some(Result::Err(e)),
            }
    } else if crate::text::str_eq(name, "grid-column") {
        match grammar::parse_grid_placement_str(value) {
                Result::Ok(p) => Option::Some(Result::Ok(StyleAttr::GridColumn(p))),
                Result::Err(e) => Option::Some(Result::Err(e)),
            }
    } else if crate::text::str_eq(name, "grid-column-start") {
        match grammar::parse_i16_str(value) {
                Result::Ok(x) => Option::Some(Result::Ok(StyleAttr::GridColumnStart(x))),
                Result::Err(e) => Option::Some(Result::Err(e)),
            }
    } else if crate::text::str_eq(name, "grid-column-span") {
        match grammar::parse_u16_str(value) {
                Result::Ok(x) => Option::Some(Result::Ok(StyleAttr::GridColumnSpan(x))),
                Result::Err(e) => Option::Some(Result::Err(e)),
            }
    } else if crate::text::str_eq(name, "grid-column-end") {
        match grammar::parse_i16_str(value) {
                Result::Ok(x) => Option::Some(Result::Ok(StyleAttr::GridColumnEnd(x))),
                Result::Err(e) => Option::Some(Result::Err(e)),
            }
    } else if crate::text::str_eq(name, "line-break") {
        match vocab::parse_line_break_ident(value) {
                Option::Some(v) => Option::Some(Result::Ok(StyleAttr::LineBreak(v))),
                Option::None => Option::Some(
                    Result::Err(GuiseError::UnknownAttributeValue(value.to_owned())),
                ),
            }
    } else {
        Option::None
    }
}

/// The effect of a `BackgroundImage` attribute on a computed style.
pub open spec fn background_image_apply(img: Option<ImageRef>, c: ComputedStyle) -> ComputedStyle {
    match img {
        Option::Some(ir) => ComputedStyle { image: Option::Some(ir.handle), ..c },
        Option::None => ComputedStyle { image: Option::None, ..c },
    }
}

/// The effect of a `BackgroundColor` attribute on a computed style.
pub open spec fn background_color_apply(e: TypedExpr<Option<ColorValue>>, c: ComputedStyle) -> ComputedStyle {
    match e.eval_spec() {
        Option::Some(v) => ComputedStyle { background_color: v, ..c },
        Option::None => c,
    }
}

/// The effect of a `BorderColor` attribute on a computed style.
pub open spec fn border_color_apply(e: TypedExpr<Option<ColorValue>>, c: ComputedStyle) -> ComputedStyle {
    match e.eval_spec() {
        Option::Some(v) => ComputedStyle { border_color: v, ..c },
        Option::None => c,
    }
}

/// The effect of a `Color` attribute on a computed style.
pub open spec fn color_apply(e: TypedExpr<Option<ColorValue>>, c: ComputedStyle) -> ComputedStyle {
    match e.eval_spec() {
        Option::Some(v) => ComputedStyle { color: v, ..c },
        Option::None => c,
    }
}

/// The effect of a `ZIndex` attribute on a computed style.
pub open spec fn z_index_apply(e: TypedExpr<i32>, c: ComputedStyle) -> ComputedStyle {
    match e.eval_spec() {
        Option::Some(v) => ComputedStyle { z_index: Option::Some(v), ..c },
        Option::None => c,
    }
}

/// The effect of a `Display` attribute on a computed style.
pub open spec fn display_apply(e: TypedExpr<Display>, c: ComputedStyle) -> ComputedStyle {
    match e.eval_spec() {
        Option::Some(v) => ComputedStyle { style: Style { display: v, ..c.style }, ..c },
        Option::None => c,
    }
}

/// The effect of a `Position` attribute on a computed style.
pub open spec fn position_apply(e: TypedExpr<PositionType>, c: ComputedStyle) -> ComputedStyle {
    match e.eval_spec() {
        Option::Some(v) => ComputedStyle { style: Style { position_type: v, ..c.style }, ..c },
        Option::None => c,
    }
}

/// The effect of a `Overflow` attribute on a computed style.
pub open spec fn overflow_apply(e: TypedExpr<OverflowAxis>, c: ComputedStyle) -> ComputedStyle {
    match e.eval_spec() {
        Option::Some(v) => ComputedStyle {
            style: Style { overflow: Overflow { x: v, y: v }, ..c.style },
            ..c
        },
        Option::None => c,
    }
}

/// The effect of a `OverflowX` attribute on a computed style.
pub open spec fn overflow_x_apply(e: TypedExpr<OverflowAxis>, c: ComputedStyle) -> ComputedStyle {
    match e.eval_spec() {
        Option::Some(v) => ComputedStyle {
            style: Style { overflow: Overflow { x: v, ..c.style.overflow }, ..c.style },
            ..c
        },
        Option::None => c,
    }
}

/// The effect of a `OverflowY` attribute on a computed style.
pub open spec fn overflow_y_apply(e: TypedExpr<OverflowAxis>, c: ComputedStyle) -> ComputedStyle {
    match e.eval_spec() {
        Option::Some(v) => ComputedStyle {
            style: Style { overflow: Overflow { y: v, ..c.style.overflow }, ..c.style },
            ..c
        },
        Option::None => c,
    }
}

/// The effect of a `Direction` attribute on a computed style.
pub open spec fn direction_apply(e: TypedExpr<Direction>, c: ComputedStyle) -> ComputedStyle {
    match e.eval_spec() {
        Option::Some(v) => ComputedStyle { style: Style { direction: v, ..c.style }, ..c },
        Option::None => c,
    }
}

/// The effect of a `Left` attribute on a computed style.
pub open spec fn left_apply(e: TypedExpr<Val>, c: ComputedStyle) -> ComputedStyle {
    match e.eval_spec() {
        Option::Some(v) => ComputedStyle { style: Style { left: v, ..c.style }, ..c },
        Option::None => c,
    }
}

/// The effect of a `Right` attribute on a computed style.
pub open spec fn right_apply(e: TypedExpr<Val>, c: ComputedStyle) -> ComputedStyle {
    match e.eval_spec() {
        Option::Some(v) => ComputedStyle { style: Style { right: v, ..c.style }, ..c },
        Option::None => c,
    }
}

/// The effect of a `Top` attribute on a computed style.
pub open spec fn top_apply(e: TypedExpr<Val>, c: ComputedStyle) -> ComputedStyle {
    match e.eval_spec() {
        Option::Some(v) => ComputedStyle { style: Style { top: v, ..c.style }, ..c },
        Option::None => c,
    }
}

/// The effect of a `Bottom` attribute on a computed style.
pub open spec fn bottom_apply(e: TypedExpr<Val>, c: ComputedStyle) -> ComputedStyle {
    match e.eval_spec() {
        Option::Some(v) => ComputedStyle { style: Style { bottom: v, ..c.style }, ..c },
        Option::None => c,
    }
}

/// The effect of a `Width` attribute on a computed style.
pub open spec fn width_apply(e: TypedExpr<Val>, c: ComputedStyle) -> ComputedStyle {
    match e.eval_spec() {
        Option::Some(v) => ComputedStyle { style: Style { width: v, ..c.style }, ..c },
        Option::None => c,
    }
}

/// The effect of a `Height` attribute on a computed style.
pub open spec fn height_apply(e: TypedExpr<Val>, c: ComputedStyle) -> ComputedStyle {
    match e.eval_spec() {
        Option::Some(v) => ComputedStyle { style: Style { height: v, ..c.style }, ..c },
        Option::None => c,
    }
}

/// The effect of a `MinWidth` attribute on a computed style.
pub open spec fn min_width_apply(e: TypedExpr<Val>, c: ComputedStyle) -> ComputedStyle {
    match e.eval_spec() {
        Option::Some(v) => ComputedStyle { style: Style { min_width: v, ..c.style }, ..c },
        Option::None => c,
    }
}

/// The effect of a `MinHeight` attribute on a computed style.
pub open spec fn min_height_apply(e: TypedExpr<Val>, c: ComputedStyle) -> ComputedStyle {
    match e.eval_spec() {
        Option::Some(v) => ComputedStyle { style: Style { min_height: v, ..c.style }, ..c },
        Option::None => c,
    }
}

/// The effect of a `MaxWidth` attribute on a computed style.
pub open spec fn max_width_apply(e: TypedExpr<Val>, c: ComputedStyle) -> ComputedStyle {
    match e.eval_spec() {
        Option::Some(v) => ComputedStyle { style: Style { max_width: v, ..c.style }, ..c },
        Option::None => c,
    }
}

/// The effect of a `MaxHeight` attribute on a computed style.
pub open spec fn max_height_apply(e: TypedExpr<Val>, c: ComputedStyle) -> ComputedStyle {
    match e.eval_spec() {
        Option::Some(v) => ComputedStyle { style: Style { max_height: v, ..c.style }, ..c },
        Option::None => c,
    }
}

/// The effect of a `AlignItems` attribute on a computed style.
pub open spec fn align_items_apply(e: TypedExpr<AlignItems>, c: ComputedStyle) -> ComputedStyle {
    match e.eval_spec() {
        Option::Some(v) => ComputedStyle { style: Style { align_items: v, ..c.style }, ..c },
        Option::None => c,
    }
}

/// The effect of a `JustifyItems` attribute on a computed style.
pub open spec fn justify_items_apply(e: TypedExpr<JustifyItems>, c: ComputedStyle) -> ComputedStyle {
    match e.eval_spec() {
        Option::Some(v) => ComputedStyle { style: Style { justify_items: v, ..c.style }, ..c },
        Option::None => c,
    }
}

/// The effect of a `AlignSelf` attribute on a computed style.
pub open spec fn align_self_apply(e: TypedExpr<AlignSelf>, c: ComputedStyle) -> ComputedStyle {
    match e.eval_spec() {
        Option::Some(v) => ComputedStyle { style: Style { align_self: v, ..c.style }, ..c },
        Option::None => c,
    }
}

/// The effect of a `JustifySelf` attribute on a computed style.
pub open spec fn justify_self_apply(e: TypedExpr<JustifySelf>, c: ComputedStyle) -> ComputedStyle {
    match e.eval_spec() {
        Option::Some(v) => ComputedStyle { style: Style { justify_self: v, ..c.style }, ..c },
        Option::None => c,
    }
}

/// The effect of a `AlignContent` attribute on a computed style.
pub open spec fn align_content_apply(e: TypedExpr<AlignContent>, c: ComputedStyle) -> ComputedStyle {
    match e.eval_spec() {
        Option::Some(v) => ComputedStyle { style: Style { align_content: v, ..c.style }, ..c },
        Option::None => c,
    }
}

/// The effect of a `JustifyContent` attribute on a computed style.
pub open spec fn justify_content_apply(e: TypedExpr<JustifyContent>, c: ComputedStyle) -> ComputedStyle {
    match e.eval_spec() {
        Option::Some(v) => ComputedStyle { style: Style { justify_content: v, ..c.style }, ..c },
        Option::None => c,
    }
}

/// The effect of a `Margin` attribute on a computed style.
pub open spec fn margin_apply(e: TypedExpr<UiRect>, c: ComputedStyle) -> ComputedStyle {
    match e.eval_spec() {
        Option::Some(v) => ComputedStyle { style: Style { margin: v, ..c.style }, ..c },
        Option::None => c,
    }
}

/// The effect of a `MarginLeft` attribute on a computed style.
pub open spec fn margin_left_apply(e: TypedExpr<Val>, c: ComputedStyle) -> ComputedStyle {
    match e.eval_spec() {
        Option::Some(v) => ComputedStyle {
            style: Style { margin: UiRect { left: v, ..c.style.margin }, ..c.style },
            ..c
        },
        Option::None => c,
    }
}

/// The effect of a `MarginRight` attribute on a computed style.
pub open spec fn margin_right_apply(e: TypedExpr<Val>, c: ComputedStyle) -> ComputedStyle {
    match e.eval_spec() {
        Option::Some(v) => ComputedStyle {
            style: Style { margin: UiRect { right: v, ..c.style.margin }, ..c.style },
            ..c
        },
        Option::None => c,
    }
}

/// The effect of a `MarginTop` attribute on a computed style.
pub open spec fn margin_top_apply(e: TypedExpr<Val>, c: ComputedStyle) -> ComputedStyle {
    match e.eval_spec() {
        Option::Some(v) => ComputedStyle {
            style: Style { margin: UiRect { top: v, ..c.style.margin }, ..c.style },
            ..c
        },
        Option::None => c,
    }
}

/// The effect of a `MarginBottom` attribute on a computed style.
pub open spec fn margin_bottom_apply(e: TypedExpr<Val>, c: ComputedStyle) -> ComputedStyle {
    match e.eval_spec() {
        Option::Some(v) => ComputedStyle {
            style: Style { margin: UiRect { bottom: v, ..c.style.margin }, ..c.style },
            ..c
        },
        Option::None => c,
    }
}

/// The effect of a `Padding` attribute on a computed style.
pub open spec fn padding_apply(e: TypedExpr<UiRect>, c: ComputedStyle) -> ComputedStyle {
    match e.eval_spec() {
        Option::Some(v) => ComputedStyle { style: Style { padding: v, ..c.style }, ..c },
        Option::None => c,
    }
}

/// The effect of a `PaddingLeft` attribute on a computed style.
pub open spec fn padding_left_apply(e: TypedExpr<Val>, c: ComputedStyle) -> ComputedStyle {
    match e.eval_spec() {
        Option::Some(v) => ComputedStyle {
            style: Style { padding: UiRect { left: v, ..c.style.padding }, ..c.style },
            ..c
        },
        Option::None => c,
    }
}

/// The effect of a `PaddingRight` attribute on a computed style.
pub open spec fn padding_right_apply(e: TypedExpr<Val>, c: ComputedStyle) -> ComputedStyle {
    match e.eval_spec() {
        Option::Some(v) => ComputedStyle {
            style: Style { padding: UiRect { right: v, ..c.style.padding }, ..c.style },
            ..c
        },
        Option::None => c,
    }
}

/// The effect of a `PaddingTop` attribute on a computed style.
pub open spec fn padding_top_apply(e: TypedExpr<Val>, c: ComputedStyle) -> ComputedStyle {
    match e.eval_spec() {
        Option::Some(v) => ComputedStyle {
            style: Style { padding: UiRect { top: v, ..c.style.padding }, ..c.style },
            ..c
        },
        Option::None => c,
    }
}

/// The effect of a `PaddingBottom` attribute on a computed style.
pub open spec fn padding_bottom_apply(e: TypedExpr<Val>, c: ComputedStyle) -> ComputedStyle {
    match e.eval_spec() {
        Option::Some(v) => ComputedStyle {
            style: Style { padding: UiRect { bottom: v, ..c.style.padding }, ..c.style },
            ..c
        },
        Option::None => c,
    }
}

/// The effect of a `Border` attribute on a computed style.
pub open spec fn border_apply(e: TypedExpr<UiRect>, c: ComputedStyle) -> ComputedStyle {
    match e.eval_spec() {
        Option::Some(v) => ComputedStyle { style: Style { border: v, ..c.style }, ..c },
        Option::None => c,
    }
}

/// The effect of a `BorderLeft` attribute on a computed style.
pub open spec fn border_left_apply(e: TypedExpr<Val>, c: ComputedStyle) -> ComputedStyle {
    match e.eval_spec() {
        Option::Some(v) => ComputedStyle {
            style: Style { border: UiRect { left: v, ..c.style.border }, ..c.style },
            ..c
        },
        Option::None => c,
    }
}

/// The effect of a `BorderRight` attribute on a computed style.
pub open spec fn border_right_apply(e: TypedExpr<Val>, c: ComputedStyle) -> ComputedStyle {
    match e.eval_spec() {
        Option::Some(v) => ComputedStyle {
            style: Style { border: UiRect { right: v, ..c.style.border }, ..c.style },
            ..c
        },
        Option::None => c,
    }
}

/// The effect of a `BorderTop` attribute on a computed style.
pub open spec fn border_top_apply(e: TypedExpr<Val>, c: ComputedStyle) -> ComputedStyle {
    match e.eval_spec() {
        Option::Some(v) => ComputedStyle {
            style: Style { border: UiRect { top: v, ..c.style.border }, ..c.style },
            ..c
        },
        Option::None => c,
    }
}

/// The effect of a `BorderBottom` attribute on a computed style.
pub open spec fn border_bottom_apply(e: TypedExpr<Val>, c: ComputedStyle) -> ComputedStyle {
    match e.eval_spec() {
        Option::Some(v) => ComputedStyle {
            style: Style { border: UiRect { bottom: v, ..c.style.border }, ..c.style },
            ..c
        },
        Option::None => c,
    }
}

/// The effect of a `FlexDirection` attribute on a computed style.
pub open spec fn flex_direction_apply(v: FlexDirection, c: ComputedStyle) -> ComputedStyle {
    ComputedStyle { style: Style { flex_direction: v, ..c.style }, ..c }
}

/// The effect of a `FlexWrap` attribute on a computed style.
pub open spec fn flex_wrap_apply(v: FlexWrap, c: ComputedStyle) -> ComputedStyle {
    ComputedStyle { style: Style { flex_wrap: v, ..c.style }, ..c }
}

/// The flex-grow write of a `flex` list entry: numbers set the factor.
pub open spec fn flex_set_grow(o: Option<i64>, s: Style) -> Style {
    match o {
        Option::Some(g) => Style { flex_grow: g, ..s },
        Option::None => s,
    }
}

/// The flex-shrink write of a `flex` list entry.
pub open spec fn flex_set_shrink(o: Option<i64>, s: Style) -> Style {
    match o {
        Option::Some(sh) => Style { flex_shrink: sh, ..s },
        Option::None => s,
    }
}

/// The flex-basis write of a `flex` list entry: lengths set the basis.
pub open spec fn flex_set_basis(o: Option<Val>, s: Style) -> Style {
    match o {
        Option::Some(b) => Style { flex_basis: b, ..s },
        Option::None => s,
    }
}

/// The effect of a three-element `flex` list on a computed style: the
/// first two entries set grow and shrink when they are numbers, the
/// third sets the basis when it is a length.
pub open spec fn flex_list_apply(items: Seq<Expr>, c: ComputedStyle) -> ComputedStyle {
    if items.len() == 3 {
        ComputedStyle {
            style: flex_set_basis(
                items[2].length_of(),
                flex_set_shrink(items[1].scalar_of(), flex_set_grow(items[0].scalar_of(), c.style)),
            ),
            ..c
        }
    } else {
        c
    }
}

/// The effect of a `Flex` attribute on a computed style.
pub open spec fn flex_apply(e: Expr, c: ComputedStyle) -> ComputedStyle {
    match e {
        Expr::Number(n) => ComputedStyle {
            style: Style { flex_grow: n, flex_shrink: n, flex_basis: Val::Auto, ..c.style },
            ..c
        },
        Expr::List(items) => flex_list_apply(items@, c),
        _ => c,
    }
}

/// The effect of a `FlexGrow` attribute on a computed style.
pub open spec fn flex_grow_apply(e: TypedExpr<i64>, c: ComputedStyle) -> ComputedStyle {
    match e.eval_spec() {
        Option::Some(v) => ComputedStyle { style: Style { flex_grow: v, ..c.style }, ..c },
        Option::None => c,
    }
}

/// The effect of a `FlexShrink` attribute on a computed style.
pub open spec fn flex_shrink_apply(e: TypedExpr<i64>, c: ComputedStyle) -> ComputedStyle {
    match e.eval_spec() {
        Option::Some(v) => ComputedStyle { style: Style { flex_shrink: v, ..c.style }, ..c },
        Option::None => c,
    }
}

/// The effect of a `FlexBasis` attribute on a computed style.
pub open spec fn flex_basis_apply(e: TypedExpr<Val>, c: ComputedStyle) -> ComputedStyle {
    match e.eval_spec() {
        Option::Some(v) => ComputedStyle { style: Style { flex_basis: v, ..c.style }, ..c },
        Option::None => c,
    }
}

/// The effect of a `RowGap` attribute on a computed style.
pub open spec fn row_gap_apply(e: TypedExpr<Val>, c: ComputedStyle) -> ComputedStyle {
    match e.eval_spec() {
        Option::Some(v) => ComputedStyle { style: Style { row_gap: v, ..c.style }, ..c },
        Option::None => c,
    }
}

/// The effect of a `ColumnGap` attribute on a computed style.
pub open spec fn column_gap_apply(e: TypedExpr<Val>, c: ComputedStyle) -> ComputedStyle {
    match e.eval_spec() {
        Option::Some(v) => ComputedStyle { style: Style { column_gap: v, ..c.style }, ..c },
        Option::None => c,
    }
}

/// The effect of a `Gap` attribute on a computed style.
pub open spec fn gap_apply(e: TypedExpr<Val>, c: ComputedStyle) -> ComputedStyle {
    match e.eval_spec() {
        Option::Some(v) => ComputedStyle {
            style: Style { row_gap: v, column_gap: v, ..c.style },
            ..c
        },
        Option::None => c,
    }
}

/// The effect of a `GridAutoFlow` attribute on a computed style.
pub open spec fn grid_auto_flow_apply(v: GridAutoFlow, c: ComputedStyle) -> ComputedStyle {
    ComputedStyle { style: Style { grid_auto_flow: v, ..c.style }, ..c }
}

/// The effect of a `GridRow` attribute on a computed style.
pub open spec fn grid_row_apply(p: GridPlacement, c: ComputedStyle) -> ComputedStyle {
    ComputedStyle { style: Style { grid_row: p, ..c.style }, ..c }
}

/// The effect of a `GridRowStart` attribute on a computed style.
pub open spec fn grid_row_start_apply(v: i16, c: ComputedStyle) -> ComputedStyle {
    ComputedStyle {
        style: Style {
            grid_row: GridPlacement { start: Option::Some(v), ..c.style.grid_row },
            ..c.style
        },
        ..c
    }
}

/// The effect of a `GridRowSpan` attribute on a computed style.
pub open spec fn grid_row_span_apply(v: u16, c: ComputedStyle) -> ComputedStyle {
    if v >= 1 {
        ComputedStyle {
            style: Style {
                grid_row: GridPlacement { span: Option::Some(v), ..c.style.grid_row },
                ..c.style
            },
            ..c
        }
    } else {
        c
    }
}

/// The effect of a `GridRowEnd` attribute on a computed style.
pub open spec fn grid_row_end_apply(v: i16, c: ComputedStyle) -> ComputedStyle {
    ComputedStyle {
        style: Style {
            grid_row: GridPlacement { end: Option::Some(v), ..c.style.grid_row },
            ..c.style
        },
        ..c
    }
}

/// The effect of a `GridColumn` attribute on a computed style.
pub open spec fn grid_column_apply(p: GridPlacement, c: ComputedStyle) -> ComputedStyle {
    ComputedStyle { style: Style { grid_column: p, ..c.style }, ..c }
}

/// The effect of a `GridColumnStart` attribute on a computed style.
pub open spec fn grid_column_start_apply(v: i16, c: ComputedStyle) -> ComputedStyle {
    ComputedStyle {
        style: Style {
            grid_column: GridPlacement { start: Option::Some(v), ..c.style.grid_column },
            ..c.style
        },
        ..c
    }
}

/// The effect of a `GridColumnSpan` attribute on a computed style.
pub open spec fn grid_column_span_apply(v: u16, c: ComputedStyle) -> ComputedStyle {
    if v >= 1 {
        ComputedStyle {
            style: Style {
                grid_column: GridPlacement { span: Option::Some(v), ..c.style.grid_column },
                ..c.style
            },
            ..c
        }
    } else {
        c
    }
}

/// The effect of a `GridColumnEnd` attribute on a computed style.
pub open spec fn grid_column_end_apply(v: i16, c: ComputedStyle) -> ComputedStyle {
    ComputedStyle {
        style: Style {
            grid_column: GridPlacement { end: Option::Some(v), ..c.style.grid_column },
            ..c.style
        },
        ..c
    }
}

/// The effect of a `LineBreak` attribute on a computed style.
pub open spec fn line_break_apply(v: LineBreak, c: ComputedStyle) -> ComputedStyle {
    ComputedStyle { line_break: Option::Some(v), ..c }
}

/// Applies a `flex` list shorthand; see [`flex_list_apply`].
#[verifier::spinoff_prover]
#[verifier::rlimit(100)]
fn apply_flex_list(items: &Vec<Expr>, computed: &mut ComputedStyle)
    ensures
        *final(computed) == flex_list_apply(items@, *old(computed)),
{
    if items.len() == 3 {
        let ghost c0 = *computed;
        match items[0].into_scalar() {
            Option::Some(g) => {
                computed.style.flex_grow = g;
            },
            Option::None => {},
        }
        proof {
            assert(computed.style == flex_set_grow(items@[0].scalar_of(), c0.style));
        }
        let ghost s1 = computed.style;
        match items[1].into_scalar() {
            Option::Some(sh) => {
                computed.style.flex_shrink = sh;
            },
            Option::None => {},
        }
        proof {
            assert(computed.style == flex_set_shrink(items@[1].scalar_of(), s1));
        }
        let ghost s2 = computed.style;
        match items[2].into_length() {
            Option::Some(b) => {
                computed.style.flex_basis = b;
            },
            Option::None => {},
        }
        proof {
            assert(computed.style == flex_set_basis(items@[2].length_of(), s2));
            assert(*computed == ComputedStyle { style: computed.style, ..c0 });
        }
    }
}

impl StyleAttr {
    /// The computed style after this attribute is applied to `c`:
    /// exactly one field group is overwritten when the carried value
    /// narrows, and `c` is returned unchanged when it does not.
    pub open spec fn apply_spec(self, c: ComputedStyle) -> ComputedStyle {
        match self {
            StyleAttr::BackgroundImage(img) => background_image_apply(img, c),
            StyleAttr::BackgroundColor(e) => background_color_apply(e, c),
            StyleAttr::BorderColor(e) => border_color_apply(e, c),
            StyleAttr::Color(e) => color_apply(e, c),
            StyleAttr::ZIndex(e) => z_index_apply(e, c),
            StyleAttr::Display(e) => display_apply(e, c),
            StyleAttr::Position(e) => position_apply(e, c),
            StyleAttr::Overflow(e) => overflow_apply(e, c),
            StyleAttr::OverflowX(e) => overflow_x_apply(e, c),
            StyleAttr::OverflowY(e) => overflow_y_apply(e, c),
            StyleAttr::Direction(e) => direction_apply(e, c),
            StyleAttr::Left(e) => left_apply(e, c),
            StyleAttr::Right(e) => right_apply(e, c),
            StyleAttr::Top(e) => top_apply(e, c),
            StyleAttr::Bottom(e) => bottom_apply(e, c),
            StyleAttr::Width(e) => width_apply(e, c),
            StyleAttr::Height(e) => height_apply(e, c),
            StyleAttr::MinWidth(e) => min_width_apply(e, c),
            StyleAttr::MinHeight(e) => min_height_apply(e, c),
            StyleAttr::MaxWidth(e) => max_width_apply(e, c),
            StyleAttr::MaxHeight(e) => max_height_apply(e, c),
            StyleAttr::AlignItems(e) => align_items_apply(e, c),
            StyleAttr::JustifyItems(e) => justify_items_apply(e, c),
            StyleAttr::AlignSelf(e) => align_self_apply(e, c),
            StyleAttr::JustifySelf(e) => justify_self_apply(e, c),
            StyleAttr::AlignContent(e) => align_content_apply(e, c),
            StyleAttr::JustifyContent(e) => justify_content_apply(e, c),
            StyleAttr::Margin(e) => margin_apply(e, c),
            StyleAttr::MarginLeft(e) => margin_left_apply(e, c),
            StyleAttr::MarginRight(e) => margin_right_apply(e, c),
            StyleAttr::MarginTop(e) => margin_top_apply(e, c),
            StyleAttr::MarginBottom(e) => margin_bottom_apply(e, c),
            StyleAttr::Padding(e) => padding_apply(e, c),
            StyleAttr::PaddingLeft(e) => padding_left_apply(e, c),
            StyleAttr::PaddingRight(e) => padding_right_apply(e, c),
            StyleAttr::PaddingTop(e) => padding_top_apply(e, c),
            StyleAttr::PaddingBottom(e) => padding_bottom_apply(e, c),
            StyleAttr::Border(e) => border_apply(e, c),
            StyleAttr::BorderLeft(e) => border_left_apply(e, c),
            StyleAttr::BorderRight(e) => border_right_apply(e, c),
            StyleAttr::BorderTop(e) => border_top_apply(e, c),
            StyleAttr::BorderBottom(e) => border_bottom_apply(e, c),
            StyleAttr::FlexDirection(v) => flex_direction_apply(v, c),
            StyleAttr::FlexWrap(v) => flex_wrap_apply(v, c),
            StyleAttr::Flex(e) => flex_apply(e, c),
            StyleAttr::FlexGrow(e) => flex_grow_apply(e, c),
            StyleAttr::FlexShrink(e) => flex_shrink_apply(e, c),
            StyleAttr::FlexBasis(e) => flex_basis_apply(e, c),
            StyleAttr::RowGap(e) => row_gap_apply(e, c),
            StyleAttr::ColumnGap(e) => column_gap_apply(e, c),
            StyleAttr::Gap(e) => gap_apply(e, c),
            StyleAttr::GridAutoFlow(v) => grid_auto_flow_apply(v, c),
            StyleAttr::GridRow(p) => grid_row_apply(p, c),
            StyleAttr::GridRowStart(v) => grid_row_start_apply(v, c),
            StyleAttr::GridRowSpan(v) => grid_row_span_apply(v, c),
            StyleAttr::GridRowEnd(v) => grid_row_end_apply(v, c),
            StyleAttr::GridColumn(p) => grid_column_apply(p, c),
            StyleAttr::GridColumnStart(v) => grid_column_start_apply(v, c),
            StyleAttr::GridColumnSpan(v) => grid_column_span_apply(v, c),
            StyleAttr::GridColumnEnd(v) => grid_column_end_apply(v, c),
            StyleAttr::LineBreak(v) => line_break_apply(v, c),
        }
    }

    /// Applies this attribute to a computed style, field-granularly; an
    /// expression that fails to narrow leaves the style untouched.
    pub fn apply(&self, computed: &mut ComputedStyle)
        ensures
            *final(computed) == self.apply_spec(*old(computed)),
    {
        match self {
            StyleAttr::BackgroundImage(_) | StyleAttr::BackgroundColor(_) | StyleAttr::BorderColor(_) | StyleAttr::Color(_) | StyleAttr::ZIndex(_) | StyleAttr::Display(_) | StyleAttr::Position(_) | StyleAttr::Overflow(_) | StyleAttr::OverflowX(_) | StyleAttr::OverflowY(_) | StyleAttr::Direction(_) => {
                self.apply_part0(computed);
            },
            StyleAttr::Left(_) | StyleAttr::Right(_) | StyleAttr::Top(_) | StyleAttr::Bottom(_) | StyleAttr::Width(_) | StyleAttr::Height(_) | StyleAttr::MinWidth(_) | StyleAttr::MinHeight(_) | StyleAttr::MaxWidth(_) | StyleAttr::MaxHeight(_) | StyleAttr::AlignItems(_) => {
                self.apply_part1(computed);
            },
            StyleAttr::JustifyItems(_) | StyleAttr::AlignSelf(_) | StyleAttr::JustifySelf(_) | StyleAttr::AlignContent(_) | StyleAttr::JustifyContent(_) | StyleAttr::Margin(_) | StyleAttr::MarginLeft(_) | StyleAttr::MarginRight(_) | StyleAttr::MarginTop(_) | StyleAttr::MarginBottom(_) | StyleAttr::Padding(_) => {
                self.apply_part2(computed);
            },
            StyleAttr::PaddingLeft(_) | StyleAttr::PaddingRight(_) | StyleAttr::PaddingTop(_) | StyleAttr::PaddingBottom(_) | StyleAttr::Border(_) | StyleAttr::BorderLeft(_) | StyleAttr::BorderRight(_) | StyleAttr::BorderTop(_) | StyleAttr::BorderBottom(_) | StyleAttr::FlexDirection(_) | StyleAttr::FlexWrap(_) => {
                self.apply_part3(computed);
            },
            StyleAttr::Flex(_) => {
                self.apply_flex(computed);
            },
            StyleAttr::FlexGrow(_) | StyleAttr::FlexShrink(_) | StyleAttr::FlexBasis(_) | StyleAttr::RowGap(_) | StyleAttr::ColumnGap(_) | StyleAttr::Gap(_) | StyleAttr::GridAutoFlow(_) | StyleAttr::GridRow(_) | StyleAttr::GridRowStart(_) | StyleAttr::GridRowSpan(_) => {
                self.apply_part4(computed);
            },
            StyleAttr::GridRowEnd(_) | StyleAttr::GridColumn(_) | StyleAttr::GridColumnStart(_) | StyleAttr::GridColumnSpan(_) | StyleAttr::GridColumnEnd(_) | StyleAttr::LineBreak(_) => {
                self.apply_part5(computed);
            },
        }
    }

    /// Applies one slice of the attribute variants; see [`StyleAttr::apply`].
    #[verifier::spinoff_prover]
    #[verifier::rlimit(100)]
    fn apply_part0(&self, computed: &mut ComputedStyle)
        requires
            self is BackgroundImage || self is BackgroundColor || self is BorderColor || self is Color || self is ZIndex || self is Display || self is Position || self is Overflow || self is OverflowX || self is OverflowY || self is Direction,
        ensures
            *final(computed) == self.apply_spec(*old(computed)),
    {
        match self {
            StyleAttr::BackgroundImage(img) => {
                match img {
                    Option::Some(ir) => {
                        computed.image = Option::Some(ir.handle);
                    },
                    Option::None => {
                        computed.image = Option::None;
                    },
                }
            },
            StyleAttr::BackgroundColor(e) => {
                if let Result::Ok(v) = e.eval() {
                    computed.background_color = v;
                }
            },
            StyleAttr::BorderColor(e) => {
                if let Result::Ok(v) = e.eval() {
                    computed.border_color = v;
                }
            },
            StyleAttr::Color(e) => {
                if let Result::Ok(v) = e.eval() {
                    computed.color = v;
                }
            },
            StyleAttr::ZIndex(e) => {
                if let Result::Ok(v) = e.eval() {
                    computed.z_index = Option::Some(v);
                }
            },
            StyleAttr::Display(e) => {
                if let Result::Ok(v) = e.eval() {
                    computed.style.display = v;
                }
            },
            StyleAttr::Position(e) => {
                if let Result::Ok(v) = e.eval() {
                    computed.style.position_type = v;
                }
            },
            StyleAttr::Overflow(e) => {
                if let Result::Ok(v) = e.eval() {
                    computed.style.overflow.x = v;
                    computed.style.overflow.y = v;
                }
            },
            StyleAttr::OverflowX(e) => {
                if let Result::Ok(v) = e.eval() {
                    computed.style.overflow.x = v;
                }
            },
            StyleAttr::OverflowY(e) => {
                if let Result::Ok(v) = e.eval() {
                    computed.style.overflow.y = v;
                }
            },
            StyleAttr::Direction(e) => {
                if let Result::Ok(v) = e.eval() {
                    computed.style.direction = v;
                }
            },
            _ => {},
        }
    }

    /// Applies one slice of the attribute variants; see [`StyleAttr::apply`].
    #[verifier::spinoff_prover]
    #[verifier::rlimit(100)]
    fn apply_part1(&self, computed: &mut ComputedStyle)
        requires
            self is Left || self is Right || self is Top || self is Bottom || self is Width || self is Height || self is MinWidth || self is MinHeight || self is MaxWidth || self is MaxHeight || self is AlignItems,
        ensures
            *final(computed) == self.apply_spec(*old(computed)),
    {
        match self {
            StyleAttr::Left(e) => {
                if let Result::Ok(v) = e.eval() {
                    computed.style.left = v;
                }
            },
            StyleAttr::Right(e) => {
                if let Result::Ok(v) = e.eval() {
                    computed.style.right = v;
                }
            },
            StyleAttr::Top(e) => {
                if let Result::Ok(v) = e.eval() {
                    computed.style.top = v;
                }
            },
            StyleAttr::Bottom(e) => {
                if let Result::Ok(v) = e.eval() {
                    computed.style.bottom = v;
                }
            },
            StyleAttr::Width(e) => {
                if let Result::Ok(v) = e.eval() {
                    computed.style.width = v;
                }
            },
            StyleAttr::Height(e) => {
                if let Result::Ok(v) = e.eval() {
                    computed.style.height = v;
                }
            },
            StyleAttr::MinWidth(e) => {
                if let Result::Ok(v) = e.eval() {
                    computed.style.min_width = v;
                }
            },
            StyleAttr::MinHeight(e) => {
                if let Result::Ok(v) = e.eval() {
                    computed.style.min_height = v;
                }
            },
            StyleAttr::MaxWidth(e) => {
                if let Result::Ok(v) = e.eval() {
                    computed.style.max_width = v;
                }
            },
            StyleAttr::MaxHeight(e) => {
                if let Result::Ok(v) = e.eval() {
                    computed.style.max_height = v;
                }
            },
            StyleAttr::AlignItems(e) => {
                if let Result::Ok(v) = e.eval() {
                    computed.style.align_items = v;
                }
            },
            _ => {},
        }
    }

    /// Applies one slice of the attribute variants; see [`StyleAttr::apply`].
    #[verifier::spinoff_prover]
    #[verifier::rlimit(100)]
    fn apply_part2(&self, computed: &mut ComputedStyle)
        requires
            self is JustifyItems || self is AlignSelf || self is JustifySelf || self is AlignContent || self is JustifyContent || self is Margin || self is MarginLeft || self is MarginRight || self is MarginTop || self is MarginBottom || self is Padding,
        ensures
            *final(computed) == self.apply_spec(*old(computed)),
    {
        match self {
            StyleAttr::JustifyItems(e) => {
                if let Result::Ok(v) = e.eval() {
                    computed.style.justify_items = v;
                }
            },
            StyleAttr::AlignSelf(e) => {
                if let Result::Ok(v) = e.eval() {
                    computed.style.align_self = v;
                }
            },
            StyleAttr::JustifySelf(e) => {
                if let Result::Ok(v) = e.eval() {
                    computed.style.justify_self = v;
                }
            },
            StyleAttr::AlignContent(e) => {
                if let Result::Ok(v) = e.eval() {
                    computed.style.align_content = v;
                }
            },
            StyleAttr::JustifyContent(e) => {
                if let Result::Ok(v) = e.eval() {
                    computed.style.justify_content = v;
                }
            },
            StyleAttr::Margin(e) => {
                if let Result::Ok(v) = e.eval() {
                    computed.style.margin = v;
                }
            },
            StyleAttr::MarginLeft(e) => {
                if let Result::Ok(v) = e.eval() {
                    computed.style.margin.left = v;
                }
            },
            StyleAttr::MarginRight(e) => {
                if let Result::Ok(v) = e.eval() {
                    computed.style.margin.right = v;
                }
            },
            StyleAttr::MarginTop(e) => {
                if let Result::Ok(v) = e.eval() {
                    computed.style.margin.top = v;
                }
            },
            StyleAttr::MarginBottom(e) => {
                if let Result::Ok(v) = e.eval() {
                    computed.style.margin.bottom = v;
                }
            },
            StyleAttr::Padding(e) => {
                if let Result::Ok(v) = e.eval() {
                    computed.style.padding = v;
                }
            },
            _ => {},
        }
    }

    /// Applies one slice of the attribute variants; see [`StyleAttr::apply`].
    #[verifier::spinoff_prover]
    #[verifier::rlimit(100)]
    fn apply_part3(&self, computed: &mut ComputedStyle)
        requires
            self is PaddingLeft || self is PaddingRight || self is PaddingTop || self is PaddingBottom || self is Border || self is BorderLeft || self is BorderRight || self is BorderTop || self is BorderBottom || self is FlexDirection || self is FlexWrap,
        ensures
            *final(computed) == self.apply_spec(*old(computed)),
    {
        match self {
            StyleAttr::PaddingLeft(e) => {
                if let Result::Ok(v) = e.eval() {
                    computed.style.padding.left = v;
                }
            },
            StyleAttr::PaddingRight(e) => {
                if let Result::Ok(v) = e.eval() {
                    computed.style.padding.right = v;
                }
            },
            StyleAttr::PaddingTop(e) => {
                if let Result::Ok(v) = e.eval() {
                    computed.style.padding.top = v;
                }
            },
            StyleAttr::PaddingBottom(e) => {
                if let Result::Ok(v) = e.eval() {
                    computed.style.padding.bottom = v;
                }
            },
            StyleAttr::Border(e) => {
                if let Result::Ok(v) = e.eval() {
                    computed.style.border = v;
                }
            },
            StyleAttr::BorderLeft(e) => {
                if let Result::Ok(v) = e.eval() {
                    computed.style.border.left = v;
                }
            },
            StyleAttr::BorderRight(e) => {
                if let Result::Ok(v) = e.eval() {
                    computed.style.border.right = v;
                }
            },
            StyleAttr::BorderTop(e) => {
                if let Result::Ok(v) = e.eval() {
                    computed.style.border.top = v;
                }
            },
            StyleAttr::BorderBottom(e) => {
                if let Result::Ok(v) = e.eval() {
                    computed.style.border.bottom = v;
                }
            },
            StyleAttr::FlexDirection(v) => {
                computed.style.flex_direction = *v;
            },
            StyleAttr::FlexWrap(v) => {
                computed.style.flex_wrap = *v;
            },
            _ => {},
        }
    }

    /// Applies one slice of the attribute variants; see [`StyleAttr::apply`].
    #[verifier::spinoff_prover]
    #[verifier::rlimit(100)]
    fn apply_part4(&self, computed: &mut ComputedStyle)
        requires
            self is FlexGrow || self is FlexShrink || self is FlexBasis || self is RowGap || self is ColumnGap || self is Gap || self is GridAutoFlow || self is GridRow || self is GridRowStart || self is GridRowSpan,
        ensures
            *final(computed) == self.apply_spec(*old(computed)),
    {
        match self {
            StyleAttr::FlexGrow(e) => {
                if let Result::Ok(v) = e.eval() {
                    computed.style.flex_grow = v;
                }
            },
            StyleAttr::FlexShrink(e) => {
                if let Result::Ok(v) = e.eval() {
                    computed.style.flex_shrink = v;
                }
            },
            StyleAttr::FlexBasis(e) => {
                if let Result::Ok(v) = e.eval() {
                    computed.style.flex_basis = v;
                }
            },
            StyleAttr::RowGap(e) => {
                if let Result::Ok(v) = e.eval() {
                    computed.style.row_gap = v;
                }
            },
            StyleAttr::ColumnGap(e) => {
                if let Result::Ok(v) = e.eval() {
                    computed.style.column_gap = v;
                }
            },
            StyleAttr::Gap(e) => {
                if let Result::Ok(v) = e.eval() {
                    computed.style.row_gap = v;
                    computed.style.column_gap = v;
                }
            },
            StyleAttr::GridAutoFlow(v) => {
                computed.style.grid_auto_flow = *v;
            },
            StyleAttr::GridRow(v) => {
                computed.style.grid_row = *v;
            },
            StyleAttr::GridRowStart(v) => {
                computed.style.grid_row.set_start(*v);
            },
            StyleAttr::GridRowSpan(v) => {
                if *v >= 1 {
                    computed.style.grid_row.set_span(*v);
                }
            },
            _ => {},
        }
    }

    /// Applies one slice of the attribute variants; see [`StyleAttr::apply`].
    #[verifier::spinoff_prover]
    #[verifier::rlimit(100)]
    fn apply_part5(&self, computed: &mut ComputedStyle)
        requires
            self is GridRowEnd || self is GridColumn || self is GridColumnStart || self is GridColumnSpan || self is GridColumnEnd || self is LineBreak,
        ensures
            *final(computed) == self.apply_spec(*old(computed)),
    {
        match self {
            StyleAttr::GridRowEnd(v) => {
                computed.style.grid_row.set_end(*v);
            },
            StyleAttr::GridColumn(v) => {
                computed.style.grid_column = *v;
            },
            StyleAttr::GridColumnStart(v) => {
                computed.style.grid_column.set_start(*v);
            },
            StyleAttr::GridColumnSpan(v) => {
                if *v >= 1 {
                    computed.style.grid_column.set_span(*v);
                }
            },
            StyleAttr::GridColumnEnd(v) => {
                computed.style.grid_column.set_end(*v);
            },
            StyleAttr::LineBreak(v) => {
                computed.line_break = Option::Some(*v);
            },
            _ => {},
        }
    }

    /// Applies the composite `flex` shorthand; see [`StyleAttr::apply`].
    #[verifier::spinoff_prover]
    fn apply_flex(&self, computed: &mut ComputedStyle)
        requires
            self is Flex,
        ensures
            *final(computed) == self.apply_spec(*old(computed)),
    {
        match self {
            StyleAttr::Flex(e) => {
                match e {
                    Expr::Number(n) => {
                        computed.style.flex_grow = *n;
                        computed.style.flex_shrink = *n;
                        computed.style.flex_basis = Val::Auto;
                    },
                    Expr::List(items) => {
                        apply_flex_list(items, computed);
                    },
                    _ => {},
                }
            },
            _ => {},
        }
    }

    /// Structural equivalence of attributes: equality, except that
    /// carried expressions are compared through [`Expr::like`]. A fresh
    /// deep copy promises this relation.
    pub open spec fn attr_like(self, other: StyleAttr) -> bool {
        match (self, other) {
            (StyleAttr::BackgroundColor(e), StyleAttr::BackgroundColor(e2)) => e.expr.like(e2.expr),
            (StyleAttr::BorderColor(e), StyleAttr::BorderColor(e2)) => e.expr.like(e2.expr),
            (StyleAttr::Color(e), StyleAttr::Color(e2)) => e.expr.like(e2.expr),
            (StyleAttr::ZIndex(e), StyleAttr::ZIndex(e2)) => e.expr.like(e2.expr),
            (StyleAttr::Display(e), StyleAttr::Display(e2)) => e.expr.like(e2.expr),
            (StyleAttr::Position(e), StyleAttr::Position(e2)) => e.expr.like(e2.expr),
            (StyleAttr::Overflow(e), StyleAttr::Overflow(e2)) => e.expr.like(e2.expr),
            (StyleAttr::OverflowX(e), StyleAttr::OverflowX(e2)) => e.expr.like(e2.expr),
            (StyleAttr::OverflowY(e), StyleAttr::OverflowY(e2)) => e.expr.like(e2.expr),
            (StyleAttr::Direction(e), StyleAttr::Direction(e2)) => e.expr.like(e2.expr),
            (StyleAttr::Left(e), StyleAttr::Left(e2)) => e.expr.like(e2.expr),
            (StyleAttr::Right(e), StyleAttr::Right(e2)) => e.expr.like(e2.expr),
            (StyleAttr::Top(e), StyleAttr::Top(e2)) => e.expr.like(e2.expr),
            (StyleAttr::Bottom(e), StyleAttr::Bottom(e2)) => e.expr.like(e2.expr),
            (StyleAttr::Width(e), StyleAttr::Width(e2)) => e.expr.like(e2.expr),
            (StyleAttr::Height(e), StyleAttr::Height(e2)) => e.expr.like(e2.expr),
            (StyleAttr::MinWidth(e), StyleAttr::MinWidth(e2)) => e.expr.like(e2.expr),
            (StyleAttr::MinHeight(e), StyleAttr::MinHeight(e2)) => e.expr.like(e2.expr),
            (StyleAttr::MaxWidth(e), StyleAttr::MaxWidth(e2)) => e.expr.like(e2.expr),
            (StyleAttr::MaxHeight(e), StyleAttr::MaxHeight(e2)) => e.expr.like(e2.expr),
            (StyleAttr::AlignItems(e), StyleAttr::AlignItems(e2)) => e.expr.like(e2.expr),
            (StyleAttr::JustifyItems(e), StyleAttr::JustifyItems(e2)) => e.expr.like(e2.expr),
            (StyleAttr::AlignSelf(e), StyleAttr::AlignSelf(e2)) => e.expr.like(e2.expr),
            (StyleAttr::JustifySelf(e), StyleAttr::JustifySelf(e2)) => e.expr.like(e2.expr),
            (StyleAttr::AlignContent(e), StyleAttr::AlignContent(e2)) => e.expr.like(e2.expr),
            (StyleAttr::JustifyContent(e), StyleAttr::JustifyContent(e2)) => e.expr.like(e2.expr),
            (StyleAttr::Margin(e), StyleAttr::Margin(e2)) => e.expr.like(e2.expr),
            (StyleAttr::MarginLeft(e), StyleAttr::MarginLeft(e2)) => e.expr.like(e2.expr),
            (StyleAttr::MarginRight(e), StyleAttr::MarginRight(e2)) => e.expr.like(e2.expr),
            (StyleAttr::MarginTop(e), StyleAttr::MarginTop(e2)) => e.expr.like(e2.expr),
            (StyleAttr::MarginBottom(e), StyleAttr::MarginBottom(e2)) => e.expr.like(e2.expr),
            (StyleAttr::Padding(e), StyleAttr::Padding(e2)) => e.expr.like(e2.expr),
            (StyleAttr::PaddingLeft(e), StyleAttr::PaddingLeft(e2)) => e.expr.like(e2.expr),
            (StyleAttr::PaddingRight(e), StyleAttr::PaddingRight(e2)) => e.expr.like(e2.expr),
            (StyleAttr::PaddingTop(e), StyleAttr::PaddingTop(e2)) => e.expr.like(e2.expr),
            (StyleAttr::PaddingBottom(e), StyleAttr::PaddingBottom(e2)) => e.expr.like(e2.expr),
            (StyleAttr::Border(e), StyleAttr::Border(e2)) => e.expr.like(e2.expr),
            (StyleAttr::BorderLeft(e), StyleAttr::BorderLeft(e2)) => e.expr.like(e2.expr),
            (StyleAttr::BorderRight(e), StyleAttr::BorderRight(e2)) => e.expr.like(e2.expr),
            (StyleAttr::BorderTop(e), StyleAttr::BorderTop(e2)) => e.expr.like(e2.expr),
            (StyleAttr::BorderBottom(e), StyleAttr::BorderBottom(e2)) => e.expr.like(e2.expr),
            (StyleAttr::FlexGrow(e), StyleAttr::FlexGrow(e2)) => e.expr.like(e2.expr),
            (StyleAttr::FlexShrink(e), StyleAttr::FlexShrink(e2)) => e.expr.like(e2.expr),
            (StyleAttr::FlexBasis(e), StyleAttr::FlexBasis(e2)) => e.expr.like(e2.expr),
            (StyleAttr::RowGap(e), StyleAttr::RowGap(e2)) => e.expr.like(e2.expr),
            (StyleAttr::ColumnGap(e), StyleAttr::ColumnGap(e2)) => e.expr.like(e2.expr),
            (StyleAttr::Gap(e), StyleAttr::Gap(e2)) => e.expr.like(e2.expr),
            (StyleAttr::Flex(e), StyleAttr::Flex(e2)) => e.like(e2),
            _ => self == other,
        }
    }

    /// An equivalent copy of the attribute.
    pub fn dup(&self) -> (r: StyleAttr)
        ensures
            self.attr_like(r),
    {
        match self {
            StyleAttr::BackgroundImage(img) => StyleAttr::BackgroundImage(
                match img {
                    Option::Some(ir) => Option::Some(ir.dup()),
                    Option::None => Option::None,
                },
            ),
            StyleAttr::BackgroundColor(e) => StyleAttr::BackgroundColor(e.dup()),
            StyleAttr::BorderColor(e) => StyleAttr::BorderColor(e.dup()),
            StyleAttr::Color(e) => StyleAttr::Color(e.dup()),
            StyleAttr::ZIndex(e) => StyleAttr::ZIndex(e.dup()),
            StyleAttr::Display(e) => StyleAttr::Display(e.dup()),
            StyleAttr::Position(e) => StyleAttr::Position(e.dup()),
            StyleAttr::Overflow(e) => StyleAttr::Overflow(e.dup()),
            StyleAttr::OverflowX(e) => StyleAttr::OverflowX(e.dup()),
            StyleAttr::OverflowY(e) => StyleAttr::OverflowY(e.dup()),
            StyleAttr::Direction(e) => StyleAttr::Direction(e.dup()),
            StyleAttr::Left(e) => StyleAttr::Left(e.dup()),
            StyleAttr::Right(e) => StyleAttr::Right(e.dup()),
            StyleAttr::Top(e) => StyleAttr::Top(e.dup()),
            StyleAttr::Bottom(e) => StyleAttr::Bottom(e.dup()),
            StyleAttr::Width(e) => StyleAttr::Width(e.dup()),
            StyleAttr::Height(e) => StyleAttr::Height(e.dup()),
            StyleAttr::MinWidth(e) => StyleAttr::MinWidth(e.dup()),
            StyleAttr::MinHeight(e) => StyleAttr::MinHeight(e.dup()),
            StyleAttr::MaxWidth(e) => StyleAttr::MaxWidth(e.dup()),
            StyleAttr::MaxHeight(e) => StyleAttr::MaxHeight(e.dup()),
            StyleAttr::AlignItems(e) => StyleAttr::AlignItems(e.dup()),
            StyleAttr::JustifyItems(e) => StyleAttr::JustifyItems(e.dup()),
            StyleAttr::AlignSelf(e) => StyleAttr::AlignSelf(e.dup()),
            StyleAttr::JustifySelf(e) => StyleAttr::JustifySelf(e.dup()),
            StyleAttr::AlignContent(e) => StyleAttr::AlignContent(e.dup()),
            StyleAttr::JustifyContent(e) => StyleAttr::JustifyContent(e.dup()),
            StyleAttr::Margin(e) => StyleAttr::Margin(e.dup()),
            StyleAttr::MarginLeft(e) => StyleAttr::MarginLeft(e.dup()),
            StyleAttr::MarginRight(e) => StyleAttr::MarginRight(e.dup()),
            StyleAttr::MarginTop(e) => StyleAttr::MarginTop(e.dup()),
            StyleAttr::MarginBottom(e) => StyleAttr::MarginBottom(e.dup()),
            StyleAttr::Padding(e) => StyleAttr::Padding(e.dup()),
            StyleAttr::PaddingLeft(e) => StyleAttr::PaddingLeft(e.dup()),
            StyleAttr::PaddingRight(e) => StyleAttr::PaddingRight(e.dup()),
            StyleAttr::PaddingTop(e) => StyleAttr::PaddingTop(e.dup()),
            StyleAttr::PaddingBottom(e) => StyleAttr::PaddingBottom(e.dup()),
            StyleAttr::Border(e) => StyleAttr::Border(e.dup()),
            StyleAttr::BorderLeft(e) => StyleAttr::BorderLeft(e.dup()),
            StyleAttr::BorderRight(e) => StyleAttr::BorderRight(e.dup()),
            StyleAttr::BorderTop(e) => StyleAttr::BorderTop(e.dup()),
            StyleAttr::BorderBottom(e) => StyleAttr::BorderBottom(e.dup()),
            StyleAttr::FlexDirection(v) => StyleAttr::FlexDirection(*v),
            StyleAttr::FlexWrap(v) => StyleAttr::FlexWrap(*v),
            StyleAttr::Flex(e) => StyleAttr::Flex(e.dup()),
            StyleAttr::FlexGrow(e) => StyleAttr::FlexGrow(e.dup()),
            StyleAttr::FlexShrink(e) => StyleAttr::FlexShrink(e.dup()),
            StyleAttr::FlexBasis(e) => StyleAttr::FlexBasis(e.dup()),
            StyleAttr::RowGap(e) => StyleAttr::RowGap(e.dup()),
            StyleAttr::ColumnGap(e) => StyleAttr::ColumnGap(e.dup()),
            StyleAttr::Gap(e) => StyleAttr::Gap(e.dup()),
            StyleAttr::GridAutoFlow(v) => StyleAttr::GridAutoFlow(*v),
            StyleAttr::GridRow(v) => StyleAttr::GridRow(*v),
            StyleAttr::GridRowStart(v) => StyleAttr::GridRowStart(*v),
            StyleAttr::GridRowSpan(v) => StyleAttr::GridRowSpan(*v),
            StyleAttr::GridRowEnd(v) => StyleAttr::GridRowEnd(*v),
            StyleAttr::GridColumn(v) => StyleAttr::GridColumn(*v),
            StyleAttr::GridColumnStart(v) => StyleAttr::GridColumnStart(*v),
            StyleAttr::GridColumnSpan(v) => StyleAttr::GridColumnSpan(*v),
            StyleAttr::GridColumnEnd(v) => StyleAttr::GridColumnEnd(*v),
            StyleAttr::LineBreak(v) => StyleAttr::LineBreak(*v),
        }
    }

    /// Parses one attribute name/value pair from the attribute-string
    /// surface. An unknown name is not an error: the caller may try
    /// other attribute handlers. A recognized name with a value outside
    /// its grammar is an invalid-value or unknown-value error.
    pub fn parse(name: &str, value: &str) -> (r: Result<Option<StyleAttr>, GuiseError>)
        ensures
            parse_attr_post(name@, value@, r),
    {
        match parse_colors(name, value) {
            Option::Some(Result::Ok(a)) => {
                return Result::Ok(Option::Some(a));
            },
            Option::Some(Result::Err(e)) => {
                return Result::Err(e);
            },
            Option::None => {},
        }
        match parse_enums(name, value) {
            Option::Some(Result::Ok(a)) => {
                return Result::Ok(Option::Some(a));
            },
            Option::Some(Result::Err(e)) => {
                return Result::Err(e);
            },
            Option::None => {},
        }
        match parse_insets(name, value) {
            Option::Some(Result::Ok(a)) => {
                return Result::Ok(Option::Some(a));
            },
            Option::Some(Result::Err(e)) => {
                return Result::Err(e);
            },
            Option::None => {},
        }
        match parse_boxes(name, value) {
            Option::Some(Result::Ok(a)) => {
                return Result::Ok(Option::Some(a));
            },
            Option::Some(Result::Err(e)) => {
                return Result::Err(e);
            },
            Option::None => {},
        }
        match parse_flexes(name, value) {
            Option::Some(Result::Ok(a)) => {
                return Result::Ok(Option::Some(a));
            },
            Option::Some(Result::Err(e)) => {
                return Result::Err(e);
            },
            Option::None => {},
        }
        match parse_grids(name, value) {
            Option::Some(Result::Ok(a)) => {
                return Result::Ok(Option::Some(a));
            },
            Option::Some(Result::Err(e)) => {
                return Result::Err(e);
            },
            Option::None => {},
        }
        Result::Ok(Option::None)
    }

    /// The canonical name/value pair of this attribute on the string
    /// surface, for the variants that serialize; deferred-expression
    /// variants have no string form yet.
    pub open spec fn xml_form(self) -> Option<(Seq<char>, Seq<char>)> {
        match self {
            StyleAttr::FlexDirection(v) => Option::Some(("flex-direction"@, vocab::flex_direction_str(v))),
            StyleAttr::FlexWrap(v) => Option::Some(("flex-wrap"@, vocab::flex_wrap_str(v))),
            StyleAttr::GridAutoFlow(v) => Option::Some(("grid-auto-flow"@, vocab::grid_auto_flow_str(v))),
            StyleAttr::GridRowStart(v) => Option::Some(("grid-row-start"@, crate::text::render_int(v as int))),
            StyleAttr::GridRowSpan(v) => Option::Some(("grid-row-span"@, crate::text::render_int(v as int))),
            StyleAttr::GridRowEnd(v) => Option::Some(("grid-row-end"@, crate::text::render_int(v as int))),
            StyleAttr::GridColumnStart(v) => Option::Some(("grid-column-start"@, crate::text::render_int(v as int))),
            StyleAttr::GridColumnSpan(v) => Option::Some(("grid-column-span"@, crate::text::render_int(v as int))),
            StyleAttr::GridColumnEnd(v) => Option::Some(("grid-column-end"@, crate::text::render_int(v as int))),
            StyleAttr::LineBreak(v) => Option::Some(("line-break"@, vocab::line_break_str(v))),
            _ => Option::None,
        }
    }

    /// Writes the attribute onto an XML start tag. Variants with no
    /// canonical string form report an unsupported-attribute error and
    /// leave the tag untouched rather than aborting.
    pub fn write_xml<'a>(&self, elem: &mut BytesStart<'a>) -> (r: Result<(), GuiseError>)
        ensures
            match self.xml_form() {
                Option::Some(nv) => r == Result::<(), GuiseError>::Ok(()) && xml::tag_attrs(
                    *final(elem),
                ) == xml::tag_attrs(*old(elem)).push(nv),
                Option::None => r == Result::<(), GuiseError>::Err(
                    GuiseError::UnsupportedAttribute,
                ) && *final(elem) == *old(elem),
            },
    {
        match self {
            StyleAttr::FlexDirection(v) => {
                let s = vocab::flex_direction_to_str(*v);
                proof {
                    crate::xml::lemma_vocab_plain();
                    crate::xml::lemma_attr_names_plain();
                }
                xml::push_attribute(elem, "flex-direction", s);
                Result::Ok(())
            },
            StyleAttr::FlexWrap(v) => {
                let s = vocab::flex_wrap_to_str(*v);
                proof {
                    crate::xml::lemma_vocab_plain();
                    crate::xml::lemma_attr_names_plain();
                }
                xml::push_attribute(elem, "flex-wrap", s);
                Result::Ok(())
            },
            StyleAttr::GridAutoFlow(v) => {
                let s = vocab::grid_auto_flow_to_str(*v);
                proof {
                    crate::xml::lemma_vocab_plain();
                    crate::xml::lemma_attr_names_plain();
                }
                xml::push_attribute(elem, "grid-auto-flow", s);
                Result::Ok(())
            },
            StyleAttr::GridRowStart(v) => {
                let s = crate::text::int_string(*v as i64);
                proof {
                    crate::xml::lemma_render_int_plain(*v as int);
                    crate::xml::lemma_attr_names_plain();
                }
                xml::push_attribute(elem, "grid-row-start", s.as_str());
                Result::Ok(())
            },
            StyleAttr::GridRowSpan(v) => {
                let s = crate::text::int_string(*v as i64);
                proof {
                    crate::xml::lemma_render_int_plain(*v as int);
                    crate::xml::lemma_attr_names_plain();
                }
                xml::push_attribute(elem, "grid-row-span", s.as_str());
                Result::Ok(())
            },
            StyleAttr::GridRowEnd(v) => {
                let s = crate::text::int_string(*v as i64);
                proof {
                    crate::xml::lemma_render_int_plain(*v as int);
                    crate::xml::lemma_attr_names_plain();
                }
                xml::push_attribute(elem, "grid-row-end", s.as_str());
                Result::Ok(())
            },
            StyleAttr::GridColumnStart(v) => {
                let s = crate::text::int_string(*v as i64);
                proof {
                    crate::xml::lemma_render_int_plain(*v as int);
                    crate::xml::lemma_attr_names_plain();
                }
                xml::push_attribute(elem, "grid-column-start", s.as_str());
                Result::Ok(())
            },
            StyleAttr::GridColumnSpan(v) => {
                let s = crate::text::int_string(*v as i64);
                proof {
                    crate::xml::lemma_render_int_plain(*v as int);
                    crate::xml::lemma_attr_names_plain();
                }
                xml::push_attribute(elem, "grid-column-span", s.as_str());
                Result::Ok(())
            },
            StyleAttr::GridColumnEnd(v) => {
                let s = crate::text::int_string(*v as i64);
                proof {
                    crate::xml::lemma_render_int_plain(*v as int);
                    crate::xml::lemma_attr_names_plain();
                }
                xml::push_attribute(elem, "grid-column-end", s.as_str());
                Result::Ok(())
            },
            StyleAttr::LineBreak(v) => {
                let s = vocab::line_break_to_str(*v);
                proof {
                    crate::xml::lemma_vocab_plain();
                    crate::xml::lemma_attr_names_plain();
                }
                xml::push_attribute(elem, "line-break", s);
                Result::Ok(())
            },
            _ => Result::Err(GuiseError::UnsupportedAttribute),
        }
    }

    /// Parses a length string; see the length grammar.
    pub fn parse_val(s: &str) -> (r: Result<Val, GuiseError>)
        ensures
            match r {
                Result::Ok(val) => grammar::parse_val_spec(s@) == Option::Some(val) && val.wf(),
                Result::Err(e) => {
                    &&& grammar::parse_val_spec(s@) is None
                    &&& e matches GuiseError::InvalidAttributeValue(t) && t@ == s@
                },
            },
    {
        grammar::parse_val_str(s)
    }

    /// Parses a rect-shorthand string; see the rect grammar.
    pub fn parse_uirect(s: &str) -> (r: Result<UiRect, GuiseError>)
        ensures
            match r {
                Result::Ok(rect) => {
                    &&& grammar::parse_uirect_spec(s@) == Option::Some(rect)
                    &&& rect.left.wf() && rect.right.wf() && rect.top.wf() && rect.bottom.wf()
                },
                Result::Err(e) => {
                    &&& grammar::parse_uirect_spec(s@) is None
                    &&& e matches GuiseError::InvalidAttributeValue(t) && t@
                        == grammar::uirect_err_token(s@)
                },
            },
    {
        grammar::parse_uirect_str(s)
    }

    /// Parses a color string; see the color grammar.
    pub fn parse_color(s: &str) -> (r: Result<ColorValue, GuiseError>)
        ensures
            match r {
                Result::Ok(c) => grammar::parse_color_spec(s@) == Option::Some(c),
                Result::Err(e) => {
                    &&& grammar::parse_color_spec(s@) is None
                    &&& e matches GuiseError::InvalidAttributeValue(t) && t@ == s@
                },
            },
    {
        grammar::parse_color_str(s)
    }

    /// Parses a grid-placement string; see the grid-placement grammar.
    pub fn parse_grid_placement(s: &str) -> (r: Result<GridPlacement, GuiseError>)
        ensures
            match r {
                Result::Ok(p) => grammar::parse_grid_spec(s@) == Option::Some(p),
                Result::Err(e) => {
                    &&& grammar::parse_grid_spec(s@) is None
                    &&& e matches GuiseError::InvalidAttributeValue(t) && t@ == s@
                },
            },
    {
        grammar::parse_grid_placement_str(s)
    }

    /// Parses a scalar string into thousandths.
    pub fn parse_scalar(s: &str) -> (r: Result<i64, GuiseError>)
        ensures
            match r {
                Result::Ok(m) => grammar::signed_milli(s@) == Option::Some(m as int),
                Result::Err(e) => {
                    &&& grammar::signed_milli(s@) is None
                    &&& e matches GuiseError::InvalidAttributeValue(t) && t@ == s@
                },
            },
    {
        grammar::parse_scalar_str(s)
    }

    /// Renders a length to its canonical string form.
    pub fn val_to_str(val: Val) -> (r: String)
        requires
            val.wf(),
        ensures
            r@ == grammar::render_val(val),
    {
        grammar::render_val_str(val)
    }

    /// Renders a rect to its canonical string form.
    pub fn uirect_to_str(rect: &UiRect) -> (r: String)
        requires
            rect.left.wf(),
            rect.right.wf(),
            rect.top.wf(),
            rect.bottom.wf(),
        ensures
            r@ == grammar::render_uirect(*rect),
    {
        grammar::render_uirect_str(rect)
    }

    /// Renders a color to its canonical string form.
    pub fn color_to_str(c: &ColorValue) -> (r: String)
        requires
            c.wf(),
        ensures
            r@ == grammar::render_color(*c),
    {
        grammar::render_color_str(c)
    }

}

} // verus!
