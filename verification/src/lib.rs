//! A declarative styling engine for UI components.
//!
//! The crate parses sparse sets of style attributes (layout, color,
//! typography, grid and flex placement) from two serialization surfaces —
//! hyphenated attribute strings and structured documents — into a single
//! ordered attribute representation, merges ordered lists of such attribute
//! sets field by field into a resolved [`ComputedStyle`], and rewrites
//! relative textual references (style sheets, sub-templates, images) into
//! base-anchored references with eagerly requested asset handles at load
//! time.
//!
//! Scalar style values (lengths, color channels, flex factors) are stored as
//! fixed-point integers in thousandths, so that every computation over them
//! is exact.

pub mod asset;
pub mod asset_ref;
pub mod color;
pub mod computed;
pub mod controller;
pub mod element_style;
pub mod error;
pub mod expr;
pub mod grammar;
pub mod handle;
pub mod layout;
pub mod path;
pub mod style_attr;
pub mod template;
pub mod text;
pub mod typed_expr;
pub mod units;
pub mod vocab;
pub mod xml;

pub use asset::{AssetSerial, GuiseTemplatesLoader};
pub use asset_ref::AssetRef;
pub use color::ColorValue;
pub use computed::{ComputedStyle, Style};
pub use controller::{compute_style, StyleAssets, ViewElement};
pub use element_style::ElementStyle;
pub use error::GuiseError;
pub use expr::Expr;
pub use handle::{Handle, LoadContext};
pub use layout::{
    AlignContent, AlignItems, AlignSelf, Direction, Display, FlexDirection, FlexWrap,
    GridAutoFlow, GridPlacement, JustifyContent, JustifyItems, JustifySelf, LineBreak, Overflow,
    OverflowAxis, PositionType,
};
pub use style_attr::{ImageRef, StyleAttr};
pub use template::{Call, Element, TemplateAsset, TemplateNode};
pub use typed_expr::{EvalError, ExprTarget, TypedExpr};
pub use units::{UiRect, Val};
