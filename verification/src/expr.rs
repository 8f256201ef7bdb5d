//! The dynamic style value: a small tagged union with typed, failure-free
//! narrowing conversions.
//!
//! Conversions return `None` on a tag mismatch instead of erroring, so a
//! cascade can skip one malformed attribute and keep applying the rest.

use std::sync::Arc;

use vstd::prelude::*;

use crate::color::ColorValue;
use crate::element_style::ElementStyle;
use crate::layout::{
    AlignContent, AlignItems, AlignSelf, Direction, Display, FlexDirection, FlexWrap,
    JustifyContent, JustifyItems, JustifySelf, OverflowAxis, PositionType,
};
use crate::units::{UiRect, Val};
use crate::vocab;

verus! {

/// Relies on `Arc::clone`: a clone is the same shared value.
#[verifier::external_body]
pub(crate) fn arc_dup<T>(a: &Arc<T>) -> (r: Arc<T>)
    ensures
        r == *a,
{
    Arc::clone(a)
}

/// A dynamic style value. Numbers and color channels are fixed-point, in
/// thousandths.
pub enum Expr {
    /// An explicit null.
    Null,
    /// A bare identifier, such as an enumeration literal.
    Ident(String),
    /// A number, in thousandths.
    Number(i64),
    /// A color literal.
    Color(ColorValue),
    /// A length with its unit.
    Length(Val),
    /// A four-sided rect of lengths.
    Rect(UiRect),
    /// A reference to an asset by path.
    AssetPath(String),
    /// A list of values.
    List(Vec<Expr>),
    /// A nested attribute set, shared by reference.
    Style(Arc<ElementStyle>),
}

impl Expr {
    /// Structural equivalence: equality everywhere, except that two list
    /// values are compared element by element. A fresh deep copy of a
    /// list is indistinguishable from the original but is a distinct
    /// vector value, so copies promise this relation instead of
    /// equality.
    pub open spec fn like(self, other: Expr) -> bool
        decreases self,
    {
        match (self, other) {
            (Expr::List(x), Expr::List(y)) => x@.len() == y@.len() && (forall|i: int|
                0 <= i < x@.len() ==> (#[trigger] x@[i]).like(y@[i])),
            _ => self == other,
        }
    }

    /// An equivalent copy of the value; nested styles are shared, not
    /// copied.
    pub fn dup(&self) -> (r: Expr)
        ensures
            self.like(r),
        decreases *self,
    {
        match self {
            Expr::Null => Expr::Null,
            Expr::Ident(s) => Expr::Ident(s.clone()),
            Expr::Number(n) => Expr::Number(*n),
            Expr::Color(c) => Expr::Color(*c),
            Expr::Length(v) => Expr::Length(*v),
            Expr::Rect(r) => Expr::Rect(*r),
            Expr::AssetPath(s) => Expr::AssetPath(s.clone()),
            Expr::List(items) => {
                let mut out: Vec<Expr> = Vec::new();
                let mut i: usize = 0;
                while i < items.len()
                    invariant
                        i <= items.len(),
                        out@.len() == i,
                        forall|j: int| 0 <= j < i ==> (#[trigger] items@[j]).like(out@[j]),
                        *self == Expr::List(*items),
                    decreases items.len() - i,
                {
                    proof {
                        assert(decreases_to!(*self => self->List_0@[i as int]));
                        assert(items@[i as int] == self->List_0@[i as int]);
                    }
                    out.push(items[i].dup());
                    i = i + 1;
                }
                Expr::List(out)
            },
            Expr::Style(style) => Expr::Style(arc_dup(style)),
        }
    }

    /// The color a value narrows to: a color literal, or null standing
    /// for "no color".
    pub open spec fn color_of(self) -> Option<Option<ColorValue>> {
        match self {
            Expr::Color(c) => Option::Some(Option::Some(c)),
            Expr::Null => Option::Some(Option::None),
            _ => Option::None,
        }
    }

    /// Narrows to a color; null means "no color".
    pub fn into_color(&self) -> (r: Option<Option<ColorValue>>)
        ensures
            r == self.color_of(),
    {
        match self {
            Expr::Color(c) => Option::Some(Option::Some(*c)),
            Expr::Null => Option::Some(Option::None),
            _ => Option::None,
        }
    }

    /// The signed integer a value narrows to: a whole number within
    /// thirty-two-bit range.
    pub open spec fn i32_of(self) -> Option<i32> {
        match self {
            Expr::Number(n) => if n % 1000 == 0 && i32::MIN <= n / 1000 <= i32::MAX {
                Option::Some((n / 1000) as i32)
            } else {
                Option::None
            },
            _ => Option::None,
        }
    }

    /// Narrows to a whole thirty-two-bit integer.
    pub fn into_i32(&self) -> (r: Option<i32>)
        ensures
            r == self.i32_of(),
    {
        match self {
            Expr::Number(n) => {
                if *n % 1000 == 0 && -2147483648 <= *n / 1000 && *n / 1000 <= 2147483647 {
                    Option::Some((*n / 1000) as i32)
                } else {
                    Option::None
                }
            },
            _ => Option::None,
        }
    }

    /// The scalar a value narrows to, in thousandths.
    pub open spec fn scalar_of(self) -> Option<i64> {
        match self {
            Expr::Number(n) => Option::Some(n),
            _ => Option::None,
        }
    }

    /// Narrows to a scalar in thousandths.
    pub fn into_scalar(&self) -> (r: Option<i64>)
        ensures
            r == self.scalar_of(),
    {
        match self {
            Expr::Number(n) => Option::Some(*n),
            _ => Option::None,
        }
    }

    /// The length a value narrows to: a length, a bare number read as
    /// pixels, or the identifier `auto`.
    pub open spec fn length_of(self) -> Option<Val> {
        match self {
            Expr::Length(v) => Option::Some(v),
            Expr::Number(n) => Option::Some(Val::Px(n)),
            Expr::Ident(s) => if s@ == "auto"@ {
                Option::Some(Val::Auto)
            } else {
                Option::None
            },
            _ => Option::None,
        }
    }

    /// Narrows to a length; bare numbers default to pixels.
    pub fn into_length(&self) -> (r: Option<Val>)
        ensures
            r == self.length_of(),
    {
        match self {
            Expr::Length(v) => Option::Some(*v),
            Expr::Number(n) => Option::Some(Val::Px(*n)),
            Expr::Ident(s) => {
                if crate::text::str_eq(s.as_str(), "auto") {
                    Option::Some(Val::Auto)
                } else {
                    Option::None
                }
            },
            _ => Option::None,
        }
    }

    /// The rect a value narrows to: a rect literal, a single length or
    /// number for all four sides, or a list of one to four lengths in CSS
    /// order with CSS defaulting.
    pub open spec fn uirect_of(self) -> Option<UiRect> {
        match self {
            Expr::Rect(r) => Option::Some(r),
            Expr::Length(v) => Option::Some(UiRect { left: v, right: v, top: v, bottom: v }),
            Expr::Number(n) => Option::Some(
                UiRect {
                    left: Val::Px(n),
                    right: Val::Px(n),
                    top: Val::Px(n),
                    bottom: Val::Px(n),
                },
            ),
            Expr::List(items) => {
                if 1 <= items@.len() <= 4 {
                    let top = items@[0].length_of();
                    let right = if items@.len() >= 2 {
                        items@[1].length_of()
                    } else {
                        top
                    };
                    let bottom = if items@.len() >= 3 {
                        items@[2].length_of()
                    } else {
                        top
                    };
                    let left = if items@.len() >= 4 {
                        items@[3].length_of()
                    } else {
                        right
                    };
                    if top is Some && right is Some && bottom is Some && left is Some {
                        Option::Some(
                            UiRect {
                                left: left->0,
                                right: right->0,
                                top: top->0,
                                bottom: bottom->0,
                            },
                        )
                    } else {
                        Option::None
                    }
                } else {
                    Option::None
                }
            },
            _ => Option::None,
        }
    }

    /// Narrows to a four-sided rect.
    pub fn into_uirect(&self) -> (r: Option<UiRect>)
        ensures
            r == self.uirect_of(),
    {
        match self {
            Expr::Rect(r) => Option::Some(*r),
            Expr::Length(v) => Option::Some(UiRect { left: *v, right: *v, top: *v, bottom: *v }),
            Expr::Number(n) => Option::Some(
                UiRect {
                    left: Val::Px(*n),
                    right: Val::Px(*n),
                    top: Val::Px(*n),
                    bottom: Val::Px(*n),
                },
            ),
            Expr::List(items) => {
                if items.len() < 1 || items.len() > 4 {
                    return Option::None;
                }
                let top = match items[0].into_length() {
                    Option::Some(v) => v,
                    Option::None => {
                        return Option::None;
                    },
                };
                let right = if items.len() >= 2 {
                    match items[1].into_length() {
                        Option::Some(v) => v,
                        Option::None => {
                            return Option::None;
                        },
                    }
                } else {
                    top
                };
                let bottom = if items.len() >= 3 {
                    match items[2].into_length() {
                        Option::Some(v) => v,
                        Option::None => {
                            return Option::None;
                        },
                    }
                } else {
                    top
                };
                let left = if items.len() >= 4 {
                    match items[3].into_length() {
                        Option::Some(v) => v,
                        Option::None => {
                            return Option::None;
                        },
                    }
                } else {
                    right
                };
                Option::Some(UiRect { left, right, top, bottom })
            },
            _ => Option::None,
        }
    }

    /// The identifier a value carries, if it is one.
    pub open spec fn ident_of(self) -> Option<Seq<char>> {
        match self {
            Expr::Ident(s) => Option::Some(s@),
            _ => Option::None,
        }
    }

    /// The display mode a value narrows to.
    pub open spec fn display_of(self) -> Option<Display> {
        match self.ident_of() {
            Option::Some(s) => vocab::display_of_ident(s),
            Option::None => Option::None,
        }
    }

    /// Narrows to a display mode.
    pub fn into_display(&self) -> (r: Option<Display>)
        ensures
            r == self.display_of(),
    {
        match self {
            Expr::Ident(s) => vocab::parse_display_ident(s.as_str()),
            _ => Option::None,
        }
    }

    /// The position type a value narrows to.
    pub open spec fn position_of(self) -> Option<PositionType> {
        match self.ident_of() {
            Option::Some(s) => vocab::position_of_ident(s),
            Option::None => Option::None,
        }
    }

    /// Narrows to a position type.
    pub fn into_position(&self) -> (r: Option<PositionType>)
        ensures
            r == self.position_of(),
    {
        match self {
            Expr::Ident(s) => vocab::parse_position_ident(s.as_str()),
            _ => Option::None,
        }
    }

    /// The overflow axis behaviour a value narrows to.
    pub open spec fn overflow_of(self) -> Option<OverflowAxis> {
        match self.ident_of() {
            Option::Some(s) => vocab::overflow_of_ident(s),
            Option::None => Option::None,
        }
    }

    /// Narrows to an overflow axis behaviour.
    pub fn into_overflow(&self) -> (r: Option<OverflowAxis>)
        ensures
            r == self.overflow_of(),
    {
        match self {
            Expr::Ident(s) => vocab::parse_overflow_ident(s.as_str()),
            _ => Option::None,
        }
    }

    /// The direction a value narrows to.
    pub open spec fn direction_of(self) -> Option<Direction> {
        match self.ident_of() {
            Option::Some(s) => vocab::direction_of_ident(s),
            Option::None => Option::None,
        }
    }

    /// Narrows to a direction.
    pub fn into_direction(&self) -> (r: Option<Direction>)
        ensures
            r == self.direction_of(),
    {
        match self {
            Expr::Ident(s) => vocab::parse_direction_ident(s.as_str()),
            _ => Option::None,
        }
    }

    /// The items alignment a value narrows to.
    pub open spec fn align_items_of(self) -> Option<AlignItems> {
        match self.ident_of() {
            Option::Some(s) => vocab::align_items_of_ident(s),
            Option::None => Option::None,
        }
    }

    /// Narrows to an items alignment.
    pub fn into_align_items(&self) -> (r: Option<AlignItems>)
        ensures
            r == self.align_items_of(),
    {
        match self {
            Expr::Ident(s) => vocab::parse_align_items_ident(s.as_str()),
            _ => Option::None,
        }
    }

    /// The items justification a value narrows to.
    pub open spec fn justify_items_of(self) -> Option<JustifyItems> {
        match self.ident_of() {
            Option::Some(s) => vocab::justify_items_of_ident(s),
            Option::None => Option::None,
        }
    }

    /// Narrows to an items justification.
    pub fn into_justify_items(&self) -> (r: Option<JustifyItems>)
        ensures
            r == self.justify_items_of(),
    {
        match self {
            Expr::Ident(s) => vocab::parse_justify_items_ident(s.as_str()),
            _ => Option::None,
        }
    }

    /// The self alignment a value narrows to.
    pub open spec fn align_self_of(self) -> Option<AlignSelf> {
        match self.ident_of() {
            Option::Some(s) => vocab::align_self_of_ident(s),
            Option::None => Option::None,
        }
    }

    /// Narrows to a self alignment.
    pub fn into_align_self(&self) -> (r: Option<AlignSelf>)
        ensures
            r == self.align_self_of(),
    {
        match self {
            Expr::Ident(s) => vocab::parse_align_self_ident(s.as_str()),
            _ => Option::None,
        }
    }

    /// The self justification a value narrows to.
    pub open spec fn justify_self_of(self) -> Option<JustifySelf> {
        match self.ident_of() {
            Option::Some(s) => vocab::justify_self_of_ident(s),
            Option::None => Option::None,
        }
    }

    /// Narrows to a self justification.
    pub fn into_justify_self(&self) -> (r: Option<JustifySelf>)
        ensures
            r == self.justify_self_of(),
    {
        match self {
            Expr::Ident(s) => vocab::parse_justify_self_ident(s.as_str()),
            _ => Option::None,
        }
    }

    /// The content alignment a value narrows to.
    pub open spec fn align_content_of(self) -> Option<AlignContent> {
        match self.ident_of() {
            Option::Some(s) => vocab::align_content_of_ident(s),
            Option::None => Option::None,
        }
    }

    /// Narrows to a content alignment.
    pub fn into_align_content(&self) -> (r: Option<AlignContent>)
        ensures
            r == self.align_content_of(),
    {
        match self {
            Expr::Ident(s) => vocab::parse_align_content_ident(s.as_str()),
            _ => Option::None,
        }
    }

    /// The content justification a value narrows to.
    pub open spec fn justify_content_of(self) -> Option<JustifyContent> {
        match self.ident_of() {
            Option::Some(s) => vocab::justify_content_of_ident(s),
            Option::None => Option::None,
        }
    }

    /// Narrows to a content justification.
    pub fn into_justify_content(&self) -> (r: Option<JustifyContent>)
        ensures
            r == self.justify_content_of(),
    {
        match self {
            Expr::Ident(s) => vocab::parse_justify_content_ident(s.as_str()),
            _ => Option::None,
        }
    }

    /// The flex direction a value narrows to.
    pub open spec fn flex_direction_of(self) -> Option<FlexDirection> {
        match self.ident_of() {
            Option::Some(s) => vocab::flex_direction_of_ident(s),
            Option::None => Option::None,
        }
    }

    /// Narrows to a flex direction.
    pub fn into_flex_direction(&self) -> (r: Option<FlexDirection>)
        ensures
            r == self.flex_direction_of(),
    {
        match self {
            Expr::Ident(s) => vocab::parse_flex_direction_ident(s.as_str()),
            _ => Option::None,
        }
    }

    /// The flex wrapping a value narrows to.
    pub open spec fn flex_wrap_of(self) -> Option<FlexWrap> {
        match self.ident_of() {
            Option::Some(s) => vocab::flex_wrap_of_ident(s),
            Option::None => Option::None,
        }
    }

    /// Narrows to a flex wrapping.
    pub fn into_flex_wrap(&self) -> (r: Option<FlexWrap>)
        ensures
            r == self.flex_wrap_of(),
    {
        match self {
            Expr::Ident(s) => vocab::parse_flex_wrap_ident(s.as_str()),
            _ => Option::None,
        }
    }
}

} // verus!
