//! Typed wrappers around dynamic values.
//!
//! A [`TypedExpr`] pairs an [`Expr`] with the type its consumer wants.
//! Construction never validates; the tag-checked narrowing happens at
//! [`TypedExpr::eval`], which reports a typed error on mismatch. This
//! keeps a stored style clonable and shareable even when some of its
//! expressions would not evaluate in the current context.

use core::marker::PhantomData;

use vstd::prelude::*;

use crate::color::ColorValue;
use crate::expr::Expr;
use crate::layout::{
    AlignContent, AlignItems, AlignSelf, Direction, Display, FlexDirection, FlexWrap,
    JustifyContent, JustifyItems, JustifySelf, OverflowAxis, PositionType,
};
use crate::units::{UiRect, Val};

verus! {

/// The error surfaced when a stored value does not narrow to the type its
/// consumer wants.
#[derive(Debug, Clone, Copy, PartialEq, Eq)]
pub enum EvalError {
    /// The stored tag does not match the requested target type.
    TypeMismatch,
}

/// A type a dynamic value can narrow to.
pub trait ExprTarget: Sized {
    /// The value `e` narrows to, if its tag matches.
    spec fn target_of(e: Expr) -> Option<Self>;

    /// Narrows `e`, returning `None` on a tag mismatch.
    fn narrow(e: &Expr) -> (r: Option<Self>)
        ensures
            r == Self::target_of(*e),
    ;
}

impl ExprTarget for Option<ColorValue> {
    open spec fn target_of(e: Expr) -> Option<Self> {
        e.color_of()
    }

    fn narrow(e: &Expr) -> (r: Option<Self>) {
        e.into_color()
    }
}

impl ExprTarget for i32 {
    open spec fn target_of(e: Expr) -> Option<Self> {
        e.i32_of()
    }

    fn narrow(e: &Expr) -> (r: Option<Self>) {
        e.into_i32()
    }
}

impl ExprTarget for i64 {
    open spec fn target_of(e: Expr) -> Option<Self> {
        e.scalar_of()
    }

    fn narrow(e: &Expr) -> (r: Option<Self>) {
        e.into_scalar()
    }
}

impl ExprTarget for Val {
    open spec fn target_of(e: Expr) -> Option<Self> {
        e.length_of()
    }

    fn narrow(e: &Expr) -> (r: Option<Self>) {
        e.into_length()
    }
}

impl ExprTarget for UiRect {
    open spec fn target_of(e: Expr) -> Option<Self> {
        e.uirect_of()
    }

    fn narrow(e: &Expr) -> (r: Option<Self>) {
        e.into_uirect()
    }
}

impl ExprTarget for Display {
    open spec fn target_of(e: Expr) -> Option<Self> {
        e.display_of()
    }

    fn narrow(e: &Expr) -> (r: Option<Self>) {
        e.into_display()
    }
}

impl ExprTarget for PositionType {
    open spec fn target_of(e: Expr) -> Option<Self> {
        e.position_of()
    }

    fn narrow(e: &Expr) -> (r: Option<Self>) {
        e.into_position()
    }
}

impl ExprTarget for OverflowAxis {
    open spec fn target_of(e: Expr) -> Option<Self> {
        e.overflow_of()
    }

    fn narrow(e: &Expr) -> (r: Option<Self>) {
        e.into_overflow()
    }
}

impl ExprTarget for Direction {
    open spec fn target_of(e: Expr) -> Option<Self> {
        e.direction_of()
    }

    fn narrow(e: &Expr) -> (r: Option<Self>) {
        e.into_direction()
    }
}

impl ExprTarget for AlignItems {
    open spec fn target_of(e: Expr) -> Option<Self> {
        e.align_items_of()
    }

    fn narrow(e: &Expr) -> (r: Option<Self>) {
        e.into_align_items()
    }
}

impl ExprTarget for JustifyItems {
    open spec fn target_of(e: Expr) -> Option<Self> {
        e.justify_items_of()
    }

    fn narrow(e: &Expr) -> (r: Option<Self>) {
        e.into_justify_items()
    }
}

impl ExprTarget for AlignSelf {
    open spec fn target_of(e: Expr) -> Option<Self> {
        e.align_self_of()
    }

    fn narrow(e: &Expr) -> (r: Option<Self>) {
        e.into_align_self()
    }
}

impl ExprTarget for JustifySelf {
    open spec fn target_of(e: Expr) -> Option<Self> {
        e.justify_self_of()
    }

    fn narrow(e: &Expr) -> (r: Option<Self>) {
        e.into_justify_self()
    }
}

impl ExprTarget for AlignContent {
    open spec fn target_of(e: Expr) -> Option<Self> {
        e.align_content_of()
    }

    fn narrow(e: &Expr) -> (r: Option<Self>) {
        e.into_align_content()
    }
}

impl ExprTarget for JustifyContent {
    open spec fn target_of(e: Expr) -> Option<Self> {
        e.justify_content_of()
    }

    fn narrow(e: &Expr) -> (r: Option<Self>) {
        e.into_justify_content()
    }
}

impl ExprTarget for FlexDirection {
    open spec fn target_of(e: Expr) -> Option<Self> {
        e.flex_direction_of()
    }

    fn narrow(e: &Expr) -> (r: Option<Self>) {
        e.into_flex_direction()
    }
}

impl ExprTarget for FlexWrap {
    open spec fn target_of(e: Expr) -> Option<Self> {
        e.flex_wrap_of()
    }

    fn narrow(e: &Expr) -> (r: Option<Self>) {
        e.into_flex_wrap()
    }
}

/// A dynamic value paired with the type its consumer wants; validation is
/// deferred to [`TypedExpr::eval`].
#[verifier::reject_recursive_types(T)]
pub struct TypedExpr<T> {
    /// The stored dynamic value.
    pub expr: Expr,
    /// The zero-sized marker of the target type.
    pub marker: PhantomData<T>,
}

impl<T: ExprTarget> TypedExpr<T> {
    /// The value this expression evaluates to, if its tag matches.
    pub open spec fn eval_spec(self) -> Option<T> {
        T::target_of(self.expr)
    }

    /// Wraps a dynamic value without validating it.
    pub fn from_expr(e: Expr) -> (r: TypedExpr<T>)
        ensures
            r.expr == e,
    {
        TypedExpr { expr: e, marker: PhantomData }
    }

    /// An equivalent copy of the wrapper.
    pub fn dup(&self) -> (r: TypedExpr<T>)
        ensures
            self.expr.like(r.expr),
    {
        TypedExpr { expr: self.expr.dup(), marker: PhantomData }
    }

    /// Evaluates the stored value, surfacing a typed error on mismatch.
    pub fn eval(&self) -> (r: Result<T, EvalError>)
        ensures
            match r {
                Result::Ok(v) => self.eval_spec() == Option::Some(v),
                Result::Err(e) => self.eval_spec() is None && e == EvalError::TypeMismatch,
            },
    {
        match T::narrow(&self.expr) {
            Option::Some(v) => Result::Ok(v),
            Option::None => Result::Err(EvalError::TypeMismatch),
        }
    }
}

} // verus!
