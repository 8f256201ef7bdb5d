//! Ordered attribute sets and the cascade that merges them.
//!
//! An [`ElementStyle`] is an ordered sequence of attributes; applying it
//! walks the sequence forward and overwrites one field group per
//! attribute, so later entries win field by field — never whole-record.
//! The laws at the bottom of this module state the cascade's ordering
//! guarantees.

use std::sync::Arc;

use vstd::prelude::*;

use crate::asset_ref::AssetRef;
use crate::color::ColorValue;
use crate::computed::ComputedStyle;
use crate::error::GuiseError;
use crate::expr::Expr;
use crate::handle::{Handle, LoadContext};
use crate::layout::{Overflow, OverflowAxis};
use crate::path::resolve_ref;
use crate::style_attr::{ImageRef, StyleAttr};
use crate::text::str_eq;
use crate::typed_expr::TypedExpr;

verus! {

/// The computed style after applying a sequence of attributes in order.
pub open spec fn apply_seq(c: ComputedStyle, attrs: Seq<StyleAttr>) -> ComputedStyle
    decreases attrs.len(),
{
    if attrs.len() == 0 {
        c
    } else {
        apply_seq(attrs[0].apply_spec(c), attrs.drop_first())
    }
}

/// Applying one more attribute applies it on top of the prior result:
/// the cascade is field-granular, an attribute at the end of the list
/// rewrites exactly the fields it carries over whatever came before.
pub proof fn lemma_apply_seq_push(c: ComputedStyle, attrs: Seq<StyleAttr>, a: StyleAttr)
    ensures
        apply_seq(c, attrs.push(a)) == a.apply_spec(apply_seq(c, attrs)),
    decreases attrs.len(),
{
    let p = attrs.push(a);
    if attrs.len() == 0 {
        assert(p[0] == a);
        assert(p.drop_first() =~= Seq::<StyleAttr>::empty());
        assert(apply_seq(c, p) == apply_seq(a.apply_spec(c), p.drop_first()));
        assert(apply_seq(a.apply_spec(c), p.drop_first()) == a.apply_spec(c));
        assert(apply_seq(c, attrs) == c);
    } else {
        lemma_apply_seq_push(attrs[0].apply_spec(c), attrs.drop_first(), a);
        assert(p[0] == attrs[0]);
        assert(p.drop_first() =~= attrs.drop_first().push(a));
        assert(apply_seq(c, p) == apply_seq(attrs[0].apply_spec(c), p.drop_first()));
        assert(apply_seq(c, attrs) == apply_seq(attrs[0].apply_spec(c), attrs.drop_first()));
    }
}

/// Applying a concatenation applies the two lists in turn.
pub proof fn lemma_apply_seq_concat(c: ComputedStyle, s1: Seq<StyleAttr>, s2: Seq<StyleAttr>)
    ensures
        apply_seq(c, s1 + s2) == apply_seq(apply_seq(c, s1), s2),
    decreases s1.len(),
{
    if s1.len() == 0 {
        assert(s1 + s2 =~= s2);
    } else {
        lemma_apply_seq_concat(s1[0].apply_spec(c), s1.drop_first(), s2);
        assert((s1 + s2).drop_first() =~= s1.drop_first() + s2);
    }
}

/// A collection of style attributes which can be merged into a computed
/// style. The sequence order is insertion order and is meaningful: a
/// later attribute overrides an earlier one, field by field.
pub struct ElementStyle {
    attrs: Vec<StyleAttr>,
}

impl ElementStyle {
    /// The attribute sequence.
    pub closed spec fn attrs_spec(self) -> Seq<StyleAttr> {
        self.attrs@
    }

    /// An empty attribute set.
    pub fn new() -> (r: ElementStyle)
        ensures
            r.attrs_spec() == Seq::<StyleAttr>::empty(),
    {
        ElementStyle { attrs: Vec::new() }
    }

    /// An empty attribute set with room for `capacity` attributes.
    pub fn with_capacity(capacity: usize) -> (r: ElementStyle)
        ensures
            r.attrs_spec() == Seq::<StyleAttr>::empty(),
    {
        ElementStyle { attrs: Vec::with_capacity(capacity) }
    }

    /// Appends one attribute; it will override earlier ones on the
    /// fields it carries.
    pub fn push(&mut self, attr: StyleAttr)
        ensures
            final(self).attrs_spec() == old(self).attrs_spec().push(attr),
    {
        self.attrs.push(attr);
    }

    /// The number of attributes.
    pub fn len(&self) -> (n: usize)
        ensures
            n == self.attrs_spec().len(),
    {
        self.attrs.len()
    }

    /// Structural equivalence of attribute sets: the same attributes in
    /// the same order, compared through [`StyleAttr::attr_like`].
    pub open spec fn style_like(self, other: ElementStyle) -> bool {
        &&& self.attrs_spec().len() == other.attrs_spec().len()
        &&& forall|i: int|
            0 <= i < self.attrs_spec().len() ==> (#[trigger] self.attrs_spec()[i]).attr_like(
                other.attrs_spec()[i],
            )
    }

    /// An equivalent copy of the attribute set.
    pub fn dup(&self) -> (r: ElementStyle)
        ensures
            self.style_like(r),
    {
        let mut out: Vec<StyleAttr> = Vec::new();
        let mut i: usize = 0;
        while i < self.attrs.len()
            invariant
                i <= self.attrs@.len(),
                out@.len() == i,
                forall|j: int| 0 <= j < i ==> (#[trigger] self.attrs@[j]).attr_like(out@[j]),
            decreases self.attrs@.len() - i,
        {
            out.push(self.attrs[i].dup());
            i = i + 1;
        }
        ElementStyle { attrs: out }
    }

    /// Merges the style's attributes into a computed style, in order.
    pub fn apply_to(&self, computed: &mut ComputedStyle)
        ensures
            *final(computed) == apply_seq(*old(computed), self.attrs_spec()),
    {
        self.apply_attrs_to(&self.attrs, computed);
    }

    /// Merges a sequence of attributes into a computed style, forward
    /// order, one field group per attribute; an attribute whose
    /// expression fails to evaluate is skipped, not fatal.
    fn apply_attrs_to(&self, attrs: &Vec<StyleAttr>, computed: &mut ComputedStyle)
        ensures
            *final(computed) == apply_seq(*old(computed), attrs@),
    {
        let ghost c0 = *computed;
        let mut i: usize = 0;
        while i < attrs.len()
            invariant
                i <= attrs@.len(),
                *computed == apply_seq(c0, attrs@.take(i as int)),
            decreases attrs@.len() - i,
        {
            proof {
                assert(attrs@.take(i + 1) =~= attrs@.take(i as int).push(attrs@[i as int]));
                lemma_apply_seq_push(c0, attrs@.take(i as int), attrs@[i as int]);
            }
            attrs[i].apply(computed);
            i = i + 1;
        }
        proof {
            assert(attrs@.take(attrs@.len() as int) =~= attrs@);
        }
    }

    /// Anchors every asset reference embedded in the attributes to
    /// `base`; all other attributes are kept as they are.
    pub fn resolve_asset_paths(&mut self, base: &str)
        ensures
            style_resolved(*old(self), *final(self), base@),
    {
        let ghost olds = self.attrs@;
        let mut i: usize = 0;
        while i < self.attrs.len()
            invariant
                i <= self.attrs@.len(),
                self.attrs@.len() == olds.len(),
                forall|j: int| i <= j < olds.len() ==> self.attrs@[j] == olds[j],
                forall|j: int|
                    0 <= j < i ==> {
                        let a = olds[j];
                        match a {
                            StyleAttr::BackgroundImage(img) => match img {
                                Option::Some(ir) => (#[trigger] self.attrs@[j])
                                    matches StyleAttr::BackgroundImage(Option::Some(ir2))
                                    && ir2.asset.path_spec() == ir.asset.path_spec()
                                    && ir2.asset.resolved_spec() == resolve_ref(
                                    base@,
                                    ir.asset.path_spec(),
                                ) && ir2.handle == ir.handle,
                                Option::None => self.attrs@[j] == a,
                            },
                            _ => self.attrs@[j] == a,
                        }
                    },
            decreases self.attrs@.len() - i,
        {
            let replacement: Option<StyleAttr> = match &self.attrs[i] {
                StyleAttr::BackgroundImage(Option::Some(ir)) => {
                    let mut asset = ir.asset.dup();
                    asset.resolve_asset_path(base);
                    Option::Some(
                        StyleAttr::BackgroundImage(
                            Option::Some(ImageRef { asset, handle: ir.handle }),
                        ),
                    )
                },
                _ => Option::None,
            };
            if let Option::Some(attr) = replacement {
                self.attrs.set(i, attr);
            }
            i = i + 1;
        }
    }
}


/// Whether `k` is a recognized structured-document property key.
pub open spec fn known_style_key(k: Seq<char>) -> bool {
    k == "background_image"@ || k == "background_color"@ || k == "border_color"@ || k == "color"@ || k == "z_index"@ || k == "display"@ || k == "position"@ || k == "overflow_x"@ || k == "overflow_y"@ || k == "overflow"@ || k == "direction"@ || k == "left"@ || k == "right"@ || k == "top"@ || k == "bottom"@ || k == "width"@ || k == "height"@ || k == "min_width"@ || k == "min_height"@ || k == "max_width"@ || k == "max_height"@ || k == "margin"@ || k == "margin_left"@ || k == "margin_right"@ || k == "margin_top"@ || k == "margin_bottom"@ || k == "padding"@ || k == "padding_left"@ || k == "padding_right"@ || k == "padding_top"@ || k == "padding_bottom"@ || k == "border"@ || k == "border_left"@ || k == "border_right"@ || k == "border_top"@ || k == "border_bottom"@ || k == "flex_direction"@ || k == "flex_wrap"@ || k == "flex_grow"@ || k == "flex_shrink"@ || k == "flex_basis"@ || k == "row_gap"@ || k == "column_gap"@ || k == "gap"@ || k == "align_items"@ || k == "align_self"@ || k == "align_content"@ || k == "justify_items"@ || k == "justify_self"@ || k == "justify_content"@
}

/// Whether one structured-document member is acceptable: its key is
/// known and, for the eagerly resolved properties, its value has the
/// required shape.
pub open spec fn member_ok(k: Seq<char>, v: Expr) -> bool {
    known_style_key(k) && if k == "background_image"@ {
            v is AssetPath || v is Null || (v matches Expr::Ident(s) && s@ == "none"@)
        } else if k == "flex_direction"@ {
            v.flex_direction_of() is Some
        } else if k == "flex_wrap"@ {
            v.flex_wrap_of() is Some
        } else {
            true
        }
}

/// The attribute a structured-document member builds; `h` is the handle
/// a background image receives when one is requested.
pub open spec fn member_attr_post(k: Seq<char>, v: Expr, attr: StyleAttr, h: Handle) -> bool {
    if k == "background_image"@ {
        match v {
            Expr::AssetPath(p) => attr matches StyleAttr::BackgroundImage(Option::Some(ir))
                && ir.asset.path_spec() == p@ && ir.asset.resolved_spec() == p@ && ir.handle
                == h,
            _ => attr == StyleAttr::BackgroundImage(Option::<ImageRef>::None),
        }
    } else if k == "flex_direction"@ {
        attr matches StyleAttr::FlexDirection(d) && v.flex_direction_of() == Option::Some(d)
    } else if k == "flex_wrap"@ {
        attr matches StyleAttr::FlexWrap(w) && v.flex_wrap_of() == Option::Some(w)
    } else if k == "background_color"@ {
        attr matches StyleAttr::BackgroundColor(te) && v.like(te.expr)
    } else if k == "border_color"@ {
        attr matches StyleAttr::BorderColor(te) && v.like(te.expr)
    } else if k == "color"@ {
        attr matches StyleAttr::Color(te) && v.like(te.expr)
    } else if k == "z_index"@ {
        attr matches StyleAttr::ZIndex(te) && v.like(te.expr)
    } else if k == "display"@ {
        attr matches StyleAttr::Display(te) && v.like(te.expr)
    } else if k == "position"@ {
        attr matches StyleAttr::Position(te) && v.like(te.expr)
    } else if k == "overflow_x"@ {
        attr matches StyleAttr::OverflowX(te) && v.like(te.expr)
    } else if k == "overflow_y"@ {
        attr matches StyleAttr::OverflowY(te) && v.like(te.expr)
    } else if k == "overflow"@ {
        attr matches StyleAttr::Overflow(te) && v.like(te.expr)
    } else if k == "direction"@ {
        attr matches StyleAttr::Direction(te) && v.like(te.expr)
    } else if k == "left"@ {
        attr matches StyleAttr::Left(te) && v.like(te.expr)
    } else if k == "right"@ {
        attr matches StyleAttr::Right(te) && v.like(te.expr)
    } else if k == "top"@ {
        attr matches StyleAttr::Top(te) && v.like(te.expr)
    } else if k == "bottom"@ {
        attr matches StyleAttr::Bottom(te) && v.like(te.expr)
    } else if k == "width"@ {
        attr matches StyleAttr::Width(te) && v.like(te.expr)
    } else if k == "height"@ {
        attr matches StyleAttr::Height(te) && v.like(te.expr)
    } else if k == "min_width"@ {
        attr matches StyleAttr::MinWidth(te) && v.like(te.expr)
    } else if k == "min_height"@ {
        attr matches StyleAttr::MinHeight(te) && v.like(te.expr)
    } else if k == "max_width"@ {
        attr matches StyleAttr::MaxWidth(te) && v.like(te.expr)
    } else if k == "max_height"@ {
        attr matches StyleAttr::MaxHeight(te) && v.like(te.expr)
    } else if k == "margin"@ {
        attr matches StyleAttr::Margin(te) && v.like(te.expr)
    } else if k == "margin_left"@ {
        attr matches StyleAttr::MarginLeft(te) && v.like(te.expr)
    } else if k == "margin_right"@ {
        attr matches StyleAttr::MarginRight(te) && v.like(te.expr)
    } else if k == "margin_top"@ {
        attr matches StyleAttr::MarginTop(te) && v.like(te.expr)
    } else if k == "margin_bottom"@ {
        attr matches StyleAttr::MarginBottom(te) && v.like(te.expr)
    } else if k == "padding"@ {
        attr matches StyleAttr::Padding(te) && v.like(te.expr)
    } else if k == "padding_left"@ {
        attr matches StyleAttr::PaddingLeft(te) && v.like(te.expr)
    } else if k == "padding_right"@ {
        attr matches StyleAttr::PaddingRight(te) && v.like(te.expr)
    } else if k == "padding_top"@ {
        attr matches StyleAttr::PaddingTop(te) && v.like(te.expr)
    } else if k == "padding_bottom"@ {
        attr matches StyleAttr::PaddingBottom(te) && v.like(te.expr)
    } else if k == "border"@ {
        attr matches StyleAttr::Border(te) && v.like(te.expr)
    } else if k == "border_left"@ {
        attr matches StyleAttr::BorderLeft(te) && v.like(te.expr)
    } else if k == "border_right"@ {
        attr matches StyleAttr::BorderRight(te) && v.like(te.expr)
    } else if k == "border_top"@ {
        attr matches StyleAttr::BorderTop(te) && v.like(te.expr)
    } else if k == "border_bottom"@ {
        attr matches StyleAttr::BorderBottom(te) && v.like(te.expr)
    } else if k == "flex_grow"@ {
        attr matches StyleAttr::FlexGrow(te) && v.like(te.expr)
    } else if k == "flex_shrink"@ {
        attr matches StyleAttr::FlexShrink(te) && v.like(te.expr)
    } else if k == "flex_basis"@ {
        attr matches StyleAttr::FlexBasis(te) && v.like(te.expr)
    } else if k == "row_gap"@ {
        attr matches StyleAttr::RowGap(te) && v.like(te.expr)
    } else if k == "column_gap"@ {
        attr matches StyleAttr::ColumnGap(te) && v.like(te.expr)
    } else if k == "gap"@ {
        attr matches StyleAttr::Gap(te) && v.like(te.expr)
    } else if k == "align_items"@ {
        attr matches StyleAttr::AlignItems(te) && v.like(te.expr)
    } else if k == "align_self"@ {
        attr matches StyleAttr::AlignSelf(te) && v.like(te.expr)
    } else if k == "align_content"@ {
        attr matches StyleAttr::AlignContent(te) && v.like(te.expr)
    } else if k == "justify_items"@ {
        attr matches StyleAttr::JustifyItems(te) && v.like(te.expr)
    } else if k == "justify_self"@ {
        attr matches StyleAttr::JustifySelf(te) && v.like(te.expr)
    } else if k == "justify_content"@ {
        attr matches StyleAttr::JustifyContent(te) && v.like(te.expr)
    } else {
        false
    }
}

/// The error a rejected structured-document member produces. An unknown
/// key is named in an invalid-property error; a recognized key whose
/// value fails its shape carries the offending literal when the value is
/// an identifier, and the key itself when the value has no literal text.
pub open spec fn member_err_post(k: Seq<char>, v: Expr, e: GuiseError) -> bool {
    if !known_style_key(k) {
        e matches GuiseError::InvalidProperty(s) && s@ == k
    } else {
        match v {
            Expr::Ident(t) => e matches GuiseError::InvalidAttributeValue(s) && s@ == t@,
            _ => e matches GuiseError::InvalidAttributeValue(s) && s@ == k,
        }
    }
}

/// How many asset requests the members before index `i` make: one per
/// background image given as an asset path.
pub open spec fn loads_before(members: Seq<(String, Expr)>, i: int) -> nat
    decreases i when 0 <= i <= members.len()
{
    if i <= 0 {
        0
    } else {
        loads_before(members, i - 1) + (if members[i - 1].0@ == "background_image"@
            && members[i - 1].1 is AssetPath {
            1nat
        } else {
            0nat
        })
    }
}

/// How one attribute reads after the resolution pass: a background
/// image's reference is anchored to `base`, and every other attribute
/// is exactly what it was.
pub open spec fn attr_resolved(a: StyleAttr, b: StyleAttr, base: Seq<char>) -> bool {
    match a {
        StyleAttr::BackgroundImage(img) => match img {
            Option::Some(ir) => b matches StyleAttr::BackgroundImage(Option::Some(ir2))
                && ir2.asset.path_spec() == ir.asset.path_spec() && ir2.asset.resolved_spec()
                == resolve_ref(base, ir.asset.path_spec()) && ir2.handle == ir.handle,
            Option::None => b == a,
        },
        _ => b == a,
    }
}

/// How an attribute set reads after the resolution pass.
pub open spec fn style_resolved(s: ElementStyle, s2: ElementStyle, base: Seq<char>) -> bool {
    &&& s2.attrs_spec().len() == s.attrs_spec().len()
    &&& forall|i: int|
        0 <= i < s.attrs_spec().len() ==> attr_resolved(
            #[trigger] s.attrs_spec()[i],
            s2.attrs_spec()[i],
            base,
        )
}

/// At most one request is made per member.
pub proof fn lemma_loads_before_bound(members: Seq<(String, Expr)>, i: int)
    requires
        0 <= i <= members.len(),
    ensures
        loads_before(members, i) <= i,
    decreases i,
{
    if i > 0 {
        lemma_loads_before_bound(members, i - 1);
    }
}

/// The request count is monotone in the member prefix.
pub proof fn lemma_loads_before_mono(members: Seq<(String, Expr)>, a: int, b: int)
    requires
        0 <= a <= b <= members.len(),
    ensures
        loads_before(members, a) <= loads_before(members, b),
    decreases b - a,
{
    if a < b {
        lemma_loads_before_mono(members, a + 1, b);
    }
}

impl ElementStyle {
    /// Builds an attribute set from structured-document members, in
    /// member order. Every key must be a recognized property: an unknown
    /// key is a hard error naming that key, unlike the attribute-string
    /// surface where unknown names are routed elsewhere. A background
    /// image given as an asset path is requested immediately; `null` or
    /// the identifier `none` store an explicit no-image attribute.
    #[verifier::spinoff_prover]
    #[verifier::rlimit(100)]
    pub fn from_ast(members: &Vec<(String, Expr)>, lc: &mut LoadContext) -> (r: Result<
        Expr,
        GuiseError,
    >)
        ensures
            match r {
                Result::Ok(e) => {
                    &&& forall|i: int|
                        0 <= i < members@.len() ==> member_ok(
                            (#[trigger] members@[i]).0@,
                            members@[i].1,
                        )
                    &&& e matches Expr::Style(style)
                    &&& style.attrs_spec().len() == members@.len()
                    &&& forall|i: int|
                        0 <= i < members@.len() ==> member_attr_post(
                            (#[trigger] members@[i]).0@,
                            members@[i].1,
                            style.attrs_spec()[i],
                            Handle {
                                id: (old(lc).requests@.len() + loads_before(members@, i)) as usize,
                            },
                        )
                    &&& final(lc).requests@.len() == old(lc).requests@.len() + loads_before(
                        members@,
                        members@.len() as int,
                    )
                    &&& forall|i: int|
                        0 <= i < members@.len() ==> match (#[trigger] members@[i]).1 {
                            Expr::AssetPath(p) => members@[i].0@ == "background_image"@
                                ==> final(lc).requests@[(old(lc).requests@.len() + loads_before(
                                members@,
                                i,
                            )) as int]@ == p@,
                            _ => true,
                        }
                },
                Result::Err(e) => exists|i: int|
                    {
                        &&& 0 <= i < members@.len()
                        &&& !member_ok((#[trigger] members@[i]).0@, members@[i].1)
                        &&& forall|j: int|
                            0 <= j < i ==> member_ok((#[trigger] members@[j]).0@, members@[j].1)
                        &&& member_err_post(members@[i].0@, members@[i].1, e)
                        &&& final(lc).requests@.len() == old(lc).requests@.len() + loads_before(
                            members@,
                            i,
                        )
                    },
            },
            final(lc).path == old(lc).path,
            final(lc).requests@.len() >= old(lc).requests@.len(),
            forall|j: int|
                0 <= j < old(lc).requests@.len() ==> final(lc).requests@[j] == old(
                    lc,
                ).requests@[j],
    {
        let ghost base_len = lc.requests@.len();
        let mut attrs: Vec<StyleAttr> = Vec::new();
        let mut i: usize = 0;
        while i < members.len()
            invariant
                i <= members@.len(),
                attrs@.len() == i,
                lc.requests@.len() == base_len + loads_before(members@, i as int),
                lc.path == old(lc).path,
                base_len == old(lc).requests@.len(),
                forall|j: int| 0 <= j < base_len ==> lc.requests@[j] == old(lc).requests@[j],
                forall|j: int|
                    0 <= j < i ==> member_ok((#[trigger] members@[j]).0@, members@[j].1),
                forall|j: int|
                    0 <= j < i ==> member_attr_post(
                        (#[trigger] members@[j]).0@,
                        members@[j].1,
                        attrs@[j],
                        Handle { id: (base_len + loads_before(members@, j)) as usize },
                    ),
                forall|j: int|
                    0 <= j < i ==> match (#[trigger] members@[j]).1 {
                        Expr::AssetPath(p) => members@[j].0@ == "background_image"@
                            ==> lc.requests@[(base_len + loads_before(members@, j)) as int]@
                            == p@,
                        _ => true,
                    },
            decreases members@.len() - i,
        {
            let key = &members[i].0;
            let value = &members[i].1;
            proof {
                lemma_loads_before_bound(members@, i as int);
                assert(loads_before(members@, i + 1) == loads_before(members@, i as int) + (
                if members@[i as int].0@ == "background_image"@ && members@[i as int].1
                    is AssetPath {
                    1nat
                } else {
                    0nat
                }));
            }
            if str_eq(key.as_str(), "background_image") {
            match value {
                Expr::AssetPath(p) => {
                    let ghost pre = lc.requests@;
                    let path = p.clone();
                    let handle = lc.load(p.clone());
                    proof {
                        assert forall|j: int| 0 <= j <= i implies match (#[trigger] members@[j]).1 {
                            Expr::AssetPath(q) => members@[j].0@ == "background_image"@
                                ==> lc.requests@[(base_len + loads_before(members@, j)) as int]@
                                == q@,
                            _ => true,
                        } by {
                            if j < i {
                                if members@[j].0@ == "background_image"@ && members@[j].1
                                    is AssetPath {
                                    lemma_loads_before_mono(members@, j + 1, i as int);
                                    assert(lc.requests@[(base_len + loads_before(members@, j))
                                        as int] == pre[(base_len + loads_before(members@, j))
                                        as int]);
                                }
                            } else {
                                assert(lc.requests@[(base_len + loads_before(members@, j)) as int]
                                    == *p);
                            }
                        }
                    }
                    attrs.push(
                        StyleAttr::BackgroundImage(
                            Option::Some(
                                ImageRef { asset: AssetRef::new(path.as_str()), handle },
                            ),
                        ),
                    );
                },
                Expr::Null => {
                    attrs.push(StyleAttr::BackgroundImage(Option::None));
                },
                Expr::Ident(s) => {
                    if str_eq(s.as_str(), "none") {
                        attrs.push(StyleAttr::BackgroundImage(Option::None));
                    } else {
                        return Result::Err(GuiseError::InvalidAttributeValue(s.clone()));
                    }
                },
                _ => {
                    return Result::Err(
                        GuiseError::InvalidAttributeValue(String::from_str("background_image")),
                    );
                },
            }
        } else if str_eq(key.as_str(), "flex_direction") {
            match value.into_flex_direction() {
                Option::Some(d) => {
                    attrs.push(StyleAttr::FlexDirection(d));
                },
                Option::None => {
                    return Result::Err(
                        match value {
                            Expr::Ident(s) => GuiseError::InvalidAttributeValue(s.clone()),
                            _ => GuiseError::InvalidAttributeValue(key.clone()),
                        },
                    );
                },
            }
        } else if str_eq(key.as_str(), "flex_wrap") {
            match value.into_flex_wrap() {
                Option::Some(w) => {
                    attrs.push(StyleAttr::FlexWrap(w));
                },
                Option::None => {
                    return Result::Err(
                        match value {
                            Expr::Ident(s) => GuiseError::InvalidAttributeValue(s.clone()),
                            _ => GuiseError::InvalidAttributeValue(key.clone()),
                        },
                    );
                },
            }
        } else if str_eq(key.as_str(), "background_color") {
            attrs.push(StyleAttr::BackgroundColor(TypedExpr::from_expr(value.dup())));
        } else if str_eq(key.as_str(), "border_color") {
            attrs.push(StyleAttr::BorderColor(TypedExpr::from_expr(value.dup())));
        } else if str_eq(key.as_str(), "color") {
            attrs.push(StyleAttr::Color(TypedExpr::from_expr(value.dup())));
        } else if str_eq(key.as_str(), "z_index") {
            attrs.push(StyleAttr::ZIndex(TypedExpr::from_expr(value.dup())));
        } else if str_eq(key.as_str(), "display") {
            attrs.push(StyleAttr::Display(TypedExpr::from_expr(value.dup())));
        } else if str_eq(key.as_str(), "position") {
            attrs.push(StyleAttr::Position(TypedExpr::from_expr(value.dup())));
        } else if str_eq(key.as_str(), "overflow_x") {
            attrs.push(StyleAttr::OverflowX(TypedExpr::from_expr(value.dup())));
        } else if str_eq(key.as_str(), "overflow_y") {
            attrs.push(StyleAttr::OverflowY(TypedExpr::from_expr(value.dup())));
        } else if str_eq(key.as_str(), "overflow") {
            attrs.push(StyleAttr::Overflow(TypedExpr::from_expr(value.dup())));
        } else if str_eq(key.as_str(), "direction") {
            attrs.push(StyleAttr::Direction(TypedExpr::from_expr(value.dup())));
        } else if str_eq(key.as_str(), "left") {
            attrs.push(StyleAttr::Left(TypedExpr::from_expr(value.dup())));
        } else if str_eq(key.as_str(), "right") {
            attrs.push(StyleAttr::Right(TypedExpr::from_expr(value.dup())));
        } else if str_eq(key.as_str(), "top") {
            attrs.push(StyleAttr::Top(TypedExpr::from_expr(value.dup())));
        } else if str_eq(key.as_str(), "bottom") {
            attrs.push(StyleAttr::Bottom(TypedExpr::from_expr(value.dup())));
        } else if str_eq(key.as_str(), "width") {
            attrs.push(StyleAttr::Width(TypedExpr::from_expr(value.dup())));
        } else if str_eq(key.as_str(), "height") {
            attrs.push(StyleAttr::Height(TypedExpr::from_expr(value.dup())));
        } else if str_eq(key.as_str(), "min_width") {
            attrs.push(StyleAttr::MinWidth(TypedExpr::from_expr(value.dup())));
        } else if str_eq(key.as_str(), "min_height") {
            attrs.push(StyleAttr::MinHeight(TypedExpr::from_expr(value.dup())));
        } else if str_eq(key.as_str(), "max_width") {
            attrs.push(StyleAttr::MaxWidth(TypedExpr::from_expr(value.dup())));
        } else if str_eq(key.as_str(), "max_height") {
            attrs.push(StyleAttr::MaxHeight(TypedExpr::from_expr(value.dup())));
        } else if str_eq(key.as_str(), "margin") {
            attrs.push(StyleAttr::Margin(TypedExpr::from_expr(value.dup())));
        } else if str_eq(key.as_str(), "margin_left") {
            attrs.push(StyleAttr::MarginLeft(TypedExpr::from_expr(value.dup())));
        } else if str_eq(key.as_str(), "margin_right") {
            attrs.push(StyleAttr::MarginRight(TypedExpr::from_expr(value.dup())));
        } else if str_eq(key.as_str(), "margin_top") {
            attrs.push(StyleAttr::MarginTop(TypedExpr::from_expr(value.dup())));
        } else if str_eq(key.as_str(), "margin_bottom") {
            attrs.push(StyleAttr::MarginBottom(TypedExpr::from_expr(value.dup())));
        } else if str_eq(key.as_str(), "padding") {
            attrs.push(StyleAttr::Padding(TypedExpr::from_expr(value.dup())));
        } else if str_eq(key.as_str(), "padding_left") {
            attrs.push(StyleAttr::PaddingLeft(TypedExpr::from_expr(value.dup())));
        } else if str_eq(key.as_str(), "padding_right") {
            attrs.push(StyleAttr::PaddingRight(TypedExpr::from_expr(value.dup())));
        } else if str_eq(key.as_str(), "padding_top") {
            attrs.push(StyleAttr::PaddingTop(TypedExpr::from_expr(value.dup())));
        } else if str_eq(key.as_str(), "padding_bottom") {
            attrs.push(StyleAttr::PaddingBottom(TypedExpr::from_expr(value.dup())));
        } else if str_eq(key.as_str(), "border") {
            attrs.push(StyleAttr::Border(TypedExpr::from_expr(value.dup())));
        } else if str_eq(key.as_str(), "border_left") {
            attrs.push(StyleAttr::BorderLeft(TypedExpr::from_expr(value.dup())));
        } else if str_eq(key.as_str(), "border_right") {
            attrs.push(StyleAttr::BorderRight(TypedExpr::from_expr(value.dup())));
        } else if str_eq(key.as_str(), "border_top") {
            attrs.push(StyleAttr::BorderTop(TypedExpr::from_expr(value.dup())));
        } else if str_eq(key.as_str(), "border_bottom") {
            attrs.push(StyleAttr::BorderBottom(TypedExpr::from_expr(value.dup())));
        } else if str_eq(key.as_str(), "flex_grow") {
            attrs.push(StyleAttr::FlexGrow(TypedExpr::from_expr(value.dup())));
        } else if str_eq(key.as_str(), "flex_shrink") {
            attrs.push(StyleAttr::FlexShrink(TypedExpr::from_expr(value.dup())));
        } else if str_eq(key.as_str(), "flex_basis") {
            attrs.push(StyleAttr::FlexBasis(TypedExpr::from_expr(value.dup())));
        } else if str_eq(key.as_str(), "row_gap") {
            attrs.push(StyleAttr::RowGap(TypedExpr::from_expr(value.dup())));
        } else if str_eq(key.as_str(), "column_gap") {
            attrs.push(StyleAttr::ColumnGap(TypedExpr::from_expr(value.dup())));
        } else if str_eq(key.as_str(), "gap") {
            attrs.push(StyleAttr::Gap(TypedExpr::from_expr(value.dup())));
        } else if str_eq(key.as_str(), "align_items") {
            attrs.push(StyleAttr::AlignItems(TypedExpr::from_expr(value.dup())));
        } else if str_eq(key.as_str(), "align_self") {
            attrs.push(StyleAttr::AlignSelf(TypedExpr::from_expr(value.dup())));
        } else if str_eq(key.as_str(), "align_content") {
            attrs.push(StyleAttr::AlignContent(TypedExpr::from_expr(value.dup())));
        } else if str_eq(key.as_str(), "justify_items") {
            attrs.push(StyleAttr::JustifyItems(TypedExpr::from_expr(value.dup())));
        } else if str_eq(key.as_str(), "justify_self") {
            attrs.push(StyleAttr::JustifySelf(TypedExpr::from_expr(value.dup())));
        } else if str_eq(key.as_str(), "justify_content") {
            attrs.push(StyleAttr::JustifyContent(TypedExpr::from_expr(value.dup())));
        } else {
            return Result::Err(GuiseError::InvalidProperty(key.clone()));
        }
            i = i + 1;
        }
        Result::Ok(Expr::Style(Arc::new(ElementStyle { attrs })))
    }
}

/// The last foreground-color write a sequence of attributes makes, if
/// any: the value of the last `Color` attribute whose expression
/// evaluates.
pub open spec fn last_color(attrs: Seq<StyleAttr>) -> Option<Option<ColorValue>>
    decreases attrs.len(),
{
    if attrs.len() == 0 {
        Option::None
    } else {
        match attrs.last() {
            StyleAttr::Color(e) => match e.eval_spec() {
                Option::Some(v) => Option::Some(v),
                Option::None => last_color(attrs.drop_last()),
            },
            _ => last_color(attrs.drop_last()),
        }
    }
}

/// Every attribute but a successfully evaluating `Color` leaves the
/// color field alone.
#[verifier::spinoff_prover]
#[verifier::rlimit(100)]
pub proof fn lemma_color_frame(a: StyleAttr, c: ComputedStyle)
    ensures
        a.apply_spec(c).color == (match a {
            StyleAttr::Color(e) => match e.eval_spec() {
                Option::Some(v) => v,
                Option::None => c.color,
            },
            _ => c.color,
        }),
{
}

/// The color of a cascade's result is the last color the attribute list
/// writes, or the starting color when it writes none.
pub proof fn lemma_last_color_apply(c: ComputedStyle, attrs: Seq<StyleAttr>)
    ensures
        apply_seq(c, attrs).color == match last_color(attrs) {
            Option::Some(v) => v,
            Option::None => c.color,
        },
    decreases attrs.len(),
{
    if attrs.len() > 0 {
        let s = attrs.drop_last();
        let a = attrs.last();
        assert(attrs =~= s.push(a));
        lemma_apply_seq_push(c, s, a);
        lemma_last_color_apply(c, s);
        lemma_color_frame(a, apply_seq(c, s));
    }
}

/// Inline style outranks stylesheet style: when the inline attribute
/// list writes a color, the merged result carries that color, whatever
/// the stylesheet attributes contain.
pub proof fn lemma_inline_precedence(
    c: ComputedStyle,
    sheet: Seq<StyleAttr>,
    inline: Seq<StyleAttr>,
    v: Option<ColorValue>,
)
    requires
        last_color(inline) == Option::Some(v),
    ensures
        apply_seq(apply_seq(c, sheet), inline).color == v,
{
    lemma_last_color_apply(apply_seq(c, sheet), inline);
}

/// A later single-axis override wins on its axis while the earlier
/// composite keeps the other: applying `overflow` then `overflow-x`
/// yields the specific value on the horizontal axis and the composite
/// value on the vertical one.
#[verifier::spinoff_prover]
#[verifier::rlimit(100)]
pub proof fn lemma_composite_then_specific(
    c: ComputedStyle,
    both: TypedExpr<OverflowAxis>,
    x_only: TypedExpr<OverflowAxis>,
    vb: OverflowAxis,
    vx: OverflowAxis,
)
    requires
        both.eval_spec() == Option::Some(vb),
        x_only.eval_spec() == Option::Some(vx),
    ensures
        apply_seq(
            c,
            seq![StyleAttr::Overflow(both), StyleAttr::OverflowX(x_only)],
        ).style.overflow == (Overflow { x: vx, y: vb }),
{
    let s = seq![StyleAttr::Overflow(both), StyleAttr::OverflowX(x_only)];
    let c1 = StyleAttr::Overflow(both).apply_spec(c);
    let c2 = StyleAttr::OverflowX(x_only).apply_spec(c1);
    assert(c1.style.overflow == (Overflow { x: vb, y: vb }));
    assert(c2.style.overflow == (Overflow { x: vx, y: vb }));
    assert(s.drop_first() =~= seq![StyleAttr::OverflowX(x_only)]);
    assert(s.drop_first().drop_first() =~= Seq::<StyleAttr>::empty());
    assert(apply_seq(c, s) == apply_seq(c1, s.drop_first()));
    assert(apply_seq(c1, s.drop_first()) == apply_seq(c2, s.drop_first().drop_first()));
    assert(apply_seq(c2, s.drop_first().drop_first()) == c2);
}

/// A later color attribute overwrites exactly the color field: the rest
/// of the computed style is whatever the earlier attributes produced.
pub proof fn lemma_color_override(
    c: ComputedStyle,
    attrs: Seq<StyleAttr>,
    e: TypedExpr<Option<ColorValue>>,
    v: Option<ColorValue>,
)
    requires
        e.eval_spec() == Option::Some(v),
    ensures
        apply_seq(c, attrs.push(StyleAttr::Color(e))) == (ComputedStyle {
            color: v,
            ..apply_seq(c, attrs)
        }),
{
    lemma_apply_seq_push(c, attrs, StyleAttr::Color(e));
}

} // verus!
