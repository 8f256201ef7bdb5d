//! Style computation for a view element: the cascade order.
//!
//! A view element lists the style sheets that apply to it, in priority
//! order, and optionally carries an inline style. Computing its style
//! applies every loaded sheet in listed order and the inline style last,
//! so the inline style outranks every sheet, and later sheets outrank
//! earlier ones — field by field.

use vstd::prelude::*;

use crate::computed::ComputedStyle;
use crate::element_style::{apply_seq, ElementStyle};
use crate::handle::Handle;

verus! {

/// A view element: the style sheets that apply to it, by handle, and
/// its inline style.
pub struct ViewElement {
    /// Handles of the applicable style sheets, in priority order.
    pub styleset_handles: Vec<Handle>,
    /// The inline style, applied last.
    pub inline_style: Option<ElementStyle>,
}

/// The loaded style sheets, indexed by handle id; a sheet that has not
/// arrived yet is absent.
pub struct StyleAssets {
    /// One slot per issued handle.
    pub entries: Vec<Option<ElementStyle>>,
}

impl StyleAssets {
    /// The sheet a handle refers to, when it is loaded.
    pub open spec fn lookup(self, h: Handle) -> Option<ElementStyle> {
        if h.id < self.entries@.len() {
            self.entries@[h.id as int]
        } else {
            Option::None
        }
    }

    /// Fetches the sheet a handle refers to; an unknown or unloaded
    /// handle yields nothing.
    pub fn get(&self, h: &Handle) -> (r: Option<&ElementStyle>)
        ensures
            match r {
                Option::Some(s) => self.lookup(*h) == Option::Some(*s),
                Option::None => self.lookup(*h) is None,
            },
    {
        if h.id < self.entries.len() {
            match &self.entries[h.id] {
                Option::Some(s) => Option::Some(s),
                Option::None => Option::None,
            }
        } else {
            Option::None
        }
    }
}

/// The computed style after applying the listed sheets in order; a
/// missing sheet is skipped.
pub open spec fn apply_sheets(
    c: ComputedStyle,
    handles: Seq<Handle>,
    assets: StyleAssets,
) -> ComputedStyle
    decreases handles.len(),
{
    if handles.len() == 0 {
        c
    } else {
        let c1 = match assets.lookup(handles[0]) {
            Option::Some(s) => apply_seq(c, s.attrs_spec()),
            Option::None => c,
        };
        apply_sheets(c1, handles.drop_first(), assets)
    }
}

/// One more sheet applies on top of the prior result.
pub proof fn lemma_apply_sheets_push(
    c: ComputedStyle,
    handles: Seq<Handle>,
    h: Handle,
    assets: StyleAssets,
)
    ensures
        apply_sheets(c, handles.push(h), assets) == (match assets.lookup(h) {
            Option::Some(s) => apply_seq(apply_sheets(c, handles, assets), s.attrs_spec()),
            Option::None => apply_sheets(c, handles, assets),
        }),
    decreases handles.len(),
{
    let p = handles.push(h);
    if handles.len() == 0 {
        assert(p[0] == h);
        assert(p.drop_first() =~= Seq::<Handle>::empty());
        let ch = match assets.lookup(h) {
            Option::Some(s) => apply_seq(c, s.attrs_spec()),
            Option::None => c,
        };
        assert(apply_sheets(c, p, assets) == apply_sheets(ch, p.drop_first(), assets));
        assert(apply_sheets(ch, p.drop_first(), assets) == ch);
        assert(apply_sheets(c, handles, assets) == c);
    } else {
        let c1 = match assets.lookup(handles[0]) {
            Option::Some(s) => apply_seq(c, s.attrs_spec()),
            Option::None => c,
        };
        lemma_apply_sheets_push(c1, handles.drop_first(), h, assets);
        assert(p[0] == handles[0]);
        assert(p.drop_first() =~= handles.drop_first().push(h));
        assert(apply_sheets(c, p, assets) == apply_sheets(c1, p.drop_first(), assets));
        assert(apply_sheets(c, handles, assets) == apply_sheets(
            c1,
            handles.drop_first(),
            assets,
        ));
    }
}

/// The merged style of a view element: every applicable loaded sheet in
/// listed order, then the inline style.
pub open spec fn compute_style_spec(
    c: ComputedStyle,
    view: ViewElement,
    assets: StyleAssets,
) -> ComputedStyle {
    let sheeted = apply_sheets(c, view.styleset_handles@, assets);
    match view.inline_style {
        Option::Some(s) => apply_seq(sheeted, s.attrs_spec()),
        Option::None => sheeted,
    }
}

/// Merges a view element's sheets and inline style into a computed
/// style: sheets in listed order first, the inline style last, so the
/// inline style wins on every field it sets.
pub fn compute_style(computed: &mut ComputedStyle, view: &ViewElement, assets: &StyleAssets)
    ensures
        *final(computed) == compute_style_spec(*old(computed), *view, *assets),
{
    let ghost c0 = *computed;
    let mut i: usize = 0;
    while i < view.styleset_handles.len()
        invariant
            i <= view.styleset_handles@.len(),
            *computed == apply_sheets(c0, view.styleset_handles@.take(i as int), *assets),
        decreases view.styleset_handles@.len() - i,
    {
        proof {
            assert(view.styleset_handles@.take(i + 1) =~= view.styleset_handles@.take(
                i as int,
            ).push(view.styleset_handles@[i as int]));
            lemma_apply_sheets_push(
                c0,
                view.styleset_handles@.take(i as int),
                view.styleset_handles@[i as int],
                *assets,
            );
        }
        let h = view.styleset_handles[i];
        match assets.get(&h) {
            Option::Some(style) => {
                style.apply_to(computed);
            },
            Option::None => {},
        }
        i = i + 1;
    }
    proof {
        assert(view.styleset_handles@.take(view.styleset_handles@.len() as int)
            =~= view.styleset_handles@);
    }
    match &view.inline_style {
        Option::Some(style) => {
            style.apply_to(computed);
        },
        Option::None => {},
    }
}

} // verus!
