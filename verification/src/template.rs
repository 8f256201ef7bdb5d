//! Template node trees and what the resolution pass guarantees of them.
//!
//! A template is a tree of elements, fragments, text leaves and
//! sub-template calls. Elements carry named style-sheet references and an
//! optional inline style; calls reference a sub-template by name. The
//! load-time resolution pass rebuilds the tree with every reference
//! anchored to the loading document's path and a handle requested for it.

use vstd::prelude::*;

use crate::element_style::{style_resolved, ElementStyle};
use crate::handle::Handle;
use crate::path::resolve_ref;

verus! {

/// An element node: style-sheet references, an optional inline style,
/// identification, plain attributes and children.
pub struct Element {
    /// Named style-sheet references, applied in the listed order.
    pub styleset: Vec<String>,
    /// One handle per style-sheet reference, filled by the resolution
    /// pass.
    pub styleset_handles: Vec<Handle>,
    /// The inline style, if any; it outranks the style sheets.
    pub inline_style: Option<ElementStyle>,
    /// The element's identifier, if any.
    pub id: Option<String>,
    /// The controller attached to the element, if any.
    pub controller: Option<String>,
    /// Plain, non-style attributes.
    pub attrs: Vec<(String, String)>,
    /// The child nodes, in document order.
    pub children: Vec<TemplateNode>,
}

/// A sub-template invocation.
pub struct Call {
    /// The inline style applied to the invocation, if any.
    pub inline_style: Option<ElementStyle>,
    /// The invoked template's reference as written.
    pub template: String,
    /// The handle of the invoked template, filled by the resolution
    /// pass.
    pub template_handle: Option<Handle>,
    /// Named parameters handed to the template.
    pub params: Vec<(String, Expr)>,
}

/// One node of a template tree.
pub enum TemplateNode {
    /// An element with children.
    Element(Element),
    /// A sequence of nodes with no element of its own.
    Fragment(Vec<TemplateNode>),
    /// A text leaf; it can hold no references.
    Text(String),
    /// A sub-template invocation.
    Call(Call),
}

use crate::expr::Expr;

/// A template as stored in a document: its content tree, when present.
pub struct TemplateAsset {
    /// The root of the template's node tree.
    pub content: Option<TemplateNode>,
}

/// Whether `h` is a handle into `reqs` for the reference `path` anchored
/// to `base`.
pub open spec fn handle_resolves(
    h: Handle,
    path: Seq<char>,
    base: Seq<char>,
    reqs: Seq<String>,
) -> bool {
    h.id < reqs.len() && reqs[h.id as int]@ == resolve_ref(base, path)
}

/// How an optional inline style reads after resolution.
pub open spec fn inline_resolved(
    a: Option<ElementStyle>,
    b: Option<ElementStyle>,
    base: Seq<char>,
) -> bool {
    match (a, b) {
        (Option::Some(s), Option::Some(s2)) => style_resolved(s, s2, base),
        (Option::None, Option::None) => true,
        _ => false,
    }
}

/// How a resolved node relates to the node it was built from: the same
/// shape and content, with every style-sheet, sub-template and image
/// reference anchored to `base` and carrying a handle into the request
/// log `reqs`.
pub open spec fn node_resolved(
    a: TemplateNode,
    b: TemplateNode,
    base: Seq<char>,
    reqs: Seq<String>,
) -> bool
    decreases a,
{
    match (a, b) {
        (TemplateNode::Element(e), TemplateNode::Element(e2)) => {
            &&& e2.styleset@ == e.styleset@
            &&& e2.styleset_handles@.len() == e.styleset@.len()
            &&& forall|i: int|
                0 <= i < e.styleset@.len() ==> handle_resolves(
                    #[trigger] e2.styleset_handles@[i],
                    e.styleset@[i]@,
                    base,
                    reqs,
                )
            &&& inline_resolved(e.inline_style, e2.inline_style, base)
            &&& e2.id == e.id
            &&& e2.controller == e.controller
            &&& e2.attrs@ == e.attrs@
            &&& e2.children@.len() == e.children@.len()
            &&& forall|i: int|
                0 <= i < e.children@.len() ==> node_resolved(
                    #[trigger] e.children@[i],
                    e2.children@[i],
                    base,
                    reqs,
                )
        },
        (TemplateNode::Fragment(ks), TemplateNode::Fragment(ks2)) => {
            &&& ks2@.len() == ks@.len()
            &&& forall|i: int|
                0 <= i < ks@.len() ==> node_resolved(#[trigger] ks@[i], ks2@[i], base, reqs)
        },
        (TemplateNode::Text(s), TemplateNode::Text(s2)) => s2 == s,
        (TemplateNode::Call(c), TemplateNode::Call(c2)) => {
            &&& inline_resolved(c.inline_style, c2.inline_style, base)
            &&& c2.template == c.template
            &&& c2.template_handle matches Option::Some(h) && handle_resolves(
                h,
                c.template@,
                base,
                reqs,
            )
            &&& c2.params@ == c.params@
        },
        _ => false,
    }
}

/// A resolved node stays resolved as the request log grows: handles
/// index fixed entries, and appends never disturb them.
pub proof fn lemma_node_resolved_grows(
    a: TemplateNode,
    b: TemplateNode,
    base: Seq<char>,
    reqs: Seq<String>,
    reqs2: Seq<String>,
)
    requires
        node_resolved(a, b, base, reqs),
        reqs2.len() >= reqs.len(),
        forall|j: int| 0 <= j < reqs.len() ==> reqs2[j] == reqs[j],
    ensures
        node_resolved(a, b, base, reqs2),
    decreases a,
{
    match (a, b) {
        (TemplateNode::Element(e), TemplateNode::Element(e2)) => {
            assert forall|i: int| 0 <= i < e.styleset@.len() implies handle_resolves(
                #[trigger] e2.styleset_handles@[i],
                e.styleset@[i]@,
                base,
                reqs2,
            ) by {
                assert(handle_resolves(e2.styleset_handles@[i], e.styleset@[i]@, base, reqs));
            }
            assert forall|i: int| 0 <= i < e.children@.len() implies node_resolved(
                #[trigger] e.children@[i],
                e2.children@[i],
                base,
                reqs2,
            ) by {
                lemma_node_resolved_grows(e.children@[i], e2.children@[i], base, reqs, reqs2);
            }
        },
        (TemplateNode::Fragment(ks), TemplateNode::Fragment(ks2)) => {
            assert forall|i: int| 0 <= i < ks@.len() implies node_resolved(
                #[trigger] ks@[i],
                ks2@[i],
                base,
                reqs2,
            ) by {
                lemma_node_resolved_grows(ks@[i], ks2@[i], base, reqs, reqs2);
            }
        },
        (TemplateNode::Text(_), TemplateNode::Text(_)) => {},
        (TemplateNode::Call(c), TemplateNode::Call(c2)) => {},
        _ => {},
    }
}

} // verus!
