//! The document loader: load-time reference resolution and labeled
//! publication of a document's style sheets and templates.
//!
//! A document holds named style sheets and named templates. Once the
//! outer container is decoded into [`AssetSerial`], the loader anchors
//! every relative reference to the document's own path, requests a
//! handle for each, and publishes every sheet and template as an
//! independently addressable labeled asset (`styles/<name>`,
//! `templates/<name>`).

use vstd::prelude::*;

use crate::element_style::{style_resolved, ElementStyle};
use crate::handle::LoadContext;
use crate::path::resolve_ref;
use crate::template::{
    handle_resolves, inline_resolved, lemma_node_resolved_grows, node_resolved, Call, Element,
    TemplateAsset, TemplateNode,
};
use crate::text::push_char;

verus! {

/// The decoded form of a document: named style sheets and named
/// templates, in document order, with unique names.
pub struct AssetSerial {
    /// The named style sheets.
    pub styles: Vec<(String, ElementStyle)>,
    /// The named templates.
    pub templates: Vec<(String, TemplateAsset)>,
}

/// Loads styling documents: resolves their references and publishes
/// their style sheets and templates as labeled assets.
pub struct GuiseTemplatesLoader;

/// The label under which a named entry is published: the prefix, then
/// the entry's name.
pub open spec fn label_of(prefix: Seq<char>, key: Seq<char>) -> Seq<char> {
    prefix + key
}

/// The base path a labeled entry is resolved against: the document's
/// path, a `#`, and the label.
pub open spec fn labeled_base(doc: Seq<char>, label: Seq<char>) -> Seq<char> {
    doc + "#"@ + label
}

/// Concatenates a prefix, a key and nothing else.
fn concat_label(prefix: &str, key: &str) -> (r: String)
    ensures
        r@ == label_of(prefix@, key@),
{
    let mut s = prefix.to_owned();
    s.append(key);
    s
}

/// Builds the base path for a labeled entry.
fn concat_base(doc: &str, label: &str) -> (r: String)
    ensures
        r@ == labeled_base(doc@, label@),
{
    let mut s = doc.to_owned();
    push_char(&mut s, '#');
    s.append(label);
    proof {
        reveal_strlit("#");
        assert(s@ =~= doc@ + "#"@ + label@);
    }
    s
}

impl GuiseTemplatesLoader {
    /// Anchors every asset reference inside a style sheet to `base`.
    pub fn visit_stylesheet(&self, style: &mut ElementStyle, base: &str)
        ensures
            style_resolved(*old(style), *final(style), base@),
    {
        style.resolve_asset_paths(base);
    }

    /// Rebuilds a template node with every style-sheet, sub-template and
    /// image reference anchored to `base` and a handle requested for it.
    /// Text leaves pass through unchanged. The request log only grows:
    /// earlier requests are never disturbed.
    pub fn visit_template_node(&self, node: TemplateNode, lc: &mut LoadContext, base: &str) -> (r:
        TemplateNode)
        ensures
            node_resolved(node, r, base@, final(lc).requests@),
            final(lc).path == old(lc).path,
            final(lc).requests@.len() >= old(lc).requests@.len(),
            forall|j: int|
                0 <= j < old(lc).requests@.len() ==> final(lc).requests@[j] == old(
                    lc,
                ).requests@[j],
        decreases node, 1int,
    {
        match node {
            TemplateNode::Text(s) => TemplateNode::Text(s),
            TemplateNode::Fragment(ks) => {
                let out = self.visit_children(ks, lc, base, Ghost(node));
                TemplateNode::Fragment(out)
            },
            TemplateNode::Element(e) => {
                let Element {
                    styleset,
                    styleset_handles: _,
                    inline_style,
                    id,
                    controller,
                    attrs,
                    children,
                } = e;
                let mut handles: Vec<crate::handle::Handle> = Vec::new();
                let mut i: usize = 0;
                while i < styleset.len()
                    invariant
                        i <= styleset@.len(),
                        handles@.len() == i,
                        lc.path == old(lc).path,
                        lc.requests@.len() >= old(lc).requests@.len(),
                        forall|j: int|
                            0 <= j < old(lc).requests@.len() ==> lc.requests@[j] == old(
                                lc,
                            ).requests@[j],
                        forall|j: int|
                            0 <= j < i ==> handle_resolves(
                                #[trigger] handles@[j],
                                styleset@[j]@,
                                base@,
                                lc.requests@,
                            ),
                    decreases styleset@.len() - i,
                {
                    let resolved = crate::path::relative_asset_path(
                        base,
                        styleset[i].as_str(),
                    );
                    let h = lc.load(resolved);
                    handles.push(h);
                    i = i + 1;
                }
                let inline2 = match inline_style {
                    Option::Some(mut s) => {
                        s.resolve_asset_paths(base);
                        Option::Some(s)
                    },
                    Option::None => Option::None,
                };
                let out = self.visit_children(children, lc, base, Ghost(node));
                proof {
                    assert forall|j: int| 0 <= j < styleset@.len() implies handle_resolves(
                        #[trigger] handles@[j],
                        styleset@[j]@,
                        base@,
                        lc.requests@,
                    ) by {}
                }
                TemplateNode::Element(
                    Element {
                        styleset,
                        styleset_handles: handles,
                        inline_style: inline2,
                        id,
                        controller,
                        attrs,
                        children: out,
                    },
                )
            },
            TemplateNode::Call(c) => {
                let Call { inline_style, template, template_handle: _, params } = c;
                let inline2 = match inline_style {
                    Option::Some(mut s) => {
                        s.resolve_asset_paths(base);
                        Option::Some(s)
                    },
                    Option::None => Option::None,
                };
                let resolved = crate::path::relative_asset_path(base, template.as_str());
                let h = lc.load(resolved);
                TemplateNode::Call(
                    Call {
                        inline_style: inline2,
                        template,
                        template_handle: Option::Some(h),
                        params,
                    },
                )
            },
        }
    }

    /// Rebuilds a list of child nodes; `parent` is the node the children
    /// came from, which bounds the recursion.
    fn visit_children(
        &self,
        ks: Vec<TemplateNode>,
        lc: &mut LoadContext,
        base: &str,
        parent: Ghost<TemplateNode>,
    ) -> (out: Vec<TemplateNode>)
        requires
            (parent@ matches TemplateNode::Fragment(v) && v@ == ks@) || (parent@
                matches TemplateNode::Element(e) && e.children@ == ks@),
        ensures
            out@.len() == ks@.len(),
            forall|i: int|
                0 <= i < ks@.len() ==> node_resolved(
                    #[trigger] ks@[i],
                    out@[i],
                    base@,
                    final(lc).requests@,
                ),
            final(lc).path == old(lc).path,
            final(lc).requests@.len() >= old(lc).requests@.len(),
            forall|j: int|
                0 <= j < old(lc).requests@.len() ==> final(lc).requests@[j] == old(
                    lc,
                ).requests@[j],
        decreases parent@, 0int,
    {
        let ghost orig = ks@;
        let mut rest = ks;
        let mut out: Vec<TemplateNode> = Vec::new();
        let mut i: usize = 0;
        while rest.len() > 0
            invariant
                (parent@ matches TemplateNode::Fragment(v) && v@ == orig) || (parent@
                    matches TemplateNode::Element(e) && e.children@ == orig),
                i + rest@.len() == orig.len(),
                out@.len() == i,
                rest@ == orig.skip(i as int),
                lc.path == old(lc).path,
                lc.requests@.len() >= old(lc).requests@.len(),
                forall|j: int|
                    0 <= j < old(lc).requests@.len() ==> lc.requests@[j] == old(
                        lc,
                    ).requests@[j],
                forall|j: int|
                    0 <= j < i ==> node_resolved(
                        #[trigger] orig[j],
                        out@[j],
                        base@,
                        lc.requests@,
                    ),
            decreases rest@.len(),
        {
            let ghost reqs_before = lc.requests@;
            let child = rest.remove(0);
            proof {
                assert(child == orig[i as int]);
                assert(rest@ =~= orig.skip(i + 1));
                if parent@ matches TemplateNode::Fragment(v) {
                    assert(decreases_to!(parent@ => parent@->Fragment_0@[i as int]));
                    assert(child == parent@->Fragment_0@[i as int]);
                } else {
                    let e = parent@->Element_0;
                    assert(decreases_to!(parent@ => parent@->Element_0.children@[i as int]));
                    assert(child == parent@->Element_0.children@[i as int]);
                }
            }
            let resolved = self.visit_template_node(child, lc, base);
            proof {
                assert forall|j: int| 0 <= j < i implies node_resolved(
                    #[trigger] orig[j],
                    out@[j],
                    base@,
                    lc.requests@,
                ) by {
                    lemma_node_resolved_grows(orig[j], out@[j], base@, reqs_before, lc.requests@);
                }
            }
            out.push(resolved);
            i = out.len();
        }
        proof {
            assert(orig.skip(orig.len() as int).len() == 0);
            assert forall|k: int| 0 <= k < orig.len() implies node_resolved(
                #[trigger] orig[k],
                out@[k],
                base@,
                lc.requests@,
            ) by {}
        }
        out
    }

    /// Resolves a decoded document against the loading context's path
    /// and publishes each style sheet and template under its label.
    /// Style sheets are labeled `styles/<name>`, templates
    /// `templates/<name>`, and each is resolved against the document
    /// path carrying its own label.
    pub fn load_entries(&self, entries: AssetSerial, lc: &mut LoadContext) -> (out: (
        Vec<(String, ElementStyle)>,
        Vec<(String, TemplateAsset)>,
    ))
        ensures
            out.0@.len() == entries.styles@.len(),
            forall|i: int|
                0 <= i < entries.styles@.len() ==> {
                    let key = (#[trigger] entries.styles@[i]).0@;
                    let label = label_of("styles/"@, key);
                    &&& out.0@[i].0@ == label
                    &&& style_resolved(
                        entries.styles@[i].1,
                        out.0@[i].1,
                        labeled_base(old(lc).path@, label),
                    )
                },
            out.1@.len() == entries.templates@.len(),
            forall|i: int|
                0 <= i < entries.templates@.len() ==> {
                    let key = (#[trigger] entries.templates@[i]).0@;
                    let label = label_of("templates/"@, key);
                    &&& out.1@[i].0@ == label
                    &&& match (entries.templates@[i].1.content, out.1@[i].1.content) {
                        (Option::Some(c), Option::Some(c2)) => node_resolved(
                            c,
                            c2,
                            labeled_base(old(lc).path@, label),
                            final(lc).requests@,
                        ),
                        (Option::None, Option::None) => true,
                        _ => false,
                    }
                },
            final(lc).path == old(lc).path,
            forall|j: int|
                0 <= j < old(lc).requests@.len() ==> final(lc).requests@[j] == old(
                    lc,
                ).requests@[j],
            final(lc).requests@.len() >= old(lc).requests@.len(),
    {
        let AssetSerial { styles, templates } = entries;
        let ghost styles0 = styles@;
        let ghost templates0 = templates@;
        let mut styles = styles;
        let mut out_styles: Vec<(String, ElementStyle)> = Vec::new();
        let mut i: usize = 0;
        while styles.len() > 0
            invariant
                i + styles@.len() == styles0.len(),
                styles@ == styles0.skip(i as int),
                out_styles@.len() == i,
                lc.path == old(lc).path,
                lc.requests@.len() >= old(lc).requests@.len(),
                forall|j: int|
                    0 <= j < old(lc).requests@.len() ==> lc.requests@[j] == old(
                        lc,
                    ).requests@[j],
                forall|j: int|
                    0 <= j < i ==> {
                        let key = (#[trigger] styles0[j]).0@;
                        let label = label_of("styles/"@, key);
                        &&& out_styles@[j].0@ == label
                        &&& style_resolved(
                            styles0[j].1,
                            out_styles@[j].1,
                            labeled_base(old(lc).path@, label),
                        )
                    },
            decreases styles@.len(),
        {
            let (key, mut style) = styles.remove(0);
            proof {
                assert((key, style) == styles0[i as int]);
                assert(styles@ =~= styles0.skip(i + 1));
            }
            let label = concat_label("styles/", key.as_str());
            let base = concat_base(lc.path.clone().as_str(), label.as_str());
            self.visit_stylesheet(&mut style, base.as_str());
            out_styles.push((label, style));
            i = out_styles.len();
        }
        let mut templates = templates;
        let mut out_templates: Vec<(String, TemplateAsset)> = Vec::new();
        let mut k: usize = 0;
        while templates.len() > 0
            invariant
                k + templates@.len() == templates0.len(),
                templates@ == templates0.skip(k as int),
                out_templates@.len() == k,
                lc.path == old(lc).path,
                lc.requests@.len() >= old(lc).requests@.len(),
                forall|j: int|
                    0 <= j < old(lc).requests@.len() ==> lc.requests@[j] == old(
                        lc,
                    ).requests@[j],
                forall|j: int|
                    0 <= j < k ==> {
                        let key = (#[trigger] templates0[j]).0@;
                        let label = label_of("templates/"@, key);
                        &&& out_templates@[j].0@ == label
                        &&& match (templates0[j].1.content, out_templates@[j].1.content) {
                            (Option::Some(c), Option::Some(c2)) => node_resolved(
                                c,
                                c2,
                                labeled_base(old(lc).path@, label),
                                lc.requests@,
                            ),
                            (Option::None, Option::None) => true,
                            _ => false,
                        }
                    },
            decreases templates@.len(),
        {
            let ghost reqs_before = lc.requests@;
            let (key, tpl) = templates.remove(0);
            proof {
                assert((key, tpl) == templates0[k as int]);
                assert(templates@ =~= templates0.skip(k + 1));
            }
            let label = concat_label("templates/", key.as_str());
            let base = concat_base(lc.path.clone().as_str(), label.as_str());
            let content2 = match tpl.content {
                Option::Some(c) => Option::Some(
                    self.visit_template_node(c, lc, base.as_str()),
                ),
                Option::None => Option::None,
            };
            proof {
                assert forall|j: int|
                    0 <= j < k && (#[trigger] templates0[j]).1.content is Some implies match (
                    templates0[j].1.content,
                    out_templates@[j].1.content,
                ) {
                    (Option::Some(c), Option::Some(c2)) => node_resolved(
                        c,
                        c2,
                        labeled_base(old(lc).path@, label_of("templates/"@, templates0[j].0@)),
                        lc.requests@,
                    ),
                    _ => true,
                } by {
                    if out_templates@[j].1.content is Some {
                        lemma_node_resolved_grows(
                            templates0[j].1.content->0,
                            out_templates@[j].1.content->0,
                            labeled_base(old(lc).path@, label_of("templates/"@, templates0[j].0@)),
                            reqs_before,
                            lc.requests@,
                        );
                    }
                }
            }
            out_templates.push((label, TemplateAsset { content: content2 }));
            k = out_templates.len();
        }
        (out_styles, out_templates)
    }

    /// The file-name extension convention of styling documents.
    pub fn extensions(&self) -> (r: &'static str)
        ensures
            r@ == "guise.json"@,
    {
        "guise.json"
    }
}

} // verus!
