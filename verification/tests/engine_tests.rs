use std::sync::Arc;

use guise::{
    compute_style, AssetSerial, Call, ColorValue, ComputedStyle, Element, ElementStyle, Expr,
    GuiseError, GuiseTemplatesLoader, Handle, LoadContext, OverflowAxis, StyleAssets, StyleAttr,
    TemplateAsset, TemplateNode, TypedExpr, Val, ViewElement,
};

fn color_attr(c: ColorValue) -> StyleAttr {
    StyleAttr::Color(TypedExpr::from_expr(Expr::Color(c)))
}

fn width_attr(v: Val) -> StyleAttr {
    StyleAttr::Width(TypedExpr::from_expr(Expr::Length(v)))
}

const RED: ColorValue = ColorValue::Rgba { red: 1000, green: 0, blue: 0, alpha: 1000 };
const BLUE: ColorValue = ColorValue::Rgba { red: 0, green: 0, blue: 1000, alpha: 1000 };

#[test]
fn cascade_is_field_granular() {
    // Applying [A] and then the override A' changes exactly the
    // overridden field of the result of [A].
    let mut base_style = ElementStyle::new();
    base_style.push(width_attr(Val::Px(10000)));
    base_style.push(color_attr(RED));

    let mut once = ComputedStyle::default();
    base_style.apply_to(&mut once);

    let mut overridden = ElementStyle::new();
    overridden.push(width_attr(Val::Px(10000)));
    overridden.push(color_attr(RED));
    overridden.push(width_attr(Val::Px(20000)));

    let mut twice = ComputedStyle::default();
    overridden.apply_to(&mut twice);

    let mut expected = once;
    expected.style.width = Val::Px(20000);
    assert_eq!(twice, expected);
    assert_eq!(twice.color, Some(RED));
}

#[test]
fn inline_style_outranks_stylesheets() {
    let mut sheet = ElementStyle::new();
    sheet.push(color_attr(RED));
    sheet.push(width_attr(Val::Px(5000)));

    let mut inline = ElementStyle::new();
    inline.push(color_attr(BLUE));

    let assets = StyleAssets { entries: vec![Some(sheet)] };
    let view = ViewElement {
        styleset_handles: vec![Handle { id: 0 }],
        inline_style: Some(inline),
    };
    let mut computed = ComputedStyle::default();
    compute_style(&mut computed, &view, &assets);
    assert_eq!(computed.color, Some(BLUE));
    assert_eq!(computed.style.width, Val::Px(5000));
}

#[test]
fn missing_stylesheet_is_skipped() {
    let view = ViewElement {
        styleset_handles: vec![Handle { id: 7 }],
        inline_style: None,
    };
    let assets = StyleAssets { entries: vec![] };
    let mut computed = ComputedStyle::default();
    compute_style(&mut computed, &view, &assets);
    assert_eq!(computed, ComputedStyle::default());
}

#[test]
fn composite_then_specific_override() {
    let both = StyleAttr::Overflow(TypedExpr::from_expr(Expr::Ident("clip".to_string())));
    let x_only = StyleAttr::OverflowX(TypedExpr::from_expr(Expr::Ident("visible".to_string())));
    let mut computed = ComputedStyle::default();
    both.apply(&mut computed);
    x_only.apply(&mut computed);
    assert_eq!(computed.style.overflow.x, OverflowAxis::Visible);
    assert_eq!(computed.style.overflow.y, OverflowAxis::Clip);
}

#[test]
fn mismatched_expression_is_skipped() {
    // A string where a color is expected leaves the field untouched.
    let bad = StyleAttr::Color(TypedExpr::from_expr(Expr::Ident("loud".to_string())));
    let mut computed = ComputedStyle::default();
    computed.color = Some(RED);
    bad.apply(&mut computed);
    assert_eq!(computed.color, Some(RED));
}

#[test]
fn flex_shorthand_expands() {
    let flex = StyleAttr::Flex(Expr::Number(2000));
    let mut computed = ComputedStyle::default();
    flex.apply(&mut computed);
    assert_eq!(computed.style.flex_grow, 2000);
    assert_eq!(computed.style.flex_shrink, 2000);
    assert_eq!(computed.style.flex_basis, Val::Auto);

    let listy = StyleAttr::Flex(Expr::List(vec![
        Expr::Number(1000),
        Expr::Number(3000),
        Expr::Length(Val::Px(4000)),
    ]));
    let mut c2 = ComputedStyle::default();
    listy.apply(&mut c2);
    assert_eq!(c2.style.flex_grow, 1000);
    assert_eq!(c2.style.flex_shrink, 3000);
    assert_eq!(c2.style.flex_basis, Val::Px(4000));
}

#[test]
fn path_resolution_anchors_relative_references() {
    assert_eq!(
        guise::path::relative_asset_path("ui/main.guise.json", "panel.css"),
        "ui/panel.css"
    );
    assert_eq!(
        guise::path::relative_asset_path("ui/main.guise.json", "./sub/panel.css"),
        "ui/sub/panel.css"
    );
    assert_eq!(
        guise::path::relative_asset_path("ui/main.guise.json", "../shared.css"),
        "shared.css"
    );
    // Absolute references pass through unchanged.
    assert_eq!(
        guise::path::relative_asset_path("ui/main.guise.json", "/already/anchored.css"),
        "/already/anchored.css"
    );
    // Label-only references keep the document path.
    assert_eq!(
        guise::path::relative_asset_path("ui/main.guise.json#templates/a", "#styles/base"),
        "ui/main.guise.json#styles/base"
    );
}

#[test]
fn structured_parser_rejects_unknown_keys() {
    let members = vec![("not_a_real_property".to_string(), Expr::Number(1000))];
    let mut lc = LoadContext::new("ui/doc.guise.json".to_string());
    let r = ElementStyle::from_ast(&members, &mut lc);
    assert_eq!(
        r.err(),
        Some(GuiseError::InvalidProperty("not_a_real_property".to_string()))
    );
}

#[test]
fn structured_parser_names_bad_enum_literal() {
    let members = vec![("flex_direction".to_string(), Expr::Ident("diagonal".to_string()))];
    let mut lc = LoadContext::new("ui/doc.guise.json".to_string());
    let r = ElementStyle::from_ast(&members, &mut lc);
    assert_eq!(
        r.err(),
        Some(GuiseError::InvalidAttributeValue("diagonal".to_string()))
    );
    assert!(lc.requests.is_empty());
}

#[test]
fn structured_parser_builds_attrs_and_requests_images() {
    let members = vec![
        ("background_image".to_string(), Expr::AssetPath("img/bg.png".to_string())),
        ("color".to_string(), Expr::Color(RED)),
        ("width".to_string(), Expr::Length(Val::Px(1000))),
        ("background_color".to_string(), Expr::Null),
    ];
    let mut lc = LoadContext::new("ui/doc.guise.json".to_string());
    let r = ElementStyle::from_ast(&members, &mut lc).unwrap();
    let style = match r {
        Expr::Style(s) => s,
        _ => panic!("expected a style expression"),
    };
    assert_eq!(lc.requests, vec!["img/bg.png".to_string()]);
    let mut computed = ComputedStyle::default();
    style.apply_to(&mut computed);
    assert_eq!(computed.image, Some(Handle { id: 0 }));
    assert_eq!(computed.color, Some(RED));
    assert_eq!(computed.style.width, Val::Px(1000));
    assert_eq!(computed.background_color, None);
}

#[test]
fn loader_resolves_and_labels_documents() {
    let mut sheet = ElementStyle::new();
    sheet.push(StyleAttr::BackgroundImage(Some(guise::ImageRef {
        asset: guise::AssetRef::new("img/bg.png"),
        handle: Handle { id: 0 },
    })));

    let template = TemplateAsset {
        content: Some(TemplateNode::Element(Element {
            styleset: vec!["base.css".to_string()],
            styleset_handles: vec![],
            inline_style: None,
            id: Some("root".to_string()),
            controller: None,
            attrs: vec![],
            children: vec![
                TemplateNode::Text("hello".to_string()),
                TemplateNode::Call(Call {
                    inline_style: None,
                    template: "widgets.guise.json#templates/button".to_string(),
                    template_handle: None,
                    params: vec![],
                }),
            ],
        })),
    };

    let entries = AssetSerial {
        styles: vec![("base".to_string(), sheet)],
        templates: vec![("main".to_string(), template)],
    };
    let loader = GuiseTemplatesLoader;
    let mut lc = LoadContext::new("ui/app.guise.json".to_string());
    let (styles, templates) = loader.load_entries(entries, &mut lc);

    assert_eq!(styles.len(), 1);
    assert_eq!(styles[0].0, "styles/base");
    assert_eq!(templates.len(), 1);
    assert_eq!(templates[0].0, "templates/main");

    // The element's style sheet and the call's template were requested,
    // anchored to the document directory.
    assert_eq!(
        lc.requests,
        vec![
            "ui/base.css".to_string(),
            "ui/widgets.guise.json#templates/button".to_string(),
        ]
    );

    match &templates[0].1.content {
        Some(TemplateNode::Element(e)) => {
            assert_eq!(e.styleset_handles, vec![Handle { id: 0 }]);
            assert_eq!(e.children.len(), 2);
            match &e.children[1] {
                TemplateNode::Call(c) => {
                    assert_eq!(c.template_handle, Some(Handle { id: 1 }));
                },
                _ => panic!("expected the call child"),
            }
        },
        _ => panic!("expected the element root"),
    }
}

#[test]
fn stylesheet_resolution_anchors_image_references() {
    let mut sheet = ElementStyle::new();
    sheet.push(StyleAttr::BackgroundImage(Some(guise::ImageRef {
        asset: guise::AssetRef::new("img/bg.png"),
        handle: Handle { id: 3 },
    })));
    sheet.resolve_asset_paths("ui/app.guise.json#styles/base");
    let style = Arc::new(sheet);
    let mut computed = ComputedStyle::default();
    style.apply_to(&mut computed);
    assert_eq!(computed.image, Some(Handle { id: 3 }));
}

#[test]
fn write_xml_round_trips_enumerations() {
    let mut elem = quick_xml::events::BytesStart::new("style");
    StyleAttr::FlexDirection(guise::FlexDirection::RowReverse)
        .write_xml(&mut elem)
        .unwrap();
    StyleAttr::GridRowStart(-2).write_xml(&mut elem).unwrap();
    StyleAttr::LineBreak(guise::LineBreak::WordBoundary)
        .write_xml(&mut elem)
        .unwrap();

    let attrs: Vec<(String, String)> = elem
        .attributes()
        .map(|a| {
            let a = a.unwrap();
            (a.key.into_inner().to_string(), a.value.into_owned())
        })
        .collect();
    assert_eq!(
        attrs,
        vec![
            ("flex-direction".to_string(), "row-reverse".to_string()),
            ("grid-row-start".to_string(), "-2".to_string()),
            ("line-break".to_string(), "word".to_string()),
        ]
    );

    // Expression-backed variants have no string form: a recoverable
    // error, not an abort.
    let unsupported = width_attr(Val::Px(1000)).write_xml(&mut elem);
    assert_eq!(unsupported, Err(GuiseError::UnsupportedAttribute));
}
