use guise::{ColorValue, GridPlacement, GuiseError, StyleAttr, UiRect, Val};

#[test]
fn test_parse_val() {
    assert_eq!(StyleAttr::parse_val("auto").unwrap(), Val::Auto);
    assert_eq!(StyleAttr::parse_val("1").unwrap(), Val::Px(1000));
    assert_eq!(StyleAttr::parse_val("1px").unwrap(), Val::Px(1000));
    assert_eq!(StyleAttr::parse_val("1vw").unwrap(), Val::Vw(1000));
    assert_eq!(StyleAttr::parse_val("1vh").unwrap(), Val::Vh(1000));
    assert_eq!(StyleAttr::parse_val("1.1px").unwrap(), Val::Px(1100));

    assert!(StyleAttr::parse_val("1.1bad").is_err());
    assert!(StyleAttr::parse_val("bad").is_err());
    assert!(StyleAttr::parse_val("1.1.1bad").is_err());
}

#[test]
fn test_parse_uirect() {
    assert_eq!(
        StyleAttr::parse_uirect("1px 2px 3px 4px").unwrap(),
        UiRect::new(Val::Px(4000), Val::Px(2000), Val::Px(1000), Val::Px(3000))
    );
    assert_eq!(
        StyleAttr::parse_uirect("1px 2px 3px").unwrap(),
        UiRect::new(Val::Px(2000), Val::Px(2000), Val::Px(1000), Val::Px(3000))
    );
    assert_eq!(
        StyleAttr::parse_uirect("1px 2px").unwrap(),
        UiRect::new(Val::Px(2000), Val::Px(2000), Val::Px(1000), Val::Px(1000))
    );
    assert_eq!(
        StyleAttr::parse_uirect("1px").unwrap(),
        UiRect::new(Val::Px(1000), Val::Px(1000), Val::Px(1000), Val::Px(1000))
    );

    assert!(StyleAttr::parse_uirect("1.1bad").is_err());
}

#[test]
fn test_parse_attrs() {
    match StyleAttr::parse("flex-direction", "row").unwrap() {
        Some(StyleAttr::FlexDirection(d)) => assert_eq!(d, guise::FlexDirection::Row),
        other => panic!("unexpected parse result: {:?}", other.is_some()),
    }
    match StyleAttr::parse("flex-wrap", "wrap-reverse").unwrap() {
        Some(StyleAttr::FlexWrap(w)) => assert_eq!(w, guise::FlexWrap::WrapReverse),
        _ => panic!("expected a flex-wrap attribute"),
    }
    match StyleAttr::parse("grid-auto-flow", "row-dense").unwrap() {
        Some(StyleAttr::GridAutoFlow(g)) => assert_eq!(g, guise::GridAutoFlow::RowDense),
        _ => panic!("expected a grid-auto-flow attribute"),
    }
    match StyleAttr::parse("grid-row-start", "-3").unwrap() {
        Some(StyleAttr::GridRowStart(v)) => assert_eq!(v, -3),
        _ => panic!("expected a grid-row-start attribute"),
    }
    match StyleAttr::parse("grid-column-span", "2").unwrap() {
        Some(StyleAttr::GridColumnSpan(v)) => assert_eq!(v, 2),
        _ => panic!("expected a grid-column-span attribute"),
    }
    // A recognized name with a bad value is an error.
    assert!(StyleAttr::parse("flex-direction", "diagonal").is_err());
    // An unknown attribute name is not an error: it may belong to
    // another handler.
    assert!(StyleAttr::parse("not-a-style", "1").unwrap().is_none());
}

#[test]
fn test_parse_val_render_round_trip() {
    for s in ["1px", "1.1px", "auto", "2.5%", "3vw", "-4.25vh", "10vmin", "0.5vmax"] {
        let v = StyleAttr::parse_val(s).unwrap();
        let rendered = StyleAttr::val_to_str(v);
        let again = StyleAttr::parse_val(rendered.as_str()).unwrap();
        assert_eq!(v, again);
    }
    // Rendering normalizes: a bare number reads back with its unit.
    assert_eq!(StyleAttr::val_to_str(Val::Px(1000)), "1px");
    assert_eq!(StyleAttr::val_to_str(Val::Px(1100)), "1.1px");
    assert_eq!(StyleAttr::val_to_str(Val::Percent(-2500)), "-2.5%");
    assert_eq!(StyleAttr::val_to_str(Val::Auto), "auto");
}

#[test]
fn test_uirect_to_str() {
    let r = StyleAttr::parse_uirect("1px 2px 3px 4px").unwrap();
    assert_eq!(StyleAttr::uirect_to_str(&r), "1px 2px 3px 4px");
}

#[test]
fn test_parse_color() {
    assert_eq!(
        StyleAttr::parse_color("#ff0000").unwrap(),
        ColorValue::Rgba { red: 1000, green: 0, blue: 0, alpha: 1000 }
    );
    assert_eq!(
        StyleAttr::parse_color("f00").unwrap(),
        ColorValue::Rgba { red: 1000, green: 0, blue: 0, alpha: 1000 }
    );
    assert_eq!(
        StyleAttr::parse_color("rgba(0.5, 0.25, 1, 1)").unwrap(),
        ColorValue::Rgba { red: 500, green: 250, blue: 1000, alpha: 1000 }
    );
    assert_eq!(
        StyleAttr::parse_color("hsla(120, 0.5, 0.5, 1)").unwrap(),
        ColorValue::Hsla { hue: 120000, saturation: 500, lightness: 500, alpha: 1000 }
    );
    assert!(StyleAttr::parse_color("red").is_err());
    assert!(StyleAttr::parse_color("rgba(1,2,3)").is_err());
}

#[test]
fn test_color_to_str() {
    let c = ColorValue::Rgba { red: 500, green: 250, blue: 1000, alpha: 1000 };
    assert_eq!(StyleAttr::color_to_str(&c), "rgba(0.5, 0.25, 1, 1)");
    let h = ColorValue::Hsla { hue: 120000, saturation: 500, lightness: 500, alpha: 1000 };
    assert_eq!(StyleAttr::color_to_str(&h), "hsla(120, 0.5, 0.5, 1)");
}

#[test]
fn test_parse_grid_placement() {
    assert_eq!(
        StyleAttr::parse_grid_placement("1/3").unwrap(),
        GridPlacement { start: Some(1), span: Some(1), end: Some(3) }
    );
    assert_eq!(
        StyleAttr::parse_grid_placement("2 / span 3").unwrap(),
        GridPlacement { start: Some(2), span: Some(3), end: None }
    );
    assert!(StyleAttr::parse_grid_placement("1.5/2").is_err());
    assert!(StyleAttr::parse_grid_placement("nope").is_err());
    // A span of zero tracks is not representable.
    assert!(StyleAttr::parse_grid_placement("1/span 0").is_err());
    // Grid lines are numbered from one: a zero start or end is rejected.
    assert!(StyleAttr::parse_grid_placement("0/3").is_err());
    assert!(StyleAttr::parse_grid_placement("1/0").is_err());
}

#[test]
fn test_error_messages() {
    let e = StyleAttr::parse_val("bad").unwrap_err();
    assert_eq!(e, GuiseError::InvalidAttributeValue("bad".to_string()));
    assert_eq!(e.message(), "invalid attribute value: bad");
    let e2 = match StyleAttr::parse("position", "diagonal") {
        Err(e) => e,
        Ok(_) => panic!("expected an unknown-value error"),
    };
    assert_eq!(e2, GuiseError::UnknownAttributeValue("diagonal".to_string()));
    assert_eq!(e2.message(), "unknown attribute value: diagonal");
}
