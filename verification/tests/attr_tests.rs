use guise::attr::StyleAttr;
use guise::error::GuiseError;
use guise::keywords::{
    AlignContent, Direction, Display, FlexDirection, OverflowAxis, PositionType,
};
use guise::partial::PartialStyle;
use guise::style::{BreakLineOn, ComputedStyle, TextAlignment};
use guise::untyped::ColorValue;
use guise::values::{
    decode_hex_color, parse_color, parse_grid_placement, parse_uirect, parse_val, ColorSpec,
    GridPlacement, UiRect, Val,
};

fn px(n: &str) -> Val {
    Val::Px(n.to_string())
}

fn parse_ok(name: &str, value: &str) -> StyleAttr {
    StyleAttr::parse(name.as_bytes(), value).unwrap().unwrap()
}

#[test]
fn attr_test_parse_val() {
    assert_eq!(parse_val("auto").unwrap(), Val::Auto);
    assert_eq!(parse_val("1").unwrap(), px("1"));
    assert_eq!(parse_val("1px").unwrap(), px("1"));
    assert_eq!(parse_val("1vw").unwrap(), Val::Vw("1".to_string()));
    assert_eq!(parse_val("1vh").unwrap(), Val::Vh("1".to_string()));
    assert_eq!(parse_val("1.1px").unwrap(), px("1.1"));

    assert!(parse_val("1.1bad").is_err());
    assert!(parse_val("bad").is_err());
    assert!(parse_val("1.1.1bad").is_err());
}

#[test]
fn style_test_parse_val() {
    assert_eq!(parse_val("auto").unwrap(), Val::Auto);
    assert_eq!(parse_val("1").unwrap(), px("1"));
    assert_eq!(parse_val("1px").unwrap(), px("1"));
    assert_eq!(parse_val("1vw").unwrap(), Val::Vw("1".to_string()));
    assert_eq!(parse_val("1vh").unwrap(), Val::Vh("1".to_string()));
    assert_eq!(parse_val("1.1px").unwrap(), px("1.1"));

    assert!(parse_val("1.1bad").is_err());
    assert!(parse_val("bad").is_err());
    assert!(parse_val("1.1.1bad").is_err());
}

#[test]
fn attr_test_parse_uirect() {
    assert_eq!(
        parse_uirect("1px 2px 3px 4px").unwrap(),
        UiRect::new(px("4"), px("2"), px("1"), px("3"))
    );
    assert_eq!(
        parse_uirect("1px 2px 3px").unwrap(),
        UiRect::new(px("2"), px("2"), px("1"), px("3"))
    );
    assert_eq!(
        parse_uirect("1px 2px").unwrap(),
        UiRect::new(px("2"), px("2"), px("1"), px("1"))
    );
    assert_eq!(
        parse_uirect("1px").unwrap(),
        UiRect::new(px("1"), px("1"), px("1"), px("1"))
    );

    assert!(parse_uirect("1.1bad").is_err());
}

#[test]
fn style_test_parse_uirect() {
    assert_eq!(
        parse_uirect("1px 2px 3px 4px").unwrap(),
        UiRect::new(px("4"), px("2"), px("1"), px("3"))
    );
    assert_eq!(
        parse_uirect("1px 2px 3px").unwrap(),
        UiRect::new(px("2"), px("2"), px("1"), px("3"))
    );
    assert_eq!(
        parse_uirect("1px 2px").unwrap(),
        UiRect::new(px("2"), px("2"), px("1"), px("1"))
    );
    assert_eq!(
        parse_uirect("1px").unwrap(),
        UiRect::new(px("1"), px("1"), px("1"), px("1"))
    );

    assert!(parse_uirect("1.1bad").is_err());
}

#[test]
fn attr_test_parse_attrs() {
    let hex123 = {
        let (r, g, b, a) = decode_hex_color("#123").unwrap();
        ColorSpec::Rgba8(r, g, b, a)
    };
    assert_eq!(
        parse_ok("background-color", "#123"),
        StyleAttr::BackgroundColor(Some(hex123.clone()))
    );
    assert_eq!(
        parse_ok("background-color", "transparent"),
        StyleAttr::BackgroundColor(None)
    );
    assert_eq!(
        parse_ok("border-color", "#123"),
        StyleAttr::BorderColor(Some(hex123.clone()))
    );
    assert_eq!(parse_ok("border-color", "transparent"), StyleAttr::BorderColor(None));

    assert_eq!(parse_ok("z-index", "33"), StyleAttr::ZIndex(33));

    assert_eq!(parse_ok("display", "none"), StyleAttr::Display(Display::Hidden));
    assert_eq!(parse_ok("display", "flex"), StyleAttr::Display(Display::Flex));
    assert_eq!(parse_ok("display", "grid"), StyleAttr::Display(Display::Grid));

    assert_eq!(
        parse_ok("position", "absolute"),
        StyleAttr::Position(PositionType::Absolute)
    );
    assert_eq!(
        parse_ok("position", "relative"),
        StyleAttr::Position(PositionType::Relative)
    );

    assert_eq!(parse_ok("overflow", "clip"), StyleAttr::Overflow(OverflowAxis::Clip));
    assert_eq!(parse_ok("overflow", "visible"), StyleAttr::Overflow(OverflowAxis::Visible));
    assert_eq!(parse_ok("overflow-x", "clip"), StyleAttr::OverflowX(OverflowAxis::Clip));
    assert_eq!(parse_ok("overflow-x", "visible"), StyleAttr::OverflowX(OverflowAxis::Visible));
    assert_eq!(parse_ok("overflow-y", "clip"), StyleAttr::OverflowY(OverflowAxis::Clip));
    assert_eq!(parse_ok("overflow-y", "visible"), StyleAttr::OverflowY(OverflowAxis::Visible));

    assert_eq!(parse_ok("direction", "inherit"), StyleAttr::Direction(Direction::Inherit));
    assert_eq!(parse_ok("direction", "ltr"), StyleAttr::Direction(Direction::LeftToRight));
    assert_eq!(parse_ok("direction", "rtl"), StyleAttr::Direction(Direction::RightToLeft));

    assert_eq!(parse_ok("left", "3"), StyleAttr::Left(px("3")));
    assert_eq!(parse_ok("right", "3"), StyleAttr::Right(px("3")));
    assert_eq!(parse_ok("top", "3"), StyleAttr::Top(px("3")));
    assert_eq!(parse_ok("bottom", "3"), StyleAttr::Bottom(px("3")));

    assert_eq!(parse_ok("width", "3"), StyleAttr::Width(px("3")));
    assert_eq!(parse_ok("height", "3"), StyleAttr::Height(px("3")));
    assert_eq!(parse_ok("min-width", "3"), StyleAttr::MinWidth(px("3")));
    assert_eq!(parse_ok("min-height", "3"), StyleAttr::MinHeight(px("3")));
    assert_eq!(parse_ok("max-width", "3"), StyleAttr::MaxWidth(px("3")));
    assert_eq!(parse_ok("max-height", "3"), StyleAttr::MaxHeight(px("3")));
}

#[test]
fn partial_test_serialize_empty() {
    let style = PartialStyle::new();
    assert_eq!(style.write_xml(), r#"<style/>"#);
}

#[test]
fn partial_test_serialize_display() {
    let style = PartialStyle::from_attrs(&[StyleAttr::Display(Display::Flex)]);
    assert_eq!(style.write_xml(), r#"<style display="flex"/>"#);
}

#[test]
fn style_test_serialize_empty() {
    let style = PartialStyle::new();
    assert_eq!(style.write_xml(), r#"<style/>"#);
}

#[test]
fn style_test_serialize_display() {
    let style = PartialStyle::from_attrs(&[StyleAttr::Display(Display::Flex)]);
    assert_eq!(style.write_xml(), r#"<style display="flex"/>"#);
}

#[test]
fn unknown_attribute_names_read_as_nothing() {
    assert_eq!(StyleAttr::parse(b"colour", "red").unwrap(), None);
    assert_eq!(StyleAttr::parse(b"", "1px").unwrap(), None);
}

#[test]
fn refused_values_name_the_error() {
    assert_eq!(
        StyleAttr::parse(b"display", "block"),
        Err(GuiseError::UnknownAttributeValue("block".to_string()))
    );
    assert_eq!(
        StyleAttr::parse(b"z-index", "3.5"),
        Err(GuiseError::InvalidAttributeValue("3.5".to_string()))
    );
    assert_eq!(
        StyleAttr::parse(b"width", "3em"),
        Err(GuiseError::InvalidAttributeValue("3em".to_string()))
    );
    // The error of a rectangle names the word that is no length.
    assert_eq!(
        StyleAttr::parse(b"margin", "1px 2em"),
        Err(GuiseError::InvalidAttributeValue("2em".to_string()))
    );
    // Or the whole text where there are too many words, or none.
    assert_eq!(
        StyleAttr::parse(b"margin", "1 2 3 4 5"),
        Err(GuiseError::InvalidAttributeValue("1 2 3 4 5".to_string()))
    );
    assert_eq!(
        StyleAttr::parse(b"padding", "   "),
        Err(GuiseError::InvalidAttributeValue("   ".to_string()))
    );
    assert_eq!(
        StyleAttr::parse(b"background-color", "#12"),
        Err(GuiseError::InvalidAttributeValue("#12".to_string()))
    );
    assert_eq!(
        StyleAttr::parse(b"flex-grow", "two"),
        Err(GuiseError::InvalidAttributeValue("two".to_string()))
    );
}

#[test]
fn every_length_unit_reads() {
    assert_eq!(parse_val("-2.5%").unwrap(), Val::Percent("-2.5".to_string()));
    assert_eq!(parse_val("7vmin").unwrap(), Val::VMin("7".to_string()));
    assert_eq!(parse_val("7vmax").unwrap(), Val::VMax("7".to_string()));
    assert!(parse_val("").is_err());
    assert!(parse_val("px").is_err());
}

#[test]
fn colors_read_in_each_notation() {
    assert_eq!(parse_color("#f00").unwrap(), ColorSpec::Rgba8(255, 0, 0, 255));
    assert_eq!(parse_color("f00a").unwrap(), ColorSpec::Rgba8(255, 0, 0, 0xaa));
    assert_eq!(parse_color("#00FF7f").unwrap(), ColorSpec::Rgba8(0, 255, 0x7f, 255));
    assert_eq!(parse_color("#0102037F").unwrap(), ColorSpec::Rgba8(1, 2, 3, 0x7f));
    assert_eq!(
        parse_color("rgba(1, 0.5,0.25,  1)").unwrap(),
        ColorSpec::Rgba("1".to_string(), "0.5".to_string(), "0.25".to_string(), "1".to_string())
    );
    assert_eq!(
        parse_color("hsla(360, 1, .5, 0)").unwrap(),
        ColorSpec::Hsla("360".to_string(), "1".to_string(), ".5".to_string(), "0".to_string())
    );
    assert!(parse_color("#12345").is_err());
    assert!(parse_color("rgb(1, 2, 3)").is_err());
    assert!(parse_color("##123").is_err());
}

#[test]
fn grid_placements_read() {
    assert_eq!(
        parse_grid_placement("2 / 4").unwrap(),
        GridPlacement { start: Some(2), span: Some(1), end: Some(4) }
    );
    assert_eq!(
        parse_grid_placement("3/span 2").unwrap(),
        GridPlacement { start: Some(3), span: Some(2), end: None }
    );
    assert!(parse_grid_placement("3").is_err());
    assert_eq!(GridPlacement::default(), GridPlacement { start: None, span: Some(1), end: None });
}

#[test]
fn reading_that_would_fail_to_convert_is_reported() {
    assert!(StyleAttr::parse_checked(b"width", "1.2.3px").is_none());
    assert!(StyleAttr::parse_checked(b"margin", "1px 1.2.3px").is_none());
    assert!(StyleAttr::parse_checked(b"background-color", "rgba(1.1.1, 0, 0, 1)").is_none());
    assert!(StyleAttr::parse_checked(b"grid-row", "0 / 2").is_none());
    assert!(StyleAttr::parse_checked(b"grid-column", "1 / span 0").is_none());
    // An earlier word that is no length ends the reading before it.
    assert_eq!(
        StyleAttr::parse_checked(b"margin", "1em 1.2.3px"),
        Some(Err(GuiseError::InvalidAttributeValue("1em".to_string())))
    );
    assert_eq!(
        StyleAttr::parse_checked(b"width", "1.5px"),
        Some(Ok(Some(StyleAttr::Width(px("1.5")))))
    );
    assert_eq!(StyleAttr::parse_checked(b"unknown", "1.2.3px"), Some(Ok(None)));
}

#[test]
fn flex_is_the_growth_factor() {
    assert_eq!(parse_ok("flex", "2"), StyleAttr::FlexGrow("2".to_string()));
    assert_eq!(parse_ok("flex-grow", "1e3"), StyleAttr::FlexGrow("1e3".to_string()));
    assert_eq!(parse_ok("flex-shrink", "inf"), StyleAttr::FlexShrink("inf".to_string()));
}

#[test]
fn written_attributes_read_back() {
    let attrs = vec![
        parse_ok("display", "grid"),
        parse_ok("align-content", "space-between"),
        parse_ok("z-index", "-42"),
        parse_ok("grid-row-span", "65535"),
        parse_ok("background-color", "#1a2b3c"),
        parse_ok("border-color", "transparent"),
        parse_ok("flex", "0.5"),
        parse_ok("margin", "1px 2% auto"),
        parse_ok("min-width", "10vw"),
    ];
    for a in attrs.iter() {
        let mut out = Vec::new();
        a.write_xml(&mut out);
        let (name, value) = &out[0];
        assert_eq!(&StyleAttr::parse(name.as_bytes(), value).unwrap().unwrap(), a);
    }
    let mut out = Vec::new();
    attrs[4].write_xml(&mut out);
    assert_eq!(out[0], ("background-color".to_string(), "#1a2b3cff".to_string()));
    let mut out = Vec::new();
    attrs[7].write_xml(&mut out);
    assert_eq!(out[0], ("margin".to_string(), "1px 2% auto 2%".to_string()));
    assert_eq!(attrs[1], StyleAttr::AlignContent(AlignContent::SpaceBetween));
}

#[test]
fn style_element_lists_attributes_in_order() {
    let style = PartialStyle::from_attrs(&[
        StyleAttr::FlexDirection(FlexDirection::Column),
        StyleAttr::Width(px("10")),
        StyleAttr::ZIndex(7),
    ]);
    assert_eq!(
        style.write_xml(),
        r#"<style flex-direction="column" width="10px" z-index="7"/>"#
    );
}

#[test]
fn applying_sets_the_property() {
    let mut c = ComputedStyle::new();
    parse_ok("width", "5px").apply(&mut c);
    assert_eq!(c.style.width, px("5"));
    parse_ok("overflow", "clip").apply(&mut c);
    assert_eq!(c.style.overflow.x, OverflowAxis::Clip);
    assert_eq!(c.style.overflow.y, OverflowAxis::Clip);
    parse_ok("gap", "2px").apply(&mut c);
    assert_eq!(c.style.row_gap, px("2"));
    assert_eq!(c.style.column_gap, px("2"));
    parse_ok("margin-left", "3px").apply(&mut c);
    assert_eq!(c.style.margin.left, px("3"));
    assert_eq!(c.style.margin.right, px("0"));
    parse_ok("z-index", "4").apply(&mut c);
    assert_eq!(c.z_index, Some(4));
    // Setting one end of a placement changes that end only.
    parse_ok("grid-row-start", "3").apply(&mut c);
    assert_eq!(c.style.grid_row.start, Some(3));
    assert_eq!(c.style.grid_row.span, Some(1));
    parse_ok("grid-column-span", "2").apply(&mut c);
    assert_eq!(c.style.grid_column.span, Some(2));
}

#[test]
fn applying_twice_is_applying_once() {
    let a = parse_ok("padding", "1px 2px");
    let mut once = ComputedStyle::new();
    a.apply(&mut once);
    let mut twice = ComputedStyle::new();
    a.apply(&mut twice);
    a.apply(&mut twice);
    assert_eq!(once, twice);
}

#[test]
fn the_later_attribute_wins() {
    let style = PartialStyle::from_attrs(&[
        parse_ok("height", "1px"),
        parse_ok("display", "none"),
        parse_ok("height", "auto"),
    ]);
    let mut c = ComputedStyle::new();
    style.apply_to(&mut c);
    assert_eq!(c.style.height, Val::Auto);
    assert_eq!(c.style.display, Display::Hidden);
}

#[test]
fn conditional_styles() {
    let style = PartialStyle::from_attrs(&[parse_ok("height", "1px")]);
    assert!(!style.if_cond(true).is_empty());
    assert!(style.if_cond(false).is_empty());
}

#[test]
fn style_elements_read_from_attributes() {
    let attrs = vec![
        (b"id".to_vec(), "main".to_string()),
        (b"xml:lang".to_vec(), "en".to_string()),
        (b"display".to_vec(), " grid ".to_string()),
        (b"margin".to_vec(), "1px 2px".to_string()),
    ];
    let style = PartialStyle::from_xml(&attrs).unwrap();
    assert_eq!(
        style.attrs(),
        &vec![
            StyleAttr::Display(Display::Grid),
            StyleAttr::Margin(UiRect::new(px("2"), px("2"), px("1"), px("1"))),
        ]
    );
    let bad = vec![(b"display".to_vec(), "block".to_string()), (b"z-index".to_vec(), "1".to_string())];
    assert_eq!(
        PartialStyle::from_xml(&bad).unwrap_err(),
        GuiseError::UnknownAttributeValue("block".to_string())
    );
    // A name that a style element does not take is refused, as is a value
    // that would fail to convert.
    let unknown = vec![(b"z-index".to_vec(), "1".to_string())];
    assert!(PartialStyle::from_xml_checked(&unknown).is_none());
    let after_error = vec![(b"gap".to_vec(), "x".to_string()), (b"z-index".to_vec(), "1".to_string())];
    assert!(PartialStyle::from_xml_checked(&after_error).unwrap().is_err());
}

#[test]
fn attributes_compare_by_value() {
    assert!(parse_ok("width", "1px").same_as(&StyleAttr::Width(px("1"))));
    assert!(!parse_ok("width", "1px").same_as(&StyleAttr::Height(px("1"))));
    assert!(!parse_ok("width", "1px").same_as(&StyleAttr::Width(px("1.0"))));
    assert!(parse_ok("display", "flex").same_as(&StyleAttr::Display(Display::Flex)));
    assert!(!parse_ok("display", "flex").same_as(&StyleAttr::Display(Display::Grid)));
    let a = PartialStyle::from_attrs(&[parse_ok("width", "1px"), parse_ok("z-index", "3")]);
    let b = PartialStyle::from_attrs(&[StyleAttr::Width(px("1")), StyleAttr::ZIndex(3)]);
    let c = PartialStyle::from_attrs(&[StyleAttr::ZIndex(3), StyleAttr::Width(px("1"))]);
    assert!(a.same_as(&b));
    assert!(!a.same_as(&c));
    assert!(!a.same_as(&PartialStyle::new()));
}

#[test]
fn applying_two_styles_is_applying_their_attributes_in_order() {
    let first = [parse_ok("width", "1px"), parse_ok("margin", "2px")];
    let second = [parse_ok("margin-top", "3px"), parse_ok("width", "auto")];
    let mut one_by_one = ComputedStyle::new();
    PartialStyle::from_attrs(&first).apply_to(&mut one_by_one);
    PartialStyle::from_attrs(&second).apply_to(&mut one_by_one);
    let both: Vec<StyleAttr> = first.iter().chain(second.iter()).cloned().collect();
    let mut together = ComputedStyle::new();
    PartialStyle::from_attrs(&both).apply_to(&mut together);
    assert_eq!(one_by_one, together);
    assert_eq!(together.style.margin.top, px("3"));
    assert_eq!(together.style.margin.left, px("2"));
    assert_eq!(together.style.width, Val::Auto);
}

#[test]
fn test_inherit_keeps_text_props_only() {
    let mut parent = ComputedStyle::new();
    parent.text.alignment = Some(TextAlignment::Center);
    parent.text.color = ColorValue::Hex(1, 2, 3, 255);
    parent.text.line_break = Some(BreakLineOn::AnyCharacter);
    parent.text.font_size = Some("14".to_string());
    parent.text.font = Some("fonts/a.ttf".to_string());
    parent.image.image = Some("ui/bg.png".to_string());
    parent.image.flip_x = true;
    parent.z_index = Some(4);
    parse_ok("width", "10px").apply(&mut parent);
    let child = ComputedStyle::inherit(&parent);
    assert_eq!(child.text, parent.text);
    assert_eq!(child.z_index, None);
    assert_eq!(child.text.font_size, Some("14".to_string()));
    assert_eq!(child.image.image, None);
    assert!(!child.image.flip_x);
    assert_eq!(child.style, ComputedStyle::new().style);
    assert_eq!(ComputedStyle::new().text.color, ColorValue::Transparent);
}

#[test]
fn test_from_tag_reads_attributes() {
    let style = PartialStyle::from_tag(r#"style id="x" margin-left="10px" display="none"/"#).unwrap().unwrap();
    assert_eq!(style.write_xml(), r#"<style margin-left="10px" display="none"/>"#);
    let style = PartialStyle::from_tag("style").unwrap().unwrap();
    assert!(style.is_empty());
    assert!(PartialStyle::from_tag(r#"style margin-left="1&bad;px""#).is_none());
    assert!(PartialStyle::from_tag(r#"style margin-left="3em""#).unwrap().is_err());
    // An error before a bad escape is reported; a bad escape before an error is not.
    assert!(PartialStyle::from_tag(r#"style margin-left="3em" display="&bad;""#).unwrap().is_err());
    assert!(PartialStyle::from_tag(r#"style display="&bad;" margin-left="3em""#).is_none());
    // A value is unescaped before it is read.
    let style = PartialStyle::from_tag(r#"style display="&#110;one""#).unwrap().unwrap();
    assert_eq!(style.write_xml(), r#"<style display="none"/>"#);
}

#[test]
fn test_built_attrs_read_back() {
    for a in [
        StyleAttr::Display(Display::Grid),
        StyleAttr::ZIndex(-3),
        StyleAttr::GridRowSpan(4),
        StyleAttr::FlexGrow("1.5".to_string()),
        StyleAttr::BackgroundColor(None),
        StyleAttr::BorderColor(Some(ColorSpec::Rgba8(1, 2, 3, 4))),
    ] {
        let pairs = PartialStyle::from_attrs(&[a.clone()]).attr_pairs();
        let (k, v) = &pairs[0];
        assert_eq!(StyleAttr::parse(k.as_bytes(), v).unwrap(), Some(a));
    }
}
