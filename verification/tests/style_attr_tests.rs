use guise::asset_path::{AssetPath, AssetRef};
use guise::keywords::{Display, OverflowAxis};
use guise::style::ComputedStyle;
use guise::style_attr::StyleAttr;
use guise::style_expr::StyleExpr;
use guise::untyped::{ColorValue, ExprList, UntypedExpr};
use guise::values::{ColorSpec, Val};

fn s(t: &str) -> String {
    t.to_string()
}

#[test]
fn test_expr_attr_sets_coerced_values() {
    let mut c = ComputedStyle::new();
    assert_eq!(StyleAttr::Width(StyleExpr::Number(s("10"))).apply(&mut c), None);
    assert_eq!(c.style.width, Val::Px(s("10")));
    StyleAttr::Display(StyleExpr::Ident(s("none"))).apply(&mut c);
    assert_eq!(c.style.display, Display::Hidden);
    StyleAttr::Overflow(StyleExpr::Constant(OverflowAxis::Clip)).apply(&mut c);
    assert_eq!(c.style.overflow.x, OverflowAxis::Clip);
    assert_eq!(c.style.overflow.y, OverflowAxis::Clip);
    StyleAttr::ZIndex(StyleExpr::Number(s("3"))).apply(&mut c);
    assert_eq!(c.z_index, Some(3));
    StyleAttr::BackgroundColor(StyleExpr::Color(ColorValue::Hex(1, 2, 3, 255))).apply(&mut c);
    assert_eq!(c.background_color, Some(ColorSpec::Rgba8(1, 2, 3, 255)));
    StyleAttr::BackgroundColor(StyleExpr::Constant(ColorValue::Transparent)).apply(&mut c);
    assert_eq!(c.background_color, None);
}

#[test]
fn test_expr_attr_ignores_what_does_not_coerce() {
    let mut c = ComputedStyle::new();
    let before = c.clone();
    StyleAttr::Width(StyleExpr::Ident(s("wide"))).apply(&mut c);
    StyleAttr::Display(StyleExpr::Number(s("1"))).apply(&mut c);
    StyleAttr::Color(StyleExpr::Var(s("x"))).apply(&mut c);
    assert_eq!(c, before);
}

#[test]
fn test_expr_attr_margin_and_flex() {
    let mut c = ComputedStyle::new();
    let l = ExprList::from_exprs(&[UntypedExpr::Length(Val::Px(s("1"))), UntypedExpr::Number(s("2"))]);
    StyleAttr::Margin(l).apply(&mut c);
    assert_eq!(c.style.margin.top, Val::Px(s("1")));
    assert_eq!(c.style.margin.right, Val::Px(s("2")));
    assert_eq!(c.style.margin.bottom, Val::Px(s("1")));
    assert_eq!(c.style.margin.left, Val::Px(s("2")));
    let f = ExprList::from_exprs(&[UntypedExpr::Number(s("2"))]);
    StyleAttr::Flex(f).apply(&mut c);
    assert_eq!(c.style.flex_grow, s("2"));
    assert_eq!(c.style.flex_shrink, s("2"));
    assert_eq!(c.style.flex_basis, Val::Auto);
    let f3 = ExprList::from_exprs(&[
        UntypedExpr::Number(s("1")),
        UntypedExpr::Ident(s("x")),
        UntypedExpr::Length(Val::Percent(s("50"))),
    ]);
    StyleAttr::Flex(f3).apply(&mut c);
    assert_eq!(c.style.flex_grow, s("1"));
    assert_eq!(c.style.flex_shrink, s("2"));
    assert_eq!(c.style.flex_basis, Val::Percent(s("50")));
}

#[test]
fn test_expr_attr_background_image_loads() {
    let mut c = ComputedStyle::new();
    let load = StyleAttr::BackgroundImage(StyleExpr::Constant(AssetRef::new("ui/bg.png"))).apply(&mut c);
    assert_eq!(load, Some(AssetPath::parse("ui/bg.png")));
    assert_eq!(c.image.image, Some(s("ui/bg.png")));
    let none = StyleAttr::BackgroundImage(StyleExpr::Asset(AssetRef::new("ui/x.png"))).apply(&mut c);
    assert_eq!(none, None);
    assert_eq!(c.image.image, Some(s("ui/bg.png")));
}

#[test]
fn test_expr_attr_grid_parts() {
    let mut c = ComputedStyle::new();
    StyleAttr::GridRowStart(StyleExpr::Number(s("2"))).apply(&mut c);
    StyleAttr::GridColumnEnd(4).apply(&mut c);
    assert_eq!(c.style.grid_row.start, Some(2));
    assert_eq!(c.style.grid_column.end, Some(4));
}

#[test]
fn test_expr_attr_background_image_is_resolved() {
    let mut a = AssetRef::new("../img/bg.png#tile");
    a.resolve_asset_path(&AssetPath::parse("ui/styles/main.guise"));
    let mut c = ComputedStyle::new();
    let load = StyleAttr::BackgroundImage(StyleExpr::Constant(a)).apply(&mut c);
    assert_eq!(load, Some(AssetPath::parse("ui/img/bg.png#tile")));
    assert_eq!(c.image.image, Some(s("ui/img/bg.png#tile")));
    assert_eq!(AssetPath::parse("a/b#c").to_text(), s("a/b#c"));
}
