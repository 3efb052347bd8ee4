use guise::asset_path::{AssetPath, AssetRef};
use guise::coerce::Coerce;
use guise::untyped::{ColorValue, UntypedExpr};
use guise::style_expr::StyleExpr;
use guise::untyped::ExprList;
use guise::values::{UiRect, Val};
use std::str::FromStr;

fn s(t: &str) -> String {
    t.to_string()
}

fn rgb(r: &str, g: &str, b: &str, a: &str) -> UntypedExpr {
    UntypedExpr::Color(ColorValue::Rgb(s(r), s(g), s(b), s(a)))
}

#[test]
fn untyped_expr_test_trailing_space() {
    assert_eq!(
        "#f00 ".parse::<UntypedExpr>().unwrap(),
        UntypedExpr::Color(ColorValue::Hex(255, 0, 0, 255))
    );
    assert_eq!("1 ".parse::<UntypedExpr>().unwrap(), UntypedExpr::Number(s("1")));
}

#[test]
fn untyped_expr_test_parse_color() {
    assert_eq!(
        "#f00".parse::<UntypedExpr>().unwrap(),
        UntypedExpr::Color(ColorValue::Hex(255, 0, 0, 255))
    );
    assert_eq!(
        "#00f".parse::<UntypedExpr>().unwrap(),
        UntypedExpr::Color(ColorValue::Hex(0, 0, 255, 255))
    );
    // Invalid color value parsed as transparent black
    assert_eq!(
        "#0f".parse::<UntypedExpr>().unwrap(),
        UntypedExpr::Color(ColorValue::Hex(0, 0, 0, 0))
    );
}

#[test]
fn untyped_expr_test_parse_color_fn() {
    assert_eq!("rgba( 255 255 255 )".parse::<UntypedExpr>().unwrap(), rgb("255", "255", "255", "1"));
    assert_eq!("rgba(255, 255, 255)".parse::<UntypedExpr>().unwrap(), rgb("255", "255", "255", "1"));
    assert_eq!(
        "rgba(255, 255, 255, 0.5)".parse::<UntypedExpr>().unwrap(),
        rgb("255", "255", "255", "0.5")
    );
    assert_eq!(
        "rgba(255 255 255 / 0.5)".parse::<UntypedExpr>().unwrap(),
        rgb("255", "255", "255", "0.5")
    );
    assert_eq!(
        "rgb(255 255 255 / 0.5)".parse::<UntypedExpr>().unwrap(),
        rgb("255", "255", "255", "0.5")
    );
    assert_eq!(
        "hsla(360 100 100 / 0.5)".parse::<UntypedExpr>().unwrap(),
        UntypedExpr::Color(ColorValue::Hsl(s("360"), s("100"), s("100"), s("0.5")))
    );
}

#[test]
fn untyped_expr_test_parse_int() {
    assert_eq!("1".parse::<UntypedExpr>().unwrap(), UntypedExpr::Number(s("1")));
    assert_eq!("77".parse::<UntypedExpr>().unwrap(), UntypedExpr::Number(s("77")));
}

#[test]
fn test_parse_float() {
    assert_eq!("1.0".parse::<UntypedExpr>().unwrap(), UntypedExpr::Number(s("1.0")));
    assert_eq!(".1".parse::<UntypedExpr>().unwrap(), UntypedExpr::Number(s(".1")));
    assert_eq!("1.".parse::<UntypedExpr>().unwrap(), UntypedExpr::Number(s("1.")));
    assert_eq!(UntypedExpr::parse("1.e2"), Ok(UntypedExpr::Number(s("1.e2"))));
    assert_eq!(UntypedExpr::parse("1.e-2"), Ok(UntypedExpr::Number(s("1.e-2"))));
    assert_eq!(UntypedExpr::parse("1e2"), Ok(UntypedExpr::Number(s("1e2"))));
    assert_eq!("-1.".parse::<UntypedExpr>().unwrap(), UntypedExpr::Number(s("-1.")));
}

#[test]
fn test_parse_length() {
    assert_eq!("1px".parse::<UntypedExpr>().unwrap(), UntypedExpr::Length(Val::Px(s("1"))));
    assert_eq!("10%".parse::<UntypedExpr>().unwrap(), UntypedExpr::Length(Val::Percent(s("10"))));
    assert_eq!("7vw".parse::<UntypedExpr>().unwrap(), UntypedExpr::Length(Val::Vw(s("7"))));
    assert_eq!("7e-1vh".parse::<UntypedExpr>().unwrap(), UntypedExpr::Length(Val::Vh(s("7e-1"))));
    assert_eq!("7vmin".parse::<UntypedExpr>().unwrap(), UntypedExpr::Length(Val::VMin(s("7"))));
    assert_eq!("7vmax".parse::<UntypedExpr>().unwrap(), UntypedExpr::Length(Val::VMax(s("7"))));
}

#[test]
fn test_parse_ident() {
    assert_eq!("foo".parse::<UntypedExpr>().unwrap(), UntypedExpr::Ident(s("foo")));
}

#[test]
fn test_parse_var_ref() {
    assert_eq!("var(--foo)".parse::<UntypedExpr>().unwrap(), UntypedExpr::Var(s("foo")));
}

#[test]
fn untyped_expr_test_parse_asset() {
    assert_eq!(
        "asset(../image.png)".parse::<UntypedExpr>().unwrap(),
        UntypedExpr::Asset(AssetRef::new("../image.png"))
    );
}

#[test]
fn texts_that_are_no_expression() {
    assert_eq!(UntypedExpr::parse("#"), Err(s("#")));
    assert!(UntypedExpr::parse("#xyz").is_err());
    // Eight digits at most are read.
    assert!(UntypedExpr::parse("#ff0000ff0").is_err());
    assert!(UntypedExpr::parse("rgb(x)").is_err());
    assert!(UntypedExpr::parse("rgb(1, 2)").is_err());
    assert!(UntypedExpr::parse("1e").is_err());
    assert!(UntypedExpr::parse("asset()").is_err());
    assert!(UntypedExpr::parse("var(--)").is_err());
    assert!(UntypedExpr::parse("").is_err());
    assert!(UntypedExpr::parse("1px 2px").is_err());
    // Names are made of ASCII letters, digits, `_` and `-`, from a letter or `_`.
    assert_eq!(UntypedExpr::parse("zoom"), Ok(UntypedExpr::Ident(s("zoom"))));
    assert_eq!(UntypedExpr::parse("Z9"), Ok(UntypedExpr::Ident(s("Z9"))));
    assert!(UntypedExpr::parse("9a").is_err());
    assert_eq!(UntypedExpr::parse("#ff000080"), Ok(UntypedExpr::Color(ColorValue::Hex(255, 0, 0, 128))));
}

#[test]
fn names_and_colors_near_each_other() {
    assert_eq!(UntypedExpr::parse("rgbx"), Ok(UntypedExpr::Ident(s("rgbx"))));
    assert_eq!(UntypedExpr::parse("asset"), Ok(UntypedExpr::Ident(s("asset"))));
    assert_eq!(UntypedExpr::parse(" auto\n"), Ok(UntypedExpr::Ident(s("auto"))));
    assert_eq!(UntypedExpr::parse("_x-1"), Ok(UntypedExpr::Ident(s("_x-1"))));
    assert_eq!(
        UntypedExpr::parse("hsl(1,2,3)"),
        Ok(UntypedExpr::Color(ColorValue::Hsl(s("1"), s("2"), s("3"), s("1"))))
    );
    assert_eq!(
        UntypedExpr::parse("#abcd"),
        Ok(UntypedExpr::Color(ColorValue::Hex(0xaa, 0xbb, 0xcc, 0xdd)))
    );
    assert_eq!(
        UntypedExpr::parse("#123456"),
        Ok(UntypedExpr::Color(ColorValue::Hex(0x12, 0x34, 0x56, 0xff)))
    );
}

#[test]
fn expressions_as_lengths() {
    assert_eq!(UntypedExpr::parse("3").unwrap().coerce(), Some(Val::Px(s("3"))));
    assert_eq!(UntypedExpr::parse("3vh").unwrap().coerce(), Some(Val::Vh(s("3"))));
    assert_eq!(UntypedExpr::parse("auto").unwrap().coerce(), Some(Val::Auto));
    let none: Option<Val> = UntypedExpr::parse("none").unwrap().coerce();
    assert_eq!(none, None);
}

#[test]
fn expressions_write_their_text() {
    for t in ["foo", "1.5", "-2e3%", "var(--bg)", "rgba(1, 2, 3, 0.5)", "hsla(10, 20, 30, 1)"] {
        let x = UntypedExpr::parse(t).unwrap();
        assert_eq!(x.to_text(), t);
        assert_eq!(UntypedExpr::parse(&x.to_text()).unwrap(), x);
    }
    assert_eq!(UntypedExpr::parse("#f00").unwrap().to_text(), "rgba(255, 0, 0, 1)");
    assert_eq!(UntypedExpr::parse("#f008").unwrap().to_text(), "#ff000088");
}

#[test]
fn test_serialize_rgba() {
    assert_eq!(ColorValue::Hex(255, 0, 0, 255).to_text(), "rgba(255, 0, 0, 1)");
}

#[test]
fn test_deserialize_hex() {
    let red = ColorValue::Hex(255, 0, 0, 255);
    assert_eq!(ColorValue::parse("#ff0000ff").unwrap(), red);
    assert_eq!(ColorValue::parse("#ff0000").unwrap(), red);
    assert_eq!(ColorValue::parse("#f00f").unwrap(), red);
    assert_eq!(ColorValue::parse("#f00").unwrap(), red);
}

#[test]
fn test_deserialize_rgba() {
    assert_eq!(
        ColorValue::parse("rgba(255, 0, 0, 1)").unwrap(),
        ColorValue::Rgb(s("255"), s("0"), s("0"), s("1"))
    );
}

#[test]
fn test_serialize_transparent() {
    assert_eq!(ColorValue::Transparent.to_text(), "transparent");
}

#[test]
fn test_deserialize_transparent() {
    let value = ColorValue::Transparent;
    let des = ColorValue::parse(&value.to_text()).unwrap();
    assert_eq!(des, value);
    assert!(des.is_transparent());
    assert_eq!(des.color(), ColorValue::Hex(0, 0, 0, 0));
}

#[test]
fn color_values_that_do_not_read() {
    assert!(ColorValue::parse("red").is_err());
    assert!(ColorValue::parse_checked("rgba(1.1.1, 0, 0, 1)").is_none());
    assert_eq!(
        ColorValue::parse_checked("hsla(1, 2, 3, 4)"),
        Some(Ok(ColorValue::Hsl(s("1"), s("2"), s("3"), s("4"))))
    );
}

#[test]
fn expression_lists_read_as_rectangles() {
    let l = ExprList::parse(" 1px  auto\t3 ").unwrap();
    assert_eq!(l.len(), 3);
    let r: Option<UiRect> = l.coerce();
    assert_eq!(
        r,
        Some(UiRect::new(Val::Auto, Val::Auto, Val::Px(s("1")), Val::Px(s("3"))))
    );
    let bad: Option<UiRect> = ExprList::parse("1px red").unwrap().coerce();
    assert_eq!(bad, None);
    assert!(ExprList::parse("1px,2px").is_err());
    assert!(ExprList::parse("").is_err());
    assert!(ExprList::parse("1px #").is_err());
    let l2 = ExprList::from_exprs(&[UntypedExpr::Number(s("2"))]);
    assert_eq!(l2, ExprList(vec![UntypedExpr::Number(s("2"))]));

    let d: StyleExpr<guise::keywords::Display> = "grid".parse().unwrap();
    assert_eq!(d.coerce(), Some(guise::keywords::Display::Grid));
    assert_eq!(d.to_text(), "grid");
    let c: StyleExpr<guise::keywords::Display> = StyleExpr::Constant(guise::keywords::Display::Hidden);
    assert_eq!(c.to_text(), "none");
    let v: StyleExpr<Val> = "7".parse().unwrap();
    assert_eq!(v.coerce(), Some(Val::Px(s("7"))));
    let u: StyleExpr<Val> = "var(--gap)".parse().unwrap();
    assert_eq!(u.coerce(), None);
    assert_eq!(u.to_text(), "var(--gap)");
}

#[test]
fn expr_test_trailing_space() {
    assert_eq!(
        StyleExpr::<f32>::from_str("#f00 ").unwrap(),
        StyleExpr::Color(ColorValue::Hex(255, 0, 0, 255))
    );
    assert_eq!(StyleExpr::<f32>::from_str("1 ").unwrap(), StyleExpr::Number(s("1")));
}

#[test]
fn expr_test_parse_color() {
    assert_eq!(
        StyleExpr::<f32>::from_str("#f00").unwrap(),
        StyleExpr::Color(ColorValue::Hex(255, 0, 0, 255))
    );
    assert_eq!(
        StyleExpr::<f32>::from_str("#00f").unwrap(),
        StyleExpr::Color(ColorValue::Hex(0, 0, 255, 255))
    );
    // Invalid color value parsed as transparent black
    assert_eq!(
        StyleExpr::<f32>::from_str("#0f").unwrap(),
        StyleExpr::Color(ColorValue::Hex(0, 0, 0, 0))
    );
}

#[test]
fn expr_test_parse_color_fn() {
    let white = |a: &str| StyleExpr::<f32>::Color(ColorValue::Rgb(s("255"), s("255"), s("255"), s(a)));
    assert_eq!(StyleExpr::<f32>::from_str("rgba( 255 255 255 )").unwrap(), white("1"));
    assert_eq!(StyleExpr::<f32>::from_str("rgba(255, 255, 255)").unwrap(), white("1"));
    assert_eq!(StyleExpr::<f32>::from_str("rgba(255, 255, 255, 0.5)").unwrap(), white("0.5"));
    assert_eq!(StyleExpr::<f32>::from_str("rgba(255 255 255 / 0.5)").unwrap(), white("0.5"));
    assert_eq!(StyleExpr::<f32>::from_str("rgb(255 255 255 / 0.5)").unwrap(), white("0.5"));
    assert_eq!(
        StyleExpr::<f32>::from_str("hsla(360 100 100 / 0.5)").unwrap(),
        StyleExpr::Color(ColorValue::Hsl(s("360"), s("100"), s("100"), s("0.5")))
    );
}

#[test]
fn expr_test_parse_int() {
    assert_eq!(StyleExpr::<f32>::from_str("1").unwrap(), StyleExpr::Number(s("1")));
    assert_eq!(StyleExpr::<f32>::from_str("77").unwrap(), StyleExpr::Number(s("77")));
}

#[test]
fn expr_test_parse_asset() {
    assert_eq!(
        StyleExpr::<f32>::from_str("asset(../image.png)").unwrap(),
        StyleExpr::Asset(AssetRef::new("../image.png"))
    );
}

#[test]
fn test_resolve_asset_paths_in_expr() {
    let base = AssetPath::parse("ui/styles/main.guise");
    let mut x = UntypedExpr::parse("asset(../image.png)").unwrap();
    x.resolve_asset_paths(&base);
    match &x {
        UntypedExpr::Asset(a) => assert_eq!(*a.resolved(), AssetPath::parse("ui/image.png")),
        _ => panic!("expected an asset"),
    }
    let mut y = UntypedExpr::parse("auto").unwrap();
    y.resolve_asset_paths(&base);
    assert_eq!(y, UntypedExpr::Ident(s("auto")));
}
