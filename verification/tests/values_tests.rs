use guise::values::{color_from_captures, grid_from_captures, parse_val, val_from_captures, val_to_str, ColorSpec, GridPlacement, Val};

fn groups(items: &[Option<&str>]) -> Vec<Option<String>> {
    items.iter().map(|g| g.map(|t| t.to_string())).collect()
}

#[test]
fn test_val_from_captures() {
    let c = groups(&[Some("12vw"), Some("12"), Some("vw")]);
    assert_eq!(val_from_captures(&c), Val::Vw("12".to_string()));
    let c = groups(&[Some("3"), Some("3"), None]);
    assert_eq!(val_from_captures(&c), Val::Px("3".to_string()));
}

#[test]
fn test_color_from_captures() {
    let rgba = Some(groups(&[Some("rgba(1, 2, 3, 0.5)"), Some("1"), Some("2"), Some("3"), Some("0.5")]));
    let hsla = Some(groups(&[Some("hsla(1, 2, 3, 1)"), Some("1"), Some("2"), Some("3"), Some("1")]));
    assert_eq!(
        color_from_captures(&rgba, &hsla),
        Some(ColorSpec::Rgba("1".to_string(), "2".to_string(), "3".to_string(), "0.5".to_string()))
    );
    assert_eq!(
        color_from_captures(&None, &hsla),
        Some(ColorSpec::Hsla("1".to_string(), "2".to_string(), "3".to_string(), "1".to_string()))
    );
    assert_eq!(color_from_captures(&None, &None), None);
}

#[test]
fn test_grid_from_captures() {
    let end_form = Some(groups(&[Some("2 / 4"), Some("2"), Some("4")]));
    let span_form = Some(groups(&[Some("3 / span 2"), Some("3"), Some("2")]));
    assert_eq!(
        grid_from_captures(&end_form, &None),
        Some(GridPlacement { start: Some(2), span: Some(1), end: Some(4) })
    );
    assert_eq!(
        grid_from_captures(&None, &span_form),
        Some(GridPlacement { start: Some(3), span: Some(2), end: None })
    );
    assert_eq!(grid_from_captures(&None, &None), None);
}

#[test]
fn test_val_text_round_trip() {
    for v in [
        Val::Auto,
        Val::Px("12".to_string()),
        Val::Percent("50".to_string()),
        Val::Vw("1.5".to_string()),
        Val::Vh("3".to_string()),
        Val::VMin("7".to_string()),
        Val::VMax("-2".to_string()),
    ] {
        assert_eq!(parse_val(&val_to_str(&v)).unwrap(), v);
    }
}

#[test]
fn test_unescape_string() {
    use_unescape();
}

fn use_unescape() {
    assert_eq!(guise::text::unescape_string(r#"a\nb\"c\\"#), Some("a\nb\"c\\".to_string()));
    assert_eq!(guise::text::unescape_string(r"\$x\ y"), Some("$x y".to_string()));
    assert_eq!(guise::text::unescape_string(r"bad\q"), None);
    assert_eq!(guise::text::unescape_string("end\\"), None);
}
