use guise::selector::Selector;
use guise::selectors_map::SelectorsMap;
use guise::untyped::UntypedExpr;
use guise::vars_map::VarsMap;
use guise::values::Val;

fn num(t: &str) -> UntypedExpr {
    UntypedExpr::Number(t.to_string())
}

#[test]
fn test_deserialize_vars() {
    let empty = VarsMap::from_entries(vec![]).unwrap();
    assert_eq!(empty.len(), 0);

    let x = VarsMap::from_entries(vec![("--x".to_string(), num("1"))]).unwrap();
    assert_eq!(x.len(), 1);
    assert_eq!(x.get("x"), Some(&num("1")));

    let bg = VarsMap::from_entries(vec![(
        "--bg".to_string(),
        UntypedExpr::parse("auto").unwrap(),
    )])
    .unwrap();
    assert_eq!(bg.get("bg"), Some(&UntypedExpr::Ident("auto".to_string())));
}

#[test]
fn test_serialize_vars() {
    let mut vars = VarsMap::new();
    vars.insert("x", num("7"));
    let entries = vars.entries_text();
    assert_eq!(entries.len(), 1);
    assert_eq!(entries[0].0, "--x");
    assert_eq!(entries[0].1, &num("7"));
}

#[test]
fn names_without_dashes_are_refused() {
    assert_eq!(
        VarsMap::from_entries(vec![
            ("--a".to_string(), num("1")),
            ("b".to_string(), num("2")),
            ("c".to_string(), num("3")),
        ]),
        Err("b".to_string())
    );
    assert_eq!(VarsMap::from_entries(vec![("-".to_string(), num("1"))]), Err("-".to_string()));
}

#[test]
fn later_definitions_replace_earlier_ones() {
    let vars = VarsMap::from_entries(vec![
        ("--a".to_string(), num("1")),
        ("--b".to_string(), num("2")),
        ("--a".to_string(), UntypedExpr::Length(Val::Px("3".to_string()))),
    ])
    .unwrap();
    assert_eq!(vars.len(), 2);
    assert_eq!(vars.get("a"), Some(&UntypedExpr::Length(Val::Px("3".to_string()))));
    assert_eq!(vars.get("b"), Some(&num("2")));
    assert_eq!(vars.get("c"), None);
    let mut vars = vars;
    assert_eq!(vars.insert("b", num("5")), Some(num("2")));
    assert_eq!(vars.insert("d", num("6")), None);
    assert_eq!(vars.len(), 3);
    assert_eq!(vars.get("d"), Some(&num("6")));
}

#[test]
fn test_deserialize_selectors() {
    let empty: SelectorsMap<u8> = SelectorsMap::from_entries(vec![]).unwrap();
    assert_eq!(empty.len(), 0);
    let m = SelectorsMap::from_entries(vec![("&.name".to_string(), 7u8)]).unwrap();
    assert_eq!(m.len(), 1);
    assert_eq!(
        m.entries()[0].0,
        Selector::Current(Box::new(Selector::Class("name".to_string(), Box::new(Selector::Accept))))
    );
    assert_eq!(m.entries()[0].1, 7);
}

#[test]
fn test_serialize_selectors() {
    let mut m: SelectorsMap<u8> = SelectorsMap::new();
    m.insert(Selector::Current(Box::new(Selector::Accept)), 1);
    let t = m.entries_text();
    assert_eq!(t[0].0, "&");
    assert_eq!(*t[0].1, 1);
}

#[test]
fn selector_keys_that_do_not_read() {
    let r = SelectorsMap::from_entries(vec![
        (".a".to_string(), 1u8),
        ("..".to_string(), 2u8),
        ("%".to_string(), 3u8),
    ]);
    assert_eq!(r, Err("Invalid selector: ..".to_string()));
}
