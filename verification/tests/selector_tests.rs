use guise::selector::Selector;

#[test]
fn test_parse_current() {
    assert_eq!(
        "&".parse::<Selector>().unwrap(),
        Selector::Current(Box::new(Selector::Accept))
    );
}

#[test]
fn test_serialize() {
    assert_eq!(Selector::Current(Box::new(Selector::Accept)).to_string(), "&",);
    assert_eq!(
        Selector::Class("x".to_owned().into(), Box::new(Selector::Accept)).to_string(),
        ".x",
    );
    assert_eq!(
        ".foo > &.bar".parse::<Selector>().unwrap().to_string(),
        ".foo > &.bar",
    );
    assert_eq!(
        ".foo > .bar.baz".parse::<Selector>().unwrap().to_string(),
        ".foo > .bar.baz",
    );
    assert_eq!(
        ".foo > * > .bar".parse::<Selector>().unwrap().to_string(),
        ".foo > * > .bar",
    );
    assert_eq!(
        ".foo > &.bar.baz".parse::<Selector>().unwrap().to_string(),
        ".foo > &.bar.baz",
    );
    assert_eq!(
        ".a.b.c > .d.e.f > &.g.h.i"
            .parse::<Selector>()
            .unwrap()
            .to_string(),
        ".a.b.c > .d.e.f > &.g.h.i",
    );
    assert_eq!(
        ".foo, .bar".parse::<Selector>().unwrap().to_string(),
        ".foo, .bar",
    );
}

#[test]
fn test_parse_current_class() {
    assert_eq!(
        "&.foo".parse::<Selector>().unwrap(),
        Selector::Current(Box::new(Selector::Class(
            "foo".to_owned().into(),
            Box::new(Selector::Accept)
        )))
    );
}

#[test]
fn test_parse_class() {
    assert_eq!(
        ".foo".parse::<Selector>().unwrap(),
        Selector::Class("foo".to_owned().into(), Box::new(Selector::Accept))
    );
}

#[test]
fn test_parse_parent() {
    assert_eq!(
        "&.foo > .bar".parse::<Selector>().unwrap(),
        Selector::Class(
            "bar".to_owned().into(),
            Box::new(Selector::Parent(Box::new(Selector::Current(Box::new(
                Selector::Class("foo".to_owned().into(), Box::new(Selector::Accept))
            )))))
        )
    );

    assert_eq!(
        ".foo > &.bar".parse::<Selector>().unwrap(),
        Selector::Current(Box::new(Selector::Class(
            "bar".to_owned().into(),
            Box::new(Selector::Parent(Box::new(Selector::Class(
                "foo".to_owned().into(),
                Box::new(Selector::Accept)
            ))))
        )))
    );
}

#[test]
fn test_either() {
    assert_eq!(
        "&.foo, .bar".parse::<Selector>().unwrap(),
        Selector::Either(vec!(
            Box::new(Selector::Current(Box::new(Selector::Class(
                "foo".to_owned().into(),
                Box::new(Selector::Accept)
            )))),
            Box::new(Selector::Class(
                "bar".to_owned().into(),
                Box::new(Selector::Accept)
            ))
        ))
    );
}

#[test]
fn selector_rejects_malformed_text() {
    let err = ".1foo".parse::<Selector>().unwrap_err();
    assert_eq!(err, "Invalid selector: .1foo");
    assert!("&&".parse::<Selector>().is_err());
    assert_eq!(".foo >> .bar".parse::<Selector>().unwrap().to_string(), ".foo > * > .bar");
    assert!(".foo,".parse::<Selector>().is_ok());
}

#[test]
fn selector_round_trip_edge_cases() {
    for text in ["", "*", "> &", " > & ", ".a >", ".a > > .b", "&, .b", "*.x", "& > .a-b_c9"] {
        let sel = text.parse::<Selector>().unwrap();
        let again = sel.to_string().parse::<Selector>().unwrap();
        assert_eq!(sel, again);
    }
    assert_eq!("*.x".parse::<Selector>().unwrap().to_string(), ".x");
    assert_eq!(".a > > .b".parse::<Selector>().unwrap().to_string(), ".a > * > .b");
    assert_eq!("> &".parse::<Selector>().unwrap().to_string(), " > &");
}
