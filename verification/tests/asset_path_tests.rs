use guise::asset_path::{relative_asset_path, AssetPath, AssetRef};

#[test]
fn test_relative_path() {
    let base = AssetPath::parse("alice/bob#carol");
    assert_eq!(
        relative_asset_path(&base, "joe/next"),
        AssetPath::parse("joe/next")
    );
    assert_eq!(
        relative_asset_path(&base, "#dave"),
        AssetPath::parse("alice/bob#dave")
    );
    assert_eq!(
        relative_asset_path(&base, "./martin#dave"),
        AssetPath::parse("alice/martin#dave")
    );
    assert_eq!(
        relative_asset_path(&base, "../martin#dave"),
        AssetPath::parse("martin#dave")
    );
}

#[test]
fn asset_path_parse_components() {
    let p = AssetPath::parse("a//b/./c/#x#y");
    assert_eq!(p.path, vec!["a".to_string(), "b".to_string(), "c".to_string()]);
    assert_eq!(p.label, Some("x#y".to_string()));
    let q = AssetPath::parse("./a");
    assert_eq!(q.path, vec![".".to_string(), "a".to_string()]);
    let r = AssetPath::parse("/a");
    assert_eq!(r.path, vec!["/".to_string(), "a".to_string()]);
    let e = AssetPath::parse("");
    assert!(e.path.is_empty());
    assert_eq!(e.label, None);
}

#[test]
fn absolute_path_is_independent_of_base() {
    let b1 = AssetPath::parse("alice/bob");
    let b2 = AssetPath::parse("x/y/z#q");
    assert_eq!(relative_asset_path(&b1, "joe/next#l"), relative_asset_path(&b2, "joe/next#l"));
}

#[test]
fn asset_ref_resolves_against_base() {
    let mut r = AssetRef::new("../image.png");
    assert_eq!(r.resolved(), &AssetPath::parse("../image.png"));
    r.resolve_asset_path(&AssetPath::parse("ui/styles/main.json"));
    assert_eq!(r.resolved(), &AssetPath::parse("ui/image.png"));
}
