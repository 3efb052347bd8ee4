use guise::style::ComputedStyle;
use guise::update::{component_updates, ComponentChange, PresentComponents};
use guise::values::ColorSpec;

fn none_present() -> PresentComponents {
    PresentComponents { style: false, text: false, background_color: false, border_color: false, image: false }
}

#[test]
fn test_updates_for_a_new_node() {
    let c = ComputedStyle::new();
    let u = component_updates(&c, &none_present());
    assert_eq!(u.style, ComponentChange::Insert(ComputedStyle::new().style));
    assert_eq!(u.background_color, ComponentChange::Keep);
    assert_eq!(u.border_color, ComponentChange::Keep);
    assert_eq!(u.image, ComponentChange::Keep);
    assert_eq!(u.text_color, None);
}

#[test]
fn test_updates_remove_transparent_colors() {
    let c = ComputedStyle::new();
    let has = PresentComponents { style: true, text: true, background_color: true, border_color: true, image: true };
    let u = component_updates(&c, &has);
    assert!(matches!(u.style, ComponentChange::Update(_)));
    assert_eq!(u.background_color, ComponentChange::Remove);
    assert_eq!(u.border_color, ComponentChange::Remove);
    assert_eq!(u.image, ComponentChange::Remove);
    assert!(u.text_color.is_some());
}

#[test]
fn test_image_needs_a_background() {
    let mut c = ComputedStyle::new();
    c.image.image = Some("ui/bg.png".to_string());
    c.border_color = Some(ColorSpec::Rgba8(1, 2, 3, 255));
    let u = component_updates(&c, &none_present());
    assert_eq!(u.background_color, ComponentChange::Insert(None));
    assert_eq!(u.border_color, ComponentChange::Insert(ColorSpec::Rgba8(1, 2, 3, 255)));
    assert!(matches!(u.image, ComponentChange::Insert(_)));
    let has = PresentComponents { background_color: true, ..none_present() };
    assert_eq!(component_updates(&c, &has).background_color, ComponentChange::Keep);
}
