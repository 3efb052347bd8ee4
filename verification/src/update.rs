//! Which components of a node change when its computed style changes: the
//! decisions of a style update, for the engine to carry out.
use vstd::prelude::*;
use crate::style::{BreakLineOn, ComputedStyle, ImageProps, Style};
use crate::untyped::ColorValue;
use crate::values::ColorSpec;

verus! {

/// What happens to one component of a node.
#[derive(Debug, PartialEq)]
pub enum ComponentChange<T> {
    /// The component stays as it is, or stays absent.
    Keep,
    /// The present component takes this value (where it differs).
    Update(T),
    /// The component is added with this value.
    Insert(T),
    /// The component is removed.
    Remove,
}

/// Which of the style-related components a node has.
#[derive(Debug, Clone, Copy, PartialEq, Eq, Structural)]
pub struct PresentComponents {
    pub style: bool,
    pub text: bool,
    pub background_color: bool,
    pub border_color: bool,
    pub image: bool,
}

/// The changes to a node's components. A background color of `None` is the
/// component's default color, which an image needs behind it.
#[derive(Debug, PartialEq)]
pub struct ComponentUpdates {
    pub style: ComponentChange<Style>,
    pub text_color: Option<ColorValue>,
    pub text_line_break: Option<BreakLineOn>,
    pub background_color: ComponentChange<Option<ColorSpec>>,
    pub border_color: ComponentChange<ColorSpec>,
    pub image: ComponentChange<ImageProps>,
}

/// The layout style: set where present, else inserted.
pub open spec fn style_change(c: ComputedStyle, has: PresentComponents) -> ComponentChange<Style> {
    if has.style {
        ComponentChange::Update(c.style)
    } else {
        ComponentChange::Insert(c.style)
    }
}

/// The background: a color that is not transparent is set or inserted; a
/// transparent one removes the component unless an image is drawn, which
/// keeps it, or inserts the default color where it is missing.
pub open spec fn background_change(c: ComputedStyle, has: PresentComponents) -> ComponentChange<
    Option<ColorSpec>,
> {
    match c.background_color {
        Some(color) => if has.background_color {
            ComponentChange::Update(Some(color))
        } else {
            ComponentChange::Insert(Some(color))
        },
        None => if has.background_color {
            if c.image.image is None {
                ComponentChange::Remove
            } else {
                ComponentChange::Keep
            }
        } else {
            if c.image.image is Some {
                ComponentChange::Insert(None)
            } else {
                ComponentChange::Keep
            }
        },
    }
}

/// The border: a color that is not transparent is set or inserted; a
/// transparent one removes the component.
pub open spec fn border_change(c: ComputedStyle, has: PresentComponents) -> ComponentChange<ColorSpec> {
    match c.border_color {
        Some(color) => if has.border_color {
            ComponentChange::Update(color)
        } else {
            ComponentChange::Insert(color)
        },
        None => if has.border_color {
            ComponentChange::Remove
        } else {
            ComponentChange::Keep
        },
    }
}

/// The image: set or inserted with its mirroring where the style has one,
/// removed where it has none.
pub open spec fn image_change(c: ComputedStyle, has: PresentComponents) -> ComponentChange<ImageProps> {
    if c.image.image is Some {
        if has.image {
            ComponentChange::Update(c.image)
        } else {
            ComponentChange::Insert(c.image)
        }
    } else {
        if has.image {
            ComponentChange::Remove
        } else {
            ComponentChange::Keep
        }
    }
}

/// All the changes for a node with the components `has` and the computed
/// style `c`. A text takes the style's text color, and its line breaking
/// where the style sets one; a node without a text is given none.
pub open spec fn updates_spec(c: ComputedStyle, has: PresentComponents) -> ComponentUpdates {
    ComponentUpdates {
        style: style_change(c, has),
        text_color: if has.text {
            Some(c.text.color)
        } else {
            None
        },
        text_line_break: if has.text {
            c.text.line_break
        } else {
            None
        },
        background_color: background_change(c, has),
        border_color: border_change(c, has),
        image: image_change(c, has),
    }
}

fn clone_spec(c: &ColorSpec) -> (r: ColorSpec)
    ensures
        r == *c,
{
    c.clone()
}

/// The changes that bring a node with the components `has` in line with the
/// computed style `c`.
pub fn component_updates(c: &ComputedStyle, has: &PresentComponents) -> (u: ComponentUpdates)
    ensures
        u == updates_spec(*c, *has),
{
    let style = if has.style {
        ComponentChange::Update(c.style.clone())
    } else {
        ComponentChange::Insert(c.style.clone())
    };
    let (text_color, text_line_break) = if has.text {
        (Some(c.text.color.clone()), c.text.line_break)
    } else {
        (None, None)
    };
    let has_image = c.image.image.is_some();
    let background_color = match &c.background_color {
        Some(color) => if has.background_color {
            ComponentChange::Update(Some(clone_spec(color)))
        } else {
            ComponentChange::Insert(Some(clone_spec(color)))
        },
        None => if has.background_color {
            if !has_image {
                ComponentChange::Remove
            } else {
                ComponentChange::Keep
            }
        } else {
            if has_image {
                ComponentChange::Insert(None)
            } else {
                ComponentChange::Keep
            }
        },
    };
    let border_color = match &c.border_color {
        Some(color) => if has.border_color {
            ComponentChange::Update(clone_spec(color))
        } else {
            ComponentChange::Insert(clone_spec(color))
        },
        None => if has.border_color {
            ComponentChange::Remove
        } else {
            ComponentChange::Keep
        },
    };
    let image = if has_image {
        if has.image {
            ComponentChange::Update(c.image.clone())
        } else {
            ComponentChange::Insert(c.image.clone())
        }
    } else {
        if has.image {
            ComponentChange::Remove
        } else {
            ComponentChange::Keep
        }
    };
    ComponentUpdates { style, text_color, text_line_break, background_color, border_color, image }
}

/// A color that is not transparent is applied: a present background or
/// border takes the new color, and a missing one is added with it.
pub proof fn lemma_colors_are_applied(c: ComputedStyle, has: PresentComponents)
    ensures
        c.border_color matches Some(x) ==> updates_spec(c, has).border_color == (if has.border_color {
            ComponentChange::Update(x)
        } else {
            ComponentChange::Insert(x)
        }),
        c.background_color matches Some(x) ==> updates_spec(c, has).background_color == (
        if has.background_color {
            ComponentChange::Update(Some(x))
        } else {
            ComponentChange::Insert(Some(x))
        }),
{
}

/// A transparent border removes a present border component and adds none.
/// A transparent background removes the component unless an image is drawn;
/// an image keeps a present background and adds the default one where it is
/// missing.
pub proof fn lemma_transparent_colors(c: ComputedStyle, has: PresentComponents)
    ensures
        c.border_color is None ==> updates_spec(c, has).border_color == (if has.border_color {
            ComponentChange::<ColorSpec>::Remove
        } else {
            ComponentChange::<ColorSpec>::Keep
        }),
        c.background_color is None && c.image.image is None ==> updates_spec(c, has).background_color
            == (if has.background_color {
            ComponentChange::<Option<ColorSpec>>::Remove
        } else {
            ComponentChange::<Option<ColorSpec>>::Keep
        }),
        c.background_color is None && c.image.image is Some ==> updates_spec(
            c,
            has,
        ).background_color == (if has.background_color {
            ComponentChange::<Option<ColorSpec>>::Keep
        } else {
            ComponentChange::<Option<ColorSpec>>::Insert(None)
        }),
{
}

/// The layout style always takes the computed one; an image is applied,
/// with its mirroring, where the style has one and removed where it has
/// none; a text takes the text color and, where set, the line breaking.
pub proof fn lemma_style_image_and_text(c: ComputedStyle, has: PresentComponents)
    ensures
        updates_spec(c, has).style == (if has.style {
            ComponentChange::Update(c.style)
        } else {
            ComponentChange::Insert(c.style)
        }),
        c.image.image is Some ==> updates_spec(c, has).image == (if has.image {
            ComponentChange::Update(c.image)
        } else {
            ComponentChange::Insert(c.image)
        }),
        c.image.image is None ==> updates_spec(c, has).image == (if has.image {
            ComponentChange::<ImageProps>::Remove
        } else {
            ComponentChange::<ImageProps>::Keep
        }),
        has.text ==> updates_spec(c, has).text_color == Some(c.text.color)
            && updates_spec(c, has).text_line_break == c.text.line_break,
        !(has.text) ==> updates_spec(c, has).text_color is None && updates_spec(c, has).text_line_break is None,
{
}

} // verus!
