//! Style attributes: one property of a style each, read from an XML
//! attribute's name and value, applied to a computed style, and written back.
use vstd::prelude::*;
use crate::error::GuiseError;
use crate::keywords::{
    str_eq, AlignContent, AlignItems, AlignSelf, Direction, Display, FlexDirection, FlexWrap,
    GridAutoFlow, JustifyContent, JustifyItems, JustifySelf, OverflowAxis, PositionType,
};
use crate::number::{
    float_text, int_text, int_to_text, is_float_text, parse_i16, parse_i16_spec, parse_i32,
    parse_i32_spec, parse_u16, parse_u16_spec,
};
use crate::style::{ComputedStyle, Overflow, Style};
use crate::text::chars_of;
use crate::values::{
    color_parse, color_panics, color_text, color_to_str, color_would_panic, copy_str, grid_panics,
    grid_parse, grid_would_panic, parse_color, parse_grid_placement, parse_uirect, parse_val,
    rect_panics, rect_parse, rect_text, rect_would_panic, uirect_to_str, val_panics, val_parse,
    val_text, val_to_str, val_would_panic, ColorModel, ColorSpec, GridPlacement, UiRect, Unit, Val,
};

verus! {

/// The property that a style attribute sets.
#[derive(Debug, Clone, Copy, PartialEq, Eq, Structural)]
pub enum Prop {
    BackgroundColor,
    BorderColor,
    ZIndex,
    Display,
    Position,
    Overflow,
    OverflowX,
    OverflowY,
    Direction,
    Left,
    Right,
    Top,
    Bottom,
    Width,
    Height,
    MinWidth,
    MinHeight,
    MaxWidth,
    MaxHeight,
    AlignItems,
    JustifyItems,
    AlignSelf,
    JustifySelf,
    AlignContent,
    JustifyContent,
    Margin,
    MarginLeft,
    MarginRight,
    MarginTop,
    MarginBottom,
    Padding,
    PaddingLeft,
    PaddingRight,
    PaddingTop,
    PaddingBottom,
    Border,
    BorderLeft,
    BorderRight,
    BorderTop,
    BorderBottom,
    FlexDirection,
    FlexWrap,
    FlexGrow,
    FlexShrink,
    FlexBasis,
    RowGap,
    ColumnGap,
    Gap,
    GridAutoFlow,
    GridRow,
    GridRowStart,
    GridRowSpan,
    GridRowEnd,
    GridColumn,
    GridColumnStart,
    GridColumnSpan,
    GridColumnEnd,
}

/// The keyword-valued properties, by the keywords they take.
#[derive(Debug, Clone, Copy, PartialEq, Eq, Structural)]
pub enum KeywordSet {
    AlignContent,
    AlignItems,
    AlignSelf,
    Direction,
    Display,
    FlexDirection,
    FlexWrap,
    GridAutoFlow,
    JustifyContent,
    JustifyItems,
    JustifySelf,
    OverflowAxis,
    PositionType,
}

/// What kind of value a property takes.
#[derive(Debug, Clone, Copy, PartialEq, Eq, Structural)]
pub enum Kind {
    Color,
    I32,
    I16,
    U16,
    Float,
    Length,
    Rect,
    Grid,
    Keyword(KeywordSet),
}

/// Whether `v` is one of the keywords of a keyword set.
pub open spec fn keyword_known(k: KeywordSet, v: Seq<char>) -> bool {
    match k {
        KeywordSet::AlignContent => AlignContent::spec_from_keyword(v) is Some,
        KeywordSet::AlignItems => AlignItems::spec_from_keyword(v) is Some,
        KeywordSet::AlignSelf => AlignSelf::spec_from_keyword(v) is Some,
        KeywordSet::Direction => Direction::spec_from_keyword(v) is Some,
        KeywordSet::Display => Display::spec_from_keyword(v) is Some,
        KeywordSet::FlexDirection => FlexDirection::spec_from_keyword(v) is Some,
        KeywordSet::FlexWrap => FlexWrap::spec_from_keyword(v) is Some,
        KeywordSet::GridAutoFlow => GridAutoFlow::spec_from_keyword(v) is Some,
        KeywordSet::JustifyContent => JustifyContent::spec_from_keyword(v) is Some,
        KeywordSet::JustifyItems => JustifyItems::spec_from_keyword(v) is Some,
        KeywordSet::JustifySelf => JustifySelf::spec_from_keyword(v) is Some,
        KeywordSet::OverflowAxis => OverflowAxis::spec_from_keyword(v) is Some,
        KeywordSet::PositionType => PositionType::spec_from_keyword(v) is Some,
    }
}

/// The text that bytes spell, one character per byte.
pub open spec fn byte_text(b: Seq<u8>) -> Seq<char> {
    b.map_values(|x: u8| x as char)
}

/// Whether the bytes `name` spell the text `s`, one character per byte.
pub fn name_is(name: &[u8], s: &str) -> (r: bool)
    ensures
        r == (byte_text(name@) == s@),
{
    let v = chars_of(s);
    if name.len() != v.len() {
        return false;
    }
    let mut i: usize = 0;
    while i < v.len()
        invariant
            v@ == s@,
            name@.len() == v@.len(),
            i <= v@.len(),
            forall|j: int| 0 <= j < i ==> (name@[j] as char) == #[trigger] v@[j],
        decreases v@.len() - i,
    {
        if name[i] as char != v[i] {
            assert(byte_text(name@)[i as int] != s@[i as int]);
            return false;
        }
        i = i + 1;
    }
    assert(byte_text(name@) =~= s@);
    true
}

impl Prop {
    /// The attribute name that writes this property.
    pub open spec fn spec_name(self) -> Seq<char> {
        match self {
            Prop::BackgroundColor => "background-color"@,
            Prop::BorderColor => "border-color"@,
            Prop::ZIndex => "z-index"@,
            Prop::Display => "display"@,
            Prop::Position => "position"@,
            Prop::Overflow => "overflow"@,
            Prop::OverflowX => "overflow-x"@,
            Prop::OverflowY => "overflow-y"@,
            Prop::Direction => "direction"@,
            Prop::Left => "left"@,
            Prop::Right => "right"@,
            Prop::Top => "top"@,
            Prop::Bottom => "bottom"@,
            Prop::Width => "width"@,
            Prop::Height => "height"@,
            Prop::MinWidth => "min-width"@,
            Prop::MinHeight => "min-height"@,
            Prop::MaxWidth => "max-width"@,
            Prop::MaxHeight => "max-height"@,
            Prop::AlignItems => "align-items"@,
            Prop::JustifyItems => "justify-items"@,
            Prop::AlignSelf => "align-self"@,
            Prop::JustifySelf => "justify-self"@,
            Prop::AlignContent => "align-content"@,
            Prop::JustifyContent => "justify-content"@,
            Prop::Margin => "margin"@,
            Prop::MarginLeft => "margin-left"@,
            Prop::MarginRight => "margin-right"@,
            Prop::MarginTop => "margin-top"@,
            Prop::MarginBottom => "margin-bottom"@,
            Prop::Padding => "padding"@,
            Prop::PaddingLeft => "padding-left"@,
            Prop::PaddingRight => "padding-right"@,
            Prop::PaddingTop => "padding-top"@,
            Prop::PaddingBottom => "padding-bottom"@,
            Prop::Border => "border"@,
            Prop::BorderLeft => "border-left"@,
            Prop::BorderRight => "border-right"@,
            Prop::BorderTop => "border-top"@,
            Prop::BorderBottom => "border-bottom"@,
            Prop::FlexDirection => "flex-direction"@,
            Prop::FlexWrap => "flex-wrap"@,
            Prop::FlexGrow => "flex-grow"@,
            Prop::FlexShrink => "flex-shrink"@,
            Prop::FlexBasis => "flex-basis"@,
            Prop::RowGap => "row-gap"@,
            Prop::ColumnGap => "column-gap"@,
            Prop::Gap => "gap"@,
            Prop::GridAutoFlow => "grid-auto-flow"@,
            Prop::GridRow => "grid-row"@,
            Prop::GridRowStart => "grid-row-start"@,
            Prop::GridRowSpan => "grid-row-span"@,
            Prop::GridRowEnd => "grid-row-end"@,
            Prop::GridColumn => "grid-column"@,
            Prop::GridColumnStart => "grid-column-start"@,
            Prop::GridColumnSpan => "grid-column-span"@,
            Prop::GridColumnEnd => "grid-column-end"@,
        }
    }

    /// The attribute name that writes this property.
    pub fn name(&self) -> (r: &'static str)
        ensures
            r@ == self.spec_name(),
    {
        match self {
            Prop::BackgroundColor => "background-color",
            Prop::BorderColor => "border-color",
            Prop::ZIndex => "z-index",
            Prop::Display => "display",
            Prop::Position => "position",
            Prop::Overflow => "overflow",
            Prop::OverflowX => "overflow-x",
            Prop::OverflowY => "overflow-y",
            Prop::Direction => "direction",
            Prop::Left => "left",
            Prop::Right => "right",
            Prop::Top => "top",
            Prop::Bottom => "bottom",
            Prop::Width => "width",
            Prop::Height => "height",
            Prop::MinWidth => "min-width",
            Prop::MinHeight => "min-height",
            Prop::MaxWidth => "max-width",
            Prop::MaxHeight => "max-height",
            Prop::AlignItems => "align-items",
            Prop::JustifyItems => "justify-items",
            Prop::AlignSelf => "align-self",
            Prop::JustifySelf => "justify-self",
            Prop::AlignContent => "align-content",
            Prop::JustifyContent => "justify-content",
            Prop::Margin => "margin",
            Prop::MarginLeft => "margin-left",
            Prop::MarginRight => "margin-right",
            Prop::MarginTop => "margin-top",
            Prop::MarginBottom => "margin-bottom",
            Prop::Padding => "padding",
            Prop::PaddingLeft => "padding-left",
            Prop::PaddingRight => "padding-right",
            Prop::PaddingTop => "padding-top",
            Prop::PaddingBottom => "padding-bottom",
            Prop::Border => "border",
            Prop::BorderLeft => "border-left",
            Prop::BorderRight => "border-right",
            Prop::BorderTop => "border-top",
            Prop::BorderBottom => "border-bottom",
            Prop::FlexDirection => "flex-direction",
            Prop::FlexWrap => "flex-wrap",
            Prop::FlexGrow => "flex-grow",
            Prop::FlexShrink => "flex-shrink",
            Prop::FlexBasis => "flex-basis",
            Prop::RowGap => "row-gap",
            Prop::ColumnGap => "column-gap",
            Prop::Gap => "gap",
            Prop::GridAutoFlow => "grid-auto-flow",
            Prop::GridRow => "grid-row",
            Prop::GridRowStart => "grid-row-start",
            Prop::GridRowSpan => "grid-row-span",
            Prop::GridRowEnd => "grid-row-end",
            Prop::GridColumn => "grid-column",
            Prop::GridColumnStart => "grid-column-start",
            Prop::GridColumnSpan => "grid-column-span",
            Prop::GridColumnEnd => "grid-column-end",
        }
    }

    /// The kind of value this property takes.
    pub open spec fn kind(self) -> Kind {
        match self {
            Prop::BackgroundColor => Kind::Color,
            Prop::BorderColor => Kind::Color,
            Prop::ZIndex => Kind::I32,
            Prop::Display => Kind::Keyword(KeywordSet::Display),
            Prop::Position => Kind::Keyword(KeywordSet::PositionType),
            Prop::Overflow => Kind::Keyword(KeywordSet::OverflowAxis),
            Prop::OverflowX => Kind::Keyword(KeywordSet::OverflowAxis),
            Prop::OverflowY => Kind::Keyword(KeywordSet::OverflowAxis),
            Prop::Direction => Kind::Keyword(KeywordSet::Direction),
            Prop::Left => Kind::Length,
            Prop::Right => Kind::Length,
            Prop::Top => Kind::Length,
            Prop::Bottom => Kind::Length,
            Prop::Width => Kind::Length,
            Prop::Height => Kind::Length,
            Prop::MinWidth => Kind::Length,
            Prop::MinHeight => Kind::Length,
            Prop::MaxWidth => Kind::Length,
            Prop::MaxHeight => Kind::Length,
            Prop::AlignItems => Kind::Keyword(KeywordSet::AlignItems),
            Prop::JustifyItems => Kind::Keyword(KeywordSet::JustifyItems),
            Prop::AlignSelf => Kind::Keyword(KeywordSet::AlignSelf),
            Prop::JustifySelf => Kind::Keyword(KeywordSet::JustifySelf),
            Prop::AlignContent => Kind::Keyword(KeywordSet::AlignContent),
            Prop::JustifyContent => Kind::Keyword(KeywordSet::JustifyContent),
            Prop::Margin => Kind::Rect,
            Prop::MarginLeft => Kind::Length,
            Prop::MarginRight => Kind::Length,
            Prop::MarginTop => Kind::Length,
            Prop::MarginBottom => Kind::Length,
            Prop::Padding => Kind::Rect,
            Prop::PaddingLeft => Kind::Length,
            Prop::PaddingRight => Kind::Length,
            Prop::PaddingTop => Kind::Length,
            Prop::PaddingBottom => Kind::Length,
            Prop::Border => Kind::Rect,
            Prop::BorderLeft => Kind::Length,
            Prop::BorderRight => Kind::Length,
            Prop::BorderTop => Kind::Length,
            Prop::BorderBottom => Kind::Length,
            Prop::FlexDirection => Kind::Keyword(KeywordSet::FlexDirection),
            Prop::FlexWrap => Kind::Keyword(KeywordSet::FlexWrap),
            Prop::FlexGrow => Kind::Float,
            Prop::FlexShrink => Kind::Float,
            Prop::FlexBasis => Kind::Length,
            Prop::RowGap => Kind::Length,
            Prop::ColumnGap => Kind::Length,
            Prop::Gap => Kind::Length,
            Prop::GridAutoFlow => Kind::Keyword(KeywordSet::GridAutoFlow),
            Prop::GridRow => Kind::Grid,
            Prop::GridRowStart => Kind::I16,
            Prop::GridRowSpan => Kind::U16,
            Prop::GridRowEnd => Kind::I16,
            Prop::GridColumn => Kind::Grid,
            Prop::GridColumnStart => Kind::I16,
            Prop::GridColumnSpan => Kind::U16,
            Prop::GridColumnEnd => Kind::I16,
        }
    }
}

/// The property that an attribute name names; `flex` is the growth factor.
pub open spec fn prop_named(name: Seq<u8>) -> Option<Prop> {
    if byte_text(name) == "background-color"@ {
        Some(Prop::BackgroundColor)
    } else if byte_text(name) == "border-color"@ {
        Some(Prop::BorderColor)
    } else if byte_text(name) == "z-index"@ {
        Some(Prop::ZIndex)
    } else if byte_text(name) == "display"@ {
        Some(Prop::Display)
    } else if byte_text(name) == "position"@ {
        Some(Prop::Position)
    } else if byte_text(name) == "overflow"@ {
        Some(Prop::Overflow)
    } else if byte_text(name) == "overflow-x"@ {
        Some(Prop::OverflowX)
    } else if byte_text(name) == "overflow-y"@ {
        Some(Prop::OverflowY)
    } else if byte_text(name) == "direction"@ {
        Some(Prop::Direction)
    } else if byte_text(name) == "left"@ {
        Some(Prop::Left)
    } else if byte_text(name) == "right"@ {
        Some(Prop::Right)
    } else if byte_text(name) == "top"@ {
        Some(Prop::Top)
    } else if byte_text(name) == "bottom"@ {
        Some(Prop::Bottom)
    } else if byte_text(name) == "width"@ {
        Some(Prop::Width)
    } else if byte_text(name) == "height"@ {
        Some(Prop::Height)
    } else if byte_text(name) == "min-width"@ {
        Some(Prop::MinWidth)
    } else if byte_text(name) == "min-height"@ {
        Some(Prop::MinHeight)
    } else if byte_text(name) == "max-width"@ {
        Some(Prop::MaxWidth)
    } else if byte_text(name) == "max-height"@ {
        Some(Prop::MaxHeight)
    } else if byte_text(name) == "align-items"@ {
        Some(Prop::AlignItems)
    } else if byte_text(name) == "justify-items"@ {
        Some(Prop::JustifyItems)
    } else if byte_text(name) == "align-self"@ {
        Some(Prop::AlignSelf)
    } else if byte_text(name) == "justify-self"@ {
        Some(Prop::JustifySelf)
    } else if byte_text(name) == "align-content"@ {
        Some(Prop::AlignContent)
    } else if byte_text(name) == "justify-content"@ {
        Some(Prop::JustifyContent)
    } else if byte_text(name) == "margin"@ {
        Some(Prop::Margin)
    } else if byte_text(name) == "margin-left"@ {
        Some(Prop::MarginLeft)
    } else if byte_text(name) == "margin-right"@ {
        Some(Prop::MarginRight)
    } else if byte_text(name) == "margin-top"@ {
        Some(Prop::MarginTop)
    } else if byte_text(name) == "margin-bottom"@ {
        Some(Prop::MarginBottom)
    } else if byte_text(name) == "padding"@ {
        Some(Prop::Padding)
    } else if byte_text(name) == "padding-left"@ {
        Some(Prop::PaddingLeft)
    } else if byte_text(name) == "padding-right"@ {
        Some(Prop::PaddingRight)
    } else if byte_text(name) == "padding-top"@ {
        Some(Prop::PaddingTop)
    } else if byte_text(name) == "padding-bottom"@ {
        Some(Prop::PaddingBottom)
    } else if byte_text(name) == "border"@ {
        Some(Prop::Border)
    } else if byte_text(name) == "border-left"@ {
        Some(Prop::BorderLeft)
    } else if byte_text(name) == "border-right"@ {
        Some(Prop::BorderRight)
    } else if byte_text(name) == "border-top"@ {
        Some(Prop::BorderTop)
    } else if byte_text(name) == "border-bottom"@ {
        Some(Prop::BorderBottom)
    } else if byte_text(name) == "flex-direction"@ {
        Some(Prop::FlexDirection)
    } else if byte_text(name) == "flex-wrap"@ {
        Some(Prop::FlexWrap)
    } else if byte_text(name) == "flex"@ {
        Some(Prop::FlexGrow)
    } else if byte_text(name) == "flex-grow"@ {
        Some(Prop::FlexGrow)
    } else if byte_text(name) == "flex-shrink"@ {
        Some(Prop::FlexShrink)
    } else if byte_text(name) == "flex-basis"@ {
        Some(Prop::FlexBasis)
    } else if byte_text(name) == "row-gap"@ {
        Some(Prop::RowGap)
    } else if byte_text(name) == "column-gap"@ {
        Some(Prop::ColumnGap)
    } else if byte_text(name) == "gap"@ {
        Some(Prop::Gap)
    } else if byte_text(name) == "grid-auto-flow"@ {
        Some(Prop::GridAutoFlow)
    } else if byte_text(name) == "grid-row"@ {
        Some(Prop::GridRow)
    } else if byte_text(name) == "grid-row-start"@ {
        Some(Prop::GridRowStart)
    } else if byte_text(name) == "grid-row-span"@ {
        Some(Prop::GridRowSpan)
    } else if byte_text(name) == "grid-row-end"@ {
        Some(Prop::GridRowEnd)
    } else if byte_text(name) == "grid-column"@ {
        Some(Prop::GridColumn)
    } else if byte_text(name) == "grid-column-start"@ {
        Some(Prop::GridColumnStart)
    } else if byte_text(name) == "grid-column-span"@ {
        Some(Prop::GridColumnSpan)
    } else if byte_text(name) == "grid-column-end"@ {
        Some(Prop::GridColumnEnd)
    } else {
        None
    }
}

/// The property that an attribute name names, if any.
pub fn prop_from_name(name: &[u8]) -> (r: Option<Prop>)
    ensures
        r == prop_named(name@),
{
    if name_is(name, "background-color") {
        Some(Prop::BackgroundColor)
    } else if name_is(name, "border-color") {
        Some(Prop::BorderColor)
    } else if name_is(name, "z-index") {
        Some(Prop::ZIndex)
    } else if name_is(name, "display") {
        Some(Prop::Display)
    } else if name_is(name, "position") {
        Some(Prop::Position)
    } else if name_is(name, "overflow") {
        Some(Prop::Overflow)
    } else if name_is(name, "overflow-x") {
        Some(Prop::OverflowX)
    } else if name_is(name, "overflow-y") {
        Some(Prop::OverflowY)
    } else if name_is(name, "direction") {
        Some(Prop::Direction)
    } else if name_is(name, "left") {
        Some(Prop::Left)
    } else if name_is(name, "right") {
        Some(Prop::Right)
    } else if name_is(name, "top") {
        Some(Prop::Top)
    } else if name_is(name, "bottom") {
        Some(Prop::Bottom)
    } else if name_is(name, "width") {
        Some(Prop::Width)
    } else if name_is(name, "height") {
        Some(Prop::Height)
    } else if name_is(name, "min-width") {
        Some(Prop::MinWidth)
    } else if name_is(name, "min-height") {
        Some(Prop::MinHeight)
    } else if name_is(name, "max-width") {
        Some(Prop::MaxWidth)
    } else if name_is(name, "max-height") {
        Some(Prop::MaxHeight)
    } else if name_is(name, "align-items") {
        Some(Prop::AlignItems)
    } else if name_is(name, "justify-items") {
        Some(Prop::JustifyItems)
    } else if name_is(name, "align-self") {
        Some(Prop::AlignSelf)
    } else if name_is(name, "justify-self") {
        Some(Prop::JustifySelf)
    } else if name_is(name, "align-content") {
        Some(Prop::AlignContent)
    } else if name_is(name, "justify-content") {
        Some(Prop::JustifyContent)
    } else if name_is(name, "margin") {
        Some(Prop::Margin)
    } else if name_is(name, "margin-left") {
        Some(Prop::MarginLeft)
    } else if name_is(name, "margin-right") {
        Some(Prop::MarginRight)
    } else if name_is(name, "margin-top") {
        Some(Prop::MarginTop)
    } else if name_is(name, "margin-bottom") {
        Some(Prop::MarginBottom)
    } else if name_is(name, "padding") {
        Some(Prop::Padding)
    } else if name_is(name, "padding-left") {
        Some(Prop::PaddingLeft)
    } else if name_is(name, "padding-right") {
        Some(Prop::PaddingRight)
    } else if name_is(name, "padding-top") {
        Some(Prop::PaddingTop)
    } else if name_is(name, "padding-bottom") {
        Some(Prop::PaddingBottom)
    } else if name_is(name, "border") {
        Some(Prop::Border)
    } else if name_is(name, "border-left") {
        Some(Prop::BorderLeft)
    } else if name_is(name, "border-right") {
        Some(Prop::BorderRight)
    } else if name_is(name, "border-top") {
        Some(Prop::BorderTop)
    } else if name_is(name, "border-bottom") {
        Some(Prop::BorderBottom)
    } else if name_is(name, "flex-direction") {
        Some(Prop::FlexDirection)
    } else if name_is(name, "flex-wrap") {
        Some(Prop::FlexWrap)
    } else if name_is(name, "flex") {
        Some(Prop::FlexGrow)
    } else if name_is(name, "flex-grow") {
        Some(Prop::FlexGrow)
    } else if name_is(name, "flex-shrink") {
        Some(Prop::FlexShrink)
    } else if name_is(name, "flex-basis") {
        Some(Prop::FlexBasis)
    } else if name_is(name, "row-gap") {
        Some(Prop::RowGap)
    } else if name_is(name, "column-gap") {
        Some(Prop::ColumnGap)
    } else if name_is(name, "gap") {
        Some(Prop::Gap)
    } else if name_is(name, "grid-auto-flow") {
        Some(Prop::GridAutoFlow)
    } else if name_is(name, "grid-row") {
        Some(Prop::GridRow)
    } else if name_is(name, "grid-row-start") {
        Some(Prop::GridRowStart)
    } else if name_is(name, "grid-row-span") {
        Some(Prop::GridRowSpan)
    } else if name_is(name, "grid-row-end") {
        Some(Prop::GridRowEnd)
    } else if name_is(name, "grid-column") {
        Some(Prop::GridColumn)
    } else if name_is(name, "grid-column-start") {
        Some(Prop::GridColumnStart)
    } else if name_is(name, "grid-column-span") {
        Some(Prop::GridColumnSpan)
    } else if name_is(name, "grid-column-end") {
        Some(Prop::GridColumnEnd)
    } else {
        None
    }
}

/// A value of a style attribute, with its numbers as text and its keywords
/// as the keywords that write them.
pub enum AttrValue {
    Color(Option<ColorModel>),
    Int(int),
    Keyword(Seq<char>),
    Length((Unit, Seq<char>)),
    Rect(((Unit, Seq<char>), (Unit, Seq<char>), (Unit, Seq<char>), (Unit, Seq<char>))),
    Number(Seq<char>),
    Grid(GridPlacement),
}

/// Why a value was refused: a keyword that the property does not take, or
/// a value that does not read as the property's kind. Each holds the text
/// that the error names.
pub enum ValueError {
    Unknown(Seq<char>),
    Invalid(Seq<char>),
}

/// The error `e` reports `v`.
pub open spec fn reports(e: GuiseError, v: ValueError) -> bool {
    match v {
        ValueError::Unknown(t) => e matches GuiseError::UnknownAttributeValue(m) && m@ == t,
        ValueError::Invalid(t) => e matches GuiseError::InvalidAttributeValue(m) && m@ == t,
    }
}

/// What the value text `v` of property `p` reads as.
pub open spec fn value_parse(p: Prop, v: Seq<char>) -> Result<AttrValue, ValueError> {
    match p.kind() {
        Kind::Color => if v == "transparent"@ {
            Ok(AttrValue::Color(None))
        } else {
            match color_parse(v) {
                Some(m) => Ok(AttrValue::Color(Some(m))),
                None => Err(ValueError::Invalid(v)),
            }
        },
        Kind::I32 => match parse_i32_spec(v) {
            Some(n) => Ok(AttrValue::Int(n as int)),
            None => Err(ValueError::Invalid(v)),
        },
        Kind::I16 => match parse_i16_spec(v) {
            Some(n) => Ok(AttrValue::Int(n as int)),
            None => Err(ValueError::Invalid(v)),
        },
        Kind::U16 => match parse_u16_spec(v) {
            Some(n) => Ok(AttrValue::Int(n as int)),
            None => Err(ValueError::Invalid(v)),
        },
        Kind::Float => if float_text(v) {
            Ok(AttrValue::Number(v))
        } else {
            Err(ValueError::Invalid(v))
        },
        Kind::Length => match val_parse(v) {
            Some(l) => Ok(AttrValue::Length(l)),
            None => Err(ValueError::Invalid(v)),
        },
        Kind::Rect => match rect_parse(v) {
            Ok(r) => Ok(AttrValue::Rect(r)),
            Err(t) => Err(ValueError::Invalid(t)),
        },
        Kind::Grid => match grid_parse(v) {
            Some(g) => Ok(AttrValue::Grid(g)),
            None => Err(ValueError::Invalid(v)),
        },
        Kind::Keyword(k) => if keyword_known(k, v) {
            Ok(AttrValue::Keyword(v))
        } else {
            Err(ValueError::Unknown(v))
        },
    }
}

/// Reading the value text `v` of property `p` reaches a number that does
/// not convert (or a grid line or span of zero).
pub open spec fn value_panics(p: Prop, v: Seq<char>) -> bool {
    match p.kind() {
        Kind::Color => v != "transparent"@ && color_panics(v),
        Kind::Length => val_panics(v),
        Kind::Rect => rect_panics(v),
        Kind::Grid => grid_panics(v),
        _ => false,
    }
}

/// What the attribute `name="value"` reads as: no attribute where the name
/// names no property, else the property and its value, or why the value was
/// refused.
pub open spec fn attr_parse(name: Seq<u8>, value: Seq<char>) -> Result<
    Option<(Prop, AttrValue)>,
    ValueError,
> {
    match prop_named(name) {
        None => Ok(None),
        Some(p) => match value_parse(p, value) {
            Ok(x) => Ok(Some((p, x))),
            Err(e) => Err(e),
        },
    }
}

/// Reading the attribute `name="value"` reaches a number that does not convert.
pub open spec fn attr_panics(name: Seq<u8>, value: Seq<char>) -> bool {
    match prop_named(name) {
        None => false,
        Some(p) => value_panics(p, value),
    }
}

/// The text that writes a value.
pub open spec fn value_text(x: AttrValue) -> Seq<char> {
    match x {
        AttrValue::Color(None) => "transparent"@,
        AttrValue::Color(Some(m)) => color_text(m),
        AttrValue::Int(n) => int_text(n),
        AttrValue::Keyword(k) => k,
        AttrValue::Length(l) => val_text(l),
        AttrValue::Rect(r) => rect_text(r),
        AttrValue::Number(t) => t,
        AttrValue::Grid(_) => Seq::empty(),
    }
}

pub open spec fn color_view(c: Option<ColorSpec>) -> Option<ColorModel> {
    match c {
        Some(x) => Some(x@),
        None => None,
    }
}

/// Whether two lengths are the same.
pub fn same_val(a: &Val, b: &Val) -> (r: bool)
    ensures
        r == (a@ == b@),
{
    match (a, b) {
        (Val::Auto, Val::Auto) => true,
        (Val::Px(x), Val::Px(y)) => str_eq(x.as_str(), y.as_str()),
        (Val::Percent(x), Val::Percent(y)) => str_eq(x.as_str(), y.as_str()),
        (Val::Vw(x), Val::Vw(y)) => str_eq(x.as_str(), y.as_str()),
        (Val::Vh(x), Val::Vh(y)) => str_eq(x.as_str(), y.as_str()),
        (Val::VMin(x), Val::VMin(y)) => str_eq(x.as_str(), y.as_str()),
        (Val::VMax(x), Val::VMax(y)) => str_eq(x.as_str(), y.as_str()),
        _ => false,
    }
}

/// Whether two rectangles are the same.
pub fn same_rect(a: &UiRect, b: &UiRect) -> (r: bool)
    ensures
        r == (a@ == b@),
{
    same_val(&a.left, &b.left) && same_val(&a.right, &b.right) && same_val(&a.top, &b.top)
        && same_val(&a.bottom, &b.bottom)
}

/// Whether two colors are the same.
pub fn same_color(a: &Option<ColorSpec>, b: &Option<ColorSpec>) -> (r: bool)
    ensures
        r == (color_view(*a) == color_view(*b)),
{
    match (a, b) {
        (None, None) => true,
        (Some(ColorSpec::Rgba8(r1, g1, b1, a1)), Some(ColorSpec::Rgba8(r2, g2, b2, a2))) => *r1 == *r2
            && *g1 == *g2 && *b1 == *b2 && *a1 == *a2,
        (Some(ColorSpec::Rgba(r1, g1, b1, a1)), Some(ColorSpec::Rgba(r2, g2, b2, a2))) => str_eq(
            r1.as_str(),
            r2.as_str(),
        ) && str_eq(g1.as_str(), g2.as_str()) && str_eq(b1.as_str(), b2.as_str()) && str_eq(
            a1.as_str(),
            a2.as_str(),
        ),
        (Some(ColorSpec::Hsla(r1, g1, b1, a1)), Some(ColorSpec::Hsla(r2, g2, b2, a2))) => str_eq(
            r1.as_str(),
            r2.as_str(),
        ) && str_eq(g1.as_str(), g2.as_str()) && str_eq(b1.as_str(), b2.as_str()) && str_eq(
            a1.as_str(),
            a2.as_str(),
        ),
        _ => false,
    }
}

/// Attributes that set the same property are the same variant.
proof fn lemma_prop_determines_variant(a: StyleAttr, b: StyleAttr)
    requires
        a@.0 == b@.0,
    ensures
            a is BackgroundColor <==> b is BackgroundColor,
            a is BorderColor <==> b is BorderColor,
            a is ZIndex <==> b is ZIndex,
            a is Display <==> b is Display,
            a is Position <==> b is Position,
            a is Overflow <==> b is Overflow,
            a is OverflowX <==> b is OverflowX,
            a is OverflowY <==> b is OverflowY,
            a is Direction <==> b is Direction,
            a is Left <==> b is Left,
            a is Right <==> b is Right,
            a is Top <==> b is Top,
            a is Bottom <==> b is Bottom,
            a is Width <==> b is Width,
            a is Height <==> b is Height,
            a is MinWidth <==> b is MinWidth,
            a is MinHeight <==> b is MinHeight,
            a is MaxWidth <==> b is MaxWidth,
            a is MaxHeight <==> b is MaxHeight,
            a is AlignItems <==> b is AlignItems,
            a is JustifyItems <==> b is JustifyItems,
            a is AlignSelf <==> b is AlignSelf,
            a is JustifySelf <==> b is JustifySelf,
            a is AlignContent <==> b is AlignContent,
            a is JustifyContent <==> b is JustifyContent,
            a is Margin <==> b is Margin,
            a is MarginLeft <==> b is MarginLeft,
            a is MarginRight <==> b is MarginRight,
            a is MarginTop <==> b is MarginTop,
            a is MarginBottom <==> b is MarginBottom,
            a is Padding <==> b is Padding,
            a is PaddingLeft <==> b is PaddingLeft,
            a is PaddingRight <==> b is PaddingRight,
            a is PaddingTop <==> b is PaddingTop,
            a is PaddingBottom <==> b is PaddingBottom,
            a is Border <==> b is Border,
            a is BorderLeft <==> b is BorderLeft,
            a is BorderRight <==> b is BorderRight,
            a is BorderTop <==> b is BorderTop,
            a is BorderBottom <==> b is BorderBottom,
            a is FlexDirection <==> b is FlexDirection,
            a is FlexWrap <==> b is FlexWrap,
            a is FlexGrow <==> b is FlexGrow,
            a is FlexShrink <==> b is FlexShrink,
            a is FlexBasis <==> b is FlexBasis,
            a is RowGap <==> b is RowGap,
            a is ColumnGap <==> b is ColumnGap,
            a is Gap <==> b is Gap,
            a is GridAutoFlow <==> b is GridAutoFlow,
            a is GridRow <==> b is GridRow,
            a is GridRowStart <==> b is GridRowStart,
            a is GridRowSpan <==> b is GridRowSpan,
            a is GridRowEnd <==> b is GridRowEnd,
            a is GridColumn <==> b is GridColumn,
            a is GridColumnStart <==> b is GridColumnStart,
            a is GridColumnSpan <==> b is GridColumnSpan,
            a is GridColumnEnd <==> b is GridColumnEnd,
{
}

fn clone_color(c: &Option<ColorSpec>) -> (r: Option<ColorSpec>)
    ensures
        r == *c,
{
    match c {
        Some(x) => Some(x.clone()),
        None => None,
    }
}

/// Set of style attributes that can be applied to construct a style.
#[derive(Debug, PartialEq)]
pub enum StyleAttr {
    BackgroundColor(Option<ColorSpec>),
    BorderColor(Option<ColorSpec>),
    ZIndex(i32),
    Display(Display),
    Position(PositionType),
    Overflow(OverflowAxis),
    OverflowX(OverflowAxis),
    OverflowY(OverflowAxis),
    Direction(Direction),
    Left(Val),
    Right(Val),
    Top(Val),
    Bottom(Val),
    Width(Val),
    Height(Val),
    MinWidth(Val),
    MinHeight(Val),
    MaxWidth(Val),
    MaxHeight(Val),
    AlignItems(AlignItems),
    JustifyItems(JustifyItems),
    AlignSelf(AlignSelf),
    JustifySelf(JustifySelf),
    AlignContent(AlignContent),
    JustifyContent(JustifyContent),
    Margin(UiRect),
    MarginLeft(Val),
    MarginRight(Val),
    MarginTop(Val),
    MarginBottom(Val),
    Padding(UiRect),
    PaddingLeft(Val),
    PaddingRight(Val),
    PaddingTop(Val),
    PaddingBottom(Val),
    Border(UiRect),
    BorderLeft(Val),
    BorderRight(Val),
    BorderTop(Val),
    BorderBottom(Val),
    FlexDirection(FlexDirection),
    FlexWrap(FlexWrap),
    FlexGrow(String),
    FlexShrink(String),
    FlexBasis(Val),
    RowGap(Val),
    ColumnGap(Val),
    Gap(Val),
    GridAutoFlow(GridAutoFlow),
    GridRow(GridPlacement),
    GridRowStart(i16),
    GridRowSpan(u16),
    GridRowEnd(i16),
    GridColumn(GridPlacement),
    GridColumnStart(i16),
    GridColumnSpan(u16),
    GridColumnEnd(i16),
}

impl View for StyleAttr {
    type V = (Prop, AttrValue);

    open spec fn view(&self) -> (Prop, AttrValue) {
        match self {
            StyleAttr::BackgroundColor(x) => (Prop::BackgroundColor, AttrValue::Color(color_view(*x))),
            StyleAttr::BorderColor(x) => (Prop::BorderColor, AttrValue::Color(color_view(*x))),
            StyleAttr::ZIndex(x) => (Prop::ZIndex, AttrValue::Int(x as int)),
            StyleAttr::Display(x) => (Prop::Display, AttrValue::Keyword(x.spec_keyword())),
            StyleAttr::Position(x) => (Prop::Position, AttrValue::Keyword(x.spec_keyword())),
            StyleAttr::Overflow(x) => (Prop::Overflow, AttrValue::Keyword(x.spec_keyword())),
            StyleAttr::OverflowX(x) => (Prop::OverflowX, AttrValue::Keyword(x.spec_keyword())),
            StyleAttr::OverflowY(x) => (Prop::OverflowY, AttrValue::Keyword(x.spec_keyword())),
            StyleAttr::Direction(x) => (Prop::Direction, AttrValue::Keyword(x.spec_keyword())),
            StyleAttr::Left(x) => (Prop::Left, AttrValue::Length(x@)),
            StyleAttr::Right(x) => (Prop::Right, AttrValue::Length(x@)),
            StyleAttr::Top(x) => (Prop::Top, AttrValue::Length(x@)),
            StyleAttr::Bottom(x) => (Prop::Bottom, AttrValue::Length(x@)),
            StyleAttr::Width(x) => (Prop::Width, AttrValue::Length(x@)),
            StyleAttr::Height(x) => (Prop::Height, AttrValue::Length(x@)),
            StyleAttr::MinWidth(x) => (Prop::MinWidth, AttrValue::Length(x@)),
            StyleAttr::MinHeight(x) => (Prop::MinHeight, AttrValue::Length(x@)),
            StyleAttr::MaxWidth(x) => (Prop::MaxWidth, AttrValue::Length(x@)),
            StyleAttr::MaxHeight(x) => (Prop::MaxHeight, AttrValue::Length(x@)),
            StyleAttr::AlignItems(x) => (Prop::AlignItems, AttrValue::Keyword(x.spec_keyword())),
            StyleAttr::JustifyItems(x) => (Prop::JustifyItems, AttrValue::Keyword(x.spec_keyword())),
            StyleAttr::AlignSelf(x) => (Prop::AlignSelf, AttrValue::Keyword(x.spec_keyword())),
            StyleAttr::JustifySelf(x) => (Prop::JustifySelf, AttrValue::Keyword(x.spec_keyword())),
            StyleAttr::AlignContent(x) => (Prop::AlignContent, AttrValue::Keyword(x.spec_keyword())),
            StyleAttr::JustifyContent(x) => (Prop::JustifyContent, AttrValue::Keyword(x.spec_keyword())),
            StyleAttr::Margin(x) => (Prop::Margin, AttrValue::Rect(x@)),
            StyleAttr::MarginLeft(x) => (Prop::MarginLeft, AttrValue::Length(x@)),
            StyleAttr::MarginRight(x) => (Prop::MarginRight, AttrValue::Length(x@)),
            StyleAttr::MarginTop(x) => (Prop::MarginTop, AttrValue::Length(x@)),
            StyleAttr::MarginBottom(x) => (Prop::MarginBottom, AttrValue::Length(x@)),
            StyleAttr::Padding(x) => (Prop::Padding, AttrValue::Rect(x@)),
            StyleAttr::PaddingLeft(x) => (Prop::PaddingLeft, AttrValue::Length(x@)),
            StyleAttr::PaddingRight(x) => (Prop::PaddingRight, AttrValue::Length(x@)),
            StyleAttr::PaddingTop(x) => (Prop::PaddingTop, AttrValue::Length(x@)),
            StyleAttr::PaddingBottom(x) => (Prop::PaddingBottom, AttrValue::Length(x@)),
            StyleAttr::Border(x) => (Prop::Border, AttrValue::Rect(x@)),
            StyleAttr::BorderLeft(x) => (Prop::BorderLeft, AttrValue::Length(x@)),
            StyleAttr::BorderRight(x) => (Prop::BorderRight, AttrValue::Length(x@)),
            StyleAttr::BorderTop(x) => (Prop::BorderTop, AttrValue::Length(x@)),
            StyleAttr::BorderBottom(x) => (Prop::BorderBottom, AttrValue::Length(x@)),
            StyleAttr::FlexDirection(x) => (Prop::FlexDirection, AttrValue::Keyword(x.spec_keyword())),
            StyleAttr::FlexWrap(x) => (Prop::FlexWrap, AttrValue::Keyword(x.spec_keyword())),
            StyleAttr::FlexGrow(x) => (Prop::FlexGrow, AttrValue::Number(x@)),
            StyleAttr::FlexShrink(x) => (Prop::FlexShrink, AttrValue::Number(x@)),
            StyleAttr::FlexBasis(x) => (Prop::FlexBasis, AttrValue::Length(x@)),
            StyleAttr::RowGap(x) => (Prop::RowGap, AttrValue::Length(x@)),
            StyleAttr::ColumnGap(x) => (Prop::ColumnGap, AttrValue::Length(x@)),
            StyleAttr::Gap(x) => (Prop::Gap, AttrValue::Length(x@)),
            StyleAttr::GridAutoFlow(x) => (Prop::GridAutoFlow, AttrValue::Keyword(x.spec_keyword())),
            StyleAttr::GridRow(x) => (Prop::GridRow, AttrValue::Grid(*x)),
            StyleAttr::GridRowStart(x) => (Prop::GridRowStart, AttrValue::Int(x as int)),
            StyleAttr::GridRowSpan(x) => (Prop::GridRowSpan, AttrValue::Int(x as int)),
            StyleAttr::GridRowEnd(x) => (Prop::GridRowEnd, AttrValue::Int(x as int)),
            StyleAttr::GridColumn(x) => (Prop::GridColumn, AttrValue::Grid(*x)),
            StyleAttr::GridColumnStart(x) => (Prop::GridColumnStart, AttrValue::Int(x as int)),
            StyleAttr::GridColumnSpan(x) => (Prop::GridColumnSpan, AttrValue::Int(x as int)),
            StyleAttr::GridColumnEnd(x) => (Prop::GridColumnEnd, AttrValue::Int(x as int)),
        }
    }
}

impl Clone for StyleAttr {
    fn clone(&self) -> (r: StyleAttr)
        ensures
            r == *self,
    {
        match self {
            StyleAttr::BackgroundColor(x) => StyleAttr::BackgroundColor(clone_color(x)),
            StyleAttr::BorderColor(x) => StyleAttr::BorderColor(clone_color(x)),
            StyleAttr::ZIndex(x) => StyleAttr::ZIndex(*x),
            StyleAttr::Display(x) => StyleAttr::Display(*x),
            StyleAttr::Position(x) => StyleAttr::Position(*x),
            StyleAttr::Overflow(x) => StyleAttr::Overflow(*x),
            StyleAttr::OverflowX(x) => StyleAttr::OverflowX(*x),
            StyleAttr::OverflowY(x) => StyleAttr::OverflowY(*x),
            StyleAttr::Direction(x) => StyleAttr::Direction(*x),
            StyleAttr::Left(x) => StyleAttr::Left(x.clone()),
            StyleAttr::Right(x) => StyleAttr::Right(x.clone()),
            StyleAttr::Top(x) => StyleAttr::Top(x.clone()),
            StyleAttr::Bottom(x) => StyleAttr::Bottom(x.clone()),
            StyleAttr::Width(x) => StyleAttr::Width(x.clone()),
            StyleAttr::Height(x) => StyleAttr::Height(x.clone()),
            StyleAttr::MinWidth(x) => StyleAttr::MinWidth(x.clone()),
            StyleAttr::MinHeight(x) => StyleAttr::MinHeight(x.clone()),
            StyleAttr::MaxWidth(x) => StyleAttr::MaxWidth(x.clone()),
            StyleAttr::MaxHeight(x) => StyleAttr::MaxHeight(x.clone()),
            StyleAttr::AlignItems(x) => StyleAttr::AlignItems(*x),
            StyleAttr::JustifyItems(x) => StyleAttr::JustifyItems(*x),
            StyleAttr::AlignSelf(x) => StyleAttr::AlignSelf(*x),
            StyleAttr::JustifySelf(x) => StyleAttr::JustifySelf(*x),
            StyleAttr::AlignContent(x) => StyleAttr::AlignContent(*x),
            StyleAttr::JustifyContent(x) => StyleAttr::JustifyContent(*x),
            StyleAttr::Margin(x) => StyleAttr::Margin(x.clone()),
            StyleAttr::MarginLeft(x) => StyleAttr::MarginLeft(x.clone()),
            StyleAttr::MarginRight(x) => StyleAttr::MarginRight(x.clone()),
            StyleAttr::MarginTop(x) => StyleAttr::MarginTop(x.clone()),
            StyleAttr::MarginBottom(x) => StyleAttr::MarginBottom(x.clone()),
            StyleAttr::Padding(x) => StyleAttr::Padding(x.clone()),
            StyleAttr::PaddingLeft(x) => StyleAttr::PaddingLeft(x.clone()),
            StyleAttr::PaddingRight(x) => StyleAttr::PaddingRight(x.clone()),
            StyleAttr::PaddingTop(x) => StyleAttr::PaddingTop(x.clone()),
            StyleAttr::PaddingBottom(x) => StyleAttr::PaddingBottom(x.clone()),
            StyleAttr::Border(x) => StyleAttr::Border(x.clone()),
            StyleAttr::BorderLeft(x) => StyleAttr::BorderLeft(x.clone()),
            StyleAttr::BorderRight(x) => StyleAttr::BorderRight(x.clone()),
            StyleAttr::BorderTop(x) => StyleAttr::BorderTop(x.clone()),
            StyleAttr::BorderBottom(x) => StyleAttr::BorderBottom(x.clone()),
            StyleAttr::FlexDirection(x) => StyleAttr::FlexDirection(*x),
            StyleAttr::FlexWrap(x) => StyleAttr::FlexWrap(*x),
            StyleAttr::FlexGrow(x) => StyleAttr::FlexGrow(x.clone()),
            StyleAttr::FlexShrink(x) => StyleAttr::FlexShrink(x.clone()),
            StyleAttr::FlexBasis(x) => StyleAttr::FlexBasis(x.clone()),
            StyleAttr::RowGap(x) => StyleAttr::RowGap(x.clone()),
            StyleAttr::ColumnGap(x) => StyleAttr::ColumnGap(x.clone()),
            StyleAttr::Gap(x) => StyleAttr::Gap(x.clone()),
            StyleAttr::GridAutoFlow(x) => StyleAttr::GridAutoFlow(*x),
            StyleAttr::GridRow(x) => StyleAttr::GridRow(*x),
            StyleAttr::GridRowStart(x) => StyleAttr::GridRowStart(*x),
            StyleAttr::GridRowSpan(x) => StyleAttr::GridRowSpan(*x),
            StyleAttr::GridRowEnd(x) => StyleAttr::GridRowEnd(*x),
            StyleAttr::GridColumn(x) => StyleAttr::GridColumn(*x),
            StyleAttr::GridColumnStart(x) => StyleAttr::GridColumnStart(*x),
            StyleAttr::GridColumnSpan(x) => StyleAttr::GridColumnSpan(*x),
            StyleAttr::GridColumnEnd(x) => StyleAttr::GridColumnEnd(*x),
        }
    }
}

impl StyleAttr {
    /// A placement's ends can only be set to grid lines, and its span to a
    /// number of tracks, that are not zero.
    pub open spec fn apply_ok(self) -> bool {
        match self {
            StyleAttr::GridRowStart(x) => x != 0,
            StyleAttr::GridRowSpan(x) => x != 0,
            StyleAttr::GridRowEnd(x) => x != 0,
            StyleAttr::GridColumnStart(x) => x != 0,
            StyleAttr::GridColumnSpan(x) => x != 0,
            StyleAttr::GridColumnEnd(x) => x != 0,
            _ => true,
        }
    }

    /// The style `c` with this attribute applied. Setting one end or the
    /// span of a grid placement changes that part of the placement and keeps
    /// the others.
    #[verifier::opaque]
    pub open spec fn applied(self, c: ComputedStyle) -> ComputedStyle {
        match self {
            StyleAttr::BackgroundColor(x) => ComputedStyle { background_color: x, ..c },
            StyleAttr::BorderColor(x) => ComputedStyle { border_color: x, ..c },
            StyleAttr::ZIndex(x) => ComputedStyle { z_index: Some(x), ..c },
            StyleAttr::Display(x) => ComputedStyle { style: Style { display: x, ..c.style }, ..c },
            StyleAttr::Position(x) => ComputedStyle { style: Style { position_type: x, ..c.style }, ..c },
            StyleAttr::Overflow(x) => ComputedStyle { style: Style { overflow: Overflow { x: x, y: x }, ..c.style }, ..c },
            StyleAttr::OverflowX(x) => ComputedStyle { style: Style { overflow: Overflow { x: x, ..c.style.overflow }, ..c.style }, ..c },
            StyleAttr::OverflowY(x) => ComputedStyle { style: Style { overflow: Overflow { y: x, ..c.style.overflow }, ..c.style }, ..c },
            StyleAttr::Direction(x) => ComputedStyle { style: Style { direction: x, ..c.style }, ..c },
            StyleAttr::Left(x) => ComputedStyle { style: Style { left: x, ..c.style }, ..c },
            StyleAttr::Right(x) => ComputedStyle { style: Style { right: x, ..c.style }, ..c },
            StyleAttr::Top(x) => ComputedStyle { style: Style { top: x, ..c.style }, ..c },
            StyleAttr::Bottom(x) => ComputedStyle { style: Style { bottom: x, ..c.style }, ..c },
            StyleAttr::Width(x) => ComputedStyle { style: Style { width: x, ..c.style }, ..c },
            StyleAttr::Height(x) => ComputedStyle { style: Style { height: x, ..c.style }, ..c },
            StyleAttr::MinWidth(x) => ComputedStyle { style: Style { min_width: x, ..c.style }, ..c },
            StyleAttr::MinHeight(x) => ComputedStyle { style: Style { min_height: x, ..c.style }, ..c },
            StyleAttr::MaxWidth(x) => ComputedStyle { style: Style { max_width: x, ..c.style }, ..c },
            StyleAttr::MaxHeight(x) => ComputedStyle { style: Style { max_height: x, ..c.style }, ..c },
            StyleAttr::AlignItems(x) => ComputedStyle { style: Style { align_items: x, ..c.style }, ..c },
            StyleAttr::JustifyItems(x) => ComputedStyle { style: Style { justify_items: x, ..c.style }, ..c },
            StyleAttr::AlignSelf(x) => ComputedStyle { style: Style { align_self: x, ..c.style }, ..c },
            StyleAttr::JustifySelf(x) => ComputedStyle { style: Style { justify_self: x, ..c.style }, ..c },
            StyleAttr::AlignContent(x) => ComputedStyle { style: Style { align_content: x, ..c.style }, ..c },
            StyleAttr::JustifyContent(x) => ComputedStyle { style: Style { justify_content: x, ..c.style }, ..c },
            StyleAttr::Margin(x) => ComputedStyle { style: Style { margin: x, ..c.style }, ..c },
            StyleAttr::MarginLeft(x) => ComputedStyle { style: Style { margin: UiRect { left: x, ..c.style.margin }, ..c.style }, ..c },
            StyleAttr::MarginRight(x) => ComputedStyle { style: Style { margin: UiRect { right: x, ..c.style.margin }, ..c.style }, ..c },
            StyleAttr::MarginTop(x) => ComputedStyle { style: Style { margin: UiRect { top: x, ..c.style.margin }, ..c.style }, ..c },
            StyleAttr::MarginBottom(x) => ComputedStyle { style: Style { margin: UiRect { bottom: x, ..c.style.margin }, ..c.style }, ..c },
            StyleAttr::Padding(x) => ComputedStyle { style: Style { padding: x, ..c.style }, ..c },
            StyleAttr::PaddingLeft(x) => ComputedStyle { style: Style { padding: UiRect { left: x, ..c.style.padding }, ..c.style }, ..c },
            StyleAttr::PaddingRight(x) => ComputedStyle { style: Style { padding: UiRect { right: x, ..c.style.padding }, ..c.style }, ..c },
            StyleAttr::PaddingTop(x) => ComputedStyle { style: Style { padding: UiRect { top: x, ..c.style.padding }, ..c.style }, ..c },
            StyleAttr::PaddingBottom(x) => ComputedStyle { style: Style { padding: UiRect { bottom: x, ..c.style.padding }, ..c.style }, ..c },
            StyleAttr::Border(x) => ComputedStyle { style: Style { border: x, ..c.style }, ..c },
            StyleAttr::BorderLeft(x) => ComputedStyle { style: Style { border: UiRect { left: x, ..c.style.border }, ..c.style }, ..c },
            StyleAttr::BorderRight(x) => ComputedStyle { style: Style { border: UiRect { right: x, ..c.style.border }, ..c.style }, ..c },
            StyleAttr::BorderTop(x) => ComputedStyle { style: Style { border: UiRect { top: x, ..c.style.border }, ..c.style }, ..c },
            StyleAttr::BorderBottom(x) => ComputedStyle { style: Style { border: UiRect { bottom: x, ..c.style.border }, ..c.style }, ..c },
            StyleAttr::FlexDirection(x) => ComputedStyle { style: Style { flex_direction: x, ..c.style }, ..c },
            StyleAttr::FlexWrap(x) => ComputedStyle { style: Style { flex_wrap: x, ..c.style }, ..c },
            StyleAttr::FlexGrow(x) => ComputedStyle { style: Style { flex_grow: x, ..c.style }, ..c },
            StyleAttr::FlexShrink(x) => ComputedStyle { style: Style { flex_shrink: x, ..c.style }, ..c },
            StyleAttr::FlexBasis(x) => ComputedStyle { style: Style { flex_basis: x, ..c.style }, ..c },
            StyleAttr::RowGap(x) => ComputedStyle { style: Style { row_gap: x, ..c.style }, ..c },
            StyleAttr::ColumnGap(x) => ComputedStyle { style: Style { column_gap: x, ..c.style }, ..c },
            StyleAttr::Gap(x) => ComputedStyle { style: Style { row_gap: x, column_gap: x, ..c.style }, ..c },
            StyleAttr::GridAutoFlow(x) => ComputedStyle { style: Style { grid_auto_flow: x, ..c.style }, ..c },
            StyleAttr::GridRow(x) => ComputedStyle { style: Style { grid_row: x, ..c.style }, ..c },
            StyleAttr::GridRowStart(x) => ComputedStyle { style: Style { grid_row: GridPlacement { start: Some(x), ..c.style.grid_row }, ..c.style }, ..c },
            StyleAttr::GridRowSpan(x) => ComputedStyle { style: Style { grid_row: GridPlacement { span: Some(x), ..c.style.grid_row }, ..c.style }, ..c },
            StyleAttr::GridRowEnd(x) => ComputedStyle { style: Style { grid_row: GridPlacement { end: Some(x), ..c.style.grid_row }, ..c.style }, ..c },
            StyleAttr::GridColumn(x) => ComputedStyle { style: Style { grid_column: x, ..c.style }, ..c },
            StyleAttr::GridColumnStart(x) => ComputedStyle { style: Style { grid_column: GridPlacement { start: Some(x), ..c.style.grid_column }, ..c.style }, ..c },
            StyleAttr::GridColumnSpan(x) => ComputedStyle { style: Style { grid_column: GridPlacement { span: Some(x), ..c.style.grid_column }, ..c.style }, ..c },
            StyleAttr::GridColumnEnd(x) => ComputedStyle { style: Style { grid_column: GridPlacement { end: Some(x), ..c.style.grid_column }, ..c.style }, ..c },
        }
    }

    /// Apply this style attribute to a computed style.
    pub fn apply(&self, computed: &mut ComputedStyle)
        requires
            self.apply_ok(),
        ensures
            *final(computed) == self.applied(*old(computed)),
    {
        proof {
            reveal(StyleAttr::applied);
        }
        match self {
            StyleAttr::BackgroundColor(x) => {
                computed.background_color = clone_color(x);
            },
            StyleAttr::BorderColor(x) => {
                computed.border_color = clone_color(x);
            },
            StyleAttr::ZIndex(x) => {
                computed.z_index = Some(*x);
            },
            StyleAttr::Display(x) => {
                computed.style.display = *x;
            },
            StyleAttr::Position(x) => {
                computed.style.position_type = *x;
            },
            StyleAttr::Overflow(x) => {
                computed.style.overflow.x = *x;
                computed.style.overflow.y = *x;
            },
            StyleAttr::OverflowX(x) => {
                computed.style.overflow.x = *x;
            },
            StyleAttr::OverflowY(x) => {
                computed.style.overflow.y = *x;
            },
            StyleAttr::Direction(x) => {
                computed.style.direction = *x;
            },
            StyleAttr::Left(x) => {
                computed.style.left = x.clone();
            },
            StyleAttr::Right(x) => {
                computed.style.right = x.clone();
            },
            StyleAttr::Top(x) => {
                computed.style.top = x.clone();
            },
            StyleAttr::Bottom(x) => {
                computed.style.bottom = x.clone();
            },
            StyleAttr::Width(x) => {
                computed.style.width = x.clone();
            },
            StyleAttr::Height(x) => {
                computed.style.height = x.clone();
            },
            StyleAttr::MinWidth(x) => {
                computed.style.min_width = x.clone();
            },
            StyleAttr::MinHeight(x) => {
                computed.style.min_height = x.clone();
            },
            StyleAttr::MaxWidth(x) => {
                computed.style.max_width = x.clone();
            },
            StyleAttr::MaxHeight(x) => {
                computed.style.max_height = x.clone();
            },
            StyleAttr::AlignItems(x) => {
                computed.style.align_items = *x;
            },
            StyleAttr::JustifyItems(x) => {
                computed.style.justify_items = *x;
            },
            StyleAttr::AlignSelf(x) => {
                computed.style.align_self = *x;
            },
            StyleAttr::JustifySelf(x) => {
                computed.style.justify_self = *x;
            },
            StyleAttr::AlignContent(x) => {
                computed.style.align_content = *x;
            },
            StyleAttr::JustifyContent(x) => {
                computed.style.justify_content = *x;
            },
            StyleAttr::Margin(x) => {
                computed.style.margin = x.clone();
            },
            StyleAttr::MarginLeft(x) => {
                computed.style.margin.left = x.clone();
            },
            StyleAttr::MarginRight(x) => {
                computed.style.margin.right = x.clone();
            },
            StyleAttr::MarginTop(x) => {
                computed.style.margin.top = x.clone();
            },
            StyleAttr::MarginBottom(x) => {
                computed.style.margin.bottom = x.clone();
            },
            StyleAttr::Padding(x) => {
                computed.style.padding = x.clone();
            },
            StyleAttr::PaddingLeft(x) => {
                computed.style.padding.left = x.clone();
            },
            StyleAttr::PaddingRight(x) => {
                computed.style.padding.right = x.clone();
            },
            StyleAttr::PaddingTop(x) => {
                computed.style.padding.top = x.clone();
            },
            StyleAttr::PaddingBottom(x) => {
                computed.style.padding.bottom = x.clone();
            },
            StyleAttr::Border(x) => {
                computed.style.border = x.clone();
            },
            StyleAttr::BorderLeft(x) => {
                computed.style.border.left = x.clone();
            },
            StyleAttr::BorderRight(x) => {
                computed.style.border.right = x.clone();
            },
            StyleAttr::BorderTop(x) => {
                computed.style.border.top = x.clone();
            },
            StyleAttr::BorderBottom(x) => {
                computed.style.border.bottom = x.clone();
            },
            StyleAttr::FlexDirection(x) => {
                computed.style.flex_direction = *x;
            },
            StyleAttr::FlexWrap(x) => {
                computed.style.flex_wrap = *x;
            },
            StyleAttr::FlexGrow(x) => {
                computed.style.flex_grow = x.clone();
            },
            StyleAttr::FlexShrink(x) => {
                computed.style.flex_shrink = x.clone();
            },
            StyleAttr::FlexBasis(x) => {
                computed.style.flex_basis = x.clone();
            },
            StyleAttr::RowGap(x) => {
                computed.style.row_gap = x.clone();
            },
            StyleAttr::ColumnGap(x) => {
                computed.style.column_gap = x.clone();
            },
            StyleAttr::Gap(x) => {
                computed.style.row_gap = x.clone();
                computed.style.column_gap = x.clone();
            },
            StyleAttr::GridAutoFlow(x) => {
                computed.style.grid_auto_flow = *x;
            },
            StyleAttr::GridRow(x) => {
                computed.style.grid_row = *x;
            },
            StyleAttr::GridRowStart(x) => {
                computed.style.grid_row.start = Some(*x);
            },
            StyleAttr::GridRowSpan(x) => {
                computed.style.grid_row.span = Some(*x);
            },
            StyleAttr::GridRowEnd(x) => {
                computed.style.grid_row.end = Some(*x);
            },
            StyleAttr::GridColumn(x) => {
                computed.style.grid_column = *x;
            },
            StyleAttr::GridColumnStart(x) => {
                computed.style.grid_column.start = Some(*x);
            },
            StyleAttr::GridColumnSpan(x) => {
                computed.style.grid_column.span = Some(*x);
            },
            StyleAttr::GridColumnEnd(x) => {
                computed.style.grid_column.end = Some(*x);
            },
        }
    }

    /// Reads the value of property `p` from its text.
    #[verifier::rlimit(30)]
    pub fn parse_value(p: Prop, value: &str) -> (r: Result<StyleAttr, GuiseError>)
        requires
            !value_panics(p, value@),
        ensures
            r matches Ok(a) ==> value_parse(p, value@) == Ok::<AttrValue, ValueError>(a@.1) && a@.0 == p,
            r matches Err(e) ==> value_parse(p, value@) matches Err(ve) && reports(e, ve),
    {
        match p {
            Prop::BackgroundColor => if str_eq(value, "transparent") {
                Ok(StyleAttr::BackgroundColor(None))
            } else {
                match parse_color(value) {
                    Ok(c) => Ok(StyleAttr::BackgroundColor(Some(c))),
                    Err(e) => Err(e),
                }
            },
            Prop::BorderColor => if str_eq(value, "transparent") {
                Ok(StyleAttr::BorderColor(None))
            } else {
                match parse_color(value) {
                    Ok(c) => Ok(StyleAttr::BorderColor(Some(c))),
                    Err(e) => Err(e),
                }
            },
            Prop::ZIndex => match parse_i32(value) {
                Some(n) => Ok(StyleAttr::ZIndex(n)),
                None => Err(GuiseError::InvalidAttributeValue(copy_str(value))),
            },
            Prop::Display => match Display::from_keyword(value) {
                Some(x) => Ok(StyleAttr::Display(x)),
                None => Err(GuiseError::UnknownAttributeValue(copy_str(value))),
            },
            Prop::Position => match PositionType::from_keyword(value) {
                Some(x) => Ok(StyleAttr::Position(x)),
                None => Err(GuiseError::UnknownAttributeValue(copy_str(value))),
            },
            Prop::Overflow => match OverflowAxis::from_keyword(value) {
                Some(x) => Ok(StyleAttr::Overflow(x)),
                None => Err(GuiseError::UnknownAttributeValue(copy_str(value))),
            },
            Prop::OverflowX => match OverflowAxis::from_keyword(value) {
                Some(x) => Ok(StyleAttr::OverflowX(x)),
                None => Err(GuiseError::UnknownAttributeValue(copy_str(value))),
            },
            Prop::OverflowY => match OverflowAxis::from_keyword(value) {
                Some(x) => Ok(StyleAttr::OverflowY(x)),
                None => Err(GuiseError::UnknownAttributeValue(copy_str(value))),
            },
            Prop::Direction => match Direction::from_keyword(value) {
                Some(x) => Ok(StyleAttr::Direction(x)),
                None => Err(GuiseError::UnknownAttributeValue(copy_str(value))),
            },
            Prop::Left => match parse_val(value) {
                Ok(x) => Ok(StyleAttr::Left(x)),
                Err(e) => Err(e),
            },
            Prop::Right => match parse_val(value) {
                Ok(x) => Ok(StyleAttr::Right(x)),
                Err(e) => Err(e),
            },
            Prop::Top => match parse_val(value) {
                Ok(x) => Ok(StyleAttr::Top(x)),
                Err(e) => Err(e),
            },
            Prop::Bottom => match parse_val(value) {
                Ok(x) => Ok(StyleAttr::Bottom(x)),
                Err(e) => Err(e),
            },
            Prop::Width => match parse_val(value) {
                Ok(x) => Ok(StyleAttr::Width(x)),
                Err(e) => Err(e),
            },
            Prop::Height => match parse_val(value) {
                Ok(x) => Ok(StyleAttr::Height(x)),
                Err(e) => Err(e),
            },
            Prop::MinWidth => match parse_val(value) {
                Ok(x) => Ok(StyleAttr::MinWidth(x)),
                Err(e) => Err(e),
            },
            Prop::MinHeight => match parse_val(value) {
                Ok(x) => Ok(StyleAttr::MinHeight(x)),
                Err(e) => Err(e),
            },
            Prop::MaxWidth => match parse_val(value) {
                Ok(x) => Ok(StyleAttr::MaxWidth(x)),
                Err(e) => Err(e),
            },
            Prop::MaxHeight => match parse_val(value) {
                Ok(x) => Ok(StyleAttr::MaxHeight(x)),
                Err(e) => Err(e),
            },
            Prop::AlignItems => match AlignItems::from_keyword(value) {
                Some(x) => Ok(StyleAttr::AlignItems(x)),
                None => Err(GuiseError::UnknownAttributeValue(copy_str(value))),
            },
            Prop::JustifyItems => match JustifyItems::from_keyword(value) {
                Some(x) => Ok(StyleAttr::JustifyItems(x)),
                None => Err(GuiseError::UnknownAttributeValue(copy_str(value))),
            },
            Prop::AlignSelf => match AlignSelf::from_keyword(value) {
                Some(x) => Ok(StyleAttr::AlignSelf(x)),
                None => Err(GuiseError::UnknownAttributeValue(copy_str(value))),
            },
            Prop::JustifySelf => match JustifySelf::from_keyword(value) {
                Some(x) => Ok(StyleAttr::JustifySelf(x)),
                None => Err(GuiseError::UnknownAttributeValue(copy_str(value))),
            },
            Prop::AlignContent => match AlignContent::from_keyword(value) {
                Some(x) => Ok(StyleAttr::AlignContent(x)),
                None => Err(GuiseError::UnknownAttributeValue(copy_str(value))),
            },
            Prop::JustifyContent => match JustifyContent::from_keyword(value) {
                Some(x) => Ok(StyleAttr::JustifyContent(x)),
                None => Err(GuiseError::UnknownAttributeValue(copy_str(value))),
            },
            Prop::Margin => match parse_uirect(value) {
                Ok(x) => Ok(StyleAttr::Margin(x)),
                Err(e) => Err(e),
            },
            Prop::MarginLeft => match parse_val(value) {
                Ok(x) => Ok(StyleAttr::MarginLeft(x)),
                Err(e) => Err(e),
            },
            Prop::MarginRight => match parse_val(value) {
                Ok(x) => Ok(StyleAttr::MarginRight(x)),
                Err(e) => Err(e),
            },
            Prop::MarginTop => match parse_val(value) {
                Ok(x) => Ok(StyleAttr::MarginTop(x)),
                Err(e) => Err(e),
            },
            Prop::MarginBottom => match parse_val(value) {
                Ok(x) => Ok(StyleAttr::MarginBottom(x)),
                Err(e) => Err(e),
            },
            Prop::Padding => match parse_uirect(value) {
                Ok(x) => Ok(StyleAttr::Padding(x)),
                Err(e) => Err(e),
            },
            Prop::PaddingLeft => match parse_val(value) {
                Ok(x) => Ok(StyleAttr::PaddingLeft(x)),
                Err(e) => Err(e),
            },
            Prop::PaddingRight => match parse_val(value) {
                Ok(x) => Ok(StyleAttr::PaddingRight(x)),
                Err(e) => Err(e),
            },
            Prop::PaddingTop => match parse_val(value) {
                Ok(x) => Ok(StyleAttr::PaddingTop(x)),
                Err(e) => Err(e),
            },
            Prop::PaddingBottom => match parse_val(value) {
                Ok(x) => Ok(StyleAttr::PaddingBottom(x)),
                Err(e) => Err(e),
            },
            Prop::Border => match parse_uirect(value) {
                Ok(x) => Ok(StyleAttr::Border(x)),
                Err(e) => Err(e),
            },
            Prop::BorderLeft => match parse_val(value) {
                Ok(x) => Ok(StyleAttr::BorderLeft(x)),
                Err(e) => Err(e),
            },
            Prop::BorderRight => match parse_val(value) {
                Ok(x) => Ok(StyleAttr::BorderRight(x)),
                Err(e) => Err(e),
            },
            Prop::BorderTop => match parse_val(value) {
                Ok(x) => Ok(StyleAttr::BorderTop(x)),
                Err(e) => Err(e),
            },
            Prop::BorderBottom => match parse_val(value) {
                Ok(x) => Ok(StyleAttr::BorderBottom(x)),
                Err(e) => Err(e),
            },
            Prop::FlexDirection => match FlexDirection::from_keyword(value) {
                Some(x) => Ok(StyleAttr::FlexDirection(x)),
                None => Err(GuiseError::UnknownAttributeValue(copy_str(value))),
            },
            Prop::FlexWrap => match FlexWrap::from_keyword(value) {
                Some(x) => Ok(StyleAttr::FlexWrap(x)),
                None => Err(GuiseError::UnknownAttributeValue(copy_str(value))),
            },
            Prop::FlexGrow => if is_float_text(value) {
                Ok(StyleAttr::FlexGrow(copy_str(value)))
            } else {
                Err(GuiseError::InvalidAttributeValue(copy_str(value)))
            },
            Prop::FlexShrink => if is_float_text(value) {
                Ok(StyleAttr::FlexShrink(copy_str(value)))
            } else {
                Err(GuiseError::InvalidAttributeValue(copy_str(value)))
            },
            Prop::FlexBasis => match parse_val(value) {
                Ok(x) => Ok(StyleAttr::FlexBasis(x)),
                Err(e) => Err(e),
            },
            Prop::RowGap => match parse_val(value) {
                Ok(x) => Ok(StyleAttr::RowGap(x)),
                Err(e) => Err(e),
            },
            Prop::ColumnGap => match parse_val(value) {
                Ok(x) => Ok(StyleAttr::ColumnGap(x)),
                Err(e) => Err(e),
            },
            Prop::Gap => match parse_val(value) {
                Ok(x) => Ok(StyleAttr::Gap(x)),
                Err(e) => Err(e),
            },
            Prop::GridAutoFlow => match GridAutoFlow::from_keyword(value) {
                Some(x) => Ok(StyleAttr::GridAutoFlow(x)),
                None => Err(GuiseError::UnknownAttributeValue(copy_str(value))),
            },
            Prop::GridRow => match parse_grid_placement(value) {
                Ok(x) => Ok(StyleAttr::GridRow(x)),
                Err(e) => Err(e),
            },
            Prop::GridRowStart => match parse_i16(value) {
                Some(n) => Ok(StyleAttr::GridRowStart(n)),
                None => Err(GuiseError::InvalidAttributeValue(copy_str(value))),
            },
            Prop::GridRowSpan => match parse_u16(value) {
                Some(n) => Ok(StyleAttr::GridRowSpan(n)),
                None => Err(GuiseError::InvalidAttributeValue(copy_str(value))),
            },
            Prop::GridRowEnd => match parse_i16(value) {
                Some(n) => Ok(StyleAttr::GridRowEnd(n)),
                None => Err(GuiseError::InvalidAttributeValue(copy_str(value))),
            },
            Prop::GridColumn => match parse_grid_placement(value) {
                Ok(x) => Ok(StyleAttr::GridColumn(x)),
                Err(e) => Err(e),
            },
            Prop::GridColumnStart => match parse_i16(value) {
                Some(n) => Ok(StyleAttr::GridColumnStart(n)),
                None => Err(GuiseError::InvalidAttributeValue(copy_str(value))),
            },
            Prop::GridColumnSpan => match parse_u16(value) {
                Some(n) => Ok(StyleAttr::GridColumnSpan(n)),
                None => Err(GuiseError::InvalidAttributeValue(copy_str(value))),
            },
            Prop::GridColumnEnd => match parse_i16(value) {
                Some(n) => Ok(StyleAttr::GridColumnEnd(n)),
                None => Err(GuiseError::InvalidAttributeValue(copy_str(value))),
            },
        }
    }

    /// Parse a `StyleAttr` from an XML attribute name/value pair: no
    /// attribute where the name names no property.
    pub fn parse(name: &[u8], value: &str) -> (r: Result<Option<StyleAttr>, GuiseError>)
        requires
            !attr_panics(name@, value@),
        ensures
            r matches Ok(None) ==> attr_parse(name@, value@) == Ok::<_, ValueError>(None::<(Prop, AttrValue)>),
            r matches Ok(Some(a)) ==> attr_parse(name@, value@) == Ok::<_, ValueError>(Some(a@)),
            r matches Err(e) ==> attr_parse(name@, value@) matches Err(ve) && reports(e, ve),
    {
        match prop_from_name(name) {
            None => Ok(None),
            Some(p) => match StyleAttr::parse_value(p, value) {
                Ok(a) => Ok(Some(a)),
                Err(e) => Err(e),
            },
        }
    }

    /// Whether reading the attribute `name="value"` would fail to convert a
    /// number of its value.
    pub fn parse_would_panic(name: &[u8], value: &str) -> (r: bool)
        ensures
            r == attr_panics(name@, value@),
    {
        match prop_from_name(name) {
            None => false,
            Some(p) => match p {
                Prop::BackgroundColor => !str_eq(value, "transparent") && color_would_panic(value),
                Prop::BorderColor => !str_eq(value, "transparent") && color_would_panic(value),
                Prop::Left => val_would_panic(value),
                Prop::Right => val_would_panic(value),
                Prop::Top => val_would_panic(value),
                Prop::Bottom => val_would_panic(value),
                Prop::Width => val_would_panic(value),
                Prop::Height => val_would_panic(value),
                Prop::MinWidth => val_would_panic(value),
                Prop::MinHeight => val_would_panic(value),
                Prop::MaxWidth => val_would_panic(value),
                Prop::MaxHeight => val_would_panic(value),
                Prop::Margin => rect_would_panic(value),
                Prop::MarginLeft => val_would_panic(value),
                Prop::MarginRight => val_would_panic(value),
                Prop::MarginTop => val_would_panic(value),
                Prop::MarginBottom => val_would_panic(value),
                Prop::Padding => rect_would_panic(value),
                Prop::PaddingLeft => val_would_panic(value),
                Prop::PaddingRight => val_would_panic(value),
                Prop::PaddingTop => val_would_panic(value),
                Prop::PaddingBottom => val_would_panic(value),
                Prop::Border => rect_would_panic(value),
                Prop::BorderLeft => val_would_panic(value),
                Prop::BorderRight => val_would_panic(value),
                Prop::BorderTop => val_would_panic(value),
                Prop::BorderBottom => val_would_panic(value),
                Prop::FlexBasis => val_would_panic(value),
                Prop::RowGap => val_would_panic(value),
                Prop::ColumnGap => val_would_panic(value),
                Prop::Gap => val_would_panic(value),
                Prop::GridRow => grid_would_panic(value),
                Prop::GridColumn => grid_would_panic(value),
                _ => false,
            },
        }
    }

    /// Reads the attribute `name="value"` as `parse` does, or gives `None`
    /// where reading it would reach a number that does not convert.
    pub fn parse_checked(name: &[u8], value: &str) -> (r: Option<Result<Option<StyleAttr>, GuiseError>>)
        ensures
            r is None <==> attr_panics(name@, value@),
            r matches Some(Ok(None)) ==> attr_parse(name@, value@) == Ok::<_, ValueError>(None::<(Prop, AttrValue)>),
            r matches Some(Ok(Some(a))) ==> attr_parse(name@, value@) == Ok::<_, ValueError>(Some(a@)),
            r matches Some(Err(e)) ==> attr_parse(name@, value@) matches Err(ve) && reports(e, ve),
    {
        if StyleAttr::parse_would_panic(name, value) {
            None
        } else {
            Some(StyleAttr::parse(name, value))
        }
    }

    /// Whether this attribute can be written: a whole grid placement cannot.
    pub open spec fn writable(self) -> bool {
        !(self is GridRow || self is GridColumn)
    }

    /// The text of this attribute's value.
    pub fn value_to_str(&self) -> (r: String)
        requires
            self.writable(),
        ensures
            r@ == value_text(self@.1),
    {
        match self {
            StyleAttr::BackgroundColor(c) => match c {
                Some(c) => color_to_str(c),
                None => copy_str("transparent"),
            },
            StyleAttr::BorderColor(c) => match c {
                Some(c) => color_to_str(c),
                None => copy_str("transparent"),
            },
            StyleAttr::ZIndex(n) => int_to_text(*n as i64),
            StyleAttr::Display(x) => copy_str(x.keyword()),
            StyleAttr::Position(x) => copy_str(x.keyword()),
            StyleAttr::Overflow(x) => copy_str(x.keyword()),
            StyleAttr::OverflowX(x) => copy_str(x.keyword()),
            StyleAttr::OverflowY(x) => copy_str(x.keyword()),
            StyleAttr::Direction(x) => copy_str(x.keyword()),
            StyleAttr::Left(x) => val_to_str(x),
            StyleAttr::Right(x) => val_to_str(x),
            StyleAttr::Top(x) => val_to_str(x),
            StyleAttr::Bottom(x) => val_to_str(x),
            StyleAttr::Width(x) => val_to_str(x),
            StyleAttr::Height(x) => val_to_str(x),
            StyleAttr::MinWidth(x) => val_to_str(x),
            StyleAttr::MinHeight(x) => val_to_str(x),
            StyleAttr::MaxWidth(x) => val_to_str(x),
            StyleAttr::MaxHeight(x) => val_to_str(x),
            StyleAttr::AlignItems(x) => copy_str(x.keyword()),
            StyleAttr::JustifyItems(x) => copy_str(x.keyword()),
            StyleAttr::AlignSelf(x) => copy_str(x.keyword()),
            StyleAttr::JustifySelf(x) => copy_str(x.keyword()),
            StyleAttr::AlignContent(x) => copy_str(x.keyword()),
            StyleAttr::JustifyContent(x) => copy_str(x.keyword()),
            StyleAttr::Margin(x) => uirect_to_str(x),
            StyleAttr::MarginLeft(x) => val_to_str(x),
            StyleAttr::MarginRight(x) => val_to_str(x),
            StyleAttr::MarginTop(x) => val_to_str(x),
            StyleAttr::MarginBottom(x) => val_to_str(x),
            StyleAttr::Padding(x) => uirect_to_str(x),
            StyleAttr::PaddingLeft(x) => val_to_str(x),
            StyleAttr::PaddingRight(x) => val_to_str(x),
            StyleAttr::PaddingTop(x) => val_to_str(x),
            StyleAttr::PaddingBottom(x) => val_to_str(x),
            StyleAttr::Border(x) => uirect_to_str(x),
            StyleAttr::BorderLeft(x) => val_to_str(x),
            StyleAttr::BorderRight(x) => val_to_str(x),
            StyleAttr::BorderTop(x) => val_to_str(x),
            StyleAttr::BorderBottom(x) => val_to_str(x),
            StyleAttr::FlexDirection(x) => copy_str(x.keyword()),
            StyleAttr::FlexWrap(x) => copy_str(x.keyword()),
            StyleAttr::FlexGrow(t) => t.clone(),
            StyleAttr::FlexShrink(t) => t.clone(),
            StyleAttr::FlexBasis(x) => val_to_str(x),
            StyleAttr::RowGap(x) => val_to_str(x),
            StyleAttr::ColumnGap(x) => val_to_str(x),
            StyleAttr::Gap(x) => val_to_str(x),
            StyleAttr::GridAutoFlow(x) => copy_str(x.keyword()),
            StyleAttr::GridRow(_) => String::new(),
            StyleAttr::GridRowStart(n) => int_to_text(*n as i64),
            StyleAttr::GridRowSpan(n) => int_to_text(*n as i64),
            StyleAttr::GridRowEnd(n) => int_to_text(*n as i64),
            StyleAttr::GridColumn(_) => String::new(),
            StyleAttr::GridColumnStart(n) => int_to_text(*n as i64),
            StyleAttr::GridColumnSpan(n) => int_to_text(*n as i64),
            StyleAttr::GridColumnEnd(n) => int_to_text(*n as i64),
        }
    }

    /// Appends this attribute, as a name and a value text, to the
    /// attributes of an element.
    pub fn write_xml(&self, attrs: &mut Vec<(String, String)>)
        requires
            self.writable(),
        ensures
            final(attrs)@.len() == old(attrs)@.len() + 1,
            final(attrs)@.take(old(attrs)@.len() as int) == old(attrs)@,
            final(attrs)@.last().0@ == self@.0.spec_name(),
            final(attrs)@.last().1@ == value_text(self@.1),
    {
        let p = self.prop();
        let name = copy_str(p.name());
        let value = self.value_to_str();
        attrs.push((name, value));
        assert(final(attrs)@.take(old(attrs)@.len() as int) == old(attrs)@);
    }

    /// The property this attribute sets.
    pub fn prop(&self) -> (p: Prop)
        ensures
            p == self@.0,
    {
        match self {
            StyleAttr::BackgroundColor(_) => Prop::BackgroundColor,
            StyleAttr::BorderColor(_) => Prop::BorderColor,
            StyleAttr::ZIndex(_) => Prop::ZIndex,
            StyleAttr::Display(_) => Prop::Display,
            StyleAttr::Position(_) => Prop::Position,
            StyleAttr::Overflow(_) => Prop::Overflow,
            StyleAttr::OverflowX(_) => Prop::OverflowX,
            StyleAttr::OverflowY(_) => Prop::OverflowY,
            StyleAttr::Direction(_) => Prop::Direction,
            StyleAttr::Left(_) => Prop::Left,
            StyleAttr::Right(_) => Prop::Right,
            StyleAttr::Top(_) => Prop::Top,
            StyleAttr::Bottom(_) => Prop::Bottom,
            StyleAttr::Width(_) => Prop::Width,
            StyleAttr::Height(_) => Prop::Height,
            StyleAttr::MinWidth(_) => Prop::MinWidth,
            StyleAttr::MinHeight(_) => Prop::MinHeight,
            StyleAttr::MaxWidth(_) => Prop::MaxWidth,
            StyleAttr::MaxHeight(_) => Prop::MaxHeight,
            StyleAttr::AlignItems(_) => Prop::AlignItems,
            StyleAttr::JustifyItems(_) => Prop::JustifyItems,
            StyleAttr::AlignSelf(_) => Prop::AlignSelf,
            StyleAttr::JustifySelf(_) => Prop::JustifySelf,
            StyleAttr::AlignContent(_) => Prop::AlignContent,
            StyleAttr::JustifyContent(_) => Prop::JustifyContent,
            StyleAttr::Margin(_) => Prop::Margin,
            StyleAttr::MarginLeft(_) => Prop::MarginLeft,
            StyleAttr::MarginRight(_) => Prop::MarginRight,
            StyleAttr::MarginTop(_) => Prop::MarginTop,
            StyleAttr::MarginBottom(_) => Prop::MarginBottom,
            StyleAttr::Padding(_) => Prop::Padding,
            StyleAttr::PaddingLeft(_) => Prop::PaddingLeft,
            StyleAttr::PaddingRight(_) => Prop::PaddingRight,
            StyleAttr::PaddingTop(_) => Prop::PaddingTop,
            StyleAttr::PaddingBottom(_) => Prop::PaddingBottom,
            StyleAttr::Border(_) => Prop::Border,
            StyleAttr::BorderLeft(_) => Prop::BorderLeft,
            StyleAttr::BorderRight(_) => Prop::BorderRight,
            StyleAttr::BorderTop(_) => Prop::BorderTop,
            StyleAttr::BorderBottom(_) => Prop::BorderBottom,
            StyleAttr::FlexDirection(_) => Prop::FlexDirection,
            StyleAttr::FlexWrap(_) => Prop::FlexWrap,
            StyleAttr::FlexGrow(_) => Prop::FlexGrow,
            StyleAttr::FlexShrink(_) => Prop::FlexShrink,
            StyleAttr::FlexBasis(_) => Prop::FlexBasis,
            StyleAttr::RowGap(_) => Prop::RowGap,
            StyleAttr::ColumnGap(_) => Prop::ColumnGap,
            StyleAttr::Gap(_) => Prop::Gap,
            StyleAttr::GridAutoFlow(_) => Prop::GridAutoFlow,
            StyleAttr::GridRow(_) => Prop::GridRow,
            StyleAttr::GridRowStart(_) => Prop::GridRowStart,
            StyleAttr::GridRowSpan(_) => Prop::GridRowSpan,
            StyleAttr::GridRowEnd(_) => Prop::GridRowEnd,
            StyleAttr::GridColumn(_) => Prop::GridColumn,
            StyleAttr::GridColumnStart(_) => Prop::GridColumnStart,
            StyleAttr::GridColumnSpan(_) => Prop::GridColumnSpan,
            StyleAttr::GridColumnEnd(_) => Prop::GridColumnEnd,
        }
    }

    /// Whether two attributes set the same property to the same value.
    pub fn same_as(&self, other: &StyleAttr) -> (r: bool)
        ensures
            r == (self@ == other@),
    {
        match (self, other) {
            (StyleAttr::BackgroundColor(a), StyleAttr::BackgroundColor(b)) => same_color(a, b),
            (StyleAttr::BorderColor(a), StyleAttr::BorderColor(b)) => same_color(a, b),
            (StyleAttr::ZIndex(a), StyleAttr::ZIndex(b)) => *a == *b,
            (StyleAttr::Display(a), StyleAttr::Display(b)) => {
                proof {
                    crate::keywords::lemma_display_keyword_round_trip(*a);
                    crate::keywords::lemma_display_keyword_round_trip(*b);
                }
                *a == *b
            },
            (StyleAttr::Position(a), StyleAttr::Position(b)) => {
                proof {
                    crate::keywords::lemma_position_type_keyword_round_trip(*a);
                    crate::keywords::lemma_position_type_keyword_round_trip(*b);
                }
                *a == *b
            },
            (StyleAttr::Overflow(a), StyleAttr::Overflow(b)) => {
                proof {
                    crate::keywords::lemma_overflow_axis_keyword_round_trip(*a);
                    crate::keywords::lemma_overflow_axis_keyword_round_trip(*b);
                }
                *a == *b
            },
            (StyleAttr::OverflowX(a), StyleAttr::OverflowX(b)) => {
                proof {
                    crate::keywords::lemma_overflow_axis_keyword_round_trip(*a);
                    crate::keywords::lemma_overflow_axis_keyword_round_trip(*b);
                }
                *a == *b
            },
            (StyleAttr::OverflowY(a), StyleAttr::OverflowY(b)) => {
                proof {
                    crate::keywords::lemma_overflow_axis_keyword_round_trip(*a);
                    crate::keywords::lemma_overflow_axis_keyword_round_trip(*b);
                }
                *a == *b
            },
            (StyleAttr::Direction(a), StyleAttr::Direction(b)) => {
                proof {
                    crate::keywords::lemma_direction_keyword_round_trip(*a);
                    crate::keywords::lemma_direction_keyword_round_trip(*b);
                }
                *a == *b
            },
            (StyleAttr::Left(a), StyleAttr::Left(b)) => same_val(a, b),
            (StyleAttr::Right(a), StyleAttr::Right(b)) => same_val(a, b),
            (StyleAttr::Top(a), StyleAttr::Top(b)) => same_val(a, b),
            (StyleAttr::Bottom(a), StyleAttr::Bottom(b)) => same_val(a, b),
            (StyleAttr::Width(a), StyleAttr::Width(b)) => same_val(a, b),
            (StyleAttr::Height(a), StyleAttr::Height(b)) => same_val(a, b),
            (StyleAttr::MinWidth(a), StyleAttr::MinWidth(b)) => same_val(a, b),
            (StyleAttr::MinHeight(a), StyleAttr::MinHeight(b)) => same_val(a, b),
            (StyleAttr::MaxWidth(a), StyleAttr::MaxWidth(b)) => same_val(a, b),
            (StyleAttr::MaxHeight(a), StyleAttr::MaxHeight(b)) => same_val(a, b),
            (StyleAttr::AlignItems(a), StyleAttr::AlignItems(b)) => {
                proof {
                    crate::keywords::lemma_align_items_keyword_round_trip(*a);
                    crate::keywords::lemma_align_items_keyword_round_trip(*b);
                }
                *a == *b
            },
            (StyleAttr::JustifyItems(a), StyleAttr::JustifyItems(b)) => {
                proof {
                    crate::keywords::lemma_justify_items_keyword_round_trip(*a);
                    crate::keywords::lemma_justify_items_keyword_round_trip(*b);
                }
                *a == *b
            },
            (StyleAttr::AlignSelf(a), StyleAttr::AlignSelf(b)) => {
                proof {
                    crate::keywords::lemma_align_self_keyword_round_trip(*a);
                    crate::keywords::lemma_align_self_keyword_round_trip(*b);
                }
                *a == *b
            },
            (StyleAttr::JustifySelf(a), StyleAttr::JustifySelf(b)) => {
                proof {
                    crate::keywords::lemma_justify_self_keyword_round_trip(*a);
                    crate::keywords::lemma_justify_self_keyword_round_trip(*b);
                }
                *a == *b
            },
            (StyleAttr::AlignContent(a), StyleAttr::AlignContent(b)) => {
                proof {
                    crate::keywords::lemma_align_content_keyword_round_trip(*a);
                    crate::keywords::lemma_align_content_keyword_round_trip(*b);
                }
                *a == *b
            },
            (StyleAttr::JustifyContent(a), StyleAttr::JustifyContent(b)) => {
                proof {
                    crate::keywords::lemma_justify_content_keyword_round_trip(*a);
                    crate::keywords::lemma_justify_content_keyword_round_trip(*b);
                }
                *a == *b
            },
            (StyleAttr::Margin(a), StyleAttr::Margin(b)) => same_rect(a, b),
            (StyleAttr::MarginLeft(a), StyleAttr::MarginLeft(b)) => same_val(a, b),
            (StyleAttr::MarginRight(a), StyleAttr::MarginRight(b)) => same_val(a, b),
            (StyleAttr::MarginTop(a), StyleAttr::MarginTop(b)) => same_val(a, b),
            (StyleAttr::MarginBottom(a), StyleAttr::MarginBottom(b)) => same_val(a, b),
            (StyleAttr::Padding(a), StyleAttr::Padding(b)) => same_rect(a, b),
            (StyleAttr::PaddingLeft(a), StyleAttr::PaddingLeft(b)) => same_val(a, b),
            (StyleAttr::PaddingRight(a), StyleAttr::PaddingRight(b)) => same_val(a, b),
            (StyleAttr::PaddingTop(a), StyleAttr::PaddingTop(b)) => same_val(a, b),
            (StyleAttr::PaddingBottom(a), StyleAttr::PaddingBottom(b)) => same_val(a, b),
            (StyleAttr::Border(a), StyleAttr::Border(b)) => same_rect(a, b),
            (StyleAttr::BorderLeft(a), StyleAttr::BorderLeft(b)) => same_val(a, b),
            (StyleAttr::BorderRight(a), StyleAttr::BorderRight(b)) => same_val(a, b),
            (StyleAttr::BorderTop(a), StyleAttr::BorderTop(b)) => same_val(a, b),
            (StyleAttr::BorderBottom(a), StyleAttr::BorderBottom(b)) => same_val(a, b),
            (StyleAttr::FlexDirection(a), StyleAttr::FlexDirection(b)) => {
                proof {
                    crate::keywords::lemma_flex_direction_keyword_round_trip(*a);
                    crate::keywords::lemma_flex_direction_keyword_round_trip(*b);
                }
                *a == *b
            },
            (StyleAttr::FlexWrap(a), StyleAttr::FlexWrap(b)) => {
                proof {
                    crate::keywords::lemma_flex_wrap_keyword_round_trip(*a);
                    crate::keywords::lemma_flex_wrap_keyword_round_trip(*b);
                }
                *a == *b
            },
            (StyleAttr::FlexGrow(a), StyleAttr::FlexGrow(b)) => str_eq(a.as_str(), b.as_str()),
            (StyleAttr::FlexShrink(a), StyleAttr::FlexShrink(b)) => str_eq(a.as_str(), b.as_str()),
            (StyleAttr::FlexBasis(a), StyleAttr::FlexBasis(b)) => same_val(a, b),
            (StyleAttr::RowGap(a), StyleAttr::RowGap(b)) => same_val(a, b),
            (StyleAttr::ColumnGap(a), StyleAttr::ColumnGap(b)) => same_val(a, b),
            (StyleAttr::Gap(a), StyleAttr::Gap(b)) => same_val(a, b),
            (StyleAttr::GridAutoFlow(a), StyleAttr::GridAutoFlow(b)) => {
                proof {
                    crate::keywords::lemma_grid_auto_flow_keyword_round_trip(*a);
                    crate::keywords::lemma_grid_auto_flow_keyword_round_trip(*b);
                }
                *a == *b
            },
            (StyleAttr::GridRow(a), StyleAttr::GridRow(b)) => *a == *b,
            (StyleAttr::GridRowStart(a), StyleAttr::GridRowStart(b)) => *a == *b,
            (StyleAttr::GridRowSpan(a), StyleAttr::GridRowSpan(b)) => *a == *b,
            (StyleAttr::GridRowEnd(a), StyleAttr::GridRowEnd(b)) => *a == *b,
            (StyleAttr::GridColumn(a), StyleAttr::GridColumn(b)) => *a == *b,
            (StyleAttr::GridColumnStart(a), StyleAttr::GridColumnStart(b)) => *a == *b,
            (StyleAttr::GridColumnSpan(a), StyleAttr::GridColumnSpan(b)) => *a == *b,
            (StyleAttr::GridColumnEnd(a), StyleAttr::GridColumnEnd(b)) => *a == *b,
            _ => {
                proof {
                    if self@.0 == other@.0 {
                        lemma_prop_determines_variant(*self, *other);
                    }
                }
                false
            },
        }
    }

    /// Reads one attribute of a style element. Only the properties of
    /// `element_prop` may be named there.
    pub fn from_xml(name: &[u8], value: &str) -> (r: Result<StyleAttr, GuiseError>)
        requires
            prop_named(name@) matches Some(p) && element_prop(p) && !value_panics(p, value@),
        ensures
            r matches Ok(a) ==> a@.0 == prop_named(name@)->0 && value_parse(a@.0, value@)
                == Ok::<AttrValue, ValueError>(a@.1),
            r matches Err(e) ==> value_parse(prop_named(name@)->0, value@) matches Err(ve) && reports(e, ve),
    {
        match prop_from_name(name) {
            Some(p) => StyleAttr::parse_value(p, value),
            None => Err(GuiseError::InvalidAttributeValue(copy_str(value))),
        }
    }
}

/// The properties that the attributes of a style element may set.
pub open spec fn element_prop(p: Prop) -> bool {
    match p {
        Prop::Display => true,
        Prop::Position => true,
        Prop::OverflowX => true,
        Prop::OverflowY => true,
        Prop::Margin => true,
        Prop::MarginLeft => true,
        Prop::MarginRight => true,
        Prop::MarginTop => true,
        Prop::MarginBottom => true,
        Prop::Padding => true,
        Prop::PaddingLeft => true,
        Prop::PaddingRight => true,
        Prop::PaddingTop => true,
        Prop::PaddingBottom => true,
        Prop::Border => true,
        Prop::BorderLeft => true,
        Prop::BorderRight => true,
        Prop::BorderTop => true,
        Prop::BorderBottom => true,
        Prop::FlexDirection => true,
        Prop::RowGap => true,
        Prop::ColumnGap => true,
        Prop::Gap => true,
        _ => false,
    }
}

/// Whether the attributes of a style element may set `p`.
pub fn is_element_prop(p: Prop) -> (r: bool)
    ensures
        r == element_prop(p),
{
    match p {
        Prop::Display => true,
        Prop::Position => true,
        Prop::OverflowX => true,
        Prop::OverflowY => true,
        Prop::Margin => true,
        Prop::MarginLeft => true,
        Prop::MarginRight => true,
        Prop::MarginTop => true,
        Prop::MarginBottom => true,
        Prop::Padding => true,
        Prop::PaddingLeft => true,
        Prop::PaddingRight => true,
        Prop::PaddingTop => true,
        Prop::PaddingBottom => true,
        Prop::Border => true,
        Prop::BorderLeft => true,
        Prop::BorderRight => true,
        Prop::BorderTop => true,
        Prop::BorderBottom => true,
        Prop::FlexDirection => true,
        Prop::RowGap => true,
        Prop::ColumnGap => true,
        Prop::Gap => true,
        _ => false,
    }
}

} // verus!
