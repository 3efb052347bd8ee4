//! Style attributes whose values are expressions of a style sheet, which
//! take effect where their expression stands for a value of the property's
//! type.
use vstd::prelude::*;
use crate::asset_path::{AssetPath, AssetRef};
use crate::coerce::Coerce;
use crate::keywords::{
    AlignContent, AlignItems, AlignSelf, Direction, Display, FlexDirection, FlexWrap, GridAutoFlow,
    JustifyContent, JustifyItems, JustifySelf, OverflowAxis, PositionType,
};
use crate::style::{BreakLineOn, ComputedStyle, ImageProps, Overflow, Style, TextProps};
use crate::style_expr::{style_i16, style_i32, style_length, style_number, style_u16, StyleExpr};
use crate::untyped::{length_of, rect_of, ColorValue, ExprList, UntypedExpr};
use crate::values::{ColorSpec, GridPlacement, UiRect, Val};

verus! {

/// A single style-sheet property, its value an expression, which can be
/// applied to a computed style.
pub enum StyleAttr {
    BackgroundImage(StyleExpr<AssetRef>),
    BackgroundColor(StyleExpr<ColorValue>),
    BorderColor(StyleExpr<ColorValue>),
    Color(StyleExpr<ColorValue>),
    ZIndex(StyleExpr<i32>),
    Display(StyleExpr<Display>),
    Position(StyleExpr<PositionType>),
    Overflow(StyleExpr<OverflowAxis>),
    OverflowX(StyleExpr<OverflowAxis>),
    OverflowY(StyleExpr<OverflowAxis>),
    Direction(StyleExpr<Direction>),
    AlignItems(StyleExpr<AlignItems>),
    JustifyItems(StyleExpr<JustifyItems>),
    AlignSelf(StyleExpr<AlignSelf>),
    JustifySelf(StyleExpr<JustifySelf>),
    AlignContent(StyleExpr<AlignContent>),
    JustifyContent(StyleExpr<JustifyContent>),
    FlexDirection(StyleExpr<FlexDirection>),
    FlexWrap(StyleExpr<FlexWrap>),
    Left(StyleExpr<Val>),
    Right(StyleExpr<Val>),
    Top(StyleExpr<Val>),
    Bottom(StyleExpr<Val>),
    Width(StyleExpr<Val>),
    Height(StyleExpr<Val>),
    MinWidth(StyleExpr<Val>),
    MinHeight(StyleExpr<Val>),
    MaxWidth(StyleExpr<Val>),
    MaxHeight(StyleExpr<Val>),
    FlexBasis(StyleExpr<Val>),
    RowGap(StyleExpr<Val>),
    ColumnGap(StyleExpr<Val>),
    Gap(StyleExpr<Val>),
    Margin(ExprList),
    MarginLeft(StyleExpr<Val>),
    MarginRight(StyleExpr<Val>),
    MarginTop(StyleExpr<Val>),
    MarginBottom(StyleExpr<Val>),
    Padding(ExprList),
    PaddingLeft(StyleExpr<Val>),
    PaddingRight(StyleExpr<Val>),
    PaddingTop(StyleExpr<Val>),
    PaddingBottom(StyleExpr<Val>),
    Border(ExprList),
    BorderLeft(StyleExpr<Val>),
    BorderRight(StyleExpr<Val>),
    BorderTop(StyleExpr<Val>),
    BorderBottom(StyleExpr<Val>),
    Flex(ExprList),
    FlexGrow(StyleExpr<String>),
    FlexShrink(StyleExpr<String>),
    GridAutoFlow(GridAutoFlow),
    GridRow(GridPlacement),
    GridRowStart(StyleExpr<i16>),
    GridRowSpan(StyleExpr<u16>),
    GridRowEnd(i16),
    GridColumn(GridPlacement),
    GridColumnStart(i16),
    GridColumnSpan(u16),
    GridColumnEnd(i16),
    LineBreak(BreakLineOn),
}

/// The Display a typed expression stands for: its constant or its keyword.
pub open spec fn style_display(e: StyleExpr<Display>) -> Option<Display> {
    match e {
        StyleExpr::Constant(v) => Some(v),
        StyleExpr::Ident(n) => Display::spec_from_keyword(n@),
        _ => None,
    }
}

/// The PositionType a typed expression stands for: its constant or its keyword.
pub open spec fn style_position_type(e: StyleExpr<PositionType>) -> Option<PositionType> {
    match e {
        StyleExpr::Constant(v) => Some(v),
        StyleExpr::Ident(n) => PositionType::spec_from_keyword(n@),
        _ => None,
    }
}

/// The OverflowAxis a typed expression stands for: its constant or its keyword.
pub open spec fn style_overflow(e: StyleExpr<OverflowAxis>) -> Option<OverflowAxis> {
    match e {
        StyleExpr::Constant(v) => Some(v),
        StyleExpr::Ident(n) => OverflowAxis::spec_from_keyword(n@),
        _ => None,
    }
}

/// The Direction a typed expression stands for: its constant or its keyword.
pub open spec fn style_direction(e: StyleExpr<Direction>) -> Option<Direction> {
    match e {
        StyleExpr::Constant(v) => Some(v),
        StyleExpr::Ident(n) => Direction::spec_from_keyword(n@),
        _ => None,
    }
}

/// The AlignItems a typed expression stands for: its constant or its keyword.
pub open spec fn style_align_items(e: StyleExpr<AlignItems>) -> Option<AlignItems> {
    match e {
        StyleExpr::Constant(v) => Some(v),
        StyleExpr::Ident(n) => AlignItems::spec_from_keyword(n@),
        _ => None,
    }
}

/// The JustifyItems a typed expression stands for: its constant or its keyword.
pub open spec fn style_justify_items(e: StyleExpr<JustifyItems>) -> Option<JustifyItems> {
    match e {
        StyleExpr::Constant(v) => Some(v),
        StyleExpr::Ident(n) => JustifyItems::spec_from_keyword(n@),
        _ => None,
    }
}

/// The AlignSelf a typed expression stands for: its constant or its keyword.
pub open spec fn style_align_self(e: StyleExpr<AlignSelf>) -> Option<AlignSelf> {
    match e {
        StyleExpr::Constant(v) => Some(v),
        StyleExpr::Ident(n) => AlignSelf::spec_from_keyword(n@),
        _ => None,
    }
}

/// The JustifySelf a typed expression stands for: its constant or its keyword.
pub open spec fn style_justify_self(e: StyleExpr<JustifySelf>) -> Option<JustifySelf> {
    match e {
        StyleExpr::Constant(v) => Some(v),
        StyleExpr::Ident(n) => JustifySelf::spec_from_keyword(n@),
        _ => None,
    }
}

/// The AlignContent a typed expression stands for: its constant or its keyword.
pub open spec fn style_align_content(e: StyleExpr<AlignContent>) -> Option<AlignContent> {
    match e {
        StyleExpr::Constant(v) => Some(v),
        StyleExpr::Ident(n) => AlignContent::spec_from_keyword(n@),
        _ => None,
    }
}

/// The JustifyContent a typed expression stands for: its constant or its keyword.
pub open spec fn style_justify_content(e: StyleExpr<JustifyContent>) -> Option<JustifyContent> {
    match e {
        StyleExpr::Constant(v) => Some(v),
        StyleExpr::Ident(n) => JustifyContent::spec_from_keyword(n@),
        _ => None,
    }
}

/// The FlexDirection a typed expression stands for: its constant or its keyword.
pub open spec fn style_flex_direction(e: StyleExpr<FlexDirection>) -> Option<FlexDirection> {
    match e {
        StyleExpr::Constant(v) => Some(v),
        StyleExpr::Ident(n) => FlexDirection::spec_from_keyword(n@),
        _ => None,
    }
}

/// The FlexWrap a typed expression stands for: its constant or its keyword.
pub open spec fn style_flex_wrap(e: StyleExpr<FlexWrap>) -> Option<FlexWrap> {
    match e {
        StyleExpr::Constant(v) => Some(v),
        StyleExpr::Ident(n) => FlexWrap::spec_from_keyword(n@),
        _ => None,
    }
}

/// The color a typed expression stands for: its constant or a color.
pub open spec fn style_color(e: StyleExpr<ColorValue>) -> Option<ColorValue> {
    match e {
        StyleExpr::Constant(v) => Some(v),
        StyleExpr::Color(c) => Some(c),
        _ => None,
    }
}

/// The color of a computed style that a color value sets: none for
/// transparent, else the color with its numbers as written.
pub open spec fn color_spec(c: ColorValue) -> Option<ColorSpec> {
    match c {
        ColorValue::Transparent => None,
        ColorValue::Hex(r, g, b, a) => Some(ColorSpec::Rgba8(r, g, b, a)),
        ColorValue::Rgb(r, g, b, a) => Some(ColorSpec::Rgba(r, g, b, a)),
        ColorValue::Hsl(h, s, l, a) => Some(ColorSpec::Hsla(h, s, l, a)),
    }
}

fn color_spec_of(c: &ColorValue) -> (r: Option<ColorSpec>)
    ensures
        r == color_spec(*c),
{
    match c {
        ColorValue::Transparent => None,
        ColorValue::Hex(r, g, b, a) => Some(ColorSpec::Rgba8(*r, *g, *b, *a)),
        ColorValue::Rgb(r, g, b, a) => Some(ColorSpec::Rgba(r.clone(), g.clone(), b.clone(), a.clone())),
        ColorValue::Hsl(h, s, l, a) => Some(ColorSpec::Hsla(h.clone(), s.clone(), l.clone(), a.clone())),
    }
}

/// The layout style that the list of a `flex` property gives: three items
/// set the grow and shrink factors from numbers and the basis from a length;
/// one number sets both factors and an automatic basis; items that stand for
/// nothing, and lists of another length, change nothing.
pub open spec fn flex_style(xs: Seq<UntypedExpr>, s: Style) -> Style {
    if xs.len() == 3 {
        flex_basis_of(xs[2], flex_shrink_of(xs[1], flex_grow_of(xs[0], s)))
    } else if xs.len() == 1 {
        flex_factor_of(xs[0], s)
    } else {
        s
    }
}

/// A number sets the grow factor.
pub open spec fn flex_grow_of(x: UntypedExpr, s: Style) -> Style {
    match x {
        UntypedExpr::Number(n) => Style { flex_grow: n, ..s },
        _ => s,
    }
}

/// A number sets the shrink factor.
pub open spec fn flex_shrink_of(x: UntypedExpr, s: Style) -> Style {
    match x {
        UntypedExpr::Number(n) => Style { flex_shrink: n, ..s },
        _ => s,
    }
}

/// A length sets the basis.
pub open spec fn flex_basis_of(x: UntypedExpr, s: Style) -> Style {
    match length_of(x) {
        Some(b) => Style { flex_basis: b, ..s },
        None => s,
    }
}

/// A single number sets both factors, with an automatic basis.
pub open spec fn flex_factor_of(x: UntypedExpr, s: Style) -> Style {
    match x {
        UntypedExpr::Number(n) => Style { flex_grow: n, flex_shrink: n, flex_basis: Val::Auto, ..s },
        _ => s,
    }
}

fn with_grow(x: &UntypedExpr, s: Style) -> (r: Style)
    ensures
        r == flex_grow_of(*x, s),
{
    match x {
        UntypedExpr::Number(t) => Style { flex_grow: t.clone(), ..s },
        _ => s,
    }
}

fn with_shrink(x: &UntypedExpr, s: Style) -> (r: Style)
    ensures
        r == flex_shrink_of(*x, s),
{
    match x {
        UntypedExpr::Number(t) => Style { flex_shrink: t.clone(), ..s },
        _ => s,
    }
}

fn with_basis(x: &UntypedExpr, s: Style) -> (r: Style)
    ensures
        r == flex_basis_of(*x, s),
{
    match x.coerce() {
        Some(b) => Style { flex_basis: b, ..s },
        None => s,
    }
}

fn with_factor(x: &UntypedExpr, s: Style) -> (r: Style)
    ensures
        r == flex_factor_of(*x, s),
{
    match x {
        UntypedExpr::Number(t) => Style { flex_grow: t.clone(), flex_shrink: t.clone(), flex_basis: Val::Auto, ..s },
        _ => s,
    }
}

fn flex_of(l: &ExprList, s: Style) -> (r: Style)
    ensures
        r == flex_style(l.0@, s),
{
    let n = l.0.len();
    if n == 3 {
        let s1 = with_grow(&l.0[0], s);
        let s2 = with_shrink(&l.0[1], s1);
        with_basis(&l.0[2], s2)
    } else if n == 1 {
        with_factor(&l.0[0], s)
    } else {
        s
    }
}

fn apply_flex(l: &ExprList, s: &mut Style)
    ensures
        *final(s) == flex_style(l.0@, *old(s)),
{
    let cur = s.clone();
    *s = flex_of(l, cur);
}

/// Sets the image of a computed style from a constant background image and
/// gives its resolved path to load; leaves the style as it is otherwise.
fn apply_image(e: &StyleExpr<AssetRef>, computed: &mut ComputedStyle) -> (load: Option<AssetPath>)
    ensures
        match *e {
            StyleExpr::Constant(a) => *final(computed) == (ComputedStyle {
                image: ImageProps { image: Some(a.resolved_written()), ..old(computed).image },
                ..*old(computed)
            }) && (load matches Some(q) && q@ == a@.1),
            _ => *final(computed) == *old(computed) && load is None,
        },
{
    if let StyleExpr::Constant(a) = e {
        computed.image.image = Some(a.resolved_text().clone());
        Some(a.resolved().clone())
    } else {
        None
    }
}

impl StyleAttr {
    /// Applying the attribute does not set a grid line or span of zero.
    pub open spec fn apply_ok(self) -> bool {
        match self {
            StyleAttr::GridRowStart(e) => style_i16(e) != Some(0i16),
            StyleAttr::GridRowSpan(e) => style_u16(e) != Some(0u16),
            StyleAttr::GridRowEnd(x) => x != 0,
            StyleAttr::GridColumnStart(x) => x != 0,
            StyleAttr::GridColumnSpan(x) => x != 0,
            StyleAttr::GridColumnEnd(x) => x != 0,
            _ => true,
        }
    }

    /// The asset that applying the attribute loads: the resolved path of a
    /// constant background image.
    pub open spec fn asset_to_load(self) -> Option<(Seq<Seq<char>>, Option<Seq<char>>)> {
        match self {
            StyleAttr::BackgroundImage(StyleExpr::Constant(a)) => Some(a@.1),
            _ => None,
        }
    }

    /// The style `c` with this attribute applied: the property takes the
    /// value that the expression stands for, and stays as it is where the
    /// expression stands for none. A background image takes effect only as
    /// a constant; the image is kept as the text of its resolved path.
    #[verifier::opaque]
    pub open spec fn applied(self, c: ComputedStyle) -> ComputedStyle {
        match self {
        StyleAttr::BackgroundImage(e) => match e {
            StyleExpr::Constant(a) => ComputedStyle { image: ImageProps { image: Some(a.resolved_written()), ..c.image }, ..c },
            _ => c,
        },
        StyleAttr::BackgroundColor(e) => match style_color(e) {
            Some(x) => ComputedStyle { background_color: color_spec(x), ..c },
            None => c,
        },
        StyleAttr::BorderColor(e) => match style_color(e) {
            Some(x) => ComputedStyle { border_color: color_spec(x), ..c },
            None => c,
        },
        StyleAttr::Color(e) => match style_color(e) {
            Some(x) => ComputedStyle { text: TextProps { color: x, ..c.text }, ..c },
            None => c,
        },
        StyleAttr::ZIndex(e) => match style_i32(e) {
            Some(z) => ComputedStyle { z_index: Some(z), ..c },
            None => c,
        },
        StyleAttr::Display(e) => match style_display(e) {
            Some(x) => ComputedStyle { style: Style { display: x, ..c.style }, ..c },
            None => c,
        },
        StyleAttr::Position(e) => match style_position_type(e) {
            Some(x) => ComputedStyle { style: Style { position_type: x, ..c.style }, ..c },
            None => c,
        },
        StyleAttr::Overflow(e) => match style_overflow(e) {
            Some(x) => ComputedStyle { style: Style { overflow: Overflow { x: x, y: x }, ..c.style }, ..c },
            None => c,
        },
        StyleAttr::OverflowX(e) => match style_overflow(e) {
            Some(x) => ComputedStyle { style: Style { overflow: Overflow { x: x, ..c.style.overflow }, ..c.style }, ..c },
            None => c,
        },
        StyleAttr::OverflowY(e) => match style_overflow(e) {
            Some(x) => ComputedStyle { style: Style { overflow: Overflow { y: x, ..c.style.overflow }, ..c.style }, ..c },
            None => c,
        },
        StyleAttr::Direction(e) => match style_direction(e) {
            Some(x) => ComputedStyle { style: Style { direction: x, ..c.style }, ..c },
            None => c,
        },
        StyleAttr::AlignItems(e) => match style_align_items(e) {
            Some(x) => ComputedStyle { style: Style { align_items: x, ..c.style }, ..c },
            None => c,
        },
        StyleAttr::JustifyItems(e) => match style_justify_items(e) {
            Some(x) => ComputedStyle { style: Style { justify_items: x, ..c.style }, ..c },
            None => c,
        },
        StyleAttr::AlignSelf(e) => match style_align_self(e) {
            Some(x) => ComputedStyle { style: Style { align_self: x, ..c.style }, ..c },
            None => c,
        },
        StyleAttr::JustifySelf(e) => match style_justify_self(e) {
            Some(x) => ComputedStyle { style: Style { justify_self: x, ..c.style }, ..c },
            None => c,
        },
        StyleAttr::AlignContent(e) => match style_align_content(e) {
            Some(x) => ComputedStyle { style: Style { align_content: x, ..c.style }, ..c },
            None => c,
        },
        StyleAttr::JustifyContent(e) => match style_justify_content(e) {
            Some(x) => ComputedStyle { style: Style { justify_content: x, ..c.style }, ..c },
            None => c,
        },
        StyleAttr::FlexDirection(e) => match style_flex_direction(e) {
            Some(x) => ComputedStyle { style: Style { flex_direction: x, ..c.style }, ..c },
            None => c,
        },
        StyleAttr::FlexWrap(e) => match style_flex_wrap(e) {
            Some(x) => ComputedStyle { style: Style { flex_wrap: x, ..c.style }, ..c },
            None => c,
        },
        StyleAttr::Left(e) => match style_length(e) {
            Some(x) => ComputedStyle { style: Style { left: x, ..c.style }, ..c },
            None => c,
        },
        StyleAttr::Right(e) => match style_length(e) {
            Some(x) => ComputedStyle { style: Style { right: x, ..c.style }, ..c },
            None => c,
        },
        StyleAttr::Top(e) => match style_length(e) {
            Some(x) => ComputedStyle { style: Style { top: x, ..c.style }, ..c },
            None => c,
        },
        StyleAttr::Bottom(e) => match style_length(e) {
            Some(x) => ComputedStyle { style: Style { bottom: x, ..c.style }, ..c },
            None => c,
        },
        StyleAttr::Width(e) => match style_length(e) {
            Some(x) => ComputedStyle { style: Style { width: x, ..c.style }, ..c },
            None => c,
        },
        StyleAttr::Height(e) => match style_length(e) {
            Some(x) => ComputedStyle { style: Style { height: x, ..c.style }, ..c },
            None => c,
        },
        StyleAttr::MinWidth(e) => match style_length(e) {
            Some(x) => ComputedStyle { style: Style { min_width: x, ..c.style }, ..c },
            None => c,
        },
        StyleAttr::MinHeight(e) => match style_length(e) {
            Some(x) => ComputedStyle { style: Style { min_height: x, ..c.style }, ..c },
            None => c,
        },
        StyleAttr::MaxWidth(e) => match style_length(e) {
            Some(x) => ComputedStyle { style: Style { max_width: x, ..c.style }, ..c },
            None => c,
        },
        StyleAttr::MaxHeight(e) => match style_length(e) {
            Some(x) => ComputedStyle { style: Style { max_height: x, ..c.style }, ..c },
            None => c,
        },
        StyleAttr::FlexBasis(e) => match style_length(e) {
            Some(x) => ComputedStyle { style: Style { flex_basis: x, ..c.style }, ..c },
            None => c,
        },
        StyleAttr::RowGap(e) => match style_length(e) {
            Some(x) => ComputedStyle { style: Style { row_gap: x, ..c.style }, ..c },
            None => c,
        },
        StyleAttr::ColumnGap(e) => match style_length(e) {
            Some(x) => ComputedStyle { style: Style { column_gap: x, ..c.style }, ..c },
            None => c,
        },
        StyleAttr::Gap(e) => match style_length(e) {
            Some(x) => ComputedStyle { style: Style { row_gap: x, column_gap: x, ..c.style }, ..c },
            None => c,
        },
        StyleAttr::Margin(l) => match rect_of(l.0@) {
            Some(r) => ComputedStyle { style: Style { margin: r, ..c.style }, ..c },
            None => c,
        },
        StyleAttr::MarginLeft(e) => match style_length(e) {
            Some(x) => ComputedStyle { style: Style { margin: UiRect { left: x, ..c.style.margin }, ..c.style }, ..c },
            None => c,
        },
        StyleAttr::MarginRight(e) => match style_length(e) {
            Some(x) => ComputedStyle { style: Style { margin: UiRect { right: x, ..c.style.margin }, ..c.style }, ..c },
            None => c,
        },
        StyleAttr::MarginTop(e) => match style_length(e) {
            Some(x) => ComputedStyle { style: Style { margin: UiRect { top: x, ..c.style.margin }, ..c.style }, ..c },
            None => c,
        },
        StyleAttr::MarginBottom(e) => match style_length(e) {
            Some(x) => ComputedStyle { style: Style { margin: UiRect { bottom: x, ..c.style.margin }, ..c.style }, ..c },
            None => c,
        },
        StyleAttr::Padding(l) => match rect_of(l.0@) {
            Some(r) => ComputedStyle { style: Style { padding: r, ..c.style }, ..c },
            None => c,
        },
        StyleAttr::PaddingLeft(e) => match style_length(e) {
            Some(x) => ComputedStyle { style: Style { padding: UiRect { left: x, ..c.style.padding }, ..c.style }, ..c },
            None => c,
        },
        StyleAttr::PaddingRight(e) => match style_length(e) {
            Some(x) => ComputedStyle { style: Style { padding: UiRect { right: x, ..c.style.padding }, ..c.style }, ..c },
            None => c,
        },
        StyleAttr::PaddingTop(e) => match style_length(e) {
            Some(x) => ComputedStyle { style: Style { padding: UiRect { top: x, ..c.style.padding }, ..c.style }, ..c },
            None => c,
        },
        StyleAttr::PaddingBottom(e) => match style_length(e) {
            Some(x) => ComputedStyle { style: Style { padding: UiRect { bottom: x, ..c.style.padding }, ..c.style }, ..c },
            None => c,
        },
        StyleAttr::Border(l) => match rect_of(l.0@) {
            Some(r) => ComputedStyle { style: Style { border: r, ..c.style }, ..c },
            None => c,
        },
        StyleAttr::BorderLeft(e) => match style_length(e) {
            Some(x) => ComputedStyle { style: Style { border: UiRect { left: x, ..c.style.border }, ..c.style }, ..c },
            None => c,
        },
        StyleAttr::BorderRight(e) => match style_length(e) {
            Some(x) => ComputedStyle { style: Style { border: UiRect { right: x, ..c.style.border }, ..c.style }, ..c },
            None => c,
        },
        StyleAttr::BorderTop(e) => match style_length(e) {
            Some(x) => ComputedStyle { style: Style { border: UiRect { top: x, ..c.style.border }, ..c.style }, ..c },
            None => c,
        },
        StyleAttr::BorderBottom(e) => match style_length(e) {
            Some(x) => ComputedStyle { style: Style { border: UiRect { bottom: x, ..c.style.border }, ..c.style }, ..c },
            None => c,
        },
        StyleAttr::Flex(l) => ComputedStyle { style: flex_style(l.0@, c.style), ..c },
        StyleAttr::FlexGrow(e) => match style_number(e) {
            Some(x) => ComputedStyle { style: Style { flex_grow: x, ..c.style }, ..c },
            None => c,
        },
        StyleAttr::FlexShrink(e) => match style_number(e) {
            Some(x) => ComputedStyle { style: Style { flex_shrink: x, ..c.style }, ..c },
            None => c,
        },
        StyleAttr::GridAutoFlow(x) => ComputedStyle { style: Style { grid_auto_flow: x, ..c.style }, ..c },
        StyleAttr::GridRow(x) => ComputedStyle { style: Style { grid_row: x, ..c.style }, ..c },
        StyleAttr::GridRowStart(e) => match style_i16(e) {
            Some(x) => ComputedStyle { style: Style { grid_row: GridPlacement { start: Some(x), ..c.style.grid_row }, ..c.style }, ..c },
            None => c,
        },
        StyleAttr::GridRowSpan(e) => match style_u16(e) {
            Some(x) => ComputedStyle { style: Style { grid_row: GridPlacement { span: Some(x), ..c.style.grid_row }, ..c.style }, ..c },
            None => c,
        },
        StyleAttr::GridRowEnd(x) => ComputedStyle { style: Style { grid_row: GridPlacement { end: Some(x), ..c.style.grid_row }, ..c.style }, ..c },
        StyleAttr::GridColumn(x) => ComputedStyle { style: Style { grid_column: x, ..c.style }, ..c },
        StyleAttr::GridColumnStart(x) => ComputedStyle { style: Style { grid_column: GridPlacement { start: Some(x), ..c.style.grid_column }, ..c.style }, ..c },
        StyleAttr::GridColumnSpan(x) => ComputedStyle { style: Style { grid_column: GridPlacement { span: Some(x), ..c.style.grid_column }, ..c.style }, ..c },
        StyleAttr::GridColumnEnd(x) => ComputedStyle { style: Style { grid_column: GridPlacement { end: Some(x), ..c.style.grid_column }, ..c.style }, ..c },
        StyleAttr::LineBreak(x) => ComputedStyle { text: TextProps { line_break: Some(x), ..c.text }, ..c },
        }
    }

    /// Applies this attribute to a computed style, and gives the path of an
    /// asset to load for it, where there is one.
    pub fn apply(&self, computed: &mut ComputedStyle) -> (load: Option<AssetPath>)
        requires
            self.apply_ok(),
        ensures
            *final(computed) == self.applied(*old(computed)),
            match self.asset_to_load() {
                Some(p) => load matches Some(q) && q@ == p,
                None => load is None,
            },
    {
        if let StyleAttr::BackgroundImage(e) = self {
            proof {
                reveal(StyleAttr::applied);
            }
            return apply_image(e, computed);
        }
        self.apply_value(computed);
        None
    }

    /// The attributes of the first half of the list.
    pub open spec fn in_first_half(self) -> bool {
        self is BackgroundColor || self is BorderColor || self is Color || self is ZIndex || self is Display || self is Position || self is Overflow || self is OverflowX || self is OverflowY || self is Direction || self is AlignItems || self is JustifyItems || self is AlignSelf || self is JustifySelf || self is AlignContent || self is JustifyContent || self is FlexDirection || self is FlexWrap || self is Left || self is Right || self is Top || self is Bottom || self is Width || self is Height || self is MinWidth || self is MinHeight || self is MaxWidth || self is MaxHeight || self is FlexBasis || self is RowGap
    }

    fn is_first_half(&self) -> (r: bool)
        ensures
            r == self.in_first_half(),
    {
        match self {
            StyleAttr::BackgroundColor(_) => true,
            StyleAttr::BorderColor(_) => true,
            StyleAttr::Color(_) => true,
            StyleAttr::ZIndex(_) => true,
            StyleAttr::Display(_) => true,
            StyleAttr::Position(_) => true,
            StyleAttr::Overflow(_) => true,
            StyleAttr::OverflowX(_) => true,
            StyleAttr::OverflowY(_) => true,
            StyleAttr::Direction(_) => true,
            StyleAttr::AlignItems(_) => true,
            StyleAttr::JustifyItems(_) => true,
            StyleAttr::AlignSelf(_) => true,
            StyleAttr::JustifySelf(_) => true,
            StyleAttr::AlignContent(_) => true,
            StyleAttr::JustifyContent(_) => true,
            StyleAttr::FlexDirection(_) => true,
            StyleAttr::FlexWrap(_) => true,
            StyleAttr::Left(_) => true,
            StyleAttr::Right(_) => true,
            StyleAttr::Top(_) => true,
            StyleAttr::Bottom(_) => true,
            StyleAttr::Width(_) => true,
            StyleAttr::Height(_) => true,
            StyleAttr::MinWidth(_) => true,
            StyleAttr::MinHeight(_) => true,
            StyleAttr::MaxWidth(_) => true,
            StyleAttr::MaxHeight(_) => true,
            StyleAttr::FlexBasis(_) => true,
            StyleAttr::RowGap(_) => true,
            _ => false,
        }
    }

    /// Applies an attribute other than a background image.
    fn apply_value(&self, computed: &mut ComputedStyle)
        requires
            self.apply_ok(),
            !(self is BackgroundImage),
        ensures
            *final(computed) == self.applied(*old(computed)),
    {
        if self.is_first_half() {
            self.apply_first(computed);
        } else {
            self.apply_second(computed);
        }
    }

    #[verifier::rlimit(60)]
    fn apply_first(&self, computed: &mut ComputedStyle)
        requires
            self.in_first_half(),
        ensures
            *final(computed) == self.applied(*old(computed)),
    {
        proof {
            reveal(StyleAttr::applied);
        }
        match self {
            StyleAttr::BackgroundColor(e) => {
                if let Some(x) = e.coerce() {
                    computed.background_color = color_spec_of(&x);
                }
            },
            StyleAttr::BorderColor(e) => {
                if let Some(x) = e.coerce() {
                    computed.border_color = color_spec_of(&x);
                }
            },
            StyleAttr::Color(e) => {
                if let Some(x) = e.coerce() {
                    computed.text.color = x;
                }
            },
            StyleAttr::ZIndex(e) => {
                if let Some(z) = e.coerce() {
                    computed.z_index = Some(z);
                }
            },
            StyleAttr::Display(e) => {
                if let Some(x) = e.coerce() {
                    computed.style.display = x;
                }
            },
            StyleAttr::Position(e) => {
                if let Some(x) = e.coerce() {
                    computed.style.position_type = x;
                }
            },
            StyleAttr::Overflow(e) => {
                if let Some(x) = e.coerce() {
                    computed.style.overflow.x = x;
                    computed.style.overflow.y = x;
                }
            },
            StyleAttr::OverflowX(e) => {
                if let Some(x) = e.coerce() {
                    computed.style.overflow.x = x;
                }
            },
            StyleAttr::OverflowY(e) => {
                if let Some(x) = e.coerce() {
                    computed.style.overflow.y = x;
                }
            },
            StyleAttr::Direction(e) => {
                if let Some(x) = e.coerce() {
                    computed.style.direction = x;
                }
            },
            StyleAttr::AlignItems(e) => {
                if let Some(x) = e.coerce() {
                    computed.style.align_items = x;
                }
            },
            StyleAttr::JustifyItems(e) => {
                if let Some(x) = e.coerce() {
                    computed.style.justify_items = x;
                }
            },
            StyleAttr::AlignSelf(e) => {
                if let Some(x) = e.coerce() {
                    computed.style.align_self = x;
                }
            },
            StyleAttr::JustifySelf(e) => {
                if let Some(x) = e.coerce() {
                    computed.style.justify_self = x;
                }
            },
            StyleAttr::AlignContent(e) => {
                if let Some(x) = e.coerce() {
                    computed.style.align_content = x;
                }
            },
            StyleAttr::JustifyContent(e) => {
                if let Some(x) = e.coerce() {
                    computed.style.justify_content = x;
                }
            },
            StyleAttr::FlexDirection(e) => {
                if let Some(x) = e.coerce() {
                    computed.style.flex_direction = x;
                }
            },
            StyleAttr::FlexWrap(e) => {
                if let Some(x) = e.coerce() {
                    computed.style.flex_wrap = x;
                }
            },
            StyleAttr::Left(e) => {
                if let Some(x) = e.coerce() {
                    computed.style.left = x;
                }
            },
            StyleAttr::Right(e) => {
                if let Some(x) = e.coerce() {
                    computed.style.right = x;
                }
            },
            StyleAttr::Top(e) => {
                if let Some(x) = e.coerce() {
                    computed.style.top = x;
                }
            },
            StyleAttr::Bottom(e) => {
                if let Some(x) = e.coerce() {
                    computed.style.bottom = x;
                }
            },
            StyleAttr::Width(e) => {
                if let Some(x) = e.coerce() {
                    computed.style.width = x;
                }
            },
            StyleAttr::Height(e) => {
                if let Some(x) = e.coerce() {
                    computed.style.height = x;
                }
            },
            StyleAttr::MinWidth(e) => {
                if let Some(x) = e.coerce() {
                    computed.style.min_width = x;
                }
            },
            StyleAttr::MinHeight(e) => {
                if let Some(x) = e.coerce() {
                    computed.style.min_height = x;
                }
            },
            StyleAttr::MaxWidth(e) => {
                if let Some(x) = e.coerce() {
                    computed.style.max_width = x;
                }
            },
            StyleAttr::MaxHeight(e) => {
                if let Some(x) = e.coerce() {
                    computed.style.max_height = x;
                }
            },
            StyleAttr::FlexBasis(e) => {
                if let Some(x) = e.coerce() {
                    computed.style.flex_basis = x;
                }
            },
            StyleAttr::RowGap(e) => {
                if let Some(x) = e.coerce() {
                    computed.style.row_gap = x;
                }
            },
            _ => {},
        }
    }

    #[verifier::rlimit(60)]
    fn apply_second(&self, computed: &mut ComputedStyle)
        requires
            self.apply_ok(),
            !(self is BackgroundImage),
            !self.in_first_half(),
        ensures
            *final(computed) == self.applied(*old(computed)),
    {
        proof {
            reveal(StyleAttr::applied);
        }
        match self {
            StyleAttr::ColumnGap(e) => {
                if let Some(x) = e.coerce() {
                    computed.style.column_gap = x;
                }
            },
            StyleAttr::Gap(e) => {
                if let Some(x) = e.coerce() {
                    computed.style.row_gap = x.clone();
                    computed.style.column_gap = x;
                }
            },
            StyleAttr::Margin(l) => {
                if let Some(r) = l.coerce() {
                    computed.style.margin = r;
                }
            },
            StyleAttr::MarginLeft(e) => {
                if let Some(x) = e.coerce() {
                    computed.style.margin.left = x;
                }
            },
            StyleAttr::MarginRight(e) => {
                if let Some(x) = e.coerce() {
                    computed.style.margin.right = x;
                }
            },
            StyleAttr::MarginTop(e) => {
                if let Some(x) = e.coerce() {
                    computed.style.margin.top = x;
                }
            },
            StyleAttr::MarginBottom(e) => {
                if let Some(x) = e.coerce() {
                    computed.style.margin.bottom = x;
                }
            },
            StyleAttr::Padding(l) => {
                if let Some(r) = l.coerce() {
                    computed.style.padding = r;
                }
            },
            StyleAttr::PaddingLeft(e) => {
                if let Some(x) = e.coerce() {
                    computed.style.padding.left = x;
                }
            },
            StyleAttr::PaddingRight(e) => {
                if let Some(x) = e.coerce() {
                    computed.style.padding.right = x;
                }
            },
            StyleAttr::PaddingTop(e) => {
                if let Some(x) = e.coerce() {
                    computed.style.padding.top = x;
                }
            },
            StyleAttr::PaddingBottom(e) => {
                if let Some(x) = e.coerce() {
                    computed.style.padding.bottom = x;
                }
            },
            StyleAttr::Border(l) => {
                if let Some(r) = l.coerce() {
                    computed.style.border = r;
                }
            },
            StyleAttr::BorderLeft(e) => {
                if let Some(x) = e.coerce() {
                    computed.style.border.left = x;
                }
            },
            StyleAttr::BorderRight(e) => {
                if let Some(x) = e.coerce() {
                    computed.style.border.right = x;
                }
            },
            StyleAttr::BorderTop(e) => {
                if let Some(x) = e.coerce() {
                    computed.style.border.top = x;
                }
            },
            StyleAttr::BorderBottom(e) => {
                if let Some(x) = e.coerce() {
                    computed.style.border.bottom = x;
                }
            },
            StyleAttr::Flex(l) => {
                apply_flex(l, &mut computed.style);
            },
            StyleAttr::FlexGrow(e) => {
                if let Some(x) = e.coerce() {
                    computed.style.flex_grow = x;
                }
            },
            StyleAttr::FlexShrink(e) => {
                if let Some(x) = e.coerce() {
                    computed.style.flex_shrink = x;
                }
            },
            StyleAttr::GridAutoFlow(x) => {
                computed.style.grid_auto_flow = *x;
            },
            StyleAttr::GridRow(x) => {
                computed.style.grid_row = *x;
            },
            StyleAttr::GridRowStart(e) => {
                if let Some(x) = e.coerce() {
                    computed.style.grid_row.start = Some(x);
                }
            },
            StyleAttr::GridRowSpan(e) => {
                if let Some(x) = e.coerce() {
                    computed.style.grid_row.span = Some(x);
                }
            },
            StyleAttr::GridRowEnd(x) => {
                computed.style.grid_row.end = Some(*x);
            },
            StyleAttr::GridColumn(x) => {
                computed.style.grid_column = *x;
            },
            StyleAttr::GridColumnStart(x) => {
                computed.style.grid_column.start = Some(*x);
            },
            StyleAttr::GridColumnSpan(x) => {
                computed.style.grid_column.span = Some(*x);
            },
            StyleAttr::GridColumnEnd(x) => {
                computed.style.grid_column.end = Some(*x);
            },
            StyleAttr::LineBreak(x) => {
                computed.text.line_break = Some(*x);
            },
            _ => {},
        }
    }
}

} // verus!
