//! The layout style of a node, and the style computed for it from its
//! style attributes.
use vstd::prelude::*;
use crate::keywords::{
    AlignContent, AlignItems, AlignSelf, Direction, Display, FlexDirection, FlexWrap, GridAutoFlow,
    JustifyContent, JustifyItems, JustifySelf, OverflowAxis, PositionType,
};
use crate::untyped::ColorValue;
use crate::values::{copy_str, ColorSpec, GridPlacement, UiRect, Unit, Val};

verus! {

/// How content that does not fit is shown, per axis.
#[derive(Debug, Clone, Copy, PartialEq, Eq, Structural)]
pub struct Overflow {
    pub x: OverflowAxis,
    pub y: OverflowAxis,
}

/// How the lines of a text are aligned.
#[derive(Debug, Clone, Copy, PartialEq, Eq, Structural)]
pub enum TextAlignment {
    Left,
    Center,
    Right,
}

/// Where a text may be broken into lines.
#[derive(Debug, Clone, Copy, PartialEq, Eq, Structural)]
pub enum BreakLineOn {
    WordBoundary,
    AnyCharacter,
}

/// The properties of a text that a node passes on to its children: the
/// font size as the text of its number, and the font as the path of its
/// asset.
#[derive(Debug, PartialEq)]
pub struct TextProps {
    pub alignment: Option<TextAlignment>,
    pub color: ColorValue,
    pub font_size: Option<String>,
    pub font: Option<String>,
    pub line_break: Option<BreakLineOn>,
}

impl TextProps {
    /// The text properties of a node that inherits nothing.
    pub fn new() -> (r: TextProps)
        ensures
            r.alignment is None,
            r.color == ColorValue::Transparent,
            r.font_size is None,
            r.font is None,
            r.line_break is None,
    {
        TextProps {
            alignment: None,
            color: ColorValue::Transparent,
            font_size: None,
            font: None,
            line_break: None,
        }
    }
}

impl Clone for TextProps {
    fn clone(&self) -> (r: TextProps)
        ensures
            r == *self,
    {
        TextProps {
            alignment: self.alignment,
            color: self.color.clone(),
            font_size: match &self.font_size {
                Some(t) => Some(t.clone()),
                None => None,
            },
            font: match &self.font {
                Some(t) => Some(t.clone()),
                None => None,
            },
            line_break: self.line_break,
        }
    }
}

/// The image a node draws, by the path of its asset, and whether it is
/// mirrored on either axis.
#[derive(Debug, PartialEq)]
pub struct ImageProps {
    pub image: Option<String>,
    pub flip_x: bool,
    pub flip_y: bool,
}

impl ImageProps {
    /// No image, not mirrored.
    pub fn new() -> (r: ImageProps)
        ensures
            r.image is None,
            !r.flip_x,
            !r.flip_y,
    {
        ImageProps { image: None, flip_x: false, flip_y: false }
    }
}

impl Clone for ImageProps {
    fn clone(&self) -> (r: ImageProps)
        ensures
            r == *self,
    {
        ImageProps {
            image: match &self.image {
                Some(t) => Some(t.clone()),
                None => None,
            },
            flip_x: self.flip_x,
            flip_y: self.flip_y,
        }
    }
}

/// A length of zero pixels.
pub fn zero_px() -> (r: Val)
    ensures
        r@ == (Unit::Px, "0"@),
{
    Val::Px(copy_str("0"))
}

/// All four sides are zero pixels.
pub open spec fn is_zero_rect(r: UiRect) -> bool {
    &&& r.left@ == (Unit::Px, "0"@)
    &&& r.right@ == (Unit::Px, "0"@)
    &&& r.top@ == (Unit::Px, "0"@)
    &&& r.bottom@ == (Unit::Px, "0"@)
}

/// A rectangle of zero pixels on each side.
pub fn zero_rect() -> (r: UiRect)
    ensures
        is_zero_rect(r),
{
    UiRect::new(zero_px(), zero_px(), zero_px(), zero_px())
}

/// The layout properties of a node. Numbers are kept as their text.
#[derive(Debug, PartialEq)]
pub struct Style {
    pub display: Display,
    pub position_type: PositionType,
    pub overflow: Overflow,
    pub direction: Direction,
    pub left: Val,
    pub right: Val,
    pub top: Val,
    pub bottom: Val,
    pub width: Val,
    pub height: Val,
    pub min_width: Val,
    pub min_height: Val,
    pub max_width: Val,
    pub max_height: Val,
    pub align_items: AlignItems,
    pub justify_items: JustifyItems,
    pub align_self: AlignSelf,
    pub justify_self: JustifySelf,
    pub align_content: AlignContent,
    pub justify_content: JustifyContent,
    pub margin: UiRect,
    pub padding: UiRect,
    pub border: UiRect,
    pub flex_direction: FlexDirection,
    pub flex_wrap: FlexWrap,
    pub flex_grow: String,
    pub flex_shrink: String,
    pub flex_basis: Val,
    pub row_gap: Val,
    pub column_gap: Val,
    pub grid_auto_flow: GridAutoFlow,
    pub grid_row: GridPlacement,
    pub grid_column: GridPlacement,
}

impl Default for Style {
    /// The style of a node that no attribute has set.
    fn default() -> (r: Style)
        ensures
            r.display == Display::Flex,
            r.position_type == PositionType::Relative,
            r.overflow == (Overflow { x: OverflowAxis::Visible, y: OverflowAxis::Visible }),
            r.direction == Direction::Inherit,
            r.left == Val::Auto,
            r.right == Val::Auto,
            r.top == Val::Auto,
            r.bottom == Val::Auto,
            r.width == Val::Auto,
            r.height == Val::Auto,
            r.min_width == Val::Auto,
            r.min_height == Val::Auto,
            r.max_width == Val::Auto,
            r.max_height == Val::Auto,
            r.align_items == AlignItems::Default,
            r.justify_items == JustifyItems::Default,
            r.align_self == AlignSelf::Auto,
            r.justify_self == JustifySelf::Auto,
            r.align_content == AlignContent::Default,
            r.justify_content == JustifyContent::Default,
            is_zero_rect(r.margin),
            is_zero_rect(r.padding),
            is_zero_rect(r.border),
            r.flex_direction == FlexDirection::Row,
            r.flex_wrap == FlexWrap::NoWrap,
            r.flex_grow@ == "0"@,
            r.flex_shrink@ == "1"@,
            r.flex_basis == Val::Auto,
            r.row_gap@ == (Unit::Px, "0"@),
            r.column_gap@ == (Unit::Px, "0"@),
            r.grid_auto_flow == GridAutoFlow::Row,
            r.grid_row == (GridPlacement { start: None, span: Some(1), end: None }),
            r.grid_column == (GridPlacement { start: None, span: Some(1), end: None }),
    {
        Style {
            display: Display::Flex,
            position_type: PositionType::Relative,
            overflow: Overflow { x: OverflowAxis::Visible, y: OverflowAxis::Visible },
            direction: Direction::Inherit,
            left: Val::Auto,
            right: Val::Auto,
            top: Val::Auto,
            bottom: Val::Auto,
            width: Val::Auto,
            height: Val::Auto,
            min_width: Val::Auto,
            min_height: Val::Auto,
            max_width: Val::Auto,
            max_height: Val::Auto,
            align_items: AlignItems::Default,
            justify_items: JustifyItems::Default,
            align_self: AlignSelf::Auto,
            justify_self: JustifySelf::Auto,
            align_content: AlignContent::Default,
            justify_content: JustifyContent::Default,
            margin: zero_rect(),
            padding: zero_rect(),
            border: zero_rect(),
            flex_direction: FlexDirection::Row,
            flex_wrap: FlexWrap::NoWrap,
            flex_grow: copy_str("0"),
            flex_shrink: copy_str("1"),
            flex_basis: Val::Auto,
            row_gap: zero_px(),
            column_gap: zero_px(),
            grid_auto_flow: GridAutoFlow::Row,
            grid_row: GridPlacement::default(),
            grid_column: GridPlacement::default(),
        }
    }
}

impl Clone for Style {
    fn clone(&self) -> (r: Style)
        ensures
            r == *self,
    {
        Style {
            display: self.display,
            position_type: self.position_type,
            overflow: self.overflow,
            direction: self.direction,
            left: self.left.clone(),
            right: self.right.clone(),
            top: self.top.clone(),
            bottom: self.bottom.clone(),
            width: self.width.clone(),
            height: self.height.clone(),
            min_width: self.min_width.clone(),
            min_height: self.min_height.clone(),
            max_width: self.max_width.clone(),
            max_height: self.max_height.clone(),
            align_items: self.align_items,
            justify_items: self.justify_items,
            align_self: self.align_self,
            justify_self: self.justify_self,
            align_content: self.align_content,
            justify_content: self.justify_content,
            margin: self.margin.clone(),
            padding: self.padding.clone(),
            border: self.border.clone(),
            flex_direction: self.flex_direction,
            flex_wrap: self.flex_wrap,
            flex_grow: self.flex_grow.clone(),
            flex_shrink: self.flex_shrink.clone(),
            flex_basis: self.flex_basis.clone(),
            row_gap: self.row_gap.clone(),
            column_gap: self.column_gap.clone(),
            grid_auto_flow: self.grid_auto_flow,
            grid_row: self.grid_row,
            grid_column: self.grid_column,
        }
    }
}

/// The layout, colors and stacking order that a style has before any
/// attribute applies: those of a new style.
pub open spec fn has_default_layout(c: ComputedStyle) -> bool {
    &&& c.border_color is None
    &&& c.background_color is None
    &&& c.z_index is None
    &&& c.style.display == Display::Flex
    &&& c.style.position_type == PositionType::Relative
    &&& c.style.overflow == (Overflow { x: OverflowAxis::Visible, y: OverflowAxis::Visible })
    &&& c.style.direction == Direction::Inherit
    &&& c.style.left == Val::Auto
    &&& c.style.right == Val::Auto
    &&& c.style.top == Val::Auto
    &&& c.style.bottom == Val::Auto
    &&& c.style.width == Val::Auto
    &&& c.style.height == Val::Auto
    &&& c.style.min_width == Val::Auto
    &&& c.style.min_height == Val::Auto
    &&& c.style.max_width == Val::Auto
    &&& c.style.max_height == Val::Auto
    &&& c.style.align_items == AlignItems::Default
    &&& c.style.justify_items == JustifyItems::Default
    &&& c.style.align_self == AlignSelf::Auto
    &&& c.style.justify_self == JustifySelf::Auto
    &&& c.style.align_content == AlignContent::Default
    &&& c.style.justify_content == JustifyContent::Default
    &&& is_zero_rect(c.style.margin)
    &&& is_zero_rect(c.style.padding)
    &&& is_zero_rect(c.style.border)
    &&& c.style.flex_direction == FlexDirection::Row
    &&& c.style.flex_wrap == FlexWrap::NoWrap
    &&& c.style.flex_grow@ == "0"@
    &&& c.style.flex_shrink@ == "1"@
    &&& c.style.flex_basis == Val::Auto
    &&& c.style.row_gap@ == (Unit::Px, "0"@)
    &&& c.style.column_gap@ == (Unit::Px, "0"@)
    &&& c.style.grid_auto_flow == GridAutoFlow::Row
    &&& c.style.grid_row == (GridPlacement { start: None, span: Some(1), end: None })
    &&& c.style.grid_column == (GridPlacement { start: None, span: Some(1), end: None })
}

/// The style computed for a node from the attributes that apply to it.
#[derive(Debug, PartialEq)]
pub struct ComputedStyle {
    pub style: Style,
    pub text: TextProps,
    pub image: ImageProps,
    pub border_color: Option<ColorSpec>,
    pub background_color: Option<ColorSpec>,
    pub z_index: Option<i32>,
}

impl ComputedStyle {
    /// A new, default style.
    pub fn new() -> (r: ComputedStyle)
        ensures
            has_default_layout(r),
            r.text.alignment is None,
            r.text.color == ColorValue::Transparent,
            r.text.font_size is None,
            r.text.font is None,
            r.text.line_break is None,
            r.image.image is None,
            !r.image.flip_x,
            !r.image.flip_y,
    {
        ComputedStyle {
            style: Style::default(),
            text: TextProps::new(),
            image: ImageProps::new(),
            border_color: None,
            background_color: None,
            z_index: None,
        }
    }

    /// A new style for a node whose parent has the style `parent`: the text
    /// alignment, color, font size, font and line breaking are inherited;
    /// the layout, colors, stacking order and image are as in a new style.
    pub fn inherit(parent: &ComputedStyle) -> (r: ComputedStyle)
        ensures
            has_default_layout(r),
            r.text == parent.text,
            r.image.image is None,
            !r.image.flip_x,
            !r.image.flip_y,
    {
        let mut r = ComputedStyle::new();
        r.text = parent.text.clone();
        r
    }
}

impl Default for ComputedStyle {
    fn default() -> (r: ComputedStyle)
        ensures
            has_default_layout(r),
            r.text.alignment is None,
            r.text.color == ColorValue::Transparent,
            r.text.font_size is None,
            r.text.font is None,
            r.text.line_break is None,
            r.image.image is None,
            !r.image.flip_x,
            !r.image.flip_y,
    {
        ComputedStyle::new()
    }
}

impl Clone for ComputedStyle {
    fn clone(&self) -> (r: ComputedStyle)
        ensures
            r == *self,
    {
        ComputedStyle {
            style: self.style.clone(),
            border_color: match &self.border_color {
                Some(c) => Some(c.clone()),
                None => None,
            },
            background_color: match &self.background_color {
                Some(c) => Some(c.clone()),
                None => None,
            },
            z_index: self.z_index,
            text: self.text.clone(),
            image: self.image.clone(),
        }
    }
}

} // verus!
