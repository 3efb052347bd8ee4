//! What applying each style attribute changes: the property it names, to
//! the attribute's value, and nothing else.
use vstd::prelude::*;
use crate::attr::StyleAttr;
use crate::keywords::{
    AlignContent, AlignItems, AlignSelf, Direction, Display, FlexDirection, FlexWrap, GridAutoFlow,
    JustifyContent, JustifyItems, JustifySelf, OverflowAxis, PositionType,
};
use crate::style::{ComputedStyle, Overflow, Style};
use crate::values::{ColorSpec, GridPlacement, UiRect, Val};

verus! {

/// `BackgroundColor` sets what it names and leaves the rest of the style as it was.
pub proof fn lemma_apply_background_color(x: Option<ColorSpec>, c: ComputedStyle)
    ensures
        ({
            let r = StyleAttr::BackgroundColor(x).applied(c);
            &&& r.background_color == x
            &&& r == (ComputedStyle { background_color: r.background_color, ..c })
        }),
{
    reveal(StyleAttr::applied);
}

/// `BorderColor` sets what it names and leaves the rest of the style as it was.
pub proof fn lemma_apply_border_color(x: Option<ColorSpec>, c: ComputedStyle)
    ensures
        ({
            let r = StyleAttr::BorderColor(x).applied(c);
            &&& r.border_color == x
            &&& r == (ComputedStyle { border_color: r.border_color, ..c })
        }),
{
    reveal(StyleAttr::applied);
}

/// `ZIndex` sets what it names and leaves the rest of the style as it was.
pub proof fn lemma_apply_z_index(x: i32, c: ComputedStyle)
    ensures
        ({
            let r = StyleAttr::ZIndex(x).applied(c);
            &&& r.z_index == Some(x)
            &&& r == (ComputedStyle { z_index: r.z_index, ..c })
        }),
{
    reveal(StyleAttr::applied);
}

/// `Display` sets what it names and leaves the rest of the style as it was.
pub proof fn lemma_apply_display(x: Display, c: ComputedStyle)
    ensures
        ({
            let r = StyleAttr::Display(x).applied(c);
            &&& r.style.display == x
            &&& r == (ComputedStyle { style: Style { display: r.style.display, ..c.style }, ..c })
        }),
{
    reveal(StyleAttr::applied);
}

/// `Position` sets what it names and leaves the rest of the style as it was.
pub proof fn lemma_apply_position(x: PositionType, c: ComputedStyle)
    ensures
        ({
            let r = StyleAttr::Position(x).applied(c);
            &&& r.style.position_type == x
            &&& r == (ComputedStyle { style: Style { position_type: r.style.position_type, ..c.style }, ..c })
        }),
{
    reveal(StyleAttr::applied);
}

/// `Overflow` sets what it names and leaves the rest of the style as it was.
pub proof fn lemma_apply_overflow(x: OverflowAxis, c: ComputedStyle)
    ensures
        ({
            let r = StyleAttr::Overflow(x).applied(c);
            &&& r.style.overflow.x == x
            &&& r.style.overflow.y == x
            &&& r == (ComputedStyle { style: Style { overflow: r.style.overflow, ..c.style }, ..c })
        }),
{
    reveal(StyleAttr::applied);
}

/// `OverflowX` sets what it names and leaves the rest of the style as it was.
pub proof fn lemma_apply_overflow_x(x: OverflowAxis, c: ComputedStyle)
    ensures
        ({
            let r = StyleAttr::OverflowX(x).applied(c);
            &&& r.style.overflow.x == x
            &&& r.style.overflow.y == c.style.overflow.y
            &&& r == (ComputedStyle { style: Style { overflow: r.style.overflow, ..c.style }, ..c })
        }),
{
    reveal(StyleAttr::applied);
}

/// `OverflowY` sets what it names and leaves the rest of the style as it was.
pub proof fn lemma_apply_overflow_y(x: OverflowAxis, c: ComputedStyle)
    ensures
        ({
            let r = StyleAttr::OverflowY(x).applied(c);
            &&& r.style.overflow.x == c.style.overflow.x
            &&& r.style.overflow.y == x
            &&& r == (ComputedStyle { style: Style { overflow: r.style.overflow, ..c.style }, ..c })
        }),
{
    reveal(StyleAttr::applied);
}

/// `Direction` sets what it names and leaves the rest of the style as it was.
pub proof fn lemma_apply_direction(x: Direction, c: ComputedStyle)
    ensures
        ({
            let r = StyleAttr::Direction(x).applied(c);
            &&& r.style.direction == x
            &&& r == (ComputedStyle { style: Style { direction: r.style.direction, ..c.style }, ..c })
        }),
{
    reveal(StyleAttr::applied);
}

/// `Left` sets what it names and leaves the rest of the style as it was.
pub proof fn lemma_apply_left(x: Val, c: ComputedStyle)
    ensures
        ({
            let r = StyleAttr::Left(x).applied(c);
            &&& r.style.left == x
            &&& r == (ComputedStyle { style: Style { left: r.style.left, ..c.style }, ..c })
        }),
{
    reveal(StyleAttr::applied);
}

/// `Right` sets what it names and leaves the rest of the style as it was.
pub proof fn lemma_apply_right(x: Val, c: ComputedStyle)
    ensures
        ({
            let r = StyleAttr::Right(x).applied(c);
            &&& r.style.right == x
            &&& r == (ComputedStyle { style: Style { right: r.style.right, ..c.style }, ..c })
        }),
{
    reveal(StyleAttr::applied);
}

/// `Top` sets what it names and leaves the rest of the style as it was.
pub proof fn lemma_apply_top(x: Val, c: ComputedStyle)
    ensures
        ({
            let r = StyleAttr::Top(x).applied(c);
            &&& r.style.top == x
            &&& r == (ComputedStyle { style: Style { top: r.style.top, ..c.style }, ..c })
        }),
{
    reveal(StyleAttr::applied);
}

/// `Bottom` sets what it names and leaves the rest of the style as it was.
pub proof fn lemma_apply_bottom(x: Val, c: ComputedStyle)
    ensures
        ({
            let r = StyleAttr::Bottom(x).applied(c);
            &&& r.style.bottom == x
            &&& r == (ComputedStyle { style: Style { bottom: r.style.bottom, ..c.style }, ..c })
        }),
{
    reveal(StyleAttr::applied);
}

/// `Width` sets what it names and leaves the rest of the style as it was.
pub proof fn lemma_apply_width(x: Val, c: ComputedStyle)
    ensures
        ({
            let r = StyleAttr::Width(x).applied(c);
            &&& r.style.width == x
            &&& r == (ComputedStyle { style: Style { width: r.style.width, ..c.style }, ..c })
        }),
{
    reveal(StyleAttr::applied);
}

/// `Height` sets what it names and leaves the rest of the style as it was.
pub proof fn lemma_apply_height(x: Val, c: ComputedStyle)
    ensures
        ({
            let r = StyleAttr::Height(x).applied(c);
            &&& r.style.height == x
            &&& r == (ComputedStyle { style: Style { height: r.style.height, ..c.style }, ..c })
        }),
{
    reveal(StyleAttr::applied);
}

/// `MinWidth` sets what it names and leaves the rest of the style as it was.
pub proof fn lemma_apply_min_width(x: Val, c: ComputedStyle)
    ensures
        ({
            let r = StyleAttr::MinWidth(x).applied(c);
            &&& r.style.min_width == x
            &&& r == (ComputedStyle { style: Style { min_width: r.style.min_width, ..c.style }, ..c })
        }),
{
    reveal(StyleAttr::applied);
}

/// `MinHeight` sets what it names and leaves the rest of the style as it was.
pub proof fn lemma_apply_min_height(x: Val, c: ComputedStyle)
    ensures
        ({
            let r = StyleAttr::MinHeight(x).applied(c);
            &&& r.style.min_height == x
            &&& r == (ComputedStyle { style: Style { min_height: r.style.min_height, ..c.style }, ..c })
        }),
{
    reveal(StyleAttr::applied);
}

/// `MaxWidth` sets what it names and leaves the rest of the style as it was.
pub proof fn lemma_apply_max_width(x: Val, c: ComputedStyle)
    ensures
        ({
            let r = StyleAttr::MaxWidth(x).applied(c);
            &&& r.style.max_width == x
            &&& r == (ComputedStyle { style: Style { max_width: r.style.max_width, ..c.style }, ..c })
        }),
{
    reveal(StyleAttr::applied);
}

/// `MaxHeight` sets what it names and leaves the rest of the style as it was.
pub proof fn lemma_apply_max_height(x: Val, c: ComputedStyle)
    ensures
        ({
            let r = StyleAttr::MaxHeight(x).applied(c);
            &&& r.style.max_height == x
            &&& r == (ComputedStyle { style: Style { max_height: r.style.max_height, ..c.style }, ..c })
        }),
{
    reveal(StyleAttr::applied);
}

/// `AlignItems` sets what it names and leaves the rest of the style as it was.
pub proof fn lemma_apply_align_items(x: AlignItems, c: ComputedStyle)
    ensures
        ({
            let r = StyleAttr::AlignItems(x).applied(c);
            &&& r.style.align_items == x
            &&& r == (ComputedStyle { style: Style { align_items: r.style.align_items, ..c.style }, ..c })
        }),
{
    reveal(StyleAttr::applied);
}

/// `JustifyItems` sets what it names and leaves the rest of the style as it was.
pub proof fn lemma_apply_justify_items(x: JustifyItems, c: ComputedStyle)
    ensures
        ({
            let r = StyleAttr::JustifyItems(x).applied(c);
            &&& r.style.justify_items == x
            &&& r == (ComputedStyle { style: Style { justify_items: r.style.justify_items, ..c.style }, ..c })
        }),
{
    reveal(StyleAttr::applied);
}

/// `AlignSelf` sets what it names and leaves the rest of the style as it was.
pub proof fn lemma_apply_align_self(x: AlignSelf, c: ComputedStyle)
    ensures
        ({
            let r = StyleAttr::AlignSelf(x).applied(c);
            &&& r.style.align_self == x
            &&& r == (ComputedStyle { style: Style { align_self: r.style.align_self, ..c.style }, ..c })
        }),
{
    reveal(StyleAttr::applied);
}

/// `JustifySelf` sets what it names and leaves the rest of the style as it was.
pub proof fn lemma_apply_justify_self(x: JustifySelf, c: ComputedStyle)
    ensures
        ({
            let r = StyleAttr::JustifySelf(x).applied(c);
            &&& r.style.justify_self == x
            &&& r == (ComputedStyle { style: Style { justify_self: r.style.justify_self, ..c.style }, ..c })
        }),
{
    reveal(StyleAttr::applied);
}

/// `AlignContent` sets what it names and leaves the rest of the style as it was.
pub proof fn lemma_apply_align_content(x: AlignContent, c: ComputedStyle)
    ensures
        ({
            let r = StyleAttr::AlignContent(x).applied(c);
            &&& r.style.align_content == x
            &&& r == (ComputedStyle { style: Style { align_content: r.style.align_content, ..c.style }, ..c })
        }),
{
    reveal(StyleAttr::applied);
}

/// `JustifyContent` sets what it names and leaves the rest of the style as it was.
pub proof fn lemma_apply_justify_content(x: JustifyContent, c: ComputedStyle)
    ensures
        ({
            let r = StyleAttr::JustifyContent(x).applied(c);
            &&& r.style.justify_content == x
            &&& r == (ComputedStyle { style: Style { justify_content: r.style.justify_content, ..c.style }, ..c })
        }),
{
    reveal(StyleAttr::applied);
}

/// `Margin` sets what it names and leaves the rest of the style as it was.
pub proof fn lemma_apply_margin(x: UiRect, c: ComputedStyle)
    ensures
        ({
            let r = StyleAttr::Margin(x).applied(c);
            &&& r.style.margin == x
            &&& r == (ComputedStyle { style: Style { margin: r.style.margin, ..c.style }, ..c })
        }),
{
    reveal(StyleAttr::applied);
}

/// `MarginLeft` sets what it names and leaves the rest of the style as it was.
pub proof fn lemma_apply_margin_left(x: Val, c: ComputedStyle)
    ensures
        ({
            let r = StyleAttr::MarginLeft(x).applied(c);
            &&& r.style.margin.left == x
            &&& r.style.margin.right == c.style.margin.right
            &&& r.style.margin.top == c.style.margin.top
            &&& r.style.margin.bottom == c.style.margin.bottom
            &&& r == (ComputedStyle { style: Style { margin: r.style.margin, ..c.style }, ..c })
        }),
{
    reveal(StyleAttr::applied);
}

/// `MarginRight` sets what it names and leaves the rest of the style as it was.
pub proof fn lemma_apply_margin_right(x: Val, c: ComputedStyle)
    ensures
        ({
            let r = StyleAttr::MarginRight(x).applied(c);
            &&& r.style.margin.left == c.style.margin.left
            &&& r.style.margin.right == x
            &&& r.style.margin.top == c.style.margin.top
            &&& r.style.margin.bottom == c.style.margin.bottom
            &&& r == (ComputedStyle { style: Style { margin: r.style.margin, ..c.style }, ..c })
        }),
{
    reveal(StyleAttr::applied);
}

/// `MarginTop` sets what it names and leaves the rest of the style as it was.
pub proof fn lemma_apply_margin_top(x: Val, c: ComputedStyle)
    ensures
        ({
            let r = StyleAttr::MarginTop(x).applied(c);
            &&& r.style.margin.left == c.style.margin.left
            &&& r.style.margin.right == c.style.margin.right
            &&& r.style.margin.top == x
            &&& r.style.margin.bottom == c.style.margin.bottom
            &&& r == (ComputedStyle { style: Style { margin: r.style.margin, ..c.style }, ..c })
        }),
{
    reveal(StyleAttr::applied);
}

/// `MarginBottom` sets what it names and leaves the rest of the style as it was.
pub proof fn lemma_apply_margin_bottom(x: Val, c: ComputedStyle)
    ensures
        ({
            let r = StyleAttr::MarginBottom(x).applied(c);
            &&& r.style.margin.left == c.style.margin.left
            &&& r.style.margin.right == c.style.margin.right
            &&& r.style.margin.top == c.style.margin.top
            &&& r.style.margin.bottom == x
            &&& r == (ComputedStyle { style: Style { margin: r.style.margin, ..c.style }, ..c })
        }),
{
    reveal(StyleAttr::applied);
}

/// `Padding` sets what it names and leaves the rest of the style as it was.
pub proof fn lemma_apply_padding(x: UiRect, c: ComputedStyle)
    ensures
        ({
            let r = StyleAttr::Padding(x).applied(c);
            &&& r.style.padding == x
            &&& r == (ComputedStyle { style: Style { padding: r.style.padding, ..c.style }, ..c })
        }),
{
    reveal(StyleAttr::applied);
}

/// `PaddingLeft` sets what it names and leaves the rest of the style as it was.
pub proof fn lemma_apply_padding_left(x: Val, c: ComputedStyle)
    ensures
        ({
            let r = StyleAttr::PaddingLeft(x).applied(c);
            &&& r.style.padding.left == x
            &&& r.style.padding.right == c.style.padding.right
            &&& r.style.padding.top == c.style.padding.top
            &&& r.style.padding.bottom == c.style.padding.bottom
            &&& r == (ComputedStyle { style: Style { padding: r.style.padding, ..c.style }, ..c })
        }),
{
    reveal(StyleAttr::applied);
}

/// `PaddingRight` sets what it names and leaves the rest of the style as it was.
pub proof fn lemma_apply_padding_right(x: Val, c: ComputedStyle)
    ensures
        ({
            let r = StyleAttr::PaddingRight(x).applied(c);
            &&& r.style.padding.left == c.style.padding.left
            &&& r.style.padding.right == x
            &&& r.style.padding.top == c.style.padding.top
            &&& r.style.padding.bottom == c.style.padding.bottom
            &&& r == (ComputedStyle { style: Style { padding: r.style.padding, ..c.style }, ..c })
        }),
{
    reveal(StyleAttr::applied);
}

/// `PaddingTop` sets what it names and leaves the rest of the style as it was.
pub proof fn lemma_apply_padding_top(x: Val, c: ComputedStyle)
    ensures
        ({
            let r = StyleAttr::PaddingTop(x).applied(c);
            &&& r.style.padding.left == c.style.padding.left
            &&& r.style.padding.right == c.style.padding.right
            &&& r.style.padding.top == x
            &&& r.style.padding.bottom == c.style.padding.bottom
            &&& r == (ComputedStyle { style: Style { padding: r.style.padding, ..c.style }, ..c })
        }),
{
    reveal(StyleAttr::applied);
}

/// `PaddingBottom` sets what it names and leaves the rest of the style as it was.
pub proof fn lemma_apply_padding_bottom(x: Val, c: ComputedStyle)
    ensures
        ({
            let r = StyleAttr::PaddingBottom(x).applied(c);
            &&& r.style.padding.left == c.style.padding.left
            &&& r.style.padding.right == c.style.padding.right
            &&& r.style.padding.top == c.style.padding.top
            &&& r.style.padding.bottom == x
            &&& r == (ComputedStyle { style: Style { padding: r.style.padding, ..c.style }, ..c })
        }),
{
    reveal(StyleAttr::applied);
}

/// `Border` sets what it names and leaves the rest of the style as it was.
pub proof fn lemma_apply_border(x: UiRect, c: ComputedStyle)
    ensures
        ({
            let r = StyleAttr::Border(x).applied(c);
            &&& r.style.border == x
            &&& r == (ComputedStyle { style: Style { border: r.style.border, ..c.style }, ..c })
        }),
{
    reveal(StyleAttr::applied);
}

/// `BorderLeft` sets what it names and leaves the rest of the style as it was.
pub proof fn lemma_apply_border_left(x: Val, c: ComputedStyle)
    ensures
        ({
            let r = StyleAttr::BorderLeft(x).applied(c);
            &&& r.style.border.left == x
            &&& r.style.border.right == c.style.border.right
            &&& r.style.border.top == c.style.border.top
            &&& r.style.border.bottom == c.style.border.bottom
            &&& r == (ComputedStyle { style: Style { border: r.style.border, ..c.style }, ..c })
        }),
{
    reveal(StyleAttr::applied);
}

/// `BorderRight` sets what it names and leaves the rest of the style as it was.
pub proof fn lemma_apply_border_right(x: Val, c: ComputedStyle)
    ensures
        ({
            let r = StyleAttr::BorderRight(x).applied(c);
            &&& r.style.border.left == c.style.border.left
            &&& r.style.border.right == x
            &&& r.style.border.top == c.style.border.top
            &&& r.style.border.bottom == c.style.border.bottom
            &&& r == (ComputedStyle { style: Style { border: r.style.border, ..c.style }, ..c })
        }),
{
    reveal(StyleAttr::applied);
}

/// `BorderTop` sets what it names and leaves the rest of the style as it was.
pub proof fn lemma_apply_border_top(x: Val, c: ComputedStyle)
    ensures
        ({
            let r = StyleAttr::BorderTop(x).applied(c);
            &&& r.style.border.left == c.style.border.left
            &&& r.style.border.right == c.style.border.right
            &&& r.style.border.top == x
            &&& r.style.border.bottom == c.style.border.bottom
            &&& r == (ComputedStyle { style: Style { border: r.style.border, ..c.style }, ..c })
        }),
{
    reveal(StyleAttr::applied);
}

/// `BorderBottom` sets what it names and leaves the rest of the style as it was.
pub proof fn lemma_apply_border_bottom(x: Val, c: ComputedStyle)
    ensures
        ({
            let r = StyleAttr::BorderBottom(x).applied(c);
            &&& r.style.border.left == c.style.border.left
            &&& r.style.border.right == c.style.border.right
            &&& r.style.border.top == c.style.border.top
            &&& r.style.border.bottom == x
            &&& r == (ComputedStyle { style: Style { border: r.style.border, ..c.style }, ..c })
        }),
{
    reveal(StyleAttr::applied);
}

/// `FlexDirection` sets what it names and leaves the rest of the style as it was.
pub proof fn lemma_apply_flex_direction(x: FlexDirection, c: ComputedStyle)
    ensures
        ({
            let r = StyleAttr::FlexDirection(x).applied(c);
            &&& r.style.flex_direction == x
            &&& r == (ComputedStyle { style: Style { flex_direction: r.style.flex_direction, ..c.style }, ..c })
        }),
{
    reveal(StyleAttr::applied);
}

/// `FlexWrap` sets what it names and leaves the rest of the style as it was.
pub proof fn lemma_apply_flex_wrap(x: FlexWrap, c: ComputedStyle)
    ensures
        ({
            let r = StyleAttr::FlexWrap(x).applied(c);
            &&& r.style.flex_wrap == x
            &&& r == (ComputedStyle { style: Style { flex_wrap: r.style.flex_wrap, ..c.style }, ..c })
        }),
{
    reveal(StyleAttr::applied);
}

/// `FlexGrow` sets what it names and leaves the rest of the style as it was.
pub proof fn lemma_apply_flex_grow(x: String, c: ComputedStyle)
    ensures
        ({
            let r = StyleAttr::FlexGrow(x).applied(c);
            &&& r.style.flex_grow == x
            &&& r == (ComputedStyle { style: Style { flex_grow: r.style.flex_grow, ..c.style }, ..c })
        }),
{
    reveal(StyleAttr::applied);
}

/// `FlexShrink` sets what it names and leaves the rest of the style as it was.
pub proof fn lemma_apply_flex_shrink(x: String, c: ComputedStyle)
    ensures
        ({
            let r = StyleAttr::FlexShrink(x).applied(c);
            &&& r.style.flex_shrink == x
            &&& r == (ComputedStyle { style: Style { flex_shrink: r.style.flex_shrink, ..c.style }, ..c })
        }),
{
    reveal(StyleAttr::applied);
}

/// `FlexBasis` sets what it names and leaves the rest of the style as it was.
pub proof fn lemma_apply_flex_basis(x: Val, c: ComputedStyle)
    ensures
        ({
            let r = StyleAttr::FlexBasis(x).applied(c);
            &&& r.style.flex_basis == x
            &&& r == (ComputedStyle { style: Style { flex_basis: r.style.flex_basis, ..c.style }, ..c })
        }),
{
    reveal(StyleAttr::applied);
}

/// `RowGap` sets what it names and leaves the rest of the style as it was.
pub proof fn lemma_apply_row_gap(x: Val, c: ComputedStyle)
    ensures
        ({
            let r = StyleAttr::RowGap(x).applied(c);
            &&& r.style.row_gap == x
            &&& r == (ComputedStyle { style: Style { row_gap: r.style.row_gap, ..c.style }, ..c })
        }),
{
    reveal(StyleAttr::applied);
}

/// `ColumnGap` sets what it names and leaves the rest of the style as it was.
pub proof fn lemma_apply_column_gap(x: Val, c: ComputedStyle)
    ensures
        ({
            let r = StyleAttr::ColumnGap(x).applied(c);
            &&& r.style.column_gap == x
            &&& r == (ComputedStyle { style: Style { column_gap: r.style.column_gap, ..c.style }, ..c })
        }),
{
    reveal(StyleAttr::applied);
}

/// `Gap` sets what it names and leaves the rest of the style as it was.
pub proof fn lemma_apply_gap(x: Val, c: ComputedStyle)
    ensures
        ({
            let r = StyleAttr::Gap(x).applied(c);
            &&& r.style.row_gap == x
            &&& r.style.column_gap == x
            &&& r == (ComputedStyle { style: Style { row_gap: r.style.row_gap, column_gap: r.style.column_gap, ..c.style }, ..c })
        }),
{
    reveal(StyleAttr::applied);
}

/// `GridAutoFlow` sets what it names and leaves the rest of the style as it was.
pub proof fn lemma_apply_grid_auto_flow(x: GridAutoFlow, c: ComputedStyle)
    ensures
        ({
            let r = StyleAttr::GridAutoFlow(x).applied(c);
            &&& r.style.grid_auto_flow == x
            &&& r == (ComputedStyle { style: Style { grid_auto_flow: r.style.grid_auto_flow, ..c.style }, ..c })
        }),
{
    reveal(StyleAttr::applied);
}

/// `GridRow` sets what it names and leaves the rest of the style as it was.
pub proof fn lemma_apply_grid_row(x: GridPlacement, c: ComputedStyle)
    ensures
        ({
            let r = StyleAttr::GridRow(x).applied(c);
            &&& r.style.grid_row == x
            &&& r == (ComputedStyle { style: Style { grid_row: r.style.grid_row, ..c.style }, ..c })
        }),
{
    reveal(StyleAttr::applied);
}

/// `GridRowStart` sets what it names and leaves the rest of the style as it was.
#[verifier::rlimit(100)]
pub proof fn lemma_apply_grid_row_start(x: i16, c: ComputedStyle)
    ensures
        ({
            let r = StyleAttr::GridRowStart(x).applied(c);
            &&& r.style.grid_row.start == Some(x)
            &&& r.style.grid_row.span == c.style.grid_row.span
            &&& r.style.grid_row.end == c.style.grid_row.end
            &&& r == (ComputedStyle { style: Style { grid_row: r.style.grid_row, ..c.style }, ..c })
        }),
{
    reveal(StyleAttr::applied);
}

/// `GridRowSpan` sets what it names and leaves the rest of the style as it was.
#[verifier::rlimit(100)]
pub proof fn lemma_apply_grid_row_span(x: u16, c: ComputedStyle)
    ensures
        ({
            let r = StyleAttr::GridRowSpan(x).applied(c);
            &&& r.style.grid_row.start == c.style.grid_row.start
            &&& r.style.grid_row.span == Some(x)
            &&& r.style.grid_row.end == c.style.grid_row.end
            &&& r == (ComputedStyle { style: Style { grid_row: r.style.grid_row, ..c.style }, ..c })
        }),
{
    reveal(StyleAttr::applied);
}

/// `GridRowEnd` sets what it names and leaves the rest of the style as it was.
#[verifier::rlimit(100)]
pub proof fn lemma_apply_grid_row_end(x: i16, c: ComputedStyle)
    ensures
        ({
            let r = StyleAttr::GridRowEnd(x).applied(c);
            &&& r.style.grid_row.start == c.style.grid_row.start
            &&& r.style.grid_row.span == c.style.grid_row.span
            &&& r.style.grid_row.end == Some(x)
            &&& r == (ComputedStyle { style: Style { grid_row: r.style.grid_row, ..c.style }, ..c })
        }),
{
    reveal(StyleAttr::applied);
}

/// `GridColumn` sets what it names and leaves the rest of the style as it was.
pub proof fn lemma_apply_grid_column(x: GridPlacement, c: ComputedStyle)
    ensures
        ({
            let r = StyleAttr::GridColumn(x).applied(c);
            &&& r.style.grid_column == x
            &&& r == (ComputedStyle { style: Style { grid_column: r.style.grid_column, ..c.style }, ..c })
        }),
{
    reveal(StyleAttr::applied);
}

/// `GridColumnStart` sets what it names and leaves the rest of the style as it was.
#[verifier::rlimit(100)]
pub proof fn lemma_apply_grid_column_start(x: i16, c: ComputedStyle)
    ensures
        ({
            let r = StyleAttr::GridColumnStart(x).applied(c);
            &&& r.style.grid_column.start == Some(x)
            &&& r.style.grid_column.span == c.style.grid_column.span
            &&& r.style.grid_column.end == c.style.grid_column.end
            &&& r == (ComputedStyle { style: Style { grid_column: r.style.grid_column, ..c.style }, ..c })
        }),
{
    reveal(StyleAttr::applied);
}

/// `GridColumnSpan` sets what it names and leaves the rest of the style as it was.
#[verifier::rlimit(100)]
pub proof fn lemma_apply_grid_column_span(x: u16, c: ComputedStyle)
    ensures
        ({
            let r = StyleAttr::GridColumnSpan(x).applied(c);
            &&& r.style.grid_column.start == c.style.grid_column.start
            &&& r.style.grid_column.span == Some(x)
            &&& r.style.grid_column.end == c.style.grid_column.end
            &&& r == (ComputedStyle { style: Style { grid_column: r.style.grid_column, ..c.style }, ..c })
        }),
{
    reveal(StyleAttr::applied);
}

/// `GridColumnEnd` sets what it names and leaves the rest of the style as it was.
#[verifier::rlimit(100)]
pub proof fn lemma_apply_grid_column_end(x: i16, c: ComputedStyle)
    ensures
        ({
            let r = StyleAttr::GridColumnEnd(x).applied(c);
            &&& r.style.grid_column.start == c.style.grid_column.start
            &&& r.style.grid_column.span == c.style.grid_column.span
            &&& r.style.grid_column.end == Some(x)
            &&& r == (ComputedStyle { style: Style { grid_column: r.style.grid_column, ..c.style }, ..c })
        }),
{
    reveal(StyleAttr::applied);
}

} // verus!
