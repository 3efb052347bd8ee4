//! What applying each expression-valued style attribute changes.
use vstd::prelude::*;
use crate::keywords::{
    AlignContent, AlignItems, AlignSelf, Direction, Display, FlexDirection, FlexWrap, GridAutoFlow,
    JustifyContent, JustifyItems, JustifySelf, OverflowAxis, PositionType,
};
use crate::style::{BreakLineOn, ComputedStyle, Overflow, Style, TextProps};
use crate::style_attr::{
    color_spec, style_align_content, style_align_items, style_align_self, style_color, style_direction, style_display, style_flex_direction, style_flex_wrap, style_justify_content, style_justify_items, style_justify_self, style_overflow, style_position_type, StyleAttr,
};
use crate::style_expr::{style_i16, style_i32, style_length, style_number, style_u16, StyleExpr};
use crate::untyped::ColorValue;
use crate::values::{GridPlacement, Val};

verus! {

/// `BackgroundColor` sets what it names, where its value stands for one, and leaves the
/// rest of the style as it was; otherwise it changes nothing.
pub proof fn lemma_expr_apply_background_color(e: StyleExpr<ColorValue>, c: ComputedStyle)
    ensures
        ({
            let r = StyleAttr::BackgroundColor(e).applied(c);
            match style_color(e) {
                Some(x) => {
                    &&& r.background_color == color_spec(x)
                    &&& r == (ComputedStyle { background_color: r.background_color, ..c })
                },
                None => r == c,
            }
        }),
{
    reveal(StyleAttr::applied);
}

/// `BorderColor` sets what it names, where its value stands for one, and leaves the
/// rest of the style as it was; otherwise it changes nothing.
pub proof fn lemma_expr_apply_border_color(e: StyleExpr<ColorValue>, c: ComputedStyle)
    ensures
        ({
            let r = StyleAttr::BorderColor(e).applied(c);
            match style_color(e) {
                Some(x) => {
                    &&& r.border_color == color_spec(x)
                    &&& r == (ComputedStyle { border_color: r.border_color, ..c })
                },
                None => r == c,
            }
        }),
{
    reveal(StyleAttr::applied);
}

/// `Color` sets what it names, where its value stands for one, and leaves the
/// rest of the style as it was; otherwise it changes nothing.
#[verifier::spinoff_prover]
#[verifier::rlimit(100)]
pub proof fn lemma_expr_apply_color(e: StyleExpr<ColorValue>, c: ComputedStyle)
    ensures
        ({
            let r = StyleAttr::Color(e).applied(c);
            match style_color(e) {
                Some(x) => {
                    &&& r.text.alignment == c.text.alignment
                    &&& r.text.color == x
                    &&& r.text.font_size == c.text.font_size
                    &&& r.text.font == c.text.font
                    &&& r.text.line_break == c.text.line_break
                    &&& r == (ComputedStyle { text: r.text, ..c })
                },
                None => r == c,
            }
        }),
{
    reveal(StyleAttr::applied);
}

/// `ZIndex` sets what it names, where its value stands for one, and leaves the
/// rest of the style as it was; otherwise it changes nothing.
pub proof fn lemma_expr_apply_z_index(e: StyleExpr<i32>, c: ComputedStyle)
    ensures
        ({
            let r = StyleAttr::ZIndex(e).applied(c);
            match style_i32(e) {
                Some(z) => {
                    &&& r.z_index == Some(z)
                    &&& r == (ComputedStyle { z_index: r.z_index, ..c })
                },
                None => r == c,
            }
        }),
{
    reveal(StyleAttr::applied);
}

/// `Display` sets what it names, where its value stands for one, and leaves the
/// rest of the style as it was; otherwise it changes nothing.
pub proof fn lemma_expr_apply_display(e: StyleExpr<Display>, c: ComputedStyle)
    ensures
        ({
            let r = StyleAttr::Display(e).applied(c);
            match style_display(e) {
                Some(x) => {
                    &&& r.style.display == x
                    &&& r.style == (Style { display: r.style.display, ..c.style })
                    &&& r == (ComputedStyle { style: r.style, ..c })
                },
                None => r == c,
            }
        }),
{
    reveal(StyleAttr::applied);
}

/// `Position` sets what it names, where its value stands for one, and leaves the
/// rest of the style as it was; otherwise it changes nothing.
pub proof fn lemma_expr_apply_position(e: StyleExpr<PositionType>, c: ComputedStyle)
    ensures
        ({
            let r = StyleAttr::Position(e).applied(c);
            match style_position_type(e) {
                Some(x) => {
                    &&& r.style.position_type == x
                    &&& r.style == (Style { position_type: r.style.position_type, ..c.style })
                    &&& r == (ComputedStyle { style: r.style, ..c })
                },
                None => r == c,
            }
        }),
{
    reveal(StyleAttr::applied);
}

/// `Overflow` sets what it names, where its value stands for one, and leaves the
/// rest of the style as it was; otherwise it changes nothing.
pub proof fn lemma_expr_apply_overflow(e: StyleExpr<OverflowAxis>, c: ComputedStyle)
    ensures
        ({
            let r = StyleAttr::Overflow(e).applied(c);
            match style_overflow(e) {
                Some(x) => {
                    &&& r.style.overflow.x == x
                    &&& r.style.overflow.y == x
                    &&& r.style == (Style { overflow: r.style.overflow, ..c.style })
                    &&& r == (ComputedStyle { style: r.style, ..c })
                },
                None => r == c,
            }
        }),
{
    reveal(StyleAttr::applied);
}

/// `OverflowX` sets what it names, where its value stands for one, and leaves the
/// rest of the style as it was; otherwise it changes nothing.
pub proof fn lemma_expr_apply_overflow_x(e: StyleExpr<OverflowAxis>, c: ComputedStyle)
    ensures
        ({
            let r = StyleAttr::OverflowX(e).applied(c);
            match style_overflow(e) {
                Some(x) => {
                    &&& r.style.overflow.x == x
                    &&& r.style.overflow.y == c.style.overflow.y
                    &&& r.style == (Style { overflow: r.style.overflow, ..c.style })
                    &&& r == (ComputedStyle { style: r.style, ..c })
                },
                None => r == c,
            }
        }),
{
    reveal(StyleAttr::applied);
}

/// `OverflowY` sets what it names, where its value stands for one, and leaves the
/// rest of the style as it was; otherwise it changes nothing.
pub proof fn lemma_expr_apply_overflow_y(e: StyleExpr<OverflowAxis>, c: ComputedStyle)
    ensures
        ({
            let r = StyleAttr::OverflowY(e).applied(c);
            match style_overflow(e) {
                Some(x) => {
                    &&& r.style.overflow.x == c.style.overflow.x
                    &&& r.style.overflow.y == x
                    &&& r.style == (Style { overflow: r.style.overflow, ..c.style })
                    &&& r == (ComputedStyle { style: r.style, ..c })
                },
                None => r == c,
            }
        }),
{
    reveal(StyleAttr::applied);
}

/// `Direction` sets what it names, where its value stands for one, and leaves the
/// rest of the style as it was; otherwise it changes nothing.
pub proof fn lemma_expr_apply_direction(e: StyleExpr<Direction>, c: ComputedStyle)
    ensures
        ({
            let r = StyleAttr::Direction(e).applied(c);
            match style_direction(e) {
                Some(x) => {
                    &&& r.style.direction == x
                    &&& r.style == (Style { direction: r.style.direction, ..c.style })
                    &&& r == (ComputedStyle { style: r.style, ..c })
                },
                None => r == c,
            }
        }),
{
    reveal(StyleAttr::applied);
}

/// `AlignItems` sets what it names, where its value stands for one, and leaves the
/// rest of the style as it was; otherwise it changes nothing.
pub proof fn lemma_expr_apply_align_items(e: StyleExpr<AlignItems>, c: ComputedStyle)
    ensures
        ({
            let r = StyleAttr::AlignItems(e).applied(c);
            match style_align_items(e) {
                Some(x) => {
                    &&& r.style.align_items == x
                    &&& r.style == (Style { align_items: r.style.align_items, ..c.style })
                    &&& r == (ComputedStyle { style: r.style, ..c })
                },
                None => r == c,
            }
        }),
{
    reveal(StyleAttr::applied);
}

/// `JustifyItems` sets what it names, where its value stands for one, and leaves the
/// rest of the style as it was; otherwise it changes nothing.
pub proof fn lemma_expr_apply_justify_items(e: StyleExpr<JustifyItems>, c: ComputedStyle)
    ensures
        ({
            let r = StyleAttr::JustifyItems(e).applied(c);
            match style_justify_items(e) {
                Some(x) => {
                    &&& r.style.justify_items == x
                    &&& r.style == (Style { justify_items: r.style.justify_items, ..c.style })
                    &&& r == (ComputedStyle { style: r.style, ..c })
                },
                None => r == c,
            }
        }),
{
    reveal(StyleAttr::applied);
}

/// `AlignSelf` sets what it names, where its value stands for one, and leaves the
/// rest of the style as it was; otherwise it changes nothing.
pub proof fn lemma_expr_apply_align_self(e: StyleExpr<AlignSelf>, c: ComputedStyle)
    ensures
        ({
            let r = StyleAttr::AlignSelf(e).applied(c);
            match style_align_self(e) {
                Some(x) => {
                    &&& r.style.align_self == x
                    &&& r.style == (Style { align_self: r.style.align_self, ..c.style })
                    &&& r == (ComputedStyle { style: r.style, ..c })
                },
                None => r == c,
            }
        }),
{
    reveal(StyleAttr::applied);
}

/// `JustifySelf` sets what it names, where its value stands for one, and leaves the
/// rest of the style as it was; otherwise it changes nothing.
pub proof fn lemma_expr_apply_justify_self(e: StyleExpr<JustifySelf>, c: ComputedStyle)
    ensures
        ({
            let r = StyleAttr::JustifySelf(e).applied(c);
            match style_justify_self(e) {
                Some(x) => {
                    &&& r.style.justify_self == x
                    &&& r.style == (Style { justify_self: r.style.justify_self, ..c.style })
                    &&& r == (ComputedStyle { style: r.style, ..c })
                },
                None => r == c,
            }
        }),
{
    reveal(StyleAttr::applied);
}

/// `AlignContent` sets what it names, where its value stands for one, and leaves the
/// rest of the style as it was; otherwise it changes nothing.
pub proof fn lemma_expr_apply_align_content(e: StyleExpr<AlignContent>, c: ComputedStyle)
    ensures
        ({
            let r = StyleAttr::AlignContent(e).applied(c);
            match style_align_content(e) {
                Some(x) => {
                    &&& r.style.align_content == x
                    &&& r.style == (Style { align_content: r.style.align_content, ..c.style })
                    &&& r == (ComputedStyle { style: r.style, ..c })
                },
                None => r == c,
            }
        }),
{
    reveal(StyleAttr::applied);
}

/// `JustifyContent` sets what it names, where its value stands for one, and leaves the
/// rest of the style as it was; otherwise it changes nothing.
pub proof fn lemma_expr_apply_justify_content(e: StyleExpr<JustifyContent>, c: ComputedStyle)
    ensures
        ({
            let r = StyleAttr::JustifyContent(e).applied(c);
            match style_justify_content(e) {
                Some(x) => {
                    &&& r.style.justify_content == x
                    &&& r.style == (Style { justify_content: r.style.justify_content, ..c.style })
                    &&& r == (ComputedStyle { style: r.style, ..c })
                },
                None => r == c,
            }
        }),
{
    reveal(StyleAttr::applied);
}

/// `FlexDirection` sets what it names, where its value stands for one, and leaves the
/// rest of the style as it was; otherwise it changes nothing.
pub proof fn lemma_expr_apply_flex_direction(e: StyleExpr<FlexDirection>, c: ComputedStyle)
    ensures
        ({
            let r = StyleAttr::FlexDirection(e).applied(c);
            match style_flex_direction(e) {
                Some(x) => {
                    &&& r.style.flex_direction == x
                    &&& r.style == (Style { flex_direction: r.style.flex_direction, ..c.style })
                    &&& r == (ComputedStyle { style: r.style, ..c })
                },
                None => r == c,
            }
        }),
{
    reveal(StyleAttr::applied);
}

/// `FlexWrap` sets what it names, where its value stands for one, and leaves the
/// rest of the style as it was; otherwise it changes nothing.
pub proof fn lemma_expr_apply_flex_wrap(e: StyleExpr<FlexWrap>, c: ComputedStyle)
    ensures
        ({
            let r = StyleAttr::FlexWrap(e).applied(c);
            match style_flex_wrap(e) {
                Some(x) => {
                    &&& r.style.flex_wrap == x
                    &&& r.style == (Style { flex_wrap: r.style.flex_wrap, ..c.style })
                    &&& r == (ComputedStyle { style: r.style, ..c })
                },
                None => r == c,
            }
        }),
{
    reveal(StyleAttr::applied);
}

/// `Left` sets what it names, where its value stands for one, and leaves the
/// rest of the style as it was; otherwise it changes nothing.
pub proof fn lemma_expr_apply_left(e: StyleExpr<Val>, c: ComputedStyle)
    ensures
        ({
            let r = StyleAttr::Left(e).applied(c);
            match style_length(e) {
                Some(x) => {
                    &&& r.style.left == x
                    &&& r.style == (Style { left: r.style.left, ..c.style })
                    &&& r == (ComputedStyle { style: r.style, ..c })
                },
                None => r == c,
            }
        }),
{
    reveal(StyleAttr::applied);
}

/// `Right` sets what it names, where its value stands for one, and leaves the
/// rest of the style as it was; otherwise it changes nothing.
pub proof fn lemma_expr_apply_right(e: StyleExpr<Val>, c: ComputedStyle)
    ensures
        ({
            let r = StyleAttr::Right(e).applied(c);
            match style_length(e) {
                Some(x) => {
                    &&& r.style.right == x
                    &&& r.style == (Style { right: r.style.right, ..c.style })
                    &&& r == (ComputedStyle { style: r.style, ..c })
                },
                None => r == c,
            }
        }),
{
    reveal(StyleAttr::applied);
}

/// `Top` sets what it names, where its value stands for one, and leaves the
/// rest of the style as it was; otherwise it changes nothing.
pub proof fn lemma_expr_apply_top(e: StyleExpr<Val>, c: ComputedStyle)
    ensures
        ({
            let r = StyleAttr::Top(e).applied(c);
            match style_length(e) {
                Some(x) => {
                    &&& r.style.top == x
                    &&& r.style == (Style { top: r.style.top, ..c.style })
                    &&& r == (ComputedStyle { style: r.style, ..c })
                },
                None => r == c,
            }
        }),
{
    reveal(StyleAttr::applied);
}

/// `Bottom` sets what it names, where its value stands for one, and leaves the
/// rest of the style as it was; otherwise it changes nothing.
pub proof fn lemma_expr_apply_bottom(e: StyleExpr<Val>, c: ComputedStyle)
    ensures
        ({
            let r = StyleAttr::Bottom(e).applied(c);
            match style_length(e) {
                Some(x) => {
                    &&& r.style.bottom == x
                    &&& r.style == (Style { bottom: r.style.bottom, ..c.style })
                    &&& r == (ComputedStyle { style: r.style, ..c })
                },
                None => r == c,
            }
        }),
{
    reveal(StyleAttr::applied);
}

/// `Width` sets what it names, where its value stands for one, and leaves the
/// rest of the style as it was; otherwise it changes nothing.
pub proof fn lemma_expr_apply_width(e: StyleExpr<Val>, c: ComputedStyle)
    ensures
        ({
            let r = StyleAttr::Width(e).applied(c);
            match style_length(e) {
                Some(x) => {
                    &&& r.style.width == x
                    &&& r.style == (Style { width: r.style.width, ..c.style })
                    &&& r == (ComputedStyle { style: r.style, ..c })
                },
                None => r == c,
            }
        }),
{
    reveal(StyleAttr::applied);
}

/// `Height` sets what it names, where its value stands for one, and leaves the
/// rest of the style as it was; otherwise it changes nothing.
pub proof fn lemma_expr_apply_height(e: StyleExpr<Val>, c: ComputedStyle)
    ensures
        ({
            let r = StyleAttr::Height(e).applied(c);
            match style_length(e) {
                Some(x) => {
                    &&& r.style.height == x
                    &&& r.style == (Style { height: r.style.height, ..c.style })
                    &&& r == (ComputedStyle { style: r.style, ..c })
                },
                None => r == c,
            }
        }),
{
    reveal(StyleAttr::applied);
}

/// `MinWidth` sets what it names, where its value stands for one, and leaves the
/// rest of the style as it was; otherwise it changes nothing.
pub proof fn lemma_expr_apply_min_width(e: StyleExpr<Val>, c: ComputedStyle)
    ensures
        ({
            let r = StyleAttr::MinWidth(e).applied(c);
            match style_length(e) {
                Some(x) => {
                    &&& r.style.min_width == x
                    &&& r.style == (Style { min_width: r.style.min_width, ..c.style })
                    &&& r == (ComputedStyle { style: r.style, ..c })
                },
                None => r == c,
            }
        }),
{
    reveal(StyleAttr::applied);
}

/// `MinHeight` sets what it names, where its value stands for one, and leaves the
/// rest of the style as it was; otherwise it changes nothing.
pub proof fn lemma_expr_apply_min_height(e: StyleExpr<Val>, c: ComputedStyle)
    ensures
        ({
            let r = StyleAttr::MinHeight(e).applied(c);
            match style_length(e) {
                Some(x) => {
                    &&& r.style.min_height == x
                    &&& r.style == (Style { min_height: r.style.min_height, ..c.style })
                    &&& r == (ComputedStyle { style: r.style, ..c })
                },
                None => r == c,
            }
        }),
{
    reveal(StyleAttr::applied);
}

/// `MaxWidth` sets what it names, where its value stands for one, and leaves the
/// rest of the style as it was; otherwise it changes nothing.
pub proof fn lemma_expr_apply_max_width(e: StyleExpr<Val>, c: ComputedStyle)
    ensures
        ({
            let r = StyleAttr::MaxWidth(e).applied(c);
            match style_length(e) {
                Some(x) => {
                    &&& r.style.max_width == x
                    &&& r.style == (Style { max_width: r.style.max_width, ..c.style })
                    &&& r == (ComputedStyle { style: r.style, ..c })
                },
                None => r == c,
            }
        }),
{
    reveal(StyleAttr::applied);
}

/// `MaxHeight` sets what it names, where its value stands for one, and leaves the
/// rest of the style as it was; otherwise it changes nothing.
pub proof fn lemma_expr_apply_max_height(e: StyleExpr<Val>, c: ComputedStyle)
    ensures
        ({
            let r = StyleAttr::MaxHeight(e).applied(c);
            match style_length(e) {
                Some(x) => {
                    &&& r.style.max_height == x
                    &&& r.style == (Style { max_height: r.style.max_height, ..c.style })
                    &&& r == (ComputedStyle { style: r.style, ..c })
                },
                None => r == c,
            }
        }),
{
    reveal(StyleAttr::applied);
}

/// `FlexBasis` sets what it names, where its value stands for one, and leaves the
/// rest of the style as it was; otherwise it changes nothing.
pub proof fn lemma_expr_apply_flex_basis(e: StyleExpr<Val>, c: ComputedStyle)
    ensures
        ({
            let r = StyleAttr::FlexBasis(e).applied(c);
            match style_length(e) {
                Some(x) => {
                    &&& r.style.flex_basis == x
                    &&& r.style == (Style { flex_basis: r.style.flex_basis, ..c.style })
                    &&& r == (ComputedStyle { style: r.style, ..c })
                },
                None => r == c,
            }
        }),
{
    reveal(StyleAttr::applied);
}

/// `RowGap` sets what it names, where its value stands for one, and leaves the
/// rest of the style as it was; otherwise it changes nothing.
pub proof fn lemma_expr_apply_row_gap(e: StyleExpr<Val>, c: ComputedStyle)
    ensures
        ({
            let r = StyleAttr::RowGap(e).applied(c);
            match style_length(e) {
                Some(x) => {
                    &&& r.style.row_gap == x
                    &&& r.style == (Style { row_gap: r.style.row_gap, ..c.style })
                    &&& r == (ComputedStyle { style: r.style, ..c })
                },
                None => r == c,
            }
        }),
{
    reveal(StyleAttr::applied);
}

/// `ColumnGap` sets what it names, where its value stands for one, and leaves the
/// rest of the style as it was; otherwise it changes nothing.
pub proof fn lemma_expr_apply_column_gap(e: StyleExpr<Val>, c: ComputedStyle)
    ensures
        ({
            let r = StyleAttr::ColumnGap(e).applied(c);
            match style_length(e) {
                Some(x) => {
                    &&& r.style.column_gap == x
                    &&& r.style == (Style { column_gap: r.style.column_gap, ..c.style })
                    &&& r == (ComputedStyle { style: r.style, ..c })
                },
                None => r == c,
            }
        }),
{
    reveal(StyleAttr::applied);
}

/// `Gap` sets what it names, where its value stands for one, and leaves the
/// rest of the style as it was; otherwise it changes nothing.
pub proof fn lemma_expr_apply_gap(e: StyleExpr<Val>, c: ComputedStyle)
    ensures
        ({
            let r = StyleAttr::Gap(e).applied(c);
            match style_length(e) {
                Some(x) => {
                    &&& r.style.row_gap == x
                    &&& r.style.column_gap == x
                    &&& r.style == (Style { row_gap: r.style.row_gap, column_gap: r.style.column_gap, ..c.style })
                    &&& r == (ComputedStyle { style: r.style, ..c })
                },
                None => r == c,
            }
        }),
{
    reveal(StyleAttr::applied);
}

/// `FlexGrow` sets what it names, where its value stands for one, and leaves the
/// rest of the style as it was; otherwise it changes nothing.
pub proof fn lemma_expr_apply_flex_grow(e: StyleExpr<String>, c: ComputedStyle)
    ensures
        ({
            let r = StyleAttr::FlexGrow(e).applied(c);
            match style_number(e) {
                Some(x) => {
                    &&& r.style.flex_grow == x
                    &&& r.style == (Style { flex_grow: r.style.flex_grow, ..c.style })
                    &&& r == (ComputedStyle { style: r.style, ..c })
                },
                None => r == c,
            }
        }),
{
    reveal(StyleAttr::applied);
}

/// `FlexShrink` sets what it names, where its value stands for one, and leaves the
/// rest of the style as it was; otherwise it changes nothing.
pub proof fn lemma_expr_apply_flex_shrink(e: StyleExpr<String>, c: ComputedStyle)
    ensures
        ({
            let r = StyleAttr::FlexShrink(e).applied(c);
            match style_number(e) {
                Some(x) => {
                    &&& r.style.flex_shrink == x
                    &&& r.style == (Style { flex_shrink: r.style.flex_shrink, ..c.style })
                    &&& r == (ComputedStyle { style: r.style, ..c })
                },
                None => r == c,
            }
        }),
{
    reveal(StyleAttr::applied);
}

/// `GridAutoFlow` sets what it names, where its value stands for one, and leaves the
/// rest of the style as it was; otherwise it changes nothing.
pub proof fn lemma_expr_apply_grid_auto_flow(x: GridAutoFlow, c: ComputedStyle)
    ensures
        ({
            let r = StyleAttr::GridAutoFlow(x).applied(c);
            {
                &&& r.style.grid_auto_flow == x
                &&& r.style == (Style { grid_auto_flow: r.style.grid_auto_flow, ..c.style })
                &&& r == (ComputedStyle { style: r.style, ..c })
            }
        }),
{
    reveal(StyleAttr::applied);
    let r = StyleAttr::GridAutoFlow(x).applied(c);
    assert(r == ComputedStyle { style: Style { grid_auto_flow: x, ..c.style }, ..c });
}

/// `GridRow` sets what it names, where its value stands for one, and leaves the
/// rest of the style as it was; otherwise it changes nothing.
pub proof fn lemma_expr_apply_grid_row(x: GridPlacement, c: ComputedStyle)
    ensures
        ({
            let r = StyleAttr::GridRow(x).applied(c);
            {
                &&& r.style.grid_row == x
                &&& r.style == (Style { grid_row: r.style.grid_row, ..c.style })
                &&& r == (ComputedStyle { style: r.style, ..c })
            }
        }),
{
    reveal(StyleAttr::applied);
    let r = StyleAttr::GridRow(x).applied(c);
    assert(r == ComputedStyle { style: Style { grid_row: x, ..c.style }, ..c });
}

/// `GridRowStart` sets what it names, where its value stands for one, and leaves the
/// rest of the style as it was; otherwise it changes nothing.
#[verifier::spinoff_prover]
#[verifier::rlimit(100)]
pub proof fn lemma_expr_apply_grid_row_start(e: StyleExpr<i16>, c: ComputedStyle)
    ensures
        ({
            let r = StyleAttr::GridRowStart(e).applied(c);
            match style_i16(e) {
                Some(x) => {
                    &&& r.style.grid_row.start == Some(x)
                    &&& r.style.grid_row.span == c.style.grid_row.span
                    &&& r.style.grid_row.end == c.style.grid_row.end
                    &&& r.style == (Style { grid_row: r.style.grid_row, ..c.style })
                    &&& r == (ComputedStyle { style: r.style, ..c })
                },
                None => r == c,
            }
        }),
{
    reveal(StyleAttr::applied);
}

/// `GridRowSpan` sets what it names, where its value stands for one, and leaves the
/// rest of the style as it was; otherwise it changes nothing.
#[verifier::spinoff_prover]
#[verifier::rlimit(100)]
pub proof fn lemma_expr_apply_grid_row_span(e: StyleExpr<u16>, c: ComputedStyle)
    ensures
        ({
            let r = StyleAttr::GridRowSpan(e).applied(c);
            match style_u16(e) {
                Some(x) => {
                    &&& r.style.grid_row.start == c.style.grid_row.start
                    &&& r.style.grid_row.span == Some(x)
                    &&& r.style.grid_row.end == c.style.grid_row.end
                    &&& r.style == (Style { grid_row: r.style.grid_row, ..c.style })
                    &&& r == (ComputedStyle { style: r.style, ..c })
                },
                None => r == c,
            }
        }),
{
    reveal(StyleAttr::applied);
}

/// `GridRowEnd` sets what it names, where its value stands for one, and leaves the
/// rest of the style as it was; otherwise it changes nothing.
#[verifier::spinoff_prover]
#[verifier::rlimit(100)]
pub proof fn lemma_expr_apply_grid_row_end(x: i16, c: ComputedStyle)
    ensures
        ({
            let r = StyleAttr::GridRowEnd(x).applied(c);
            {
                &&& r.style.grid_row.start == c.style.grid_row.start
                &&& r.style.grid_row.span == c.style.grid_row.span
                &&& r.style.grid_row.end == Some(x)
                &&& r.style == (Style { grid_row: r.style.grid_row, ..c.style })
                &&& r == (ComputedStyle { style: r.style, ..c })
            }
        }),
{
    reveal(StyleAttr::applied);
    let r = StyleAttr::GridRowEnd(x).applied(c);
    assert(r == ComputedStyle { style: Style { grid_row: GridPlacement { end: Some(x), ..c.style.grid_row }, ..c.style }, ..c });
}

/// `GridColumn` sets what it names, where its value stands for one, and leaves the
/// rest of the style as it was; otherwise it changes nothing.
pub proof fn lemma_expr_apply_grid_column(x: GridPlacement, c: ComputedStyle)
    ensures
        ({
            let r = StyleAttr::GridColumn(x).applied(c);
            {
                &&& r.style.grid_column == x
                &&& r.style == (Style { grid_column: r.style.grid_column, ..c.style })
                &&& r == (ComputedStyle { style: r.style, ..c })
            }
        }),
{
    reveal(StyleAttr::applied);
    let r = StyleAttr::GridColumn(x).applied(c);
    assert(r == ComputedStyle { style: Style { grid_column: x, ..c.style }, ..c });
}

/// `GridColumnStart` sets what it names, where its value stands for one, and leaves the
/// rest of the style as it was; otherwise it changes nothing.
#[verifier::spinoff_prover]
#[verifier::rlimit(100)]
pub proof fn lemma_expr_apply_grid_column_start(x: i16, c: ComputedStyle)
    ensures
        ({
            let r = StyleAttr::GridColumnStart(x).applied(c);
            {
                &&& r.style.grid_column.start == Some(x)
                &&& r.style.grid_column.span == c.style.grid_column.span
                &&& r.style.grid_column.end == c.style.grid_column.end
                &&& r.style == (Style { grid_column: r.style.grid_column, ..c.style })
                &&& r == (ComputedStyle { style: r.style, ..c })
            }
        }),
{
    reveal(StyleAttr::applied);
    let r = StyleAttr::GridColumnStart(x).applied(c);
    assert(r == ComputedStyle { style: Style { grid_column: GridPlacement { start: Some(x), ..c.style.grid_column }, ..c.style }, ..c });
}

/// `GridColumnSpan` sets what it names, where its value stands for one, and leaves the
/// rest of the style as it was; otherwise it changes nothing.
#[verifier::spinoff_prover]
#[verifier::rlimit(100)]
pub proof fn lemma_expr_apply_grid_column_span(x: u16, c: ComputedStyle)
    ensures
        ({
            let r = StyleAttr::GridColumnSpan(x).applied(c);
            {
                &&& r.style.grid_column.start == c.style.grid_column.start
                &&& r.style.grid_column.span == Some(x)
                &&& r.style.grid_column.end == c.style.grid_column.end
                &&& r.style == (Style { grid_column: r.style.grid_column, ..c.style })
                &&& r == (ComputedStyle { style: r.style, ..c })
            }
        }),
{
    reveal(StyleAttr::applied);
    let r = StyleAttr::GridColumnSpan(x).applied(c);
    assert(r == ComputedStyle { style: Style { grid_column: GridPlacement { span: Some(x), ..c.style.grid_column }, ..c.style }, ..c });
}

/// `GridColumnEnd` sets what it names, where its value stands for one, and leaves the
/// rest of the style as it was; otherwise it changes nothing.
#[verifier::spinoff_prover]
#[verifier::rlimit(100)]
pub proof fn lemma_expr_apply_grid_column_end(x: i16, c: ComputedStyle)
    ensures
        ({
            let r = StyleAttr::GridColumnEnd(x).applied(c);
            {
                &&& r.style.grid_column.start == c.style.grid_column.start
                &&& r.style.grid_column.span == c.style.grid_column.span
                &&& r.style.grid_column.end == Some(x)
                &&& r.style == (Style { grid_column: r.style.grid_column, ..c.style })
                &&& r == (ComputedStyle { style: r.style, ..c })
            }
        }),
{
    reveal(StyleAttr::applied);
    let r = StyleAttr::GridColumnEnd(x).applied(c);
    assert(r == ComputedStyle { style: Style { grid_column: GridPlacement { end: Some(x), ..c.style.grid_column }, ..c.style }, ..c });
}

/// `LineBreak` sets what it names, where its value stands for one, and leaves the
/// rest of the style as it was; otherwise it changes nothing.
#[verifier::spinoff_prover]
#[verifier::rlimit(100)]
pub proof fn lemma_expr_apply_line_break(x: BreakLineOn, c: ComputedStyle)
    ensures
        ({
            let r = StyleAttr::LineBreak(x).applied(c);
            {
                &&& r.text.alignment == c.text.alignment
                &&& r.text.color == c.text.color
                &&& r.text.font_size == c.text.font_size
                &&& r.text.font == c.text.font
                &&& r.text.line_break == Some(x)
                &&& r == (ComputedStyle { text: r.text, ..c })
            }
        }),
{
    reveal(StyleAttr::applied);
    let r = StyleAttr::LineBreak(x).applied(c);
    assert(r == ComputedStyle { text: TextProps { line_break: Some(x), ..c.text }, ..c });
}

} // verus!
