//! Laws of the expression-valued style attributes.
use vstd::prelude::*;
use crate::style::{ComputedStyle, Style};
use crate::style_attr::StyleAttr;
use crate::style_expr::{style_length, StyleExpr};
use crate::untyped::{length_of, rect_of, ColorValue, ExprList, UntypedExpr};
use crate::asset_path::AssetRef;
use crate::values::Val;

verus! {

/// An expression for the left side of the margin sets that side only, to the
/// length it stands for; one that stands for no length changes nothing.
pub proof fn lemma_margin_left_sets_its_side(e: StyleExpr<Val>, c: ComputedStyle)
    ensures
        ({
            let r = StyleAttr::MarginLeft(e).applied(c);
            match style_length(e) {
                Some(x) => {
                    &&& r.style.margin.left == x
                    &&& r.style.margin.right == c.style.margin.right
                    &&& r.style.margin.top == c.style.margin.top
                    &&& r.style.margin.bottom == c.style.margin.bottom
                    &&& r == (ComputedStyle { style: Style { margin: r.style.margin, ..c.style }, ..c })
                },
                None => r == c,
            }
        }),
{
    reveal(StyleAttr::applied);
}

/// An expression for the right side of the margin sets that side only, to the
/// length it stands for; one that stands for no length changes nothing.
pub proof fn lemma_margin_right_sets_its_side(e: StyleExpr<Val>, c: ComputedStyle)
    ensures
        ({
            let r = StyleAttr::MarginRight(e).applied(c);
            match style_length(e) {
                Some(x) => {
                    &&& r.style.margin.right == x
                    &&& r.style.margin.left == c.style.margin.left
                    &&& r.style.margin.top == c.style.margin.top
                    &&& r.style.margin.bottom == c.style.margin.bottom
                    &&& r == (ComputedStyle { style: Style { margin: r.style.margin, ..c.style }, ..c })
                },
                None => r == c,
            }
        }),
{
    reveal(StyleAttr::applied);
}

/// An expression for the top side of the margin sets that side only, to the
/// length it stands for; one that stands for no length changes nothing.
pub proof fn lemma_margin_top_sets_its_side(e: StyleExpr<Val>, c: ComputedStyle)
    ensures
        ({
            let r = StyleAttr::MarginTop(e).applied(c);
            match style_length(e) {
                Some(x) => {
                    &&& r.style.margin.top == x
                    &&& r.style.margin.left == c.style.margin.left
                    &&& r.style.margin.right == c.style.margin.right
                    &&& r.style.margin.bottom == c.style.margin.bottom
                    &&& r == (ComputedStyle { style: Style { margin: r.style.margin, ..c.style }, ..c })
                },
                None => r == c,
            }
        }),
{
    reveal(StyleAttr::applied);
}

/// An expression for the bottom side of the margin sets that side only, to the
/// length it stands for; one that stands for no length changes nothing.
pub proof fn lemma_margin_bottom_sets_its_side(e: StyleExpr<Val>, c: ComputedStyle)
    ensures
        ({
            let r = StyleAttr::MarginBottom(e).applied(c);
            match style_length(e) {
                Some(x) => {
                    &&& r.style.margin.bottom == x
                    &&& r.style.margin.left == c.style.margin.left
                    &&& r.style.margin.right == c.style.margin.right
                    &&& r.style.margin.top == c.style.margin.top
                    &&& r == (ComputedStyle { style: Style { margin: r.style.margin, ..c.style }, ..c })
                },
                None => r == c,
            }
        }),
{
    reveal(StyleAttr::applied);
}

/// A list for the whole margin sets all four sides to the rectangle it
/// stands for, and nothing else; one that stands for none changes nothing.
pub proof fn lemma_margin_sets_all_sides(l: ExprList, c: ComputedStyle)
    ensures
        ({
            let r = StyleAttr::Margin(l).applied(c);
            match rect_of(l.0@) {
                Some(x) => r == (ComputedStyle { style: Style { margin: x, ..c.style }, ..c }),
                None => r == c,
            }
        }),
{
    reveal(StyleAttr::applied);
}

/// An expression for the left side of the padding sets that side only, to the
/// length it stands for; one that stands for no length changes nothing.
pub proof fn lemma_padding_left_sets_its_side(e: StyleExpr<Val>, c: ComputedStyle)
    ensures
        ({
            let r = StyleAttr::PaddingLeft(e).applied(c);
            match style_length(e) {
                Some(x) => {
                    &&& r.style.padding.left == x
                    &&& r.style.padding.right == c.style.padding.right
                    &&& r.style.padding.top == c.style.padding.top
                    &&& r.style.padding.bottom == c.style.padding.bottom
                    &&& r == (ComputedStyle { style: Style { padding: r.style.padding, ..c.style }, ..c })
                },
                None => r == c,
            }
        }),
{
    reveal(StyleAttr::applied);
}

/// An expression for the right side of the padding sets that side only, to the
/// length it stands for; one that stands for no length changes nothing.
pub proof fn lemma_padding_right_sets_its_side(e: StyleExpr<Val>, c: ComputedStyle)
    ensures
        ({
            let r = StyleAttr::PaddingRight(e).applied(c);
            match style_length(e) {
                Some(x) => {
                    &&& r.style.padding.right == x
                    &&& r.style.padding.left == c.style.padding.left
                    &&& r.style.padding.top == c.style.padding.top
                    &&& r.style.padding.bottom == c.style.padding.bottom
                    &&& r == (ComputedStyle { style: Style { padding: r.style.padding, ..c.style }, ..c })
                },
                None => r == c,
            }
        }),
{
    reveal(StyleAttr::applied);
}

/// An expression for the top side of the padding sets that side only, to the
/// length it stands for; one that stands for no length changes nothing.
pub proof fn lemma_padding_top_sets_its_side(e: StyleExpr<Val>, c: ComputedStyle)
    ensures
        ({
            let r = StyleAttr::PaddingTop(e).applied(c);
            match style_length(e) {
                Some(x) => {
                    &&& r.style.padding.top == x
                    &&& r.style.padding.left == c.style.padding.left
                    &&& r.style.padding.right == c.style.padding.right
                    &&& r.style.padding.bottom == c.style.padding.bottom
                    &&& r == (ComputedStyle { style: Style { padding: r.style.padding, ..c.style }, ..c })
                },
                None => r == c,
            }
        }),
{
    reveal(StyleAttr::applied);
}

/// An expression for the bottom side of the padding sets that side only, to the
/// length it stands for; one that stands for no length changes nothing.
pub proof fn lemma_padding_bottom_sets_its_side(e: StyleExpr<Val>, c: ComputedStyle)
    ensures
        ({
            let r = StyleAttr::PaddingBottom(e).applied(c);
            match style_length(e) {
                Some(x) => {
                    &&& r.style.padding.bottom == x
                    &&& r.style.padding.left == c.style.padding.left
                    &&& r.style.padding.right == c.style.padding.right
                    &&& r.style.padding.top == c.style.padding.top
                    &&& r == (ComputedStyle { style: Style { padding: r.style.padding, ..c.style }, ..c })
                },
                None => r == c,
            }
        }),
{
    reveal(StyleAttr::applied);
}

/// A list for the whole padding sets all four sides to the rectangle it
/// stands for, and nothing else; one that stands for none changes nothing.
pub proof fn lemma_padding_sets_all_sides(l: ExprList, c: ComputedStyle)
    ensures
        ({
            let r = StyleAttr::Padding(l).applied(c);
            match rect_of(l.0@) {
                Some(x) => r == (ComputedStyle { style: Style { padding: x, ..c.style }, ..c }),
                None => r == c,
            }
        }),
{
    reveal(StyleAttr::applied);
}

/// An expression for the left side of the border sets that side only, to the
/// length it stands for; one that stands for no length changes nothing.
pub proof fn lemma_border_left_sets_its_side(e: StyleExpr<Val>, c: ComputedStyle)
    ensures
        ({
            let r = StyleAttr::BorderLeft(e).applied(c);
            match style_length(e) {
                Some(x) => {
                    &&& r.style.border.left == x
                    &&& r.style.border.right == c.style.border.right
                    &&& r.style.border.top == c.style.border.top
                    &&& r.style.border.bottom == c.style.border.bottom
                    &&& r == (ComputedStyle { style: Style { border: r.style.border, ..c.style }, ..c })
                },
                None => r == c,
            }
        }),
{
    reveal(StyleAttr::applied);
}

/// An expression for the right side of the border sets that side only, to the
/// length it stands for; one that stands for no length changes nothing.
pub proof fn lemma_border_right_sets_its_side(e: StyleExpr<Val>, c: ComputedStyle)
    ensures
        ({
            let r = StyleAttr::BorderRight(e).applied(c);
            match style_length(e) {
                Some(x) => {
                    &&& r.style.border.right == x
                    &&& r.style.border.left == c.style.border.left
                    &&& r.style.border.top == c.style.border.top
                    &&& r.style.border.bottom == c.style.border.bottom
                    &&& r == (ComputedStyle { style: Style { border: r.style.border, ..c.style }, ..c })
                },
                None => r == c,
            }
        }),
{
    reveal(StyleAttr::applied);
}

/// An expression for the top side of the border sets that side only, to the
/// length it stands for; one that stands for no length changes nothing.
pub proof fn lemma_border_top_sets_its_side(e: StyleExpr<Val>, c: ComputedStyle)
    ensures
        ({
            let r = StyleAttr::BorderTop(e).applied(c);
            match style_length(e) {
                Some(x) => {
                    &&& r.style.border.top == x
                    &&& r.style.border.left == c.style.border.left
                    &&& r.style.border.right == c.style.border.right
                    &&& r.style.border.bottom == c.style.border.bottom
                    &&& r == (ComputedStyle { style: Style { border: r.style.border, ..c.style }, ..c })
                },
                None => r == c,
            }
        }),
{
    reveal(StyleAttr::applied);
}

/// An expression for the bottom side of the border sets that side only, to the
/// length it stands for; one that stands for no length changes nothing.
pub proof fn lemma_border_bottom_sets_its_side(e: StyleExpr<Val>, c: ComputedStyle)
    ensures
        ({
            let r = StyleAttr::BorderBottom(e).applied(c);
            match style_length(e) {
                Some(x) => {
                    &&& r.style.border.bottom == x
                    &&& r.style.border.left == c.style.border.left
                    &&& r.style.border.right == c.style.border.right
                    &&& r.style.border.top == c.style.border.top
                    &&& r == (ComputedStyle { style: Style { border: r.style.border, ..c.style }, ..c })
                },
                None => r == c,
            }
        }),
{
    reveal(StyleAttr::applied);
}

/// A list for the whole border sets all four sides to the rectangle it
/// stands for, and nothing else; one that stands for none changes nothing.
pub proof fn lemma_border_sets_all_sides(l: ExprList, c: ComputedStyle)
    ensures
        ({
            let r = StyleAttr::Border(l).applied(c);
            match rect_of(l.0@) {
                Some(x) => r == (ComputedStyle { style: Style { border: x, ..c.style }, ..c }),
                None => r == c,
            }
        }),
{
    reveal(StyleAttr::applied);
}


/// What stands for a length: a length, a number (of pixels) and the
/// identifier `auto`; for a typed expression, also its constant. Nothing
/// else does.
pub proof fn lemma_length_coercion(
    v: Val,
    t: String,
    n: String,
    col: ColorValue,
    a: AssetRef,
)
    ensures
        length_of(UntypedExpr::Length(v)) == Some(v),
        length_of(UntypedExpr::Number(t)) == Some(Val::Px(t)),
        n@ == "auto"@ ==> length_of(UntypedExpr::Ident(n)) == Some(Val::Auto),
        n@ != "auto"@ ==> length_of(UntypedExpr::Ident(n)) is None,
        length_of(UntypedExpr::Color(col)) is None,
        length_of(UntypedExpr::Asset(a)) is None,
        length_of(UntypedExpr::Var(n)) is None,
        style_length(StyleExpr::Constant(v)) == Some(v),
        style_length(StyleExpr::Length(v)) == Some(v),
        style_length(StyleExpr::<Val>::Number(t)) == Some(Val::Px(t)),
        n@ == "auto"@ ==> style_length(StyleExpr::<Val>::Ident(n)) == Some(Val::Auto),
        n@ != "auto"@ ==> style_length(StyleExpr::<Val>::Ident(n)) is None,
        style_length(StyleExpr::<Val>::Color(col)) is None,
        style_length(StyleExpr::<Val>::Asset(a)) is None,
        style_length(StyleExpr::<Val>::Var(n)) is None,
{
}

} // verus!
