//! The CSS order of a rectangle's sides: one value for all four sides; two
//! for top and bottom, then right and left; three for top, right and left,
//! bottom; four for top, right, bottom, left.
use vstd::prelude::*;
use crate::untyped::{expr_length, length_of, list_rect, rect_of, ExprModel, UntypedExpr};
use crate::values::{rect_parse, val_parse, UiRect, Val};
use crate::text::words;

verus! {

/// The sides that a list of expressions stands for follow the CSS order,
/// and a list whose first four items are not all lengths stands for none.
pub proof fn lemma_rect_of_css_order(xs: Seq<UntypedExpr>)
    ensures
        xs.len() == 0 ==> rect_of(xs) is None,
        (exists|i: int| 0 <= i < xs.len() && i < 4 && #[trigger] length_of(xs[i]) is None) ==> rect_of(xs) is None,
        xs.len() == 1 && length_of(xs[0]) is Some ==> rect_of(xs) == Some(
            UiRect { top: length_of(xs[0])->0, right: length_of(xs[0])->0, bottom: length_of(xs[0])->0, left: length_of(xs[0])->0 },
        ),
        xs.len() == 2 && length_of(xs[0]) is Some && length_of(xs[1]) is Some ==> rect_of(xs) == Some(
            UiRect { top: length_of(xs[0])->0, right: length_of(xs[1])->0, bottom: length_of(xs[0])->0, left: length_of(xs[1])->0 },
        ),
        xs.len() == 3 && length_of(xs[0]) is Some && length_of(xs[1]) is Some
            && length_of(xs[2]) is Some ==> rect_of(xs) == Some(UiRect { top: length_of(xs[0])->0, right: length_of(xs[1])->0, bottom: length_of(xs[2])->0, left: length_of(xs[1])->0 }),
        xs.len() >= 4 && length_of(xs[0]) is Some && length_of(xs[1]) is Some
            && length_of(xs[2]) is Some && length_of(xs[3]) is Some ==> rect_of(xs) == Some(
            UiRect { top: length_of(xs[0])->0, right: length_of(xs[1])->0, bottom: length_of(xs[2])->0, left: length_of(xs[3])->0 },
        ),
{
    if exists|i: int| 0 <= i < xs.len() && i < 4 && #[trigger] length_of(xs[i]) is None {
        let i = choose|i: int| 0 <= i < xs.len() && i < 4 && #[trigger] length_of(xs[i]) is None;
        assert(i == 0 || i == 1 || i == 2 || i == 3);
    }
}

/// The same order for the lengths that the views of expressions stand for.
pub proof fn lemma_list_rect_css_order(xs: Seq<ExprModel>)
    ensures
        xs.len() == 0 ==> list_rect(xs) is None,
        (exists|i: int| 0 <= i < xs.len() && i < 4 && #[trigger] expr_length(xs[i]) is None) ==> list_rect(xs) is None,
        xs.len() == 1 && expr_length(xs[0]) is Some ==> list_rect(xs) == Some((expr_length(xs[0])->0, expr_length(xs[0])->0, expr_length(xs[0])->0, expr_length(xs[0])->0)),
        xs.len() == 2 && expr_length(xs[0]) is Some && expr_length(xs[1]) is Some ==> list_rect(xs)
            == Some((expr_length(xs[1])->0, expr_length(xs[1])->0, expr_length(xs[0])->0, expr_length(xs[0])->0)),
        xs.len() == 3 && expr_length(xs[0]) is Some && expr_length(xs[1]) is Some
            && expr_length(xs[2]) is Some ==> list_rect(xs) == Some((expr_length(xs[1])->0, expr_length(xs[1])->0, expr_length(xs[0])->0, expr_length(xs[2])->0)),
        xs.len() >= 4 && expr_length(xs[0]) is Some && expr_length(xs[1]) is Some
            && expr_length(xs[2]) is Some && expr_length(xs[3]) is Some ==> list_rect(xs) == Some(
            (expr_length(xs[3])->0, expr_length(xs[1])->0, expr_length(xs[0])->0, expr_length(xs[2])->0),
        ),
{
    if exists|i: int| 0 <= i < xs.len() && i < 4 && #[trigger] expr_length(xs[i]) is None {
        let i = choose|i: int| 0 <= i < xs.len() && i < 4 && #[trigger] expr_length(xs[i]) is None;
        assert(i == 0 || i == 1 || i == 2 || i == 3);
    }
}

/// The same order for the words of a rectangle's text (sides given as
/// left, right, top, bottom); more than four words, or none, read as an
/// error.
pub proof fn lemma_rect_parse_css_order(s: Seq<char>)
    ensures
        ({
            let w = words(s);
            &&& (w.len() == 0 || w.len() > 4) ==> rect_parse(s) is Err
            &&& (exists|i: int| 0 <= i < w.len() && i < 4 && #[trigger] val_parse(w[i]) is None) ==> rect_parse(s) is Err
            &&& w.len() == 1 && val_parse(w[0]) is Some ==> rect_parse(s) == Ok::<_, Seq<char>>((val_parse(w[0])->0, val_parse(w[0])->0, val_parse(w[0])->0, val_parse(w[0])->0))
            &&& w.len() == 2 && val_parse(w[0]) is Some && val_parse(w[1]) is Some ==> rect_parse(s)
                == Ok::<_, Seq<char>>((val_parse(w[1])->0, val_parse(w[1])->0, val_parse(w[0])->0, val_parse(w[0])->0))
            &&& w.len() == 3 && val_parse(w[0]) is Some && val_parse(w[1]) is Some && val_parse(w[2]) is Some
                ==> rect_parse(s) == Ok::<_, Seq<char>>((val_parse(w[1])->0, val_parse(w[1])->0, val_parse(w[0])->0, val_parse(w[2])->0))
            &&& w.len() == 4 && val_parse(w[0]) is Some && val_parse(w[1]) is Some && val_parse(w[2]) is Some
                && val_parse(w[3]) is Some ==> rect_parse(s) == Ok::<_, Seq<char>>((val_parse(w[3])->0, val_parse(w[1])->0, val_parse(w[0])->0, val_parse(w[2])->0))
        }),
{
    let w = words(s);
    if exists|i: int| 0 <= i < w.len() && i < 4 && #[trigger] val_parse(w[i]) is None {
        let i = choose|i: int| 0 <= i < w.len() && i < 4 && #[trigger] val_parse(w[i]) is None;
        assert(i == 0 || i == 1 || i == 2 || i == 3);
    }
}

} // verus!
