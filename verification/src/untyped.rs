//! Untyped style expressions: the values that a style property may be given
//! in a style sheet, read from text by a small grammar.
use vstd::prelude::*;
use crate::asset_path::{parse_asset_path, relative_path, AssetPath, AssetRef};
use crate::coerce::Coerce;
use crate::error::GuiseError;
use crate::keywords::str_eq;
use crate::number::{int_text, int_to_text};
use crate::text::{chars_of, push_char, push_str, string_of, trim, trim_bounds};
use crate::values::{
    color_form_text, color_panics, color_parse, color_would_panic, hex_color,
    hex_text, hex_value, invalid_value, parse_color, push_color_form, push_hex_byte, val_text,
    val_to_str, ColorModel, ColorSpec, UiRect, Unit, Val,
};

verus! {

/// A color as a style sheet writes it.
#[derive(Debug, PartialEq)]
pub enum ColorValue {
    /// Nothing is drawn.
    Transparent,
    /// Four channels from hexadecimal digits.
    Hex(u8, u8, u8, u8),
    /// `rgb(..)`: red, green and blue from 0 to 255, then alpha from 0 to 1.
    Rgb(String, String, String, String),
    /// `hsl(..)`: hue in degrees, saturation and lightness in percent, then alpha.
    Hsl(String, String, String, String),
}

/// What a color holds, its numbers as text.
pub enum ColorValueModel {
    Transparent,
    Hex(u8, u8, u8, u8),
    Rgb(Seq<char>, Seq<char>, Seq<char>, Seq<char>),
    Hsl(Seq<char>, Seq<char>, Seq<char>, Seq<char>),
}

impl View for ColorValue {
    type V = ColorValueModel;

    open spec fn view(&self) -> ColorValueModel {
        match self {
            ColorValue::Transparent => ColorValueModel::Transparent,
            ColorValue::Hex(r, g, b, a) => ColorValueModel::Hex(*r, *g, *b, *a),
            ColorValue::Rgb(r, g, b, a) => ColorValueModel::Rgb(r@, g@, b@, a@),
            ColorValue::Hsl(h, s, l, a) => ColorValueModel::Hsl(h@, s@, l@, a@),
        }
    }
}

/// An expression which represents the possible values of a style attribute.
/// Numbers are kept as their text.
#[derive(Debug, PartialEq)]
pub enum UntypedExpr {
    /// An identifier
    Ident(String),
    /// A number
    Number(String),
    /// A length
    Length(Val),
    /// A color value
    Color(ColorValue),
    /// A reference to an asset: "asset(path)"
    Asset(AssetRef),
    /// A reference to a named style variable.
    Var(String),
}

/// What an expression holds; an asset by the path it was written with.
pub enum ExprModel {
    Ident(Seq<char>),
    Number(Seq<char>),
    Length((Unit, Seq<char>)),
    Color(ColorValueModel),
    Asset(Seq<char>),
    Var(Seq<char>),
}

impl View for UntypedExpr {
    type V = ExprModel;

    open spec fn view(&self) -> ExprModel {
        match self {
            UntypedExpr::Ident(n) => ExprModel::Ident(n@),
            UntypedExpr::Number(t) => ExprModel::Number(t@),
            UntypedExpr::Length(l) => ExprModel::Length(l@),
            UntypedExpr::Color(c) => ExprModel::Color(c@),
            UntypedExpr::Asset(a) => ExprModel::Asset(a@.0),
            UntypedExpr::Var(n) => ExprModel::Var(n@),
        }
    }
}

/// The outcome of one rule of the grammar at a position: a value and the
/// position after it; a failure that lets the next alternative be tried; or
/// a failure after a point of no return, which ends the reading.
pub enum Outcome {
    Done(ExprModel, int),
    Back,
    Cut,
}

pub open spec fn is_digit(c: char) -> bool {
    '0' <= c && c <= '9'
}

/// Whether `w` stands in `s` at `i`.
pub open spec fn starts_at(s: Seq<char>, i: int, w: Seq<char>) -> bool {
    0 <= i && i + w.len() <= s.len() && s.subrange(i, i + w.len()) == w
}

/// The end of the run of decimal digits at `i`.
pub open spec fn digits_end(s: Seq<char>, i: int) -> int
    decreases s.len() - i,
{
    if 0 <= i < s.len() && is_digit(s[i]) {
        digits_end(s, i + 1)
    } else {
        i
    }
}

/// The end of the run of spaces and tabs at `i`.
pub open spec fn space_end(s: Seq<char>, i: int) -> int
    decreases s.len() - i,
{
    if 0 <= i < s.len() && (s[i] == ' ' || s[i] == '\t') {
        space_end(s, i + 1)
    } else {
        i
    }
}

/// The end of the run of at most `n` more hexadecimal digits at `i`.
pub open spec fn hex_end(s: Seq<char>, i: int, n: int) -> int
    decreases s.len() - i,
{
    if n > 0 && 0 <= i < s.len() && hex_value(s[i]) is Some {
        hex_end(s, i + 1, n - 1)
    } else {
        i
    }
}

/// The end of an exponent at `i`: `e` or `E`, an optional sign, digits.
pub open spec fn exponent_end(s: Seq<char>, i: int) -> Option<int> {
    if 0 <= i < s.len() && (s[i] == 'e' || s[i] == 'E') {
        let j = if i + 1 < s.len() && (s[i + 1] == '+' || s[i + 1] == '-') {
            i + 2
        } else {
            i + 1
        };
        let k = digits_end(s, j);
        if k > j {
            Some(k)
        } else {
            None
        }
    } else {
        None
    }
}

/// The position after an optional exponent at `i`.
pub open spec fn after_exponent(s: Seq<char>, i: int) -> int {
    match exponent_end(s, i) {
        Some(e) => e,
        None => i,
    }
}

/// The end of a number at `i`: an optional `-`, then either `.` and digits,
/// or digits with an optional `.` and optional digits; then an optional
/// exponent.
pub open spec fn number_end(s: Seq<char>, i: int) -> Option<int> {
    let j = if 0 <= i < s.len() && s[i] == '-' {
        i + 1
    } else {
        i
    };
    if 0 <= j < s.len() && s[j] == '.' && digits_end(s, j + 1) > j + 1 {
        Some(after_exponent(s, digits_end(s, j + 1)))
    } else if digits_end(s, j) > j {
        let k = digits_end(s, j);
        let m = if k < s.len() && s[k] == '.' {
            digits_end(s, k + 1)
        } else {
            k
        };
        Some(after_exponent(s, m))
    } else {
        None
    }
}

/// The unit at `i`, and the position after it.
pub open spec fn unit_at(s: Seq<char>, i: int) -> Option<(Unit, int)> {
    if starts_at(s, i, "px"@) {
        Some((Unit::Px, i + "px"@.len()))
    } else if starts_at(s, i, "%"@) {
        Some((Unit::Percent, i + "%"@.len()))
    } else if starts_at(s, i, "vh"@) {
        Some((Unit::Vh, i + "vh"@.len()))
    } else if starts_at(s, i, "vw"@) {
        Some((Unit::Vw, i + "vw"@.len()))
    } else if starts_at(s, i, "vmin"@) {
        Some((Unit::VMin, i + "vmin"@.len()))
    } else if starts_at(s, i, "vmax"@) {
        Some((Unit::VMax, i + "vmax"@.len()))
    } else {
        None
    }
}

/// A character that may begin a name: an ASCII letter or `_`.
pub open spec fn name_start(c: char) -> bool {
    ('A' <= c && c <= 'Z') || ('a' <= c && c <= 'z') || c == '_'
}

/// A character that may continue a name: also a digit or `-`.
pub open spec fn name_char(c: char) -> bool {
    name_start(c) || ('0' <= c && c <= '9') || c == '-'
}

pub open spec fn name_rest_end(s: Seq<char>, i: int) -> int
    decreases s.len() - i,
{
    if 0 <= i < s.len() && name_char(s[i]) {
        name_rest_end(s, i + 1)
    } else {
        i
    }
}

/// The end of a name at `i`.
pub open spec fn name_end(s: Seq<char>, i: int) -> Option<int> {
    if 0 <= i < s.len() && name_start(s[i]) {
        Some(name_rest_end(s, i + 1))
    } else {
        None
    }
}

/// The first `)` at or after `i`, or the end of the text.
pub open spec fn close_paren(s: Seq<char>, i: int) -> int
    decreases s.len() - i,
{
    if 0 <= i < s.len() && s[i] != ')' {
        close_paren(s, i + 1)
    } else {
        i
    }
}

/// `#` and one to eight hexadecimal digits: three, four, six or eight of
/// them give a color; any other count gives transparent black.
pub open spec fn hex_rule(s: Seq<char>, i: int) -> Outcome {
    if 0 <= i < s.len() && s[i] == '#' {
        let e = hex_end(s, i + 1, 8);
        if e == i + 1 {
            Outcome::Cut
        } else {
            let h = s.subrange(i + 1, e);
            let c = if h.len() == 3 || h.len() == 4 || h.len() == 6 || h.len() == 8 {
                hex_color(h)->0
            } else {
                (0u8, 0u8, 0u8, 0u8)
            };
            Outcome::Done(ExprModel::Color(ColorValueModel::Hex(c.0, c.1, c.2, c.3)), e)
        }
    } else {
        Outcome::Back
    }
}

/// A number, then an optional unit: a length, or a plain number.
pub open spec fn length_rule(s: Seq<char>, i: int) -> Outcome {
    match number_end(s, i) {
        None => Outcome::Back,
        Some(n) => match unit_at(s, n) {
            None => Outcome::Done(ExprModel::Number(s.subrange(i, n)), n),
            Some((u, m)) => Outcome::Done(ExprModel::Length((u, s.subrange(i, n))), m),
        },
    }
}

/// `var(--name)`.
pub open spec fn var_rule(s: Seq<char>, i: int) -> Outcome {
    if starts_at(s, i, "var(--"@) {
        let j = i + "var(--"@.len();
        match name_end(s, j) {
            Some(k) => if k < s.len() && s[k] == ')' {
                Outcome::Done(ExprModel::Var(s.subrange(j, k)), k + 1)
            } else {
                Outcome::Back
            },
            None => Outcome::Back,
        }
    } else {
        Outcome::Back
    }
}

/// The position after an optional `,` and the spaces after it.
pub open spec fn after_comma(s: Seq<char>, i: int) -> int {
    if 0 <= i < s.len() && s[i] == ',' {
        space_end(s, i + 1)
    } else {
        i
    }
}

/// The function name of a color form at `i`: whether it is an `rgb` form,
/// and the position after the name.
pub open spec fn color_fn_at(s: Seq<char>, i: int) -> Option<(bool, int)> {
    if starts_at(s, i, "rgba"@) {
        Some((true, i + "rgba"@.len()))
    } else if starts_at(s, i, "rgb"@) {
        Some((true, i + "rgb"@.len()))
    } else if starts_at(s, i, "hsla"@) {
        Some((false, i + "hsla"@.len()))
    } else if starts_at(s, i, "hsl"@) {
        Some((false, i + "hsl"@.len()))
    } else {
        None
    }
}

/// The alpha of a color form: the optional fourth number after the third
/// number ends at `n3`, with its text and end.
pub open spec fn alpha_at(s: Seq<char>, n3: int) -> Option<(Seq<char>, int)> {
    let t = space_end(s, n3);
    let t2 = if 0 <= t < s.len() && (s[t] == ',' || s[t] == '/') {
        t + 1
    } else {
        t
    };
    let t3 = space_end(s, t2);
    match number_end(s, t3) {
        Some(e) => Some((s.subrange(t3, e), e)),
        None => None,
    }
}

/// `rgba(..)`, `rgb(..)`, `hsla(..)` or `hsl(..)` with three or four
/// numbers, separated by spaces or commas (a `/` may stand before the
/// fourth); alpha is one where it is missing. After the `(` a number must
/// follow.
pub open spec fn color_fn_rule(s: Seq<char>, i: int) -> Outcome {
    match color_fn_at(s, i) {
        None => Outcome::Back,
        Some((rgb, k)) => {
            let p = space_end(s, k);
            if !(0 <= p < s.len() && s[p] == '(') {
                Outcome::Back
            } else {
                let q = space_end(s, p + 1);
                match number_end(s, q) {
                    None => Outcome::Cut,
                    Some(n1) => {
                        let r = after_comma(s, space_end(s, n1));
                        match number_end(s, r) {
                            None => Outcome::Back,
                            Some(n2) => {
                                let t = after_comma(s, space_end(s, n2));
                                match number_end(s, t) {
                                    None => Outcome::Back,
                                    Some(n3) => {
                                        let (a, end) = match alpha_at(s, n3) {
                                            Some((a, e)) => (a, e),
                                            None => (seq!['1'], n3),
                                        };
                                        let u = space_end(s, end);
                                        if 0 <= u < s.len() && s[u] == ')' {
                                            let x = s.subrange(q, n1);
                                            let y = s.subrange(r, n2);
                                            let z = s.subrange(t, n3);
                                            Outcome::Done(
                                                ExprModel::Color(
                                                    if rgb {
                                                        ColorValueModel::Rgb(x, y, z, a)
                                                    } else {
                                                        ColorValueModel::Hsl(x, y, z, a)
                                                    },
                                                ),
                                                u + 1,
                                            )
                                        } else {
                                            Outcome::Back
                                        }
                                    },
                                }
                            },
                        }
                    },
                }
            }
        },
    }
}

/// `asset(path)`, spaces allowed before the `(`; the path runs to the first
/// `)` and is not empty.
pub open spec fn asset_rule(s: Seq<char>, i: int) -> Outcome {
    if starts_at(s, i, "asset"@) {
        let k = space_end(s, i + "asset"@.len());
        if 0 <= k < s.len() && s[k] == '(' {
            let j = close_paren(s, k + 1);
            if j < s.len() && j > k + 1 {
                Outcome::Done(ExprModel::Asset(s.subrange(k + 1, j)), j + 1)
            } else {
                Outcome::Back
            }
        } else {
            Outcome::Back
        }
    } else {
        Outcome::Back
    }
}

/// A name.
pub open spec fn ident_rule(s: Seq<char>, i: int) -> Outcome {
    match name_end(s, i) {
        Some(k) => Outcome::Done(ExprModel::Ident(s.subrange(i, k)), k),
        None => Outcome::Back,
    }
}

/// The first alternative that does not fall back: hexadecimal color,
/// length or number, variable, color form, asset, name.
#[verifier::opaque]
pub open spec fn expr_rule(s: Seq<char>, i: int) -> Outcome {
    let a = hex_rule(s, i);
    if !(a is Back) {
        a
    } else {
        let b = length_rule(s, i);
        if !(b is Back) {
            b
        } else {
            let c = var_rule(s, i);
            if !(c is Back) {
                c
            } else {
                let d = color_fn_rule(s, i);
                if !(d is Back) {
                    d
                } else {
                    let e = asset_rule(s, i);
                    if !(e is Back) {
                        e
                    } else {
                        ident_rule(s, i)
                    }
                }
            }
        }
    }
}

/// What a text reads as: the expression that the grammar reads from the
/// whole text with its surrounding whitespace trimmed, or none.
pub open spec fn expr_parse(input: Seq<char>) -> Option<ExprModel> {
    let t = trim(input);
    match expr_rule(t, 0) {
        Outcome::Done(x, n) => if n == t.len() {
            Some(x)
        } else {
            None
        },
        _ => None,
    }
}

/// The outcome of one rule, with the expression it read.
/// An asset reference whose path is resolved as it was written, relative to
/// nothing yet; any other expression.
pub open spec fn fresh_asset(x: UntypedExpr) -> bool {
    x matches UntypedExpr::Asset(a) ==> a@.1 == parse_asset_path(a@.0)
}

enum Parsed {
    Done(UntypedExpr, usize),
    Back,
    Cut,
}

spec fn parsed_is(p: Parsed, o: Outcome) -> bool {
    match p {
        Parsed::Done(x, n) => o matches Outcome::Done(m, k) && x@ == m && n == k,
        Parsed::Back => o is Back,
        Parsed::Cut => o is Cut,
    }
}

fn digit_at(v: &Vec<char>, i: usize) -> (r: bool)
    ensures
        r == (i < v@.len() && is_digit(v@[i as int])),
        v@.len() <= usize::MAX,
{
    i < v.len() && '0' <= v[i] && v[i] <= '9'
}

fn char_at(v: &Vec<char>, i: usize, c: char) -> (r: bool)
    ensures
        r == (i < v@.len() && v@[i as int] == c),
        v@.len() <= usize::MAX,
{
    i < v.len() && v[i] == c
}

fn digits_end_x(v: &Vec<char>, i: usize) -> (r: usize)
    requires
        i <= v@.len(),
    ensures
        r == digits_end(v@, i as int),
        i <= r <= v@.len(),
{
    let mut j = i;
    while digit_at(v, j)
        invariant
            i <= j <= v@.len(),
            digits_end(v@, i as int) == digits_end(v@, j as int),
        decreases v@.len() - j,
    {
        j = j + 1;
    }
    j
}

fn space_end_x(v: &Vec<char>, i: usize) -> (r: usize)
    requires
        i <= v@.len(),
    ensures
        r == space_end(v@, i as int),
        i <= r <= v@.len(),
{
    let mut j = i;
    while char_at(v, j, ' ') || char_at(v, j, '\t')
        invariant
            i <= j <= v@.len(),
            space_end(v@, i as int) == space_end(v@, j as int),
        decreases v@.len() - j,
    {
        j = j + 1;
    }
    j
}

fn hex_end_x(v: &Vec<char>, i: usize) -> (r: usize)
    requires
        i <= v@.len(),
    ensures
        r == hex_end(v@, i as int, 8),
        i <= r <= v@.len(),
        r <= i + 8,
{
    let mut j = i;
    let mut n: usize = 8;
    while n > 0 && j < v.len() && (('0' <= v[j] && v[j] <= '9') || ('a' <= v[j] && v[j] <= 'f') || (
    'A' <= v[j] && v[j] <= 'F'))
        invariant
            i <= j <= v@.len(),
            n <= 8,
            j - i == 8 - n,
            hex_end(v@, i as int, 8) == hex_end(v@, j as int, n as int),
        decreases n,
    {
        j = j + 1;
        n = n - 1;
    }
    j
}

fn name_rest_end_x(v: &Vec<char>, i: usize) -> (r: usize)
    requires
        i <= v@.len(),
    ensures
        r == name_rest_end(v@, i as int),
        i <= r <= v@.len(),
{
    let mut j = i;
    while j < v.len() && is_name_char(v[j])
        invariant
            i <= j <= v@.len(),
            name_rest_end(v@, i as int) == name_rest_end(v@, j as int),
        decreases v@.len() - j,
    {
        j = j + 1;
    }
    j
}

fn close_paren_x(v: &Vec<char>, i: usize) -> (r: usize)
    requires
        i <= v@.len(),
    ensures
        r == close_paren(v@, i as int),
        i <= r <= v@.len(),
{
    let mut j = i;
    while j < v.len() && v[j] != ')'
        invariant
            i <= j <= v@.len(),
            close_paren(v@, i as int) == close_paren(v@, j as int),
        decreases v@.len() - j,
    {
        j = j + 1;
    }
    j
}

fn is_name_start(c: char) -> (r: bool)
    ensures
        r == name_start(c),
{
    ('A' <= c && c <= 'Z') || ('a' <= c && c <= 'z') || c == '_'
}

fn is_name_char(c: char) -> (r: bool)
    ensures
        r == name_char(c),
{
    is_name_start(c) || ('0' <= c && c <= '9') || c == '-'
}

/// Whether the characters of `w` stand in `v` at `i`; where they do, the
/// position after them.
fn word_at(v: &Vec<char>, i: usize, w: &str) -> (r: Option<usize>)
    requires
        i <= v@.len(),
    ensures
        r matches Some(e) ==> starts_at(v@, i as int, w@) && e == i + w@.len() && e <= v@.len(),
        r is None ==> !starts_at(v@, i as int, w@),
{
    let c = chars_of(w);
    if c.len() > v.len() - i {
        return None;
    }
    let mut k: usize = 0;
    while k < c.len()
        invariant
            c@ == w@,
            i + c@.len() <= v@.len(),
            v@.len() <= usize::MAX,
            k <= c@.len(),
            forall|j: int| 0 <= j < k ==> v@[i + j] == #[trigger] c@[j],
        decreases c@.len() - k,
    {
        if v[i + k] != c[k] {
            assert(v@.subrange(i as int, i + c@.len())[k as int] != w@[k as int]);
            return None;
        }
        k = k + 1;
    }
    assert(v@.subrange(i as int, i + c@.len()) =~= w@);
    Some(i + c.len())
}

fn exponent_end_x(v: &Vec<char>, i: usize) -> (r: Option<usize>)
    requires
        i <= v@.len(),
    ensures
        match r {
            Some(e) => exponent_end(v@, i as int) == Some(e as int) && e <= v@.len(),
            None => exponent_end(v@, i as int) is None,
        },
{
    if char_at(v, i, 'e') || char_at(v, i, 'E') {
        let j = if char_at(v, i + 1, '+') || char_at(v, i + 1, '-') {
            i + 2
        } else {
            i + 1
        };
        let k = digits_end_x(v, j);
        if k > j {
            Some(k)
        } else {
            None
        }
    } else {
        None
    }
}

fn after_exponent_x(v: &Vec<char>, i: usize) -> (r: usize)
    requires
        i <= v@.len(),
    ensures
        r == after_exponent(v@, i as int),
        i <= r <= v@.len(),
{
    match exponent_end_x(v, i) {
        Some(e) => e,
        None => i,
    }
}

fn number_end_x(v: &Vec<char>, i: usize) -> (r: Option<usize>)
    requires
        i <= v@.len(),
    ensures
        match r {
            Some(e) => number_end(v@, i as int) == Some(e as int) && i < e <= v@.len(),
            None => number_end(v@, i as int) is None,
        },
{
    let j = if char_at(v, i, '-') {
        i + 1
    } else {
        i
    };
    if char_at(v, j, '.') && digits_end_x(v, j + 1) > j + 1 {
        let k = digits_end_x(v, j + 1);
        Some(after_exponent_x(v, k))
    } else {
        let k = digits_end_x(v, j);
        if k > j {
            let m = if char_at(v, k, '.') {
                digits_end_x(v, k + 1)
            } else {
                k
            };
            Some(after_exponent_x(v, m))
        } else {
            None
        }
    }
}

fn unit_at_x(v: &Vec<char>, i: usize) -> (r: Option<(Unit, usize)>)
    requires
        i <= v@.len(),
    ensures
        match r {
            Some((u, e)) => unit_at(v@, i as int) == Some((u, e as int)) && e <= v@.len(),
            None => unit_at(v@, i as int) is None,
        },
{
    if let Some(e) = word_at(v, i, "px") {
        Some((Unit::Px, e))
    } else if let Some(e) = word_at(v, i, "%") {
        Some((Unit::Percent, e))
    } else if let Some(e) = word_at(v, i, "vh") {
        Some((Unit::Vh, e))
    } else if let Some(e) = word_at(v, i, "vw") {
        Some((Unit::Vw, e))
    } else if let Some(e) = word_at(v, i, "vmin") {
        Some((Unit::VMin, e))
    } else if let Some(e) = word_at(v, i, "vmax") {
        Some((Unit::VMax, e))
    } else {
        None
    }
}

fn name_end_x(v: &Vec<char>, i: usize) -> (r: Option<usize>)
    requires
        i <= v@.len(),
    ensures
        match r {
            Some(e) => name_end(v@, i as int) == Some(e as int) && i < e <= v@.len(),
            None => name_end(v@, i as int) is None,
        },
{
    if i < v.len() && is_name_start(v[i]) {
        Some(name_rest_end_x(v, i + 1))
    } else {
        None
    }
}

fn hex_rule_x(v: &Vec<char>, i: usize) -> (r: Parsed)
    requires
        i <= v@.len(),
    ensures
        parsed_is(r, hex_rule(v@, i as int)),
        r matches Parsed::Done(_, e) ==> e <= v@.len(),
        r matches Parsed::Done(x, _) ==> fresh_asset(x),
{
    if !char_at(v, i, '#') {
        return Parsed::Back;
    }
    let e = hex_end_x(v, i + 1);
    if e == i + 1 {
        return Parsed::Cut;
    }
    let n = e - (i + 1);
    let h = string_of(v, i + 1, e);
    let c = if n == 3 || n == 4 || n == 6 || n == 8 {
        match crate::values::decode_hex_color(h.as_str()) {
            Some(c) => c,
            None => (0, 0, 0, 0),
        }
    } else {
        (0, 0, 0, 0)
    };
    proof {
        let hs = v@.subrange(i + 1, e as int);
        if n == 3 || n == 4 || n == 6 || n == 8 {
            lemma_hex_run_is_color(v@, i + 1, e as int);
        }
    }
    Parsed::Done(UntypedExpr::Color(ColorValue::Hex(c.0, c.1, c.2, c.3)), e)
}

/// A run of three, four, six or eight hexadecimal digits reads as a color.
proof fn lemma_hex_run_is_color(s: Seq<char>, i: int, e: int)
    requires
        0 <= i <= e <= s.len(),
        e == hex_end(s, i, 8),
        e - i == 3 || e - i == 4 || e - i == 6 || e - i == 8,
    ensures
        hex_color(s.subrange(i, e)) is Some,
{
    lemma_hex_end_digits(s, i, 8);
    let h = s.subrange(i, e);
    assert(h.len() == 0 || h[0] != '#') by {
        if h.len() > 0 {
            assert(hex_value(s[i]) is Some);
        }
    }
    assert forall|k: int| 0 <= k < h.len() implies #[trigger] hex_value(h[k]) is Some by {
        assert(h[k] == s[i + k]);
    }
}

proof fn lemma_hex_end_digits(s: Seq<char>, i: int, n: int)
    requires
        0 <= i <= s.len(),
    ensures
        i <= hex_end(s, i, n) <= s.len(),
        forall|k: int| i <= k < hex_end(s, i, n) ==> #[trigger] hex_value(s[k]) is Some,
    decreases s.len() - i,
{
    if n > 0 && i < s.len() && hex_value(s[i]) is Some {
        lemma_hex_end_digits(s, i + 1, n - 1);
    }
}

fn length_rule_x(v: &Vec<char>, i: usize) -> (r: Parsed)
    requires
        i <= v@.len(),
    ensures
        parsed_is(r, length_rule(v@, i as int)),
        r matches Parsed::Done(_, e) ==> e <= v@.len(),
        r matches Parsed::Done(x, _) ==> fresh_asset(x),
{
    match number_end_x(v, i) {
        None => Parsed::Back,
        Some(n) => {
            let t = string_of(v, i, n);
            match unit_at_x(v, n) {
                None => Parsed::Done(UntypedExpr::Number(t), n),
                Some((u, m)) => {
                    assert(u != Unit::Auto);
                    Parsed::Done(UntypedExpr::Length(Val::from_parts(u, t)), m)
                },
            }
        },
    }
}

fn var_rule_x(v: &Vec<char>, i: usize) -> (r: Parsed)
    requires
        i <= v@.len(),
    ensures
        parsed_is(r, var_rule(v@, i as int)),
        r matches Parsed::Done(_, e) ==> e <= v@.len(),
        r matches Parsed::Done(x, _) ==> fresh_asset(x),
{
    match word_at(v, i, "var(--") {
        None => Parsed::Back,
        Some(j) => match name_end_x(v, j) {
            Some(k) => if char_at(v, k, ')') {
                Parsed::Done(UntypedExpr::Var(string_of(v, j, k)), k + 1)
            } else {
                Parsed::Back
            },
            None => Parsed::Back,
        },
    }
}

fn after_comma_x(v: &Vec<char>, i: usize) -> (r: usize)
    requires
        i <= v@.len(),
    ensures
        r == after_comma(v@, i as int),
        i <= r <= v@.len(),
{
    if char_at(v, i, ',') {
        space_end_x(v, i + 1)
    } else {
        i
    }
}

fn color_fn_at_x(v: &Vec<char>, i: usize) -> (r: Option<(bool, usize)>)
    requires
        i <= v@.len(),
    ensures
        match r {
            Some((b, e)) => color_fn_at(v@, i as int) == Some((b, e as int)) && e <= v@.len(),
            None => color_fn_at(v@, i as int) is None,
        },
{
    if let Some(e) = word_at(v, i, "rgba") {
        Some((true, e))
    } else if let Some(e) = word_at(v, i, "rgb") {
        Some((true, e))
    } else if let Some(e) = word_at(v, i, "hsla") {
        Some((false, e))
    } else if let Some(e) = word_at(v, i, "hsl") {
        Some((false, e))
    } else {
        None
    }
}

fn alpha_at_x(v: &Vec<char>, n3: usize) -> (r: Option<(String, usize)>)
    requires
        n3 <= v@.len(),
    ensures
        match r {
            Some((a, e)) => alpha_at(v@, n3 as int) == Some((a@, e as int)) && e <= v@.len(),
            None => alpha_at(v@, n3 as int) is None,
        },
{
    let t = space_end_x(v, n3);
    let t2 = if char_at(v, t, ',') || char_at(v, t, '/') {
        t + 1
    } else {
        t
    };
    let t3 = space_end_x(v, t2);
    match number_end_x(v, t3) {
        Some(e) => Some((string_of(v, t3, e), e)),
        None => None,
    }
}

fn color_fn_rule_x(v: &Vec<char>, i: usize) -> (r: Parsed)
    requires
        i <= v@.len(),
    ensures
        parsed_is(r, color_fn_rule(v@, i as int)),
        r matches Parsed::Done(_, e) ==> e <= v@.len(),
        r matches Parsed::Done(x, _) ==> fresh_asset(x),
{
    let (rgb, k) = match color_fn_at_x(v, i) {
        None => {
            return Parsed::Back;
        },
        Some(x) => x,
    };
    let p = space_end_x(v, k);
    if !char_at(v, p, '(') {
        return Parsed::Back;
    }
    let q = space_end_x(v, p + 1);
    let n1 = match number_end_x(v, q) {
        None => {
            return Parsed::Cut;
        },
        Some(n) => n,
    };
    let r1 = after_comma_x(v, space_end_x(v, n1));
    let n2 = match number_end_x(v, r1) {
        None => {
            return Parsed::Back;
        },
        Some(n) => n,
    };
    let t = after_comma_x(v, space_end_x(v, n2));
    let n3 = match number_end_x(v, t) {
        None => {
            return Parsed::Back;
        },
        Some(n) => n,
    };
    let (a, end) = match alpha_at_x(v, n3) {
        Some((a, e)) => (a, e),
        None => {
            let mut one = String::new();
            crate::text::push_char(&mut one, '1');
            assert(one@ == seq!['1']);
            (one, n3)
        },
    };
    let u = space_end_x(v, end);
    if !char_at(v, u, ')') {
        return Parsed::Back;
    }
    let x = string_of(v, q, n1);
    let y = string_of(v, r1, n2);
    let z = string_of(v, t, n3);
    let c = if rgb {
        ColorValue::Rgb(x, y, z, a)
    } else {
        ColorValue::Hsl(x, y, z, a)
    };
    Parsed::Done(UntypedExpr::Color(c), u + 1)
}

fn asset_rule_x(v: &Vec<char>, i: usize) -> (r: Parsed)
    requires
        i <= v@.len(),
    ensures
        parsed_is(r, asset_rule(v@, i as int)),
        r matches Parsed::Done(_, e) ==> e <= v@.len(),
        r matches Parsed::Done(x, _) ==> fresh_asset(x),
{
    match word_at(v, i, "asset") {
        None => Parsed::Back,
        Some(j) => {
            let k = space_end_x(v, j);
            if char_at(v, k, '(') {
                let e = close_paren_x(v, k + 1);
                if e < v.len() && e > k + 1 {
                    let path = string_of(v, k + 1, e);
                    Parsed::Done(UntypedExpr::Asset(AssetRef::new(path.as_str())), e + 1)
                } else {
                    Parsed::Back
                }
            } else {
                Parsed::Back
            }
        },
    }
}

fn ident_rule_x(v: &Vec<char>, i: usize) -> (r: Parsed)
    requires
        i <= v@.len(),
    ensures
        parsed_is(r, ident_rule(v@, i as int)),
        r matches Parsed::Done(_, e) ==> e <= v@.len(),
        r matches Parsed::Done(x, _) ==> fresh_asset(x),
{
    match name_end_x(v, i) {
        Some(k) => Parsed::Done(UntypedExpr::Ident(string_of(v, i, k)), k),
        None => Parsed::Back,
    }
}

fn expr_rule_x(v: &Vec<char>, i: usize) -> (r: Parsed)
    requires
        i <= v@.len(),
    ensures
        parsed_is(r, expr_rule(v@, i as int)),
        r matches Parsed::Done(_, e) ==> e <= v@.len(),
        r matches Parsed::Done(x, _) ==> fresh_asset(x),
{
    proof {
        reveal(expr_rule);
    }
    let a = hex_rule_x(v, i);
    if !matches!(a, Parsed::Back) {
        return a;
    }
    let b = length_rule_x(v, i);
    if !matches!(b, Parsed::Back) {
        return b;
    }
    let c = var_rule_x(v, i);
    if !matches!(c, Parsed::Back) {
        return c;
    }
    let d = color_fn_rule_x(v, i);
    if !matches!(d, Parsed::Back) {
        return d;
    }
    let e = asset_rule_x(v, i);
    if !matches!(e, Parsed::Back) {
        return e;
    }
    ident_rule_x(v, i)
}

impl UntypedExpr {
    /// Reads an expression from the whole text, with its surrounding
    /// whitespace trimmed. The error holds the text that was read.
    pub fn parse(input: &str) -> (r: Result<UntypedExpr, String>)
        ensures
            r matches Ok(x) ==> expr_parse(input@) == Some(x@) && fresh_asset(x),
            r matches Err(m) ==> expr_parse(input@) is None && m@ == input@,
    {
        let all = chars_of(input);
        let (a, b) = trim_bounds(&all);
        let v = crate::text::slice_chars(&all, a, b);
        match expr_rule_x(&v, 0) {
            Parsed::Done(x, n) => if n == v.len() {
                Ok(x)
            } else {
                Err(crate::values::copy_str(input))
            },
            _ => Err(crate::values::copy_str(input)),
        }
    }

    /// Resolves the path of an asset reference against `base`, the path of
    /// the asset that holds the expression; other expressions stay as they
    /// are.
    pub fn resolve_asset_paths(&mut self, base: &AssetPath)
        requires
            (*old(self)) is Asset ==> relative_path(base@, (*old(self))->Asset_0@.0) is Some,
        ensures
            (*old(self)) is Asset ==> (*final(self)) is Asset
                && (*final(self))->Asset_0@.0 == (*old(self))->Asset_0@.0
                && (*final(self))->Asset_0@.1 == relative_path(base@, (*old(self))->Asset_0@.0)->0,
            !((*old(self)) is Asset) ==> *final(self) == *old(self),
    {
        match self {
            UntypedExpr::Asset(a) => a.resolve_asset_path(base),
            _ => {},
        }
    }
}

/// The text of a color in a style sheet: opaque channels from hexadecimal
/// digits as `rgba(r, g, b, 1)` with the channels from 0 to 255, others as
/// `#rrggbbaa`; the functional forms as `rgba(..)` and `hsla(..)` with the
/// numbers they hold.
pub open spec fn color_value_text(c: ColorValueModel) -> Seq<char> {
    match c {
        ColorValueModel::Transparent => "transparent"@,
        ColorValueModel::Hex(r, g, b, a) => if a == 255 {
            color_form_text("rgba"@, int_text(r as int), int_text(g as int), int_text(b as int), "1"@)
        } else {
            hex_text(r, g, b, a)
        },
        ColorValueModel::Rgb(r, g, b, a) => color_form_text("rgba"@, r, g, b, a),
        ColorValueModel::Hsl(h, s, l, a) => color_form_text("hsla"@, h, s, l, a),
    }
}

/// The text of an expression.
pub open spec fn expr_text(x: ExprModel) -> Seq<char> {
    match x {
        ExprModel::Ident(n) => n,
        ExprModel::Number(t) => t,
        ExprModel::Length(l) => val_text(l),
        ExprModel::Color(c) => color_value_text(c),
        ExprModel::Asset(_) => Seq::empty(),
        ExprModel::Var(n) => "var(--"@ + n + ")"@,
    }
}

impl ColorValue {
    /// Whether nothing is drawn.
    pub fn is_transparent(&self) -> (r: bool)
        ensures
            r == (self@ is Transparent),
    {
        matches!(self, ColorValue::Transparent)
    }

    /// The color to draw with: transparent black where nothing is drawn.
    pub fn color(&self) -> (r: ColorValue)
        ensures
            self@ is Transparent ==> r@ == ColorValueModel::Hex(0, 0, 0, 0),
            !(self@ is Transparent) ==> r == *self,
    {
        match self {
            ColorValue::Transparent => ColorValue::Hex(0, 0, 0, 0),
            ColorValue::Hex(r, g, b, a) => ColorValue::Hex(*r, *g, *b, *a),
            ColorValue::Rgb(r, g, b, a) => ColorValue::Rgb(r.clone(), g.clone(), b.clone(), a.clone()),
            ColorValue::Hsl(h, s, l, a) => ColorValue::Hsl(h.clone(), s.clone(), l.clone(), a.clone()),
        }
    }

    /// The text of this color.
    pub fn to_text(&self) -> (r: String)
        ensures
            r@ == color_value_text(self@),
    {
        let mut out = String::new();
        match self {
            ColorValue::Transparent => push_str(&mut out, "transparent"),
            ColorValue::Hex(r, g, b, a) => if *a == 255 {
                let one = crate::values::copy_str("1");
                push_color_form(
                    &mut out,
                    "rgba",
                    &int_to_text(*r as i64),
                    &int_to_text(*g as i64),
                    &int_to_text(*b as i64),
                    &one,
                );
            } else {
                push_char(&mut out, '#');
                push_hex_byte(&mut out, *r);
                push_hex_byte(&mut out, *g);
                push_hex_byte(&mut out, *b);
                push_hex_byte(&mut out, *a);
            },
            ColorValue::Rgb(r, g, b, a) => push_color_form(&mut out, "rgba", r, g, b, a),
            ColorValue::Hsl(h, s, l, a) => push_color_form(&mut out, "hsla", h, s, l, a),
        }
        out
    }

    /// Reads a color as a style sheet's color value: `transparent`, then
    /// hexadecimal notation, `rgba(r, g, b, a)` or `hsla(h, s, l, a)`.
    pub fn parse(s: &str) -> (r: Result<ColorValue, GuiseError>)
        requires
            !(s@ != "transparent"@ && color_panics(s@)),
        ensures
            r matches Ok(c) ==> color_value_parse(s@) == Some(c@),
            r matches Err(e) ==> color_value_parse(s@) is None && invalid_value(e, s@),
    {
        if str_eq(s, "transparent") {
            return Ok(ColorValue::Transparent);
        }
        match parse_color(s) {
            Ok(ColorSpec::Rgba8(r, g, b, a)) => Ok(ColorValue::Hex(r, g, b, a)),
            Ok(ColorSpec::Rgba(r, g, b, a)) => Ok(ColorValue::Rgb(r, g, b, a)),
            Ok(ColorSpec::Hsla(h, s, l, a)) => Ok(ColorValue::Hsl(h, s, l, a)),
            Err(e) => Err(e),
        }
    }

    /// Reads a color as `parse` does, or gives `None` where a number of a
    /// functional form would not convert.
    pub fn parse_checked(s: &str) -> (r: Option<Result<ColorValue, GuiseError>>)
        ensures
            r is None <==> (s@ != "transparent"@ && color_panics(s@)),
            r matches Some(Ok(c)) ==> color_value_parse(s@) == Some(c@),
            r matches Some(Err(e)) ==> color_value_parse(s@) is None && invalid_value(e, s@),
    {
        if !str_eq(s, "transparent") && color_would_panic(s) {
            None
        } else {
            Some(ColorValue::parse(s))
        }
    }
}

/// What a style sheet's color value reads as.
pub open spec fn color_value_parse(s: Seq<char>) -> Option<ColorValueModel> {
    if s == "transparent"@ {
        Some(ColorValueModel::Transparent)
    } else {
        match color_parse(s) {
            Some(ColorModel::Rgba8(r, g, b, a)) => Some(ColorValueModel::Hex(r, g, b, a)),
            Some(ColorModel::Rgba(r, g, b, a)) => Some(ColorValueModel::Rgb(r, g, b, a)),
            Some(ColorModel::Hsla(h, s, l, a)) => Some(ColorValueModel::Hsl(h, s, l, a)),
            None => None,
        }
    }
}

impl UntypedExpr {
    /// The text of this expression. An asset reference has none.
    pub fn to_text(&self) -> (r: String)
        requires
            !(self@ is Asset),
        ensures
            r@ == expr_text(self@),
    {
        match self {
            UntypedExpr::Ident(n) => n.clone(),
            UntypedExpr::Number(t) => t.clone(),
            UntypedExpr::Length(l) => val_to_str(l),
            UntypedExpr::Color(c) => c.to_text(),
            UntypedExpr::Asset(_) => String::new(),
            UntypedExpr::Var(n) => {
                let mut out = String::new();
                push_str(&mut out, "var(--");
                push_str(&mut out, n.as_str());
                push_str(&mut out, ")");
                out
            },
        }
    }
}

/// What an expression gives where a length is wanted: a length; a number
/// as pixels; `auto`.
pub open spec fn expr_length(x: ExprModel) -> Option<(Unit, Seq<char>)> {
    match x {
        ExprModel::Length(l) => Some(l),
        ExprModel::Number(t) => Some((Unit::Px, t)),
        ExprModel::Ident(n) => if n == "auto"@ {
            Some((Unit::Auto, Seq::empty()))
        } else {
            None
        },
        _ => None,
    }
}

impl std::str::FromStr for UntypedExpr {
    type Err = String;

    fn from_str(input: &str) -> (r: Result<UntypedExpr, String>)
        ensures
            r matches Ok(x) ==> expr_parse(input@) == Some(x@) && fresh_asset(x),
            r matches Err(m) ==> expr_parse(input@) is None && m@ == input@,
    {
        UntypedExpr::parse(input)
    }
}

/// The length an untyped expression stands for: a length, a number of
/// pixels, or `auto`.
pub open spec fn length_of(x: UntypedExpr) -> Option<Val> {
    match x {
        UntypedExpr::Length(v) => Some(v),
        UntypedExpr::Number(t) => Some(Val::Px(t)),
        UntypedExpr::Ident(n) => if n@ == "auto"@ {
            Some(Val::Auto)
        } else {
            None
        },
        _ => None,
    }
}

/// The rectangle a list of expressions stands for, in CSS order: top, right,
/// bottom, left; a missing right or bottom side is the top, a missing left
/// side the right.
pub open spec fn rect_of(xs: Seq<UntypedExpr>) -> Option<UiRect> {
    if xs.len() == 0 {
        None
    } else {
        match length_of(xs[0]) {
            None => None,
            Some(top) => {
                let right = if xs.len() > 1 { length_of(xs[1]) } else { Some(top) };
                match right {
                    None => None,
                    Some(right) => {
                        let bottom = if xs.len() > 2 { length_of(xs[2]) } else { Some(top) };
                        match bottom {
                            None => None,
                            Some(bottom) => {
                                let left = if xs.len() > 3 { length_of(xs[3]) } else { Some(right) };
                                match left {
                                    None => None,
                                    Some(left) => Some(UiRect { left, right, top, bottom }),
                                }
                            },
                        }
                    },
                }
            },
        }
    }
}

impl Coerce<Val> for UntypedExpr {
    fn coerce(&self) -> (r: Option<Val>)
        ensures
            r == length_of(*self),
            match r {
                Some(v) => expr_length(self@) == Some(v@),
                None => expr_length(self@) is None,
            },
    {
        match self {
            UntypedExpr::Length(v) => Some(v.clone()),
            UntypedExpr::Number(t) => Some(Val::Px(t.clone())),
            UntypedExpr::Ident(n) => if str_eq(n.as_str(), "auto") {
                Some(Val::Auto)
            } else {
                None
            },
            _ => None,
        }
    }
}

impl Clone for ColorValue {
    fn clone(&self) -> (r: ColorValue)
        ensures
            r == *self,
    {
        match self {
            ColorValue::Transparent => ColorValue::Transparent,
            ColorValue::Hex(r, g, b, a) => ColorValue::Hex(*r, *g, *b, *a),
            ColorValue::Rgb(r, g, b, a) => ColorValue::Rgb(r.clone(), g.clone(), b.clone(), a.clone()),
            ColorValue::Hsl(h, s, l, a) => ColorValue::Hsl(h.clone(), s.clone(), l.clone(), a.clone()),
        }
    }
}

impl Clone for UntypedExpr {
    fn clone(&self) -> (r: UntypedExpr)
        ensures
            r@ == self@,
    {
        match self {
            UntypedExpr::Ident(n) => UntypedExpr::Ident(n.clone()),
            UntypedExpr::Number(t) => UntypedExpr::Number(t.clone()),
            UntypedExpr::Length(l) => UntypedExpr::Length(l.clone()),
            UntypedExpr::Color(c) => UntypedExpr::Color(c.clone()),
            UntypedExpr::Asset(a) => UntypedExpr::Asset(a.clone()),
            UntypedExpr::Var(n) => UntypedExpr::Var(n.clone()),
        }
    }
}

/// The expressions of a list after its first one, which ends at `e`: each
/// follows one or more spaces or tabs. The list stops before spaces that no
/// expression follows.
pub open spec fn list_rest(s: Seq<char>, e: int, acc: Seq<ExprModel>) -> Option<(Seq<ExprModel>, int)>
    decreases s.len() - e,
{
    let k = space_end(s, e);
    if k == e {
        Some((acc, e))
    } else {
        match expr_rule(s, k) {
            Outcome::Done(x, n) => if e < n <= s.len() {
                list_rest(s, n, acc.push(x))
            } else {
                Some((acc, e))
            },
            Outcome::Back => Some((acc, e)),
            Outcome::Cut => None,
        }
    }
}

/// What a text reads as as a list of expressions separated by spaces or
/// tabs, with its surrounding whitespace trimmed.
pub open spec fn list_parse(input: Seq<char>) -> Option<Seq<ExprModel>> {
    let t = trim(input);
    match expr_rule(t, 0) {
        Outcome::Done(x, n) => if 0 <= n <= t.len() {
            match list_rest(t, n, seq![x]) {
                Some((xs, e)) => if e == t.len() {
                    Some(xs)
                } else {
                    None
                },
                None => None,
            }
        } else {
            None
        },
        _ => None,
    }
}

pub open spec fn exprs_view(v: Seq<UntypedExpr>) -> Seq<ExprModel> {
    v.map_values(|x: UntypedExpr| x@)
}

/// A list of expressions
#[derive(Debug, PartialEq)]
pub struct ExprList(pub Vec<UntypedExpr>);

impl ExprList {
    pub fn len(&self) -> (r: usize)
        ensures
            r == self.0@.len(),
    {
        self.0.len()
    }

    pub fn from_exprs(exprs: &[UntypedExpr]) -> (r: ExprList)
        ensures
            exprs_view(r.0@) == exprs_view(exprs@),
    {
        let mut out: Vec<UntypedExpr> = Vec::new();
        let mut i: usize = 0;
        while i < exprs.len()
            invariant
                i <= exprs@.len(),
                exprs_view(out@) == exprs_view(exprs@.take(i as int)),
            decreases exprs@.len() - i,
        {
            let x = exprs[i].clone();
            let ghost before = out@;
            out.push(x);
            assert(exprs_view(out@) =~= exprs_view(before).push(x@));
            assert(exprs@.take(i + 1) == exprs@.take(i as int).push(exprs@[i as int]));
            assert(exprs_view(exprs@.take(i + 1)) =~= exprs_view(exprs@.take(i as int)).push(
                exprs@[i as int]@,
            ));
            i = i + 1;
        }
        assert(exprs@.take(exprs@.len() as int) == exprs@);
        ExprList(out)
    }

    /// Reads a list of expressions separated by spaces or tabs. The error
    /// holds the text that was read.
    pub fn parse(input: &str) -> (r: Result<ExprList, String>)
        ensures
            r matches Ok(l) ==> list_parse(input@) == Some(exprs_view(l.0@)),
            r matches Err(m) ==> list_parse(input@) is None && m@ == input@,
    {
        let all = chars_of(input);
        let (a, b) = trim_bounds(&all);
        let v = crate::text::slice_chars(&all, a, b);
        let (first, n) = match expr_rule_x(&v, 0) {
            Parsed::Done(x, n) => (x, n),
            _ => {
                return Err(crate::values::copy_str(input));
            },
        };
        let ghost first_v = first@;
        let mut out: Vec<UntypedExpr> = Vec::new();
        out.push(first);
        let mut e = n;
        assert(exprs_view(out@) =~= seq![first_v]);
        loop
            invariant
                n <= e <= v@.len(),
                v@ == trim(input@),
                expr_rule(v@, 0) == Outcome::Done(first_v, n as int),
                list_rest(v@, n as int, seq![first_v]) == list_rest(v@, e as int, exprs_view(out@)),
            ensures
                n <= e <= v@.len(),
                list_rest(v@, n as int, seq![first_v]) == Some((exprs_view(out@), e as int)),
            decreases v@.len() - e,
        {
            let k = space_end_x(&v, e);
            if k == e {
                break;
            }
            match expr_rule_x(&v, k) {
                Parsed::Done(x, m) => {
                    if m <= e {
                        break;
                    }
                    let ghost before = out@;
                    out.push(x);
                    assert(exprs_view(out@) =~= exprs_view(before).push(x@));
                    e = m;
                },
                Parsed::Back => {
                    break;
                },
                Parsed::Cut => {
                    assert(list_rest(v@, e as int, exprs_view(out@)) is None);
                    assert(v@ == trim(input@));
                    return Err(crate::values::copy_str(input));
                },
            }
        }
        if e == v.len() {
            Ok(ExprList(out))
        } else {
            Err(crate::values::copy_str(input))
        }
    }
}

/// The rectangle that a list of one to four expressions gives where a
/// rectangle of lengths is wanted, in CSS order (top, right, bottom, left).
pub open spec fn list_rect(xs: Seq<ExprModel>) -> Option<
    ((Unit, Seq<char>), (Unit, Seq<char>), (Unit, Seq<char>), (Unit, Seq<char>)),
> {
    if xs.len() == 0 {
        None
    } else {
        match expr_length(xs[0]) {
            None => None,
            Some(top) => {
                let right = if xs.len() > 1 {
                    expr_length(xs[1])
                } else {
                    Some(top)
                };
                match right {
                    None => None,
                    Some(right) => {
                        let bottom = if xs.len() > 2 {
                            expr_length(xs[2])
                        } else {
                            Some(top)
                        };
                        match bottom {
                            None => None,
                            Some(bottom) => {
                                let left = if xs.len() > 3 {
                                    expr_length(xs[3])
                                } else {
                                    Some(right)
                                };
                                match left {
                                    None => None,
                                    Some(left) => Some((left, right, top, bottom)),
                                }
                            },
                        }
                    },
                }
            },
        }
    }
}

impl Coerce<UiRect> for ExprList {
    fn coerce(&self) -> (r: Option<UiRect>)
        ensures
            r == rect_of(self.0@),
            match r {
                Some(u) => list_rect(exprs_view(self.0@)) == Some(u@),
                None => list_rect(exprs_view(self.0@)) is None,
            },
    {
        let n = self.0.len();
        if n == 0 {
            return None;
        }
        let ghost xs = exprs_view(self.0@);
        assert(xs[0] == self.0@[0]@);
        let top: Val = match self.0[0].coerce() {
            Some(v) => v,
            None => {
                return None;
            },
        };
        let right: Val = if n > 1 {
            assert(xs[1] == self.0@[1]@);
            match self.0[1].coerce() {
                Some(v) => v,
                None => {
                    return None;
                },
            }
        } else {
            top.clone()
        };
        let bottom: Val = if n > 2 {
            assert(xs[2] == self.0@[2]@);
            match self.0[2].coerce() {
                Some(v) => v,
                None => {
                    return None;
                },
            }
        } else {
            top.clone()
        };
        let left: Val = if n > 3 {
            assert(xs[3] == self.0@[3]@);
            match self.0[3].coerce() {
                Some(v) => v,
                None => {
                    return None;
                },
            }
        } else {
            right.clone()
        };
        Some(UiRect::new(left, right, top, bottom))
    }
}

} // verus!
