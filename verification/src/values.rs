//! Attribute values with units: lengths, rectangles of lengths, colors and
//! grid placements, read from their CSS-like text.
//!
//! Numbers are kept as the text that was read (a float as `f32::from_str`
//! accepts it); turning them into floats is left to the renderer.
use vstd::prelude::*;
use crate::error::GuiseError;
use crate::keywords::str_eq;
use crate::number::{float_text, is_float_text, parse_i16, parse_i16_spec, parse_u16, parse_u16_spec};
use crate::pattern::{
    captures, captures_view, lemma_patterns_distinct, is_unit, regex_captures, GRID_END_PATTERN, GRID_SPAN_PATTERN,
    HSLA_PATTERN, RGBA_PATTERN, VAL_PATTERN,
};
use crate::text::{chars_of, push_char, push_str, split_words, string_of, words};

verus! {

/// A copy of `s`.
pub fn copy_str(s: &str) -> (r: String)
    ensures
        r@ == s@,
{
    let v = chars_of(s);
    assert(v@.subrange(0, v@.len() as int) == v@);
    string_of(&v, 0, v.len())
}

/// The unit of a length.
#[derive(Debug, Clone, Copy, PartialEq, Eq, Structural)]
pub enum Unit {
    Auto,
    Px,
    Percent,
    Vw,
    Vh,
    VMin,
    VMax,
}

/// A length: `auto`, or a number (its text) with a unit.
#[derive(Debug, PartialEq)]
pub enum Val {
    Auto,
    Px(String),
    Percent(String),
    Vw(String),
    Vh(String),
    VMin(String),
    VMax(String),
}

impl View for Val {
    type V = (Unit, Seq<char>);

    open spec fn view(&self) -> (Unit, Seq<char>) {
        match self {
            Val::Auto => (Unit::Auto, Seq::empty()),
            Val::Px(n) => (Unit::Px, n@),
            Val::Percent(n) => (Unit::Percent, n@),
            Val::Vw(n) => (Unit::Vw, n@),
            Val::Vh(n) => (Unit::Vh, n@),
            Val::VMin(n) => (Unit::VMin, n@),
            Val::VMax(n) => (Unit::VMax, n@),
        }
    }
}

impl Clone for Val {
    fn clone(&self) -> (r: Val)
        ensures
            r == *self,
    {
        match self {
            Val::Auto => Val::Auto,
            Val::Px(n) => Val::Px(n.clone()),
            Val::Percent(n) => Val::Percent(n.clone()),
            Val::Vw(n) => Val::Vw(n.clone()),
            Val::Vh(n) => Val::Vh(n.clone()),
            Val::VMin(n) => Val::VMin(n.clone()),
            Val::VMax(n) => Val::VMax(n.clone()),
        }
    }
}

impl Val {
    /// The length with this unit and number text.
    pub fn from_parts(unit: Unit, num: String) -> (r: Val)
        ensures
            unit != Unit::Auto ==> r@ == (unit, num@),
            unit == Unit::Auto ==> r@ == (Unit::Auto, Seq::<char>::empty()),
    {
        match unit {
            Unit::Auto => Val::Auto,
            Unit::Px => Val::Px(num),
            Unit::Percent => Val::Percent(num),
            Unit::Vw => Val::Vw(num),
            Unit::Vh => Val::Vh(num),
            Unit::VMin => Val::VMin(num),
            Unit::VMax => Val::VMax(num),
        }
    }
}

/// The unit that a unit suffix names; a missing suffix means pixels.
pub open spec fn unit_of(u: Option<Seq<char>>) -> Unit {
    match u {
        None => Unit::Px,
        Some(t) => if t == seq!['%'] {
            Unit::Percent
        } else if t == seq!['v', 'w'] {
            Unit::Vw
        } else if t == seq!['v', 'h'] {
            Unit::Vh
        } else if t == seq!['v', 'm', 'i', 'n'] {
            Unit::VMin
        } else if t == seq!['v', 'm', 'a', 'x'] {
            Unit::VMax
        } else {
            Unit::Px
        },
    }
}

/// What a length's text reads as: `auto`, or the number and unit that
/// `VAL_PATTERN` finds. None where the text is no length.
pub open spec fn val_parse(s: Seq<char>) -> Option<(Unit, Seq<char>)> {
    if s == "auto"@ {
        Some((Unit::Auto, Seq::empty()))
    } else {
        match regex_captures(VAL_PATTERN@, s) {
            None => None,
            Some(c) => Some(val_of_groups(c)),
        }
    }
}

/// The length that a match of `VAL_PATTERN` reads as: the number of group 1
/// with the unit of group 2 (pixels where group 2 took no part).
pub open spec fn val_of_groups(c: Seq<Option<Seq<char>>>) -> (Unit, Seq<char>) {
    (unit_of(c[2]), c[1]->0)
}

/// A match of `VAL_PATTERN` as its captures give it: three entries, the
/// number group taking part, the unit group holding a unit where it does.
pub open spec fn val_groups_ok(c: Seq<Option<Seq<char>>>) -> bool {
    &&& c.len() == 3
    &&& c[1] is Some
    &&& c[2] matches Some(u) ==> is_unit(u)
}

/// Reading the length fails to convert the number it found into a float.
pub open spec fn val_panics(s: Seq<char>) -> bool {
    s != "auto"@ && (regex_captures(VAL_PATTERN@, s) matches Some(c) && !float_text(c[1]->0))
}

pub open spec fn invalid_value(e: GuiseError, s: Seq<char>) -> bool {
    e matches GuiseError::InvalidAttributeValue(m) && m@ == s
}

proof fn lemma_unit_literals()
    ensures
        "px"@ == seq!['p', 'x'],
        "%"@ == seq!['%'],
        "vw"@ == seq!['v', 'w'],
        "vh"@ == seq!['v', 'h'],
        "vmin"@ == seq!['v', 'm', 'i', 'n'],
        "vmax"@ == seq!['v', 'm', 'a', 'x'],
{
    reveal_strlit("px");
    reveal_strlit("%");
    reveal_strlit("vw");
    reveal_strlit("vh");
    reveal_strlit("vmin");
    reveal_strlit("vmax");
    assert("px"@ =~= seq!['p', 'x']);
    assert("%"@ =~= seq!['%']);
    assert("vw"@ =~= seq!['v', 'w']);
    assert("vh"@ =~= seq!['v', 'h']);
    assert("vmin"@ =~= seq!['v', 'm', 'i', 'n']);
    assert("vmax"@ =~= seq!['v', 'm', 'a', 'x']);
}

fn unit_from(u: &Option<String>) -> (r: Unit)
    requires
        u matches Some(t) ==> is_unit(t@),
    ensures
        r == unit_of(
            match u {
                Some(t) => Some(t@),
                None => None,
            },
        ),
{
    proof {
        lemma_unit_literals();
    }
    match u {
        None => Unit::Px,
        Some(t) => {
            let t = t.as_str();
            if str_eq(t, "%") {
                Unit::Percent
            } else if str_eq(t, "vw") {
                Unit::Vw
            } else if str_eq(t, "vh") {
                Unit::Vh
            } else if str_eq(t, "vmin") {
                Unit::VMin
            } else if str_eq(t, "vmax") {
                Unit::VMax
            } else {
                Unit::Px
            }
        },
    }
}

/// The length that a match of `VAL_PATTERN` reads as.
pub fn val_from_captures(c: &Vec<Option<String>>) -> (r: Val)
    requires
        val_groups_ok(captures_view(Some(*c))->0),
    ensures
        r@ == val_of_groups(captures_view(Some(*c))->0),
{
    let ghost cv = captures_view(Some(*c))->0;
    proof {
        assert(cv[1] == (match c@[1] {
            Some(t) => Some(t@),
            None => None,
        }));
        assert(cv[2] == (match c@[2] {
            Some(t) => Some(t@),
            None => None,
        }));
    }
    let unit = unit_from(&c[2]);
    let num = match &c[1] {
        Some(n) => n.clone(),
        None => String::new(),
    };
    proof {
        assert(unit != Unit::Auto);
    }
    Val::from_parts(unit, num)
}

/// Whether reading the length `s` would fail to convert its number.
pub fn val_would_panic(s: &str) -> (r: bool)
    ensures
        r == val_panics(s@),
{
    if str_eq(s, "auto") {
        return false;
    }
    match captures(VAL_PATTERN, s) {
        None => false,
        Some(c) => {
            proof {
                assert(captures_view(Some(c)).unwrap()[1] == Some(c@[1]->0@));
            }
            match &c[1] {
                Some(n) => !is_float_text(n.as_str()),
                None => false,
            }
        },
    }
}

/// Reads a length: `auto`, or a number with an optional unit (`px`, `%`,
/// `vw`, `vh`, `vmin`, `vmax`; pixels where there is none).
pub fn parse_val(s: &str) -> (r: Result<Val, GuiseError>)
    requires
        !val_panics(s@),
    ensures
        r matches Ok(v) ==> val_parse(s@) == Some(v@),
        r matches Err(e) ==> val_parse(s@) is None && invalid_value(e, s@),
{
    if str_eq(s, "auto") {
        return Ok(Val::Auto);
    }
    match captures(VAL_PATTERN, s) {
        None => Err(GuiseError::InvalidAttributeValue(copy_str(s))),
        Some(c) => {
            proof {
                lemma_patterns_distinct();
                let cv = captures_view(Some(c))->0;
                assert(cv.len() == c@.len());
                assert(cv[1] == (match c@[1] {
                    Some(t) => Some(t@),
                    None => None,
                }));
                assert(cv[2] == (match c@[2] {
                    Some(t) => Some(t@),
                    None => None,
                }));
            }
            Ok(val_from_captures(&c))
        },
    }
}

/// A rectangle of lengths, one per side.
#[derive(Debug, PartialEq)]
pub struct UiRect {
    pub left: Val,
    pub right: Val,
    pub top: Val,
    pub bottom: Val,
}

impl View for UiRect {
    type V = ((Unit, Seq<char>), (Unit, Seq<char>), (Unit, Seq<char>), (Unit, Seq<char>));

    /// The sides in the order left, right, top, bottom.
    open spec fn view(&self) -> Self::V {
        (self.left@, self.right@, self.top@, self.bottom@)
    }
}

impl Clone for UiRect {
    fn clone(&self) -> (r: UiRect)
        ensures
            r == *self,
    {
        UiRect {
            left: self.left.clone(),
            right: self.right.clone(),
            top: self.top.clone(),
            bottom: self.bottom.clone(),
        }
    }
}

impl UiRect {
    /// The rectangle with these sides.
    pub fn new(left: Val, right: Val, top: Val, bottom: Val) -> (r: UiRect)
        ensures
            r == (UiRect { left, right, top, bottom }),
    {
        UiRect { left, right, top, bottom }
    }
}

/// What the text of a rectangle reads as: its words are the lengths of the
/// top, right, bottom and left sides, in CSS order; a missing right side is
/// the top, a missing bottom the top, a missing left the right. The error
/// holds the text that the error names: the first word that is no length,
/// or the whole text where there is no word or more than four.
pub open spec fn rect_parse(s: Seq<char>) -> Result<
    ((Unit, Seq<char>), (Unit, Seq<char>), (Unit, Seq<char>), (Unit, Seq<char>)),
    Seq<char>,
> {
    let w = words(s);
    if w.len() == 0 {
        Err(s)
    } else {
        match val_parse(w[0]) {
            None => Err(w[0]),
            Some(top) => {
                let right = if w.len() > 1 {
                    val_parse(w[1])
                } else {
                    Some(top)
                };
                match right {
                    None => Err(w[1]),
                    Some(right) => {
                        let bottom = if w.len() > 2 {
                            val_parse(w[2])
                        } else {
                            Some(top)
                        };
                        match bottom {
                            None => Err(w[2]),
                            Some(bottom) => {
                                let left = if w.len() > 3 {
                                    val_parse(w[3])
                                } else {
                                    Some(right)
                                };
                                match left {
                                    None => Err(w[3]),
                                    Some(left) => if w.len() > 4 {
                                        Err(s)
                                    } else {
                                        Ok((left, right, top, bottom))
                                    },
                                }
                            },
                        }
                    },
                }
            },
        }
    }
}

/// Reading the rectangle reaches a length whose number does not convert.
pub open spec fn rect_panics(s: Seq<char>) -> bool {
    let w = words(s);
    ||| w.len() > 0 && val_panics(w[0])
    ||| w.len() > 1 && val_parse(w[0]) is Some && val_panics(w[1])
    ||| w.len() > 2 && val_parse(w[0]) is Some && val_parse(w[1]) is Some && val_panics(w[2])
    ||| w.len() > 3 && val_parse(w[0]) is Some && val_parse(w[1]) is Some && val_parse(w[2]) is Some
        && val_panics(w[3])
}

/// Whether reading the rectangle `s` would fail to convert a number.
pub fn rect_would_panic(s: &str) -> (r: bool)
    ensures
        r == rect_panics(s@),
{
    let w = split_words(s);
    let ghost ws = w@.map_values(|x: String| x@);
    assert(ws == words(s@));
    let n = w.len();
    let mut i: usize = 0;
    while i < n && i < 4
        invariant
            ws == w@.map_values(|x: String| x@),
            ws == words(s@),
            n == w@.len(),
            i <= n,
            i <= 4,
            forall|j: int| 0 <= j < i ==> val_parse(#[trigger] ws[j]) is Some && !val_panics(ws[j]),
        decreases 4 - i,
    {
        assert(ws[i as int] == w@[i as int]@);
        if val_would_panic(w[i].as_str()) {
            return true;
        }
        if parse_val(w[i].as_str()).is_err() {
            return false;
        }
        i = i + 1;
    }
    false
}

/// Reads a rectangle from its CSS-like text: one to four lengths separated
/// by whitespace, in the order top, right, bottom, left.
pub fn parse_uirect(s: &str) -> (r: Result<UiRect, GuiseError>)
    requires
        !rect_panics(s@),
    ensures
        r matches Ok(v) ==> rect_parse(s@) == Ok::<_, Seq<char>>(v@),
        r matches Err(e) ==> rect_parse(s@) matches Err(t) && invalid_value(e, t),
{
    let w = split_words(s);
    let ghost ws = w@.map_values(|x: String| x@);
    assert(ws == words(s@));
    if w.len() == 0 {
        return Err(GuiseError::InvalidAttributeValue(copy_str(s)));
    }
    assert(ws[0] == w@[0]@);
    let top = parse_val(w[0].as_str())?;
    let right = if w.len() > 1 {
        assert(ws[1] == w@[1]@);
        parse_val(w[1].as_str())?
    } else {
        top.clone()
    };
    let bottom = if w.len() > 2 {
        assert(ws[2] == w@[2]@);
        parse_val(w[2].as_str())?
    } else {
        top.clone()
    };
    let left = if w.len() > 3 {
        assert(ws[3] == w@[3]@);
        parse_val(w[3].as_str())?
    } else {
        right.clone()
    };
    if w.len() > 4 {
        Err(GuiseError::InvalidAttributeValue(copy_str(s)))
    } else {
        Ok(UiRect::new(left, right, top, bottom))
    }
}

/// The value of a hexadecimal digit.
pub open spec fn hex_value(c: char) -> Option<int> {
    if '0' <= c && c <= '9' {
        Some(c as int - '0' as int)
    } else if 'a' <= c && c <= 'f' {
        Some(c as int - 'a' as int + 10)
    } else if 'A' <= c && c <= 'F' {
        Some(c as int - 'A' as int + 10)
    } else {
        None
    }
}

pub open spec fn hex_digits(h: Seq<char>) -> bool {
    forall|i: int| 0 <= i < h.len() ==> #[trigger] hex_value(h[i]) is Some
}

/// The channel that the digits `a` and `b` write.
pub open spec fn hex_pair(a: char, b: char) -> u8 {
    (hex_value(a)->0 * 16 + hex_value(b)->0) as u8
}

/// A color in hexadecimal notation: an optional `#`, then three, four, six
/// or eight hexadecimal digits (`rgb`, `rgba`, `rrggbb`, `rrggbbaa`), as
/// `Color::hex` reads it; the alpha channel is opaque where it is missing.
pub open spec fn hex_color(s: Seq<char>) -> Option<(u8, u8, u8, u8)> {
    let h = if s.len() > 0 && s[0] == '#' {
        s.drop_first()
    } else {
        s
    };
    if !hex_digits(h) {
        None
    } else if h.len() == 3 {
        Some((hex_pair(h[0], h[0]), hex_pair(h[1], h[1]), hex_pair(h[2], h[2]), 255))
    } else if h.len() == 4 {
        Some((hex_pair(h[0], h[0]), hex_pair(h[1], h[1]), hex_pair(h[2], h[2]), hex_pair(h[3], h[3])))
    } else if h.len() == 6 {
        Some((hex_pair(h[0], h[1]), hex_pair(h[2], h[3]), hex_pair(h[4], h[5]), 255))
    } else if h.len() == 8 {
        Some((hex_pair(h[0], h[1]), hex_pair(h[2], h[3]), hex_pair(h[4], h[5]), hex_pair(h[6], h[7])))
    } else {
        None
    }
}

fn hex_digit(c: char) -> (r: Option<u8>)
    ensures
        r matches Some(d) ==> hex_value(c) == Some(d as int) && d < 16,
        r is None ==> hex_value(c) is None,
{
    if '0' <= c && c <= '9' {
        Some(((c as u32) - ('0' as u32)) as u8)
    } else if 'a' <= c && c <= 'f' {
        Some(((c as u32) - ('a' as u32) + 10) as u8)
    } else if 'A' <= c && c <= 'F' {
        Some(((c as u32) - ('A' as u32) + 10) as u8)
    } else {
        None
    }
}

fn pair(a: u8, b: u8) -> (r: u8)
    requires
        a < 16,
        b < 16,
    ensures
        r == a * 16 + b,
{
    a * 16 + b
}

/// Reads a color in hexadecimal notation.
pub fn decode_hex_color(s: &str) -> (r: Option<(u8, u8, u8, u8)>)
    ensures
        r == hex_color(s@),
{
    let v = chars_of(s);
    let from: usize = if v.len() > 0 && v[0] == '#' {
        1
    } else {
        0
    };
    let ghost h = if s@.len() > 0 && s@[0] == '#' {
        s@.drop_first()
    } else {
        s@
    };
    assert(h == v@.skip(from as int));
    let mut d: Vec<u8> = Vec::new();
    let mut i = from;
    while i < v.len()
        invariant
            v@ == s@,
            h == v@.skip(from as int),
            h == (if s@.len() > 0 && s@[0] == '#' {
                s@.drop_first()
            } else {
                s@
            }),
            from <= i <= v@.len(),
            d@.len() == i - from,
            forall|k: int| 0 <= k < d@.len() ==> #[trigger] d@[k] < 16 && hex_value(h[k]) == Some(
                d@[k] as int,
            ),
        decreases v@.len() - i,
    {
        match hex_digit(v[i]) {
            Some(x) => {
                d.push(x);
            },
            None => {
                assert(h[i - from] == v@[i as int]);
                assert(hex_value(h[i - from]) is None);
                assert(!hex_digits(h));
                return None;
            },
        }
        i = i + 1;
    }
    assert(hex_digits(h)) by {
        assert forall|k: int| 0 <= k < h.len() implies #[trigger] hex_value(h[k]) is Some by {
            assert(d@[k] < 16);
        }
    }
    let n = d.len();
    if n == 3 {
        assert(d@[0] < 16 && d@[1] < 16 && d@[2] < 16);
        Some((pair(d[0], d[0]), pair(d[1], d[1]), pair(d[2], d[2]), 255))
    } else if n == 4 {
        assert(d@[0] < 16 && d@[1] < 16 && d@[2] < 16 && d@[3] < 16);
        Some((pair(d[0], d[0]), pair(d[1], d[1]), pair(d[2], d[2]), pair(d[3], d[3])))
    } else if n == 6 {
        assert(d@[0] < 16 && d@[1] < 16 && d@[2] < 16 && d@[3] < 16 && d@[4] < 16 && d@[5] < 16);
        Some((pair(d[0], d[1]), pair(d[2], d[3]), pair(d[4], d[5]), 255))
    } else if n == 8 {
        assert(d@[0] < 16 && d@[1] < 16 && d@[2] < 16 && d@[3] < 16 && d@[4] < 16 && d@[5] < 16
            && d@[6] < 16 && d@[7] < 16);
        Some((pair(d[0], d[1]), pair(d[2], d[3]), pair(d[4], d[5]), pair(d[6], d[7])))
    } else {
        None
    }
}

/// A color: four channels read from hexadecimal digits, or the numbers (their
/// text) of an `rgba(..)` or `hsla(..)` form.
#[derive(Debug, PartialEq)]
pub enum ColorSpec {
    Rgba8(u8, u8, u8, u8),
    Rgba(String, String, String, String),
    Hsla(String, String, String, String),
}

/// What a color holds, with its numbers as text.
pub enum ColorModel {
    Rgba8(u8, u8, u8, u8),
    Rgba(Seq<char>, Seq<char>, Seq<char>, Seq<char>),
    Hsla(Seq<char>, Seq<char>, Seq<char>, Seq<char>),
}

impl View for ColorSpec {
    type V = ColorModel;

    open spec fn view(&self) -> ColorModel {
        match self {
            ColorSpec::Rgba8(r, g, b, a) => ColorModel::Rgba8(*r, *g, *b, *a),
            ColorSpec::Rgba(r, g, b, a) => ColorModel::Rgba(r@, g@, b@, a@),
            ColorSpec::Hsla(h, s, l, a) => ColorModel::Hsla(h@, s@, l@, a@),
        }
    }
}

impl Clone for ColorSpec {
    fn clone(&self) -> (r: ColorSpec)
        ensures
            r == *self,
    {
        match self {
            ColorSpec::Rgba8(r, g, b, a) => ColorSpec::Rgba8(*r, *g, *b, *a),
            ColorSpec::Rgba(r, g, b, a) => ColorSpec::Rgba(r.clone(), g.clone(), b.clone(), a.clone()),
            ColorSpec::Hsla(h, s, l, a) => ColorSpec::Hsla(h.clone(), s.clone(), l.clone(), a.clone()),
        }
    }
}

/// The text of group `i` of a match.
pub open spec fn group(c: Seq<Option<Seq<char>>>, i: int) -> Seq<char> {
    c[i]->0
}

/// The four numbers of a color form all convert to floats.
pub open spec fn color_numbers_ok(c: Seq<Option<Seq<char>>>) -> bool {
    float_text(group(c, 1)) && float_text(group(c, 2)) && float_text(group(c, 3)) && float_text(
        group(c, 4),
    )
}

/// What a color's text reads as: hexadecimal notation first, then
/// `rgba(r, g, b, a)`, then `hsla(h, s, l, a)`.
pub open spec fn color_parse(s: Seq<char>) -> Option<ColorModel> {
    match hex_color(s) {
        Some((r, g, b, a)) => Some(ColorModel::Rgba8(r, g, b, a)),
        None => color_of_captures(regex_captures(RGBA_PATTERN@, s), regex_captures(HSLA_PATTERN@, s)),
    }
}

/// The color that the matches of `RGBA_PATTERN` and `HSLA_PATTERN` read as:
/// the `rgba` form where it matched, else the `hsla` form, each with the
/// four numbers of its groups.
pub open spec fn color_of_captures(
    rgba: Option<Seq<Option<Seq<char>>>>,
    hsla: Option<Seq<Option<Seq<char>>>>,
) -> Option<ColorModel> {
    match rgba {
        Some(c) => Some(ColorModel::Rgba(group(c, 1), group(c, 2), group(c, 3), group(c, 4))),
        None => match hsla {
            Some(c) => Some(ColorModel::Hsla(group(c, 1), group(c, 2), group(c, 3), group(c, 4))),
            None => None,
        },
    }
}

/// A match of a color form as its captures give it: five entries, all of
/// them taking part.
pub open spec fn color_groups_ok(c: Option<Seq<Option<Seq<char>>>>) -> bool {
    c matches Some(g) ==> g.len() == 5 && forall|i: int| 0 <= i < 5 ==> #[trigger] g[i] is Some
}

/// Reading the color finds a functional form whose numbers do not convert.
pub open spec fn color_panics(s: Seq<char>) -> bool {
    hex_color(s) is None && ((regex_captures(RGBA_PATTERN@, s) matches Some(c)
        && !color_numbers_ok(c)) || (regex_captures(HSLA_PATTERN@, s) matches Some(c)
        && !color_numbers_ok(c)))
}

/// The text of capture group `i`; the empty text where it took no part.
fn group_text(c: &Vec<Option<String>>, i: usize) -> (r: String)
    requires
        i < c@.len(),
    ensures
        c@[i as int] matches Some(t) ==> r@ == t@,
{
    match &c[i] {
        Some(t) => t.clone(),
        None => String::new(),
    }
}

/// Whether the four numbers of a color form all convert.
fn numbers_ok(c: &Vec<Option<String>>) -> (r: bool)
    requires
        c@.len() == 5,
        forall|i: int| 0 <= i < 5 ==> #[trigger] c@[i] is Some,
    ensures
        r == color_numbers_ok(captures_view(Some(*c))->0),
{
    let ghost cv = captures_view(Some(*c))->0;
    assert(forall|i: int| 0 <= i < 5 ==> group(cv, i) == (#[trigger] c@[i])->0@);
    let a = group_text(c, 1);
    let b = group_text(c, 2);
    let d = group_text(c, 3);
    let e = group_text(c, 4);
    is_float_text(a.as_str()) && is_float_text(b.as_str()) && is_float_text(d.as_str())
        && is_float_text(e.as_str())
}

/// Whether reading the color `s` would fail to convert a number.
pub fn color_would_panic(s: &str) -> (r: bool)
    ensures
        r == color_panics(s@),
{
    proof {
        lemma_patterns_distinct();
    }
    if decode_hex_color(s).is_some() {
        return false;
    }
    let bad_rgba = match captures(RGBA_PATTERN, s) {
        Some(c) => !numbers_ok(&c),
        None => false,
    };
    let bad_hsla = match captures(HSLA_PATTERN, s) {
        Some(c) => !numbers_ok(&c),
        None => false,
    };
    bad_rgba || bad_hsla
}

/// The color that the matches of the `rgba` and `hsla` forms read as.
pub fn color_from_captures(
    rgba: &Option<Vec<Option<String>>>,
    hsla: &Option<Vec<Option<String>>>,
) -> (r: Option<ColorSpec>)
    requires
        color_groups_ok(captures_view(*rgba)),
        color_groups_ok(captures_view(*hsla)),
    ensures
        r matches Some(c) ==> color_of_captures(captures_view(*rgba), captures_view(*hsla)) == Some(c@),
        r is None ==> color_of_captures(captures_view(*rgba), captures_view(*hsla)) is None,
{
    match rgba {
        Some(c) => {
            let ghost cv = captures_view(Some(*c))->0;
            assert(cv.len() == c@.len());
            assert(forall|i: int| 0 <= i < 5 ==> group(cv, i) == (#[trigger] c@[i])->0@);
            Some(
                ColorSpec::Rgba(
                    group_text(c, 1),
                    group_text(c, 2),
                    group_text(c, 3),
                    group_text(c, 4),
                ),
            )
        },
        None => match hsla {
            Some(c) => {
                let ghost cv = captures_view(Some(*c))->0;
                assert(cv.len() == c@.len());
                assert(forall|i: int| 0 <= i < 5 ==> group(cv, i) == (#[trigger] c@[i])->0@);
                Some(
                    ColorSpec::Hsla(
                        group_text(c, 1),
                        group_text(c, 2),
                        group_text(c, 3),
                        group_text(c, 4),
                    ),
                )
            },
            None => None,
        },
    }
}

/// Reads a color: hexadecimal notation, `rgba(r, g, b, a)` or
/// `hsla(h, s, l, a)`.
pub fn parse_color(s: &str) -> (r: Result<ColorSpec, GuiseError>)
    requires
        !color_panics(s@),
    ensures
        r matches Ok(c) ==> color_parse(s@) == Some(c@),
        r matches Err(e) ==> color_parse(s@) is None && invalid_value(e, s@),
{
    proof {
        lemma_patterns_distinct();
    }
    if let Some((r, g, b, a)) = decode_hex_color(s) {
        return Ok(ColorSpec::Rgba8(r, g, b, a));
    }
    let rgba = captures(RGBA_PATTERN, s);
    let hsla = captures(HSLA_PATTERN, s);
    proof {
        assert(color_groups_ok(captures_view(rgba))) by {
            if let Some(c) = rgba {
                assert(forall|i: int| 0 <= i < 5 ==> (#[trigger] captures_view(rgba)->0[i]) == (match c@[i] {
                    Some(t) => Some(t@),
                    None => None,
                }));
            }
        }
        assert(color_groups_ok(captures_view(hsla))) by {
            if let Some(c) = hsla {
                assert(forall|i: int| 0 <= i < 5 ==> (#[trigger] captures_view(hsla)->0[i]) == (match c@[i] {
                    Some(t) => Some(t@),
                    None => None,
                }));
            }
        }
    }
    match color_from_captures(&rgba, &hsla) {
        Some(c) => Ok(c),
        None => Err(GuiseError::InvalidAttributeValue(copy_str(s))),
    }
}

/// Where an item sits on one axis of a grid: its start line, the number of
/// tracks it spans, its end line. Lines are never zero, nor is a span.
#[derive(Debug, Clone, Copy, PartialEq, Eq, Structural)]
pub struct GridPlacement {
    pub start: Option<i16>,
    pub span: Option<u16>,
    pub end: Option<i16>,
}

impl GridPlacement {
    /// No line is zero and the span is not zero.
    pub open spec fn well_formed(self) -> bool {
        &&& self.start != Some(0i16)
        &&& self.span != Some(0u16)
        &&& self.end != Some(0i16)
    }
}

impl Default for GridPlacement {
    /// Placed automatically, spanning one track.
    fn default() -> (r: GridPlacement)
        ensures
            r == (GridPlacement { start: None, span: Some(1), end: None }),
    {
        GridPlacement { start: None, span: Some(1), end: None }
    }
}

/// A grid line number that converts: an `i16` that is not zero.
pub open spec fn grid_line_ok(t: Seq<char>) -> bool {
    parse_i16_spec(t) matches Some(n) && n != 0
}

/// A span that converts: a `u16` that is not zero.
pub open spec fn grid_span_ok(t: Seq<char>) -> bool {
    parse_u16_spec(t) matches Some(n) && n != 0
}

/// What a placement's text reads as: `start / end`, or `start / span n`.
pub open spec fn grid_parse(s: Seq<char>) -> Option<GridPlacement> {
    grid_of_captures(regex_captures(GRID_END_PATTERN@, s), regex_captures(GRID_SPAN_PATTERN@, s))
}

/// The placement that the matches of `GRID_END_PATTERN` and
/// `GRID_SPAN_PATTERN` read as: `start / end` where the first matched, else
/// `start / span n`.
pub open spec fn grid_of_captures(
    end_form: Option<Seq<Option<Seq<char>>>>,
    span_form: Option<Seq<Option<Seq<char>>>>,
) -> Option<GridPlacement> {
    match end_form {
        Some(c) => Some(
            GridPlacement {
                start: parse_i16_spec(group(c, 1)),
                span: Some(1),
                end: parse_i16_spec(group(c, 2)),
            },
        ),
        None => match span_form {
            Some(c) => Some(
                GridPlacement {
                    start: parse_i16_spec(group(c, 1)),
                    span: parse_u16_spec(group(c, 2)),
                    end: None,
                },
            ),
            None => None,
        },
    }
}

/// A match of a placement form as its captures give it: three entries, all
/// of them taking part.
pub open spec fn grid_groups_ok(c: Option<Seq<Option<Seq<char>>>>) -> bool {
    c matches Some(g) ==> g.len() == 3 && forall|i: int| 0 <= i < 3 ==> #[trigger] g[i] is Some
}

/// Reading the placement finds a line or span that does not convert or is zero.
pub open spec fn grid_panics(s: Seq<char>) -> bool {
    ||| regex_captures(GRID_END_PATTERN@, s) matches Some(c) && !(grid_line_ok(group(c, 1))
        && grid_line_ok(group(c, 2)))
    ||| regex_captures(GRID_SPAN_PATTERN@, s) matches Some(c) && !(grid_line_ok(group(c, 1))
        && grid_span_ok(group(c, 2)))
}

fn line_ok(t: &str) -> (r: bool)
    ensures
        r == grid_line_ok(t@),
{
    match parse_i16(t) {
        Some(n) => n != 0,
        None => false,
    }
}

fn span_ok(t: &str) -> (r: bool)
    ensures
        r == grid_span_ok(t@),
{
    match parse_u16(t) {
        Some(n) => n != 0,
        None => false,
    }
}

/// Whether reading the placement `s` would fail to convert a line or span.
pub fn grid_would_panic(s: &str) -> (r: bool)
    ensures
        r == grid_panics(s@),
{
    proof {
        lemma_patterns_distinct();
    }
    let bad_end = match captures(GRID_END_PATTERN, s) {
        Some(c) => {
            let ghost cv = captures_view(Some(c))->0;
            assert(forall|i: int| 0 <= i < 3 ==> group(cv, i) == (#[trigger] c@[i])->0@);
            let a = group_text(&c, 1);
            let b = group_text(&c, 2);
            !(line_ok(a.as_str()) && line_ok(b.as_str()))
        },
        None => false,
    };
    let bad_span = match captures(GRID_SPAN_PATTERN, s) {
        Some(c) => {
            let ghost cv = captures_view(Some(c))->0;
            assert(forall|i: int| 0 <= i < 3 ==> group(cv, i) == (#[trigger] c@[i])->0@);
            let a = group_text(&c, 1);
            let b = group_text(&c, 2);
            !(line_ok(a.as_str()) && span_ok(b.as_str()))
        },
        None => false,
    };
    bad_end || bad_span
}

/// The placement that the matches of the `start / end` and
/// `start / span n` forms read as.
pub fn grid_from_captures(
    end_form: &Option<Vec<Option<String>>>,
    span_form: &Option<Vec<Option<String>>>,
) -> (r: Option<GridPlacement>)
    requires
        grid_groups_ok(captures_view(*end_form)),
        grid_groups_ok(captures_view(*span_form)),
    ensures
        r == grid_of_captures(captures_view(*end_form), captures_view(*span_form)),
{
    match end_form {
        Some(c) => {
            let ghost cv = captures_view(Some(*c))->0;
            assert(cv.len() == c@.len());
            assert(forall|i: int| 0 <= i < 3 ==> group(cv, i) == (#[trigger] c@[i])->0@);
            let a = group_text(c, 1);
            let b = group_text(c, 2);
            Some(GridPlacement { start: parse_i16(a.as_str()), span: Some(1), end: parse_i16(b.as_str()) })
        },
        None => match span_form {
            Some(c) => {
                let ghost cv = captures_view(Some(*c))->0;
                assert(cv.len() == c@.len());
                assert(forall|i: int| 0 <= i < 3 ==> group(cv, i) == (#[trigger] c@[i])->0@);
                let a = group_text(c, 1);
                let b = group_text(c, 2);
                Some(GridPlacement { start: parse_i16(a.as_str()), span: parse_u16(b.as_str()), end: None })
            },
            None => None,
        },
    }
}

/// Reads a grid placement: `start / end` or `start / span n`.
pub fn parse_grid_placement(s: &str) -> (r: Result<GridPlacement, GuiseError>)
    requires
        !grid_panics(s@),
    ensures
        r matches Ok(g) ==> grid_parse(s@) == Some(g) && g.well_formed(),
        r matches Err(e) ==> grid_parse(s@) is None && invalid_value(e, s@),
{
    proof {
        lemma_patterns_distinct();
    }
    let end_form = captures(GRID_END_PATTERN, s);
    let span_form = captures(GRID_SPAN_PATTERN, s);
    proof {
        assert(grid_groups_ok(captures_view(end_form))) by {
            if let Some(c) = end_form {
                assert(forall|i: int| 0 <= i < 3 ==> (#[trigger] captures_view(end_form)->0[i]) == (match c@[i] {
                    Some(t) => Some(t@),
                    None => None,
                }));
            }
        }
        assert(grid_groups_ok(captures_view(span_form))) by {
            if let Some(c) = span_form {
                assert(forall|i: int| 0 <= i < 3 ==> (#[trigger] captures_view(span_form)->0[i]) == (match c@[i] {
                    Some(t) => Some(t@),
                    None => None,
                }));
            }
        }
    }
    match grid_from_captures(&end_form, &span_form) {
        Some(g) => Ok(g),
        None => Err(GuiseError::InvalidAttributeValue(copy_str(s))),
    }
}

/// The suffix that writes a unit.
pub open spec fn unit_suffix(u: Unit) -> Seq<char> {
    match u {
        Unit::Auto => Seq::empty(),
        Unit::Px => seq!['p', 'x'],
        Unit::Percent => seq!['%'],
        Unit::Vw => seq!['v', 'w'],
        Unit::Vh => seq!['v', 'h'],
        Unit::VMin => seq!['v', 'm', 'i', 'n'],
        Unit::VMax => seq!['v', 'm', 'a', 'x'],
    }
}

/// The CSS-like text of a length: `auto`, or its number and unit.
pub open spec fn val_text(v: (Unit, Seq<char>)) -> Seq<char> {
    if v.0 == Unit::Auto {
        "auto"@
    } else {
        v.1 + unit_suffix(v.0)
    }
}

fn push_unit(out: &mut String, u: Unit)
    ensures
        final(out)@ == old(out)@ + unit_suffix(u),
{
    match u {
        Unit::Auto => {},
        Unit::Px => {
            push_char(out, 'p');
            push_char(out, 'x');
        },
        Unit::Percent => {
            push_char(out, '%');
        },
        Unit::Vw => {
            push_char(out, 'v');
            push_char(out, 'w');
        },
        Unit::Vh => {
            push_char(out, 'v');
            push_char(out, 'h');
        },
        Unit::VMin => {
            push_char(out, 'v');
            push_char(out, 'm');
            push_char(out, 'i');
            push_char(out, 'n');
        },
        Unit::VMax => {
            push_char(out, 'v');
            push_char(out, 'm');
            push_char(out, 'a');
            push_char(out, 'x');
        },
    }
    assert(final(out)@ == old(out)@ + unit_suffix(u));
}

/// Appends the text of a length.
pub fn push_val(out: &mut String, v: &Val)
    ensures
        final(out)@ == old(out)@ + val_text(v@),
{
    match v {
        Val::Auto => push_str(out, "auto"),
        Val::Px(n) => {
            push_str(out, n.as_str());
            push_unit(out, Unit::Px);
        },
        Val::Percent(n) => {
            push_str(out, n.as_str());
            push_unit(out, Unit::Percent);
        },
        Val::Vw(n) => {
            push_str(out, n.as_str());
            push_unit(out, Unit::Vw);
        },
        Val::Vh(n) => {
            push_str(out, n.as_str());
            push_unit(out, Unit::Vh);
        },
        Val::VMin(n) => {
            push_str(out, n.as_str());
            push_unit(out, Unit::VMin);
        },
        Val::VMax(n) => {
            push_str(out, n.as_str());
            push_unit(out, Unit::VMax);
        },
    }
}

/// The CSS-like text of a length.
pub fn val_to_str(v: &Val) -> (r: String)
    ensures
        r@ == val_text(v@),
{
    let mut out = String::new();
    push_val(&mut out, v);
    out
}

/// The text of a rectangle: its sides in CSS order (top, right, bottom,
/// left), separated by spaces.
pub open spec fn rect_text(
    r: ((Unit, Seq<char>), (Unit, Seq<char>), (Unit, Seq<char>), (Unit, Seq<char>)),
) -> Seq<char> {
    val_text(r.2) + seq![' '] + val_text(r.1) + seq![' '] + val_text(r.3) + seq![' '] + val_text(r.0)
}

/// The text of a rectangle.
pub fn uirect_to_str(r: &UiRect) -> (t: String)
    ensures
        t@ == rect_text(r@),
{
    let mut out = String::new();
    push_val(&mut out, &r.top);
    push_char(&mut out, ' ');
    push_val(&mut out, &r.right);
    push_char(&mut out, ' ');
    push_val(&mut out, &r.bottom);
    push_char(&mut out, ' ');
    push_val(&mut out, &r.left);
    out
}

/// The lower-case hexadecimal digit for `d`, which is below sixteen.
pub open spec fn hex_char(d: int) -> char {
    if d < 10 {
        ('0' as int + d) as char
    } else {
        ('a' as int + d - 10) as char
    }
}

/// The two hexadecimal digits of a channel.
pub open spec fn hex_byte_text(x: u8) -> Seq<char> {
    seq![hex_char((x / 16) as int), hex_char((x % 16) as int)]
}

/// Four channels in the `#rrggbbaa` notation.
pub open spec fn hex_text(r: u8, g: u8, b: u8, a: u8) -> Seq<char> {
    seq!['#'] + hex_byte_text(r) + hex_byte_text(g) + hex_byte_text(b) + hex_byte_text(a)
}

/// The four numbers of a functional color form: `name(a, b, c, d)`.
pub open spec fn color_form_text(
    name: Seq<char>,
    a: Seq<char>,
    b: Seq<char>,
    c: Seq<char>,
    d: Seq<char>,
) -> Seq<char> {
    name + seq!['('] + a + seq![',', ' '] + b + seq![',', ' '] + c + seq![',', ' '] + d + seq![')']
}

/// The text of a color: channels read from hexadecimal digits are written in
/// `#rrggbbaa` notation, the functional forms with the numbers they hold.
pub open spec fn color_text(m: ColorModel) -> Seq<char> {
    match m {
        ColorModel::Rgba8(r, g, b, a) => hex_text(r, g, b, a),
        ColorModel::Rgba(r, g, b, a) => color_form_text(seq!['r', 'g', 'b', 'a'], r, g, b, a),
        ColorModel::Hsla(h, s, l, a) => color_form_text(seq!['h', 's', 'l', 'a'], h, s, l, a),
    }
}

fn hex_digit_char(d: u8) -> (c: char)
    requires
        d < 16,
    ensures
        c == hex_char(d as int),
{
    if d < 10 {
        ((('0' as u8) + d) as char)
    } else {
        ((('a' as u8) + d - 10) as char)
    }
}

pub fn push_hex_byte(out: &mut String, x: u8)
    ensures
        final(out)@ == old(out)@ + hex_byte_text(x),
{
    push_char(out, hex_digit_char(x / 16));
    push_char(out, hex_digit_char(x % 16));
    assert(final(out)@ == old(out)@ + hex_byte_text(x));
}

pub fn push_color_form(out: &mut String, name: &str, a: &String, b: &String, c: &String, d: &String)
    ensures
        final(out)@ == old(out)@ + color_form_text(name@, a@, b@, c@, d@),
{
    push_str(out, name);
    push_char(out, '(');
    push_str(out, a.as_str());
    push_char(out, ',');
    push_char(out, ' ');
    push_str(out, b.as_str());
    push_char(out, ',');
    push_char(out, ' ');
    push_str(out, c.as_str());
    push_char(out, ',');
    push_char(out, ' ');
    push_str(out, d.as_str());
    push_char(out, ')');
    assert(final(out)@ == old(out)@ + color_form_text(name@, a@, b@, c@, d@));
}

/// The text of a color.
pub fn color_to_str(col: &ColorSpec) -> (t: String)
    ensures
        t@ == color_text(col@),
{
    let mut out = String::new();
    match col {
        ColorSpec::Rgba8(r, g, b, a) => {
            push_char(&mut out, '#');
            push_hex_byte(&mut out, *r);
            push_hex_byte(&mut out, *g);
            push_hex_byte(&mut out, *b);
            push_hex_byte(&mut out, *a);
        },
        ColorSpec::Rgba(r, g, b, a) => {
            proof {
                reveal_strlit("rgba");
            }
            push_color_form(&mut out, "rgba", r, g, b, a);
            assert("rgba"@ == seq!['r', 'g', 'b', 'a']);
        },
        ColorSpec::Hsla(h, s, l, a) => {
            proof {
                reveal_strlit("hsla");
            }
            push_color_form(&mut out, "hsla", h, s, l, a);
            assert("hsla"@ == seq!['h', 's', 'l', 'a']);
        },
    }
    out
}

} // verus!

verus! {

/// Writing a length and reading the text back gives the length, wherever
/// `VAL_PATTERN` splits the written text into the length's number and the
/// suffix of its unit (no unit group, or the suffix, for pixels).
pub proof fn lemma_val_text_round_trip(v: (Unit, Seq<char>), c: Seq<Option<Seq<char>>>)
    requires
        v.0 == Unit::Auto ==> v.1 == Seq::<char>::empty(),
        v.0 != Unit::Auto ==> regex_captures(VAL_PATTERN@, val_text(v)) == Some(c),
        v.0 != Unit::Auto ==> c[1] == Some(v.1),
        v.0 != Unit::Auto ==> c[2] == Some(unit_suffix(v.0)),
    ensures
        val_parse(val_text(v)) == Some(v),
{
    reveal_strlit("auto");
    if v.0 != Unit::Auto {
        let t = val_text(v);
        let suf = unit_suffix(v.0);
        assert(suf.len() > 0);
        assert(t[t.len() - 1] == suf[suf.len() - 1]);
        assert("auto"@[3] == 'o');
        assert(t != "auto"@);
        assert(unit_of(Some(suf)) == v.0);
    }
}

} // verus!

verus! {

/// Each unit has its own suffix, and each suffix names that unit; a length
/// with no suffix is in pixels.
pub proof fn lemma_unit_table()
    ensures
        unit_suffix(Unit::Px) == seq!['p', 'x'],
        unit_suffix(Unit::Percent) == seq!['%'],
        unit_suffix(Unit::Vw) == seq!['v', 'w'],
        unit_suffix(Unit::Vh) == seq!['v', 'h'],
        unit_suffix(Unit::VMin) == seq!['v', 'm', 'i', 'n'],
        unit_suffix(Unit::VMax) == seq!['v', 'm', 'a', 'x'],
        unit_of(None) == Unit::Px,
        unit_of(Some(seq!['p', 'x'])) == Unit::Px,
        unit_of(Some(seq!['%'])) == Unit::Percent,
        unit_of(Some(seq!['v', 'w'])) == Unit::Vw,
        unit_of(Some(seq!['v', 'h'])) == Unit::Vh,
        unit_of(Some(seq!['v', 'm', 'i', 'n'])) == Unit::VMin,
        unit_of(Some(seq!['v', 'm', 'a', 'x'])) == Unit::VMax,
        val_text((Unit::Auto, Seq::empty())) == "auto"@,
{
    assert(seq!['p', 'x'] != seq!['%']);
    assert(seq!['p', 'x'][0] != seq!['v', 'w'][0]);
    assert(seq!['p', 'x'][0] != seq!['v', 'h'][0]);
    assert(seq!['p', 'x'][0] != seq!['v', 'm', 'i', 'n'][0]);
    assert(seq!['p', 'x'][0] != seq!['v', 'm', 'a', 'x'][0]);
    assert(seq!['%'][0] != seq!['v', 'w'][0]);
    assert(seq!['%'][0] != seq!['v', 'h'][0]);
    assert(seq!['%'][0] != seq!['v', 'm', 'i', 'n'][0]);
    assert(seq!['%'][0] != seq!['v', 'm', 'a', 'x'][0]);
    assert(seq!['v', 'w'][1] != seq!['v', 'h'][1]);
    assert(seq!['v', 'w'].len() != seq!['v', 'm', 'i', 'n'].len());
    assert(seq!['v', 'w'].len() != seq!['v', 'm', 'a', 'x'].len());
    assert(seq!['v', 'h'].len() != seq!['v', 'm', 'i', 'n'].len());
    assert(seq!['v', 'h'].len() != seq!['v', 'm', 'a', 'x'].len());
    assert(seq!['v', 'm', 'i', 'n'][2] != seq!['v', 'm', 'a', 'x'][2]);
}

} // verus!

verus! {

/// The value of a hexadecimal digit: `0`–`9` are 0 to 9, `a`–`f` and
/// `A`–`F` are 10 to 15, and it is less than 16.
pub proof fn lemma_hex_digit_values(c: char)
    ensures
        '0' <= c <= '9' ==> hex_value(c) == Some(c as int - '0' as int),
        'a' <= c <= 'f' ==> hex_value(c) == Some(c as int - 'a' as int + 10),
        'A' <= c <= 'F' ==> hex_value(c) == Some(c as int - 'A' as int + 10),
        hex_value(c) matches Some(v) ==> 0 <= v < 16,
{
}

/// The channels of a color in hexadecimal notation, in the order red,
/// green, blue, alpha: two digits give `16 * high + low`, one digit stands
/// for itself twice (`17 * d`), and alpha is opaque where it is not written.
pub proof fn lemma_hex_color_channels(h: Seq<char>)
    requires
        hex_digits(h),
        h.len() == 0 || h[0] != '#',
    ensures
        ({
            let v = |i: int| hex_value(h[i])->0;
            &&& h.len() == 3 ==> hex_color(h) == Some(((17 * v(0)) as u8, (17 * v(1)) as u8, (17 * v(2)) as u8, 255u8))
            &&& h.len() == 4 ==> hex_color(h) == Some(((17 * v(0)) as u8, (17 * v(1)) as u8, (17 * v(2)) as u8, (17 * v(3)) as u8))
            &&& h.len() == 6 ==> hex_color(h) == Some(((16 * v(0) + v(1)) as u8, (16 * v(2) + v(3)) as u8, (16 * v(4) + v(5)) as u8, 255u8))
            &&& h.len() == 8 ==> hex_color(h) == Some(((16 * v(0) + v(1)) as u8, (16 * v(2) + v(3)) as u8, (16 * v(4) + v(5)) as u8, (16 * v(6) + v(7)) as u8))
            &&& !(h.len() == 3 || h.len() == 4 || h.len() == 6 || h.len() == 8) ==> hex_color(h) is None
        }),
{
}

} // verus!
