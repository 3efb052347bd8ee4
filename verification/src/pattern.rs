//! The regular expressions that attribute values are matched against, and
//! the one call into the `regex` crate that matches them.
use vstd::prelude::*;

verus! {

/// `rgba(r, g, b, a)` with numbers made of digits and dots.
pub const RGBA_PATTERN: &'static str = r"^rgba\(([\d\.]+),\s*([\d\.]+),\s*([\d\.]+),\s*([\d\.]+)\)$";

/// `hsla(h, s, l, a)` with numbers made of digits and dots.
pub const HSLA_PATTERN: &'static str = r"^hsla\(([\d\.]+),\s*([\d\.]+),\s*([\d\.]+),\s*([\d\.]+)\)$";

/// A length: a number made of `-`, digits and dots, and an optional unit.
pub const VAL_PATTERN: &'static str = r"^([\-\d\.]+)(px|vw|vh|vmin|vmax|%)?$";

/// A grid placement `start / end`.
pub const GRID_END_PATTERN: &'static str = r"^([\d\.]+)\s*/\s*([\d\.]+)$";

/// A grid placement `start / span n`.
pub const GRID_SPAN_PATTERN: &'static str = r"^([\d\.]+)\s*/\s*span\s*([\d\.]+)$";

/// The patterns of this library, which all compile.
pub open spec fn known_pattern(p: Seq<char>) -> bool {
    ||| p == RGBA_PATTERN@
    ||| p == HSLA_PATTERN@
    ||| p == VAL_PATTERN@
    ||| p == GRID_END_PATTERN@
    ||| p == GRID_SPAN_PATTERN@
}

/// The number of capture groups of a pattern of this library.
pub open spec fn group_count(p: Seq<char>) -> nat {
    if p == RGBA_PATTERN@ || p == HSLA_PATTERN@ {
        4
    } else {
        2
    }
}

/// What `Regex::new(pattern).captures(text)` yields: none where the text does
/// not match; else, per group (group 0 being the whole match), the text that
/// the group matched, if it took part in the match.
pub uninterp spec fn regex_captures(pattern: Seq<char>, text: Seq<char>) -> Option<
    Seq<Option<Seq<char>>>,
>;

pub open spec fn captures_view(c: Option<Vec<Option<String>>>) -> Option<Seq<Option<Seq<char>>>> {
    match c {
        None => None,
        Some(v) => Some(
            v@.map_values(
                |m: Option<String>|
                    match m {
                        Some(s) => Some(s@),
                        None => None,
                    },
            ),
        ),
    }
}

/// The units that `VAL_PATTERN` accepts.
pub open spec fn is_unit(u: Seq<char>) -> bool {
    ||| u == seq!['p', 'x']
    ||| u == seq!['v', 'w']
    ||| u == seq!['v', 'h']
    ||| u == seq!['v', 'm', 'i', 'n']
    ||| u == seq!['v', 'm', 'a', 'x']
    ||| u == seq!['%']
}

/// The captures of one of this library's patterns in `text`
/// (`regex::Regex::new(pattern).unwrap().captures(text)`, each group's
/// match as a `String`). A match has one entry per group plus one for the
/// whole match; the groups of the color and grid patterns always take part,
/// and the number group of `VAL_PATTERN` always does while its unit group,
/// where it takes part, holds one of its units. Which texts match is left
/// to the name `regex_captures`: the patterns are Unicode-aware (`\d` and
/// `\s` match beyond ASCII), which is not stated here.
#[verifier::external_body]
pub(crate) fn captures(pattern: &str, text: &str) -> (r: Option<Vec<Option<String>>>)
    requires
        known_pattern(pattern@),
    ensures
        captures_view(r) == regex_captures(pattern@, text@),
        r matches Some(c) ==> {
            &&& c@.len() == group_count(pattern@) + 1
            &&& pattern@ != VAL_PATTERN@ ==> forall|i: int| 0 <= i < c@.len() ==> #[trigger] c@[i] is Some
            &&& pattern@ == VAL_PATTERN@ ==> c@[1] is Some && (c@[2] matches Some(u) ==> is_unit(u@))
        },
{
    let re = regex::Regex::new(pattern).unwrap();
    re.captures(text).map(|caps| caps.iter().map(|m| m.map(|m| m.as_str().to_string())).collect())
}

/// The patterns of this library are distinct.
pub proof fn lemma_patterns_distinct()
    ensures
        RGBA_PATTERN@ != HSLA_PATTERN@,
        RGBA_PATTERN@ != VAL_PATTERN@,
        RGBA_PATTERN@ != GRID_END_PATTERN@,
        RGBA_PATTERN@ != GRID_SPAN_PATTERN@,
        HSLA_PATTERN@ != VAL_PATTERN@,
        HSLA_PATTERN@ != GRID_END_PATTERN@,
        HSLA_PATTERN@ != GRID_SPAN_PATTERN@,
        VAL_PATTERN@ != GRID_END_PATTERN@,
        VAL_PATTERN@ != GRID_SPAN_PATTERN@,
        GRID_END_PATTERN@ != GRID_SPAN_PATTERN@,
{
    reveal_strlit(r"^rgba\(([\d\.]+),\s*([\d\.]+),\s*([\d\.]+),\s*([\d\.]+)\)$");
    reveal_strlit(r"^hsla\(([\d\.]+),\s*([\d\.]+),\s*([\d\.]+),\s*([\d\.]+)\)$");
    reveal_strlit(r"^([\-\d\.]+)(px|vw|vh|vmin|vmax|%)?$");
    reveal_strlit(r"^([\d\.]+)\s*/\s*([\d\.]+)$");
    reveal_strlit(r"^([\d\.]+)\s*/\s*span\s*([\d\.]+)$");
    assert(RGBA_PATTERN@[1] == 'r');
    assert(HSLA_PATTERN@[1] == 'h');
    assert(VAL_PATTERN@[1] == '(');
    assert(GRID_END_PATTERN@[1] == '(');
    assert(GRID_SPAN_PATTERN@[1] == '(');
    assert(VAL_PATTERN@[4] == '-');
    assert(GRID_END_PATTERN@[4] == 'd');
    assert(GRID_SPAN_PATTERN@[4] == 'd');
    assert(GRID_END_PATTERN@[17] == '(');
    assert(GRID_SPAN_PATTERN@[17] == 's');
}

} // verus!
