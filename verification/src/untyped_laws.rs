//! Laws of the expression grammar: the text written for an expression that
//! was read reads back as that expression.
use vstd::prelude::*;
use crate::text::{is_white_space, trim, trim_end, trim_start};
use crate::untyped::{
    after_exponent, alpha_at, after_comma, asset_rule, color_fn_at, color_fn_rule, color_value_text,
    digits_end, expr_parse, expr_rule, expr_text, exponent_end, hex_rule, ident_rule, is_digit,
    length_rule, name_char, name_end, name_rest_end, name_start, number_end, space_end, starts_at,
    unit_at, var_rule, ColorValueModel, ExprModel, Outcome,
};
use crate::values::{unit_suffix, val_text, Unit};

verus! {

/// A character that cannot continue a number.
pub open spec fn number_stop(c: char) -> bool {
    !is_digit(c) && c != '.' && c != 'e' && c != 'E'
}

proof fn lemma_digits_end_facts(s: Seq<char>, j: int)
    requires
        0 <= j <= s.len(),
    ensures
        j <= digits_end(s, j) <= s.len(),
        forall|p: int| j <= p < digits_end(s, j) ==> is_digit(#[trigger] s[p]),
        digits_end(s, j) == s.len() || !is_digit(s[digits_end(s, j)]),
    decreases s.len() - j,
{
    if j < s.len() && is_digit(s[j]) {
        lemma_digits_end_facts(s, j + 1);
    }
}

proof fn lemma_digits_end_is(s: Seq<char>, j: int, k: int)
    requires
        0 <= j <= k <= s.len(),
        forall|p: int| j <= p < k ==> is_digit(#[trigger] s[p]),
        k == s.len() || !is_digit(s[k]),
    ensures
        digits_end(s, j) == k,
    decreases k - j,
{
    if j < k {
        lemma_digits_end_is(s, j + 1, k);
    }
}

/// `t` from `i2` on holds what `s` holds from `i` to `n`, and then a
/// character that stops a number, or nothing.
pub open spec fn copies_number(s: Seq<char>, i: int, n: int, t: Seq<char>, i2: int) -> bool {
    &&& 0 <= i <= n <= s.len()
    &&& 0 <= i2
    &&& i2 + (n - i) <= t.len()
    &&& forall|p: int| 0 <= p < n - i ==> t[i2 + p] == #[trigger] s[i + p]
    &&& i2 + (n - i) == t.len() || number_stop(t[i2 + (n - i)])
}

/// A run of digits that ends inside a copied number ends at the same place
/// in the copy.
proof fn lemma_digits_copy(s: Seq<char>, i: int, n: int, t: Seq<char>, i2: int, j: int)
    requires
        copies_number(s, i, n, t, i2),
        i <= j <= n,
        digits_end(s, j) <= n,
    ensures
        digits_end(t, j + (i2 - i)) == digits_end(s, j) + (i2 - i),
{
    let d = i2 - i;
    lemma_digits_end_facts(s, j);
    let k = digits_end(s, j);
    assert forall|p: int| j + d <= p < k + d implies is_digit(#[trigger] t[p]) by {
        assert(t[i2 + (p - d - i)] == s[i + (p - d - i)]);
    }
    if k < n {
        assert(t[i2 + (k - i)] == s[i + (k - i)]);
    }
    lemma_digits_end_is(t, j + d, k + d);
}

proof fn lemma_after_exponent_bounds(s: Seq<char>, m: int)
    requires
        0 <= m <= s.len(),
    ensures
        m <= after_exponent(s, m) <= s.len(),
{
    if exponent_end(s, m) is Some {
        let j = if m + 1 < s.len() && (s[m + 1] == '+' || s[m + 1] == '-') {
            m + 2
        } else {
            m + 1
        };
        lemma_digits_end_facts(s, j);
    }
}

/// The exponent of a copied number is copied with it.
proof fn lemma_after_exponent_copy(s: Seq<char>, i: int, n: int, t: Seq<char>, i2: int, m: int)
    requires
        copies_number(s, i, n, t, i2),
        i <= m <= n,
        after_exponent(s, m) == n,
    ensures
        after_exponent(t, m + (i2 - i)) == n + (i2 - i),
{
    let d = i2 - i;
    if m == n {
        if m + d < t.len() {
            assert(number_stop(t[m + d]));
        }
    } else {
        assert(exponent_end(s, m) is Some);
        assert(t[i2 + (m - i)] == s[i + (m - i)]);
        let j = if m + 1 < s.len() && (s[m + 1] == '+' || s[m + 1] == '-') {
            m + 2
        } else {
            m + 1
        };
        lemma_digits_end_facts(s, j);
        if m + 1 < n {
            assert(t[i2 + (m + 1 - i)] == s[i + (m + 1 - i)]);
        }
        lemma_digits_copy(s, i, n, t, i2, j);
    }
}

/// A number copied into another text, before a character that stops a
/// number, reads the same there.
pub proof fn lemma_number_copy(s: Seq<char>, i: int, n: int, t: Seq<char>, i2: int)
    requires
        number_end(s, i) == Some(n),
        copies_number(s, i, n, t, i2),
    ensures
        number_end(t, i2) == Some(n + (i2 - i)),
{
    let d = i2 - i;
    let j = if 0 <= i < s.len() && s[i] == '-' {
        i + 1
    } else {
        i
    };
    if 0 <= j < s.len() && s[j] == '.' && digits_end(s, j + 1) > j + 1 {
        let k = digits_end(s, j + 1);
        lemma_digits_end_facts(s, j + 1);
        lemma_after_exponent_bounds(s, k);
        assert(t[i2 + (j - i)] == s[i + (j - i)]);
        if j > i {
            let z: int = 0;
            assert(t[i2 + z] == s[i + z]);
        }
        lemma_digits_copy(s, i, n, t, i2, j + 1);
        lemma_after_exponent_copy(s, i, n, t, i2, k);
    } else {
        lemma_digits_end_facts(s, j);
        let k = digits_end(s, j);
        assert(k > j);
        let m = if k < s.len() && s[k] == '.' {
            digits_end(s, k + 1)
        } else {
            k
        };
        if k < s.len() && s[k] == '.' {
            lemma_digits_end_facts(s, k + 1);
        }
        lemma_after_exponent_bounds(s, m);
        assert(t[i2 + (j - i)] == s[i + (j - i)]);
        if j > i {
            let z: int = 0;
            assert(t[i2 + z] == s[i + z]);
        }
        lemma_digits_copy(s, i, n, t, i2, j);
        if k < n {
            assert(t[i2 + (k - i)] == s[i + (k - i)]);
        } else if k + d < t.len() {
            assert(number_stop(t[k + d]));
        }
        if k < s.len() && s[k] == '.' {
            lemma_digits_copy(s, i, n, t, i2, k + 1);
        }
        lemma_after_exponent_copy(s, i, n, t, i2, m);
    }
}

proof fn lemma_name_rest_facts(s: Seq<char>, j: int)
    requires
        0 <= j <= s.len(),
    ensures
        j <= name_rest_end(s, j) <= s.len(),
        forall|p: int| j <= p < name_rest_end(s, j) ==> name_char(#[trigger] s[p]),
        name_rest_end(s, j) == s.len() || !name_char(s[name_rest_end(s, j)]),
    decreases s.len() - j,
{
    if j < s.len() && name_char(s[j]) {
        lemma_name_rest_facts(s, j + 1);
    }
}

proof fn lemma_name_rest_is(s: Seq<char>, j: int, k: int)
    requires
        0 <= j <= k <= s.len(),
        forall|p: int| j <= p < k ==> name_char(#[trigger] s[p]),
        k == s.len() || !name_char(s[k]),
    ensures
        name_rest_end(s, j) == k,
    decreases k - j,
{
    if j < k {
        lemma_name_rest_is(s, j + 1, k);
    }
}

/// A name: a character that may begin one, then characters that may
/// continue one.
pub open spec fn is_name(n: Seq<char>) -> bool {
    &&& n.len() > 0
    &&& name_start(n[0])
    &&& forall|p: int| 1 <= p < n.len() ==> name_char(#[trigger] n[p])
}

/// A text that reads as a number as a whole.
pub open spec fn full_number(m: Seq<char>) -> bool {
    number_end(m, 0) == Some(m.len() as int)
}

/// A character that may stand in a number.
pub open spec fn number_char(c: char) -> bool {
    is_digit(c) || c == '-' || c == '+' || c == '.' || c == 'e' || c == 'E'
}

/// The number read at `i` is read again from its own text, and its
/// characters may all stand in a number, the first being `-`, `.` or a digit.
proof fn lemma_number_facts(s: Seq<char>, i: int, n: int)
    requires
        0 <= i <= s.len(),
        number_end(s, i) == Some(n),
    ensures
        i < n <= s.len(),
        full_number(s.subrange(i, n)),
        forall|p: int| i <= p < n ==> number_char(#[trigger] s[p]),
        s[i] == '-' || s[i] == '.' || is_digit(s[i]),
{
    let j = if 0 <= i < s.len() && s[i] == '-' {
        i + 1
    } else {
        i
    };
    let k1 = digits_end(s, j + 1);
    if j < s.len() {
        lemma_digits_end_facts(s, j + 1);
    }
    lemma_digits_end_facts(s, j);
    let k = digits_end(s, j);
    if j < s.len() && s[j] == '.' && k1 > j + 1 {
        lemma_after_exponent_bounds(s, k1);
        lemma_exponent_chars(s, k1);
    } else {
        let m = if k < s.len() && s[k] == '.' {
            digits_end(s, k + 1)
        } else {
            k
        };
        if k < s.len() && s[k] == '.' {
            lemma_digits_end_facts(s, k + 1);
        }
        lemma_after_exponent_bounds(s, m);
        lemma_exponent_chars(s, m);
    }
    let t = s.subrange(i, n);
    assert forall|p: int| 0 <= p < n - i implies t[0 + p] == #[trigger] s[i + p] by {}
    lemma_number_copy(s, i, n, t, 0);
}

proof fn lemma_exponent_chars(s: Seq<char>, m: int)
    requires
        0 <= m <= s.len(),
    ensures
        forall|p: int| m <= p < after_exponent(s, m) ==> number_char(#[trigger] s[p]),
{
    if exponent_end(s, m) is Some {
        let j = if m + 1 < s.len() && (s[m + 1] == '+' || s[m + 1] == '-') {
            m + 2
        } else {
            m + 1
        };
        lemma_digits_end_facts(s, j);
    }
}

/// A text with no whitespace at either end is its own trim.
proof fn lemma_trim_unchanged(t: Seq<char>)
    requires
        t.len() > 0,
        !is_white_space(t[0]),
        !is_white_space(t.last()),
    ensures
        trim(t) == t,
{
    assert(trim_start(t) == t);
}

/// An expression whose text reads back as it: a name, a number, a length,
/// a variable, or a color form; not an asset, whose text is not written,
/// nor channels from hexadecimal digits, which are written as a form.
pub open spec fn readable_back(x: ExprModel) -> bool {
    match x {
        ExprModel::Ident(n) => is_name(n),
        ExprModel::Number(m) => full_number(m),
        ExprModel::Length((u, m)) => u != Unit::Auto && full_number(m),
        ExprModel::Var(n) => is_name(n),
        ExprModel::Color(ColorValueModel::Rgb(a, b, c, d)) => full_number(a) && full_number(b)
            && full_number(c) && full_number(d),
        ExprModel::Color(ColorValueModel::Hsl(a, b, c, d)) => full_number(a) && full_number(b)
            && full_number(c) && full_number(d),
        _ => false,
    }
}

/// A text that begins with a name character holds no color form, asset
/// or variable at its start unless a `(` follows the letters.
proof fn lemma_name_text_rules(t: Seq<char>)
    requires
        is_name(t),
    ensures
        hex_rule(t, 0) is Back,
        length_rule(t, 0) is Back,
        var_rule(t, 0) is Back,
        color_fn_rule(t, 0) is Back,
        asset_rule(t, 0) is Back,
        ident_rule(t, 0) == Outcome::Done(ExprModel::Ident(t), t.len() as int),
{
    reveal_strlit("var(--");
    reveal_strlit("rgba");
    reveal_strlit("rgb");
    reveal_strlit("hsla");
    reveal_strlit("hsl");
    reveal_strlit("asset");
    lemma_digits_end_facts(t, 0);
    if starts_at(t, 0, "var(--"@) {
        assert(t.subrange(0, 6)[3] == t[3]);
        assert(name_char(t[3]));
    }
    match color_fn_at(t, 0) {
        Some((b, k)) => {
            if k < t.len() {
                assert(name_char(t[k]));
            }
        },
        None => {},
    }
    if starts_at(t, 0, "asset"@) {
        if 5 < t.len() {
            assert(name_char(t[5]));
        }
    }
    lemma_name_rest_is(t, 1, t.len() as int);
    assert(t.subrange(0, t.len() as int) =~= t);
}

/// The text of a name reads back as that name.
proof fn lemma_ident_round_trip(n: Seq<char>)
    requires
        is_name(n),
    ensures
        expr_parse(expr_text(ExprModel::Ident(n))) == Some(ExprModel::Ident(n)),
{
    lemma_name_text_rules(n);
    reveal(expr_rule);
    assert(name_char(n.last()) || n.len() == 1);
    lemma_trim_unchanged(n);
}

/// The text of a number reads back as that number.
proof fn lemma_number_round_trip(m: Seq<char>)
    requires
        full_number(m),
    ensures
        expr_parse(expr_text(ExprModel::Number(m))) == Some(ExprModel::Number(m)),
{
    lemma_number_facts(m, 0, m.len() as int);
    reveal_strlit("px");
    reveal_strlit("%");
    reveal_strlit("vh");
    reveal_strlit("vw");
    reveal_strlit("vmin");
    reveal_strlit("vmax");
    assert(unit_at(m, m.len() as int) is None);
    reveal(expr_rule);
    assert(m.subrange(0, m.len() as int) =~= m);
    assert(number_char(m[m.len() - 1]));
    lemma_trim_unchanged(m);
}

/// The unit that a unit's suffix writes is read from it.
proof fn lemma_unit_read(t: Seq<char>, l: int, u: Unit)
    requires
        u != Unit::Auto,
        0 <= l,
        t.len() == l + unit_suffix(u).len(),
        t.subrange(l, t.len() as int) == unit_suffix(u),
    ensures
        unit_at(t, l) == Some((u, t.len() as int)),
{
    reveal_strlit("px");
    reveal_strlit("%");
    reveal_strlit("vh");
    reveal_strlit("vw");
    reveal_strlit("vmin");
    reveal_strlit("vmax");
    assert(t[l] == unit_suffix(u)[0]);
    if unit_suffix(u).len() > 1 {
        assert(t[l + 1] == unit_suffix(u)[1]);
    }
    match u {
        Unit::Px => {
            assert(t.subrange(l, l + 2) =~= "px"@);
        },
        Unit::Percent => {
            assert(t.subrange(l, l + 1) =~= "%"@);
        },
        Unit::Vh => {
            assert(t.subrange(l, l + 2) =~= "vh"@);
        },
        Unit::Vw => {
            assert(t.subrange(l, l + 2) =~= "vw"@);
        },
        Unit::VMin => {
            assert(t.subrange(l, l + 4) =~= "vmin"@);
        },
        Unit::VMax => {
            assert(t[l + 2] == 'a');
            assert(t.subrange(l, l + 4) =~= "vmax"@);
        },
        Unit::Auto => {},
    }
}

/// The text of a length reads back as that length.
proof fn lemma_length_round_trip(u: Unit, m: Seq<char>)
    requires
        u != Unit::Auto,
        full_number(m),
    ensures
        expr_parse(expr_text(ExprModel::Length((u, m)))) == Some(ExprModel::Length((u, m))),
{
    let t = m + unit_suffix(u);
    assert(expr_text(ExprModel::Length((u, m))) == t);
    lemma_number_facts(m, 0, m.len() as int);
    assert(t[m.len() as int] == unit_suffix(u)[0]);
    lemma_number_copy(m, 0, m.len() as int, t, 0);
    assert(t.subrange(m.len() as int, t.len() as int) =~= unit_suffix(u));
    lemma_unit_read(t, m.len() as int, u);
    reveal(expr_rule);
    assert(t[0] == m[0]);
    assert(t.subrange(0, m.len() as int) =~= m);
    assert(t.last() == unit_suffix(u).last());
    lemma_trim_unchanged(t);
}

/// The text of a variable reads back as that variable.
proof fn lemma_var_round_trip(n: Seq<char>)
    requires
        is_name(n),
    ensures
        expr_parse(expr_text(ExprModel::Var(n))) == Some(ExprModel::Var(n)),
{
    reveal_strlit("var(--");
    reveal_strlit(")");
    let t = "var(--"@ + n + ")"@;
    assert(expr_text(ExprModel::Var(n)) == t);
    let k: int = 6 + n.len() as int;
    assert(t.subrange(0, 6) =~= "var(--"@);
    assert(t[6] == n[0]);
    assert forall|p: int| 7 <= p < k implies name_char(#[trigger] t[p]) by {
        assert(t[p] == n[p - 6]);
    }
    assert(t[k] == ')');
    lemma_name_rest_is(t, 7, k);
    assert(t.subrange(6, k) =~= n);
    lemma_digits_end_facts(t, 0);
    reveal(expr_rule);
    lemma_trim_unchanged(t);
}

/// A copied number whose first character is not a space or tab.
proof fn lemma_number_in(m: Seq<char>, t: Seq<char>, at: int)
    requires
        full_number(m),
        0 <= at,
        at + m.len() < t.len(),
        forall|p: int| 0 <= p < m.len() ==> t[at + p] == #[trigger] m[p],
        number_stop(t[at + m.len()]),
    ensures
        number_end(t, at) == Some(at + m.len()),
        space_end(t, at) == at,
        t.subrange(at, at + m.len()) == m,
{
    lemma_number_facts(m, 0, m.len() as int);
    lemma_number_copy(m, 0, m.len() as int, t, at);
    let z: int = 0;
    assert(t[at + z] == m[z]);
    assert(t.subrange(at, at + m.len()) =~= m);
}

/// The text of a color form: its name, `(`, the four numbers separated by
/// `, `, and `)`.
pub open spec fn form_text(name: Seq<char>, a: Seq<char>, b: Seq<char>, c: Seq<char>, d: Seq<char>) -> Seq<
    char,
> {
    name + seq!['('] + a + seq![',', ' '] + b + seq![',', ' '] + c + seq![',', ' '] + d + seq![')']
}

/// Where the parts of a color form's text stand.
proof fn lemma_form_layout(name: Seq<char>, a: Seq<char>, b: Seq<char>, c: Seq<char>, d: Seq<char>)
    requires
        name.len() == 4,
    ensures
        ({
            let t = form_text(name, a, b, c, d);
            let n1: int = 5 + a.len() as int;
            let n2: int = n1 + 2 + b.len() as int;
            let n3: int = n2 + 2 + c.len() as int;
            let e: int = n3 + 2 + d.len() as int;
            &&& t.len() == e + 1
            &&& t.subrange(0, 4) == name
            &&& t[4] == '('
            &&& t[n1] == ',' && t[n1 + 1] == ' '
            &&& t[n2] == ',' && t[n2 + 1] == ' '
            &&& t[n3] == ',' && t[n3 + 1] == ' '
            &&& t[e] == ')'
            &&& forall|p: int| 0 <= p < a.len() ==> t[5 + p] == #[trigger] a[p]
            &&& forall|p: int| 0 <= p < b.len() ==> t[n1 + 2 + p] == #[trigger] b[p]
            &&& forall|p: int| 0 <= p < c.len() ==> t[n2 + 2 + p] == #[trigger] c[p]
            &&& forall|p: int| 0 <= p < d.len() ==> t[n3 + 2 + p] == #[trigger] d[p]
        }),
{
    let t = form_text(name, a, b, c, d);
    let t1 = name + seq!['('];
    let t2 = t1 + a;
    let t3 = t2 + seq![',', ' '];
    let t4 = t3 + b;
    let t5 = t4 + seq![',', ' '];
    let t6 = t5 + c;
    let t7 = t6 + seq![',', ' '];
    let t8 = t7 + d;
    assert(t == t8 + seq![')']);
    assert(t.subrange(0, 4) =~= name);
    assert forall|p: int| 0 <= p < a.len() implies t[5 + p] == #[trigger] a[p] by {
        assert(t[5 + p] == t8[5 + p]);
        assert(t8[5 + p] == t2[5 + p]);
    }
    assert forall|p: int| 0 <= p < b.len() implies t[5 + a.len() + 2 + p] == #[trigger] b[p] by {
        assert(t[5 + a.len() + 2 + p] == t4[5 + a.len() + 2 + p]);
    }
    assert forall|p: int| 0 <= p < c.len() implies t[5 + a.len() + 2 + b.len() + 2 + p]
        == #[trigger] c[p] by {
        assert(t[5 + a.len() + 2 + b.len() + 2 + p] == t6[5 + a.len() + 2 + b.len() + 2 + p]);
    }
    assert forall|p: int| 0 <= p < d.len() implies t[5 + a.len() + 2 + b.len() + 2 + c.len() + 2
        + p] == #[trigger] d[p] by {
        assert(t[5 + a.len() + 2 + b.len() + 2 + c.len() + 2 + p] == t8[5 + a.len() + 2 + b.len()
            + 2 + c.len() + 2 + p]);
    }
}

/// The color form rule reads the four numbers of a color form's text.
#[verifier::rlimit(40)]
proof fn lemma_form_rule(t: Seq<char>, rgb: bool, a: Seq<char>, b: Seq<char>, c: Seq<char>, d: Seq<char>)
    requires
        full_number(a),
        full_number(b),
        full_number(c),
        full_number(d),
        color_fn_at(t, 0) == Some((rgb, 4int)),
        ({
            let n1: int = 5 + a.len() as int;
            let n2: int = n1 + 2 + b.len() as int;
            let n3: int = n2 + 2 + c.len() as int;
            let e: int = n3 + 2 + d.len() as int;
            &&& t.len() == e + 1
            &&& t[4] == '('
            &&& t[n1] == ',' && t[n1 + 1] == ' '
            &&& t[n2] == ',' && t[n2 + 1] == ' '
            &&& t[n3] == ',' && t[n3 + 1] == ' '
            &&& t[e] == ')'
            &&& forall|p: int| 0 <= p < a.len() ==> t[5 + p] == #[trigger] a[p]
            &&& forall|p: int| 0 <= p < b.len() ==> t[n1 + 2 + p] == #[trigger] b[p]
            &&& forall|p: int| 0 <= p < c.len() ==> t[n2 + 2 + p] == #[trigger] c[p]
            &&& forall|p: int| 0 <= p < d.len() ==> t[n3 + 2 + p] == #[trigger] d[p]
        }),
    ensures
        color_fn_rule(t, 0) == Outcome::Done(
            ExprModel::Color(
                if rgb {
                    ColorValueModel::Rgb(a, b, c, d)
                } else {
                    ColorValueModel::Hsl(a, b, c, d)
                },
            ),
            t.len() as int,
        ),
{
    let n1: int = 5 + a.len() as int;
    let r: int = n1 + 2;
    let n2: int = r + b.len() as int;
    let q3: int = n2 + 2;
    let n3: int = q3 + c.len() as int;
    let q4: int = n3 + 2;
    let e: int = q4 + d.len() as int;
    lemma_number_in(a, t, 5);
    lemma_number_in(b, t, r);
    lemma_number_in(c, t, q3);
    lemma_number_in(d, t, q4);
    assert(space_end(t, 4) == 4);
    assert(space_end(t, n1) == n1);
    assert(space_end(t, n1 + 1) == r);
    assert(after_comma(t, space_end(t, n1)) == r);
    assert(space_end(t, n2) == n2);
    assert(space_end(t, n2 + 1) == q3);
    assert(after_comma(t, space_end(t, n2)) == q3);
    assert(space_end(t, n3) == n3);
    assert(space_end(t, n3 + 1) == q4);
    assert(alpha_at(t, n3) == Some((d, e)));
    assert(space_end(t, e) == e);
}

/// The text of a color form reads back as that form.
proof fn lemma_color_form_round_trip(rgb: bool, a: Seq<char>, b: Seq<char>, c: Seq<char>, d: Seq<char>)
    requires
        full_number(a),
        full_number(b),
        full_number(c),
        full_number(d),
    ensures
        ({
            let x = if rgb {
                ColorValueModel::Rgb(a, b, c, d)
            } else {
                ColorValueModel::Hsl(a, b, c, d)
            };
            expr_parse(expr_text(ExprModel::Color(x))) == Some(ExprModel::Color(x))
        }),
{
    reveal_strlit("rgba");
    reveal_strlit("rgb");
    reveal_strlit("hsla");
    reveal_strlit("hsl");
    reveal_strlit("var(--");
    reveal_strlit("asset");
    let name = if rgb {
        "rgba"@
    } else {
        "hsla"@
    };
    let x = if rgb {
        ColorValueModel::Rgb(a, b, c, d)
    } else {
        ColorValueModel::Hsl(a, b, c, d)
    };
    let t = form_text(name, a, b, c, d);
    assert(expr_text(ExprModel::Color(x)) == t);
    lemma_form_layout(name, a, b, c, d);
    assert(t[0] == name[0]);
    if rgb {
        assert(t.subrange(0, 4) =~= "rgba"@);
        assert(color_fn_at(t, 0) == Some((true, 4int)));
    } else {
        assert(t.subrange(0, 3) =~= t.subrange(0, 4).subrange(0, 3));
        assert(color_fn_at(t, 0) == Some((false, 4int)));
    }
    lemma_form_rule(t, rgb, a, b, c, d);
    lemma_digits_end_facts(t, 0);
    if starts_at(t, 0, "var(--"@) {
        assert(t.subrange(0, 6)[0] == 'v');
    }
    reveal(expr_rule);
    lemma_trim_unchanged(t);
}

/// The text written for an expression that was read, other than an asset
/// or hexadecimal channels, reads back as that expression.
pub proof fn lemma_expr_text_round_trip(x: ExprModel)
    requires
        readable_back(x),
    ensures
        expr_parse(expr_text(x)) == Some(x),
{
    match x {
        ExprModel::Ident(n) => lemma_ident_round_trip(n),
        ExprModel::Number(m) => lemma_number_round_trip(m),
        ExprModel::Length((u, m)) => lemma_length_round_trip(u, m),
        ExprModel::Var(n) => lemma_var_round_trip(n),
        ExprModel::Color(ColorValueModel::Rgb(a, b, c, d)) => lemma_color_form_round_trip(true, a, b, c, d),
        ExprModel::Color(ColorValueModel::Hsl(a, b, c, d)) => lemma_color_form_round_trip(false, a, b, c, d),
        _ => {},
    }
}

proof fn lemma_name_read(s: Seq<char>, i: int, k: int)
    requires
        0 <= i <= s.len(),
        name_end(s, i) == Some(k),
    ensures
        i < k <= s.len(),
        is_name(s.subrange(i, k)),
{
    lemma_name_rest_facts(s, i + 1);
    let n = s.subrange(i, k);
    assert forall|p: int| 1 <= p < n.len() implies name_char(#[trigger] n[p]) by {
        assert(n[p] == s[i + p]);
    }
}

proof fn lemma_one_is_number()
    ensures
        full_number(seq!['1']),
{
    let m = seq!['1'];
    assert(digits_end(m, 1) == 1);
    assert(digits_end(m, 0) == 1);
    assert(exponent_end(m, 1) is None);
}

/// What a rule of the grammar reads, other than an asset or hexadecimal
/// channels, can be read back from its text.
proof fn lemma_read_is_readable(s: Seq<char>, i: int)
    requires
        0 <= i <= s.len(),
        expr_rule(s, i) matches Outcome::Done(x, _) && !(x is Asset) && !(x matches ExprModel::Color(
            ColorValueModel::Hex(_, _, _, _),
        )),
    ensures
        expr_rule(s, i) matches Outcome::Done(x, _) && readable_back(x),
{
    reveal(expr_rule);
    if !(hex_rule(s, i) is Back) {
    } else if !(length_rule(s, i) is Back) {
        let n = number_end(s, i)->0;
        lemma_number_facts(s, i, n);
    } else if !(var_rule(s, i) is Back) {
        reveal_strlit("var(--");
        let j = i + "var(--"@.len();
        lemma_name_read(s, j, name_end(s, j)->0);
    } else if !(color_fn_rule(s, i) is Back) {
        lemma_one_is_number();
        let k = (color_fn_at(s, i)->0).1;
        lemma_space_end_bound(s, k);
        let p = space_end(s, k);
        lemma_space_end_bound(s, p + 1);
        let q = space_end(s, p + 1);
        let n1 = number_end(s, q)->0;
        lemma_number_facts(s, q, n1);
        lemma_space_end_bound(s, n1);
        lemma_after_comma_bound(s, space_end(s, n1));
        let r = after_comma(s, space_end(s, n1));
        let n2 = number_end(s, r)->0;
        lemma_number_facts(s, r, n2);
        lemma_space_end_bound(s, n2);
        lemma_after_comma_bound(s, space_end(s, n2));
        let t = after_comma(s, space_end(s, n2));
        let n3 = number_end(s, t)->0;
        lemma_number_facts(s, t, n3);
        lemma_space_end_bound(s, n3);
        let t1 = space_end(s, n3);
        let t2 = if 0 <= t1 < s.len() && (s[t1] == ',' || s[t1] == '/') {
            t1 + 1
        } else {
            t1
        };
        lemma_space_end_bound(s, t2);
        let t3 = space_end(s, t2);
        if number_end(s, t3) is Some {
            lemma_number_facts(s, t3, number_end(s, t3)->0);
        }
    } else if !(asset_rule(s, i) is Back) {
    } else {
        lemma_name_read(s, i, name_end(s, i)->0);
    }
}

proof fn lemma_space_end_bound(s: Seq<char>, i: int)
    requires
        0 <= i <= s.len(),
    ensures
        i <= space_end(s, i) <= s.len(),
    decreases s.len() - i,
{
    if i < s.len() && (s[i] == ' ' || s[i] == '\t') {
        lemma_space_end_bound(s, i + 1);
    }
}

proof fn lemma_after_comma_bound(s: Seq<char>, i: int)
    requires
        0 <= i <= s.len(),
    ensures
        i <= after_comma(s, i) <= s.len(),
{
    if 0 <= i < s.len() && s[i] == ',' {
        lemma_space_end_bound(s, i + 1);
    }
}

/// An expression read from a text, other than an asset or hexadecimal
/// channels, is read back from the text written for it.
pub proof fn lemma_parse_text_round_trip(input: Seq<char>, x: ExprModel)
    requires
        expr_parse(input) == Some(x),
        !(x is Asset),
        !(x matches ExprModel::Color(ColorValueModel::Hex(_, _, _, _))),
    ensures
        expr_parse(expr_text(x)) == Some(x),
{
    lemma_read_is_readable(trim(input), 0);
    lemma_expr_text_round_trip(x);
}

/// A color written in a functional form names its form: channels read as
/// `rgb(..)` are written as `rgba(r, g, b, a)`, hue, saturation and
/// lightness as `hsla(h, s, l, a)`; transparent is written `transparent`.
pub proof fn lemma_color_value_text_forms(a: Seq<char>, b: Seq<char>, c: Seq<char>, d: Seq<char>)
    ensures
        color_value_text(ColorValueModel::Rgb(a, b, c, d)) == seq!['r', 'g', 'b', 'a', '('] + a + seq![',', ' '] + b
            + seq![',', ' '] + c + seq![',', ' '] + d + seq![')'],
        color_value_text(ColorValueModel::Hsl(a, b, c, d)) == seq!['h', 's', 'l', 'a', '('] + a + seq![',', ' '] + b
            + seq![',', ' '] + c + seq![',', ' '] + d + seq![')'],
        color_value_text(ColorValueModel::Transparent) == "transparent"@,
{
    reveal_strlit("rgba");
    reveal_strlit("hsla");
    assert(color_value_text(ColorValueModel::Rgb(a, b, c, d)) =~= seq!['r', 'g', 'b', 'a', '('] + a + seq![',', ' '] + b
            + seq![',', ' '] + c + seq![',', ' '] + d + seq![')']);
    assert(color_value_text(ColorValueModel::Hsl(a, b, c, d)) =~= seq!['h', 's', 'l', 'a', '('] + a + seq![',', ' '] + b
            + seq![',', ' '] + c + seq![',', ' '] + d + seq![')']);
}

} // verus!
