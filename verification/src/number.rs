//! Reading numbers from text, as `i32::from_str`, `i16::from_str`,
//! `u16::from_str` and `f32::from_str` read them.
use vstd::prelude::*;
use crate::text::{chars_of, push_char};

verus! {

pub open spec fn is_digit(c: char) -> bool {
    '0' <= c && c <= '9'
}

pub open spec fn all_digits(s: Seq<char>) -> bool {
    forall|i: int| 0 <= i < s.len() ==> is_digit(#[trigger] s[i])
}

/// The value of a string of decimal digits.
pub open spec fn digits_value(s: Seq<char>) -> int
    decreases s.len(),
{
    if s.len() == 0 {
        0
    } else {
        digits_value(s.drop_last()) * 10 + (s.last() as int - '0' as int)
    }
}

/// The integer that `s` writes: an optional `+` (or `-`, where `signed`)
/// followed by at least one decimal digit and nothing else.
pub open spec fn int_text_value(s: Seq<char>, signed: bool) -> Option<int> {
    if s.len() == 0 {
        None
    } else {
        let neg = signed && s[0] == '-';
        let digits = if s[0] == '+' || neg {
            s.drop_first()
        } else {
            s
        };
        if digits.len() == 0 || !all_digits(digits) {
            None
        } else if neg {
            Some(-digits_value(digits))
        } else {
            Some(digits_value(digits))
        }
    }
}

/// What `i32::from_str` gives for `s`.
pub open spec fn parse_i32_spec(s: Seq<char>) -> Option<i32> {
    match int_text_value(s, true) {
        Some(v) => if i32::MIN <= v <= i32::MAX {
            Some(v as i32)
        } else {
            None
        },
        None => None,
    }
}

/// What `i16::from_str` gives for `s`.
pub open spec fn parse_i16_spec(s: Seq<char>) -> Option<i16> {
    match int_text_value(s, true) {
        Some(v) => if i16::MIN <= v <= i16::MAX {
            Some(v as i16)
        } else {
            None
        },
        None => None,
    }
}

/// What `u16::from_str` gives for `s`.
pub open spec fn parse_u16_spec(s: Seq<char>) -> Option<u16> {
    match int_text_value(s, false) {
        Some(v) => if 0 <= v <= u16::MAX {
            Some(v as u16)
        } else {
            None
        },
        None => None,
    }
}

proof fn lemma_digits_value_nonneg(s: Seq<char>)
    requires
        all_digits(s),
    ensures
        digits_value(s) >= 0,
    decreases s.len(),
{
    if s.len() > 0 {
        lemma_digits_value_nonneg(s.drop_last());
        assert(is_digit(s[s.len() - 1]));
    }
}

/// Reads the integer that `v` writes, where it lies in `[lo, hi]`.
fn parse_int_in(v: &Vec<char>, signed: bool, lo: i64, hi: i64) -> (r: Option<i64>)
    requires
        -100_000_000_000 <= lo <= 0 <= hi <= 100_000_000_000,
    ensures
        r matches Some(x) ==> int_text_value(v@, signed) == Some(x as int) && lo <= x <= hi,
        r is None ==> match int_text_value(v@, signed) {
            Some(x) => x < lo || x > hi,
            None => true,
        },
{
    if v.len() == 0 {
        return None;
    }
    let neg = signed && v[0] == '-';
    let start: usize = if v[0] == '+' || neg {
        1
    } else {
        0
    };
    let ghost digits = v@.skip(start as int);
    proof {
        if start == 1 {
            assert(digits == v@.drop_first());
        } else {
            assert(digits == v@);
        }
    }
    if start == v.len() {
        return None;
    }
    // The magnitude allowed by the bounds.
    let limit: i64 = if neg {
        -lo
    } else {
        hi
    };
    let mut acc: i64 = 0;
    let mut over = false;
    let mut i = start;
    while i < v.len()
        invariant
            start <= i <= v@.len(),
            digits == v@.skip(start as int),
            0 <= limit <= 100_000_000_000,
            neg == (signed && v@[0] == '-'),
            start == (if v@[0] == '+' || neg { 1usize } else { 0usize }),
            all_digits(v@.subrange(start as int, i as int)),
            !over ==> acc == digits_value(v@.subrange(start as int, i as int)) && 0 <= acc <= limit,
            over ==> digits_value(v@.subrange(start as int, i as int)) > limit,
        decreases v@.len() - i,
    {
        let c = v[i];
        if !('0' <= c && c <= '9') {
            proof {
                assert(digits[i - start] == c);
                assert(!is_digit(digits[i - start]));
            }
            return None;
        }
        let d = (c as u32 - '0' as u32) as i64;
        let ghost pre = v@.subrange(start as int, i as int);
        let ghost nxt = v@.subrange(start as int, i + 1);
        proof {
            assert(nxt.drop_last() == pre);
            assert(nxt.last() == c);
            assert(digits_value(nxt) == digits_value(pre) * 10 + d);
            assert forall|j: int| 0 <= j < nxt.len() implies is_digit(#[trigger] nxt[j]) by {
                if j < pre.len() {
                    assert(nxt[j] == pre[j]);
                }
            }
            lemma_digits_value_nonneg(pre);
        }
        if !over {
            let n = acc * 10 + d;
            if n > limit {
                over = true;
            } else {
                acc = n;
            }
        } else {
            assert(digits_value(pre) * 10 + d > limit) by (nonlinear_arith)
                requires
                    digits_value(pre) > limit,
                    0 <= d,
                    0 <= limit,
            ;
        }
        i = i + 1;
    }
    proof {
        assert(v@.subrange(start as int, v@.len() as int) == digits);
    }
    if over {
        None
    } else if neg {
        Some(-acc)
    } else {
        Some(acc)
    }
}

/// Reads an `i32` as `i32::from_str` does.
pub fn parse_i32(s: &str) -> (r: Option<i32>)
    ensures
        r == parse_i32_spec(s@),
{
    let v = chars_of(s);
    match parse_int_in(&v, true, i32::MIN as i64, i32::MAX as i64) {
        Some(x) => Some(x as i32),
        None => None,
    }
}

/// Reads an `i16` as `i16::from_str` does.
pub fn parse_i16(s: &str) -> (r: Option<i16>)
    ensures
        r == parse_i16_spec(s@),
{
    let v = chars_of(s);
    match parse_int_in(&v, true, i16::MIN as i64, i16::MAX as i64) {
        Some(x) => Some(x as i16),
        None => None,
    }
}

/// Reads a `u16` as `u16::from_str` does.
pub fn parse_u16(s: &str) -> (r: Option<u16>)
    ensures
        r == parse_u16_spec(s@),
{
    let v = chars_of(s);
    match parse_int_in(&v, false, 0, u16::MAX as i64) {
        Some(x) => Some(x as u16),
        None => None,
    }
}

/// The index of the first `a` or `b` in `s`, or `s.len()`.
pub open spec fn first_of(s: Seq<char>, a: char, b: char) -> int
    decreases s.len(),
{
    if s.len() == 0 {
        0
    } else if s[0] == a || s[0] == b {
        0
    } else {
        1 + first_of(s.drop_first(), a, b)
    }
}

/// The digits of a float: digits, optionally a `.` and more digits, with at
/// least one digit in all.
pub open spec fn mantissa_ok(m: Seq<char>) -> bool {
    let p = first_of(m, '.', '.');
    if p >= m.len() {
        m.len() > 0 && all_digits(m)
    } else {
        all_digits(m.take(p)) && all_digits(m.skip(p + 1)) && m.len() >= 2
    }
}

pub open spec fn exponent_ok(x: Seq<char>) -> bool {
    let y = if x.len() > 0 && (x[0] == '+' || x[0] == '-') {
        x.drop_first()
    } else {
        x
    };
    y.len() > 0 && all_digits(y)
}

pub open spec fn decimal_ok(u: Seq<char>) -> bool {
    let q = first_of(u, 'e', 'E');
    if q >= u.len() {
        mantissa_ok(u)
    } else {
        mantissa_ok(u.take(q)) && exponent_ok(u.skip(q + 1))
    }
}

/// `s` spells the word whose lower-case letters are `w` and upper-case
/// letters are `u`, each letter in either case.
pub open spec fn word_ci(s: Seq<char>, w: Seq<char>, u: Seq<char>) -> bool {
    &&& s.len() == w.len()
    &&& forall|i: int| 0 <= i < s.len() ==> (#[trigger] s[i] == w[i] || s[i] == u[i])
}

/// The text of a float that `f32::from_str` accepts: an optional sign, then
/// `inf`, `infinity`, `nan` (in any case) or a decimal number with an
/// optional exponent.
pub open spec fn float_text(s: Seq<char>) -> bool {
    let u = if s.len() > 0 && (s[0] == '+' || s[0] == '-') {
        s.drop_first()
    } else {
        s
    };
    ||| word_ci(u, seq!['i', 'n', 'f'], seq!['I', 'N', 'F'])
    ||| word_ci(
        u,
        seq!['i', 'n', 'f', 'i', 'n', 'i', 't', 'y'],
        seq!['I', 'N', 'F', 'I', 'N', 'I', 'T', 'Y'],
    )
    ||| word_ci(u, seq!['n', 'a', 'n'], seq!['N', 'A', 'N'])
    ||| decimal_ok(u)
}

fn first_of_in(v: &Vec<char>, lo: usize, hi: usize, a: char, b: char) -> (k: usize)
    requires
        lo <= hi <= v@.len(),
    ensures
        lo <= k <= hi,
        k - lo == first_of(v@.subrange(lo as int, hi as int), a, b),
{
    let mut k = lo;
    while k < hi && v[k] != a && v[k] != b
        invariant
            lo <= k <= hi <= v@.len(),
            first_of(v@.subrange(lo as int, hi as int), a, b) == (k - lo) + first_of(
                v@.subrange(k as int, hi as int),
                a,
                b,
            ),
        decreases hi - k,
    {
        assert(v@.subrange(k as int, hi as int).drop_first() == v@.subrange(k + 1, hi as int));
        k = k + 1;
    }
    proof {
        if k < hi {
            assert(v@.subrange(k as int, hi as int)[0] == v@[k as int]);
        }
    }
    k
}

fn digits_in(v: &Vec<char>, lo: usize, hi: usize) -> (r: bool)
    requires
        lo <= hi <= v@.len(),
    ensures
        r == all_digits(v@.subrange(lo as int, hi as int)),
{
    let mut k = lo;
    while k < hi
        invariant
            lo <= k <= hi <= v@.len(),
            forall|j: int| lo <= j < k ==> is_digit(#[trigger] v@[j]),
        decreases hi - k,
    {
        if !('0' <= v[k] && v[k] <= '9') {
            assert(v@.subrange(lo as int, hi as int)[k - lo] == v@[k as int]);
            return false;
        }
        k = k + 1;
    }
    assert forall|j: int| 0 <= j < hi - lo implies is_digit(
        #[trigger] v@.subrange(lo as int, hi as int)[j],
    ) by {
        assert(v@.subrange(lo as int, hi as int)[j] == v@[lo + j]);
    }
    true
}

fn word_ci_in(v: &Vec<char>, lo: usize, hi: usize, w: &[char], u: &[char]) -> (r: bool)
    requires
        lo <= hi <= v@.len(),
        w@.len() == u@.len(),
    ensures
        r == word_ci(v@.subrange(lo as int, hi as int), w@, u@),
{
    if hi - lo != w.len() {
        return false;
    }
    let mut k: usize = 0;
    while k < w.len()
        invariant
            hi - lo == w@.len() == u@.len(),
            lo <= hi <= v@.len(),
            k <= w@.len(),
            forall|j: int| 0 <= j < k ==> (#[trigger] v@[lo + j] == w@[j] || v@[lo + j] == u@[j]),
        decreases w@.len() - k,
    {
        let c = v[lo + k];
        if !(c == w[k] || c == u[k]) {
            assert(v@.subrange(lo as int, hi as int)[k as int] == c);
            return false;
        }
        k = k + 1;
    }
    assert forall|j: int| 0 <= j < hi - lo implies (#[trigger] v@.subrange(lo as int, hi as int)[j]
        == w@[j] || v@.subrange(lo as int, hi as int)[j] == u@[j]) by {
        assert(v@.subrange(lo as int, hi as int)[j] == v@[lo + j]);
    }
    true
}

fn mantissa_ok_in(v: &Vec<char>, lo: usize, hi: usize) -> (r: bool)
    requires
        lo <= hi <= v@.len(),
    ensures
        r == mantissa_ok(v@.subrange(lo as int, hi as int)),
{
    let ghost m = v@.subrange(lo as int, hi as int);
    let p = first_of_in(v, lo, hi, '.', '.');
    if p >= hi {
        hi > lo && digits_in(v, lo, hi)
    } else {
        proof {
            assert(m.take(p - lo) == v@.subrange(lo as int, p as int));
            assert(m.skip(p - lo + 1) == v@.subrange(p + 1, hi as int));
        }
        digits_in(v, lo, p) && digits_in(v, p + 1, hi) && hi - lo >= 2
    }
}

fn exponent_ok_in(v: &Vec<char>, lo: usize, hi: usize) -> (r: bool)
    requires
        lo <= hi <= v@.len(),
    ensures
        r == exponent_ok(v@.subrange(lo as int, hi as int)),
{
    let ghost x = v@.subrange(lo as int, hi as int);
    let start = if lo < hi && (v[lo] == '+' || v[lo] == '-') {
        lo + 1
    } else {
        lo
    };
    proof {
        if lo < hi {
            assert(x[0] == v@[lo as int]);
        }
        if start == lo + 1 {
            assert(x.drop_first() == v@.subrange(start as int, hi as int));
        }
    }
    start < hi && digits_in(v, start, hi)
}

/// Whether `s` is the text of a float that `f32::from_str` accepts.
pub fn is_float_text(s: &str) -> (r: bool)
    ensures
        r == float_text(s@),
{
    let v = chars_of(s);
    let n = v.len();
    let lo: usize = if n > 0 && (v[0] == '+' || v[0] == '-') {
        1
    } else {
        0
    };
    let ghost u = v@.subrange(lo as int, n as int);
    proof {
        if lo == 1 {
            assert(u == v@.drop_first());
        } else {
            assert(u == v@);
        }
    }
    let inf: [char; 3] = ['i', 'n', 'f'];
    let inf_u: [char; 3] = ['I', 'N', 'F'];
    let infinity: [char; 8] = ['i', 'n', 'f', 'i', 'n', 'i', 't', 'y'];
    let infinity_u: [char; 8] = ['I', 'N', 'F', 'I', 'N', 'I', 'T', 'Y'];
    let nan: [char; 3] = ['n', 'a', 'n'];
    let nan_u: [char; 3] = ['N', 'A', 'N'];
    assert(inf@ =~= seq!['i', 'n', 'f']);
    assert(inf_u@ =~= seq!['I', 'N', 'F']);
    assert(infinity@ =~= seq!['i', 'n', 'f', 'i', 'n', 'i', 't', 'y']);
    assert(infinity_u@ =~= seq!['I', 'N', 'F', 'I', 'N', 'I', 'T', 'Y']);
    assert(nan@ =~= seq!['n', 'a', 'n']);
    assert(nan_u@ =~= seq!['N', 'A', 'N']);
    if word_ci_in(&v, lo, n, &inf, &inf_u) || word_ci_in(&v, lo, n, &infinity, &infinity_u)
        || word_ci_in(&v, lo, n, &nan, &nan_u) {
        return true;
    }
    let q = first_of_in(&v, lo, n, 'e', 'E');
    if q >= n {
        mantissa_ok_in(&v, lo, n)
    } else {
        proof {
            assert(u.take(q - lo) == v@.subrange(lo as int, q as int));
            assert(u.skip(q - lo + 1) == v@.subrange(q + 1, n as int));
        }
        mantissa_ok_in(&v, lo, q) && exponent_ok_in(&v, q + 1, n)
    }
}

/// The decimal digit for `d`, which is below ten.
pub open spec fn digit_char(d: int) -> char {
    if d == 0 {
        '0'
    } else if d == 1 {
        '1'
    } else if d == 2 {
        '2'
    } else if d == 3 {
        '3'
    } else if d == 4 {
        '4'
    } else if d == 5 {
        '5'
    } else if d == 6 {
        '6'
    } else if d == 7 {
        '7'
    } else if d == 8 {
        '8'
    } else {
        '9'
    }
}

/// The decimal text of `n`, without leading zeros.
pub open spec fn nat_text(n: nat) -> Seq<char>
    decreases n,
{
    if n < 10 {
        seq![digit_char(n as int)]
    } else {
        nat_text(n / 10).push(digit_char((n % 10) as int))
    }
}

/// The decimal text of `n`, as `to_string` writes an integer.
pub open spec fn int_text(n: int) -> Seq<char> {
    if n < 0 {
        seq!['-'] + nat_text((-n) as nat)
    } else {
        nat_text(n as nat)
    }
}

proof fn lemma_digit_char(d: int)
    requires
        0 <= d < 10,
    ensures
        is_digit(digit_char(d)),
        digit_char(d) as int - '0' as int == d,
{
}

/// The decimal text of a number reads back as that number.
pub proof fn lemma_nat_text(n: nat)
    ensures
        nat_text(n).len() > 0,
        all_digits(nat_text(n)),
        digits_value(nat_text(n)) == n,
    decreases n,
{
    if n < 10 {
        lemma_digit_char(n as int);
        let t = nat_text(n);
        assert(t.drop_last().len() == 0);
        assert(digits_value(t.drop_last()) == 0);
    } else {
        lemma_nat_text(n / 10);
        lemma_digit_char((n % 10) as int);
        let t = nat_text(n);
        assert(t.drop_last() == nat_text(n / 10));
        assert((n / 10) * 10 + n % 10 == n) by (nonlinear_arith);
        assert forall|i: int| 0 <= i < t.len() implies is_digit(#[trigger] t[i]) by {
            if i < t.len() - 1 {
                assert(t[i] == nat_text(n / 10)[i]);
            }
        }
    }
}

/// The text that `to_string` writes for an integer reads back as it.
pub proof fn lemma_int_text_round_trip(n: int)
    ensures
        int_text_value(int_text(n), true) == Some(n),
        n >= 0 ==> int_text_value(int_text(n), false) == Some(n),
{
    if n < 0 {
        let m = (-n) as nat;
        lemma_nat_text(m);
        let t = int_text(n);
        assert(t.drop_first() == nat_text(m));
    } else {
        lemma_nat_text(n as nat);
        let t = nat_text(n as nat);
        assert(is_digit(t[0]));
    }
}

fn digit(d: u64) -> (c: char)
    requires
        d < 10,
    ensures
        c == digit_char(d as int),
{
    if d == 0 {
        '0'
    } else if d == 1 {
        '1'
    } else if d == 2 {
        '2'
    } else if d == 3 {
        '3'
    } else if d == 4 {
        '4'
    } else if d == 5 {
        '5'
    } else if d == 6 {
        '6'
    } else if d == 7 {
        '7'
    } else if d == 8 {
        '8'
    } else {
        '9'
    }
}

fn push_nat_text(out: &mut String, n: u64)
    ensures
        final(out)@ == old(out)@ + nat_text(n as nat),
    decreases n,
{
    if n < 10 {
        push_char(out, digit(n));
    } else {
        push_nat_text(out, n / 10);
        push_char(out, digit(n % 10));
        assert(old(out)@ + nat_text((n / 10) as nat) + seq![digit_char((n % 10) as int)] == old(out)@
            + nat_text(n as nat));
    }
}

/// The decimal text of `n`.
pub fn int_to_text(n: i64) -> (r: String)
    requires
        n > i64::MIN,
    ensures
        r@ == int_text(n as int),
{
    let mut out = String::new();
    if n < 0 {
        push_char(&mut out, '-');
        push_nat_text(&mut out, (-n) as u64);
    } else {
        push_nat_text(&mut out, n as u64);
    }
    out
}

} // verus!
