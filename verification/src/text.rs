//! Character-level helpers shared by the parsers: decoding a `str` into
//! characters, building `String`s, and Unicode whitespace trimming.
use vstd::prelude::*;

verus! {

/// The characters of `s`, in order.
pub fn chars_of(s: &str) -> (v: Vec<char>)
    ensures
        v@ == s@,
{
    let mut v: Vec<char> = Vec::new();
    for c in it: s.chars()
        invariant
            v@ == it.seq().take(it.index() as int),
            it.seq() == s@,
    {
        v.push(c);
    }
    v
}

/// Appends one character to a string (std's `String::push`).
#[verifier::external_body]
pub fn push_char(s: &mut String, c: char)
    ensures
        final(s)@ == old(s)@.push(c),
{
    s.push(c);
}

/// Appends the characters `v[from..to]` to `out`.
pub fn push_chars(out: &mut String, v: &Vec<char>, from: usize, to: usize)
    requires
        from <= to <= v@.len(),
    ensures
        final(out)@ == old(out)@ + v@.subrange(from as int, to as int),
{
    let mut i = from;
    while i < to
        invariant
            from <= i <= to <= v@.len(),
            out@ == old(out)@ + v@.subrange(from as int, i as int),
        decreases to - i,
    {
        push_char(out, v[i]);
        assert(v@.subrange(from as int, (i + 1) as int) == v@.subrange(from as int, i as int).push(
            v@[i as int],
        ));
        i = i + 1;
    }
}

/// A new string holding the characters `v[from..to]`.
pub fn string_of(v: &Vec<char>, from: usize, to: usize) -> (s: String)
    requires
        from <= to <= v@.len(),
    ensures
        s@ == v@.subrange(from as int, to as int),
{
    let mut s = String::new();
    push_chars(&mut s, v, from, to);
    s
}

/// A new vector holding `v[from..to]`.
pub fn slice_chars(v: &Vec<char>, from: usize, to: usize) -> (r: Vec<char>)
    requires
        from <= to <= v@.len(),
    ensures
        r@ == v@.subrange(from as int, to as int),
{
    let mut r: Vec<char> = Vec::new();
    let mut i = from;
    while i < to
        invariant
            from <= i <= to <= v@.len(),
            r@ == v@.subrange(from as int, i as int),
        decreases to - i,
    {
        r.push(v[i]);
        assert(v@.subrange(from as int, (i + 1) as int) == v@.subrange(from as int, i as int).push(
            v@[i as int],
        ));
        i = i + 1;
    }
    r
}

/// Appends the characters of `t` to `out`.
pub fn push_str(out: &mut String, t: &str)
    ensures
        final(out)@ == old(out)@ + t@,
{
    let v = chars_of(t);
    push_chars(out, &v, 0, v.len());
    assert(v@.subrange(0, v@.len() as int) == v@);
}

/// The Unicode `White_Space` property, which `char::is_whitespace` tests.
pub open spec fn is_white_space(c: char) -> bool {
    ||| ('\u{9}' <= c && c <= '\u{d}')
    ||| c == ' '
    ||| c == '\u{85}'
    ||| c == '\u{a0}'
    ||| c == '\u{1680}'
    ||| ('\u{2000}' <= c && c <= '\u{200a}')
    ||| c == '\u{2028}'
    ||| c == '\u{2029}'
    ||| c == '\u{202f}'
    ||| c == '\u{205f}'
    ||| c == '\u{3000}'
}

/// Tests the Unicode `White_Space` property of a character.
pub fn white_space(c: char) -> (b: bool)
    ensures
        b == is_white_space(c),
{
    ('\u{9}' <= c && c <= '\u{d}') || c == ' ' || c == '\u{85}' || c == '\u{a0}' || c == '\u{1680}'
        || ('\u{2000}' <= c && c <= '\u{200a}') || c == '\u{2028}' || c == '\u{2029}' || c
        == '\u{202f}' || c == '\u{205f}' || c == '\u{3000}'
}

/// `s` with leading whitespace removed (as `str::trim_start`).
pub open spec fn trim_start(s: Seq<char>) -> Seq<char>
    decreases s.len(),
{
    if s.len() > 0 && is_white_space(s[0]) {
        trim_start(s.drop_first())
    } else {
        s
    }
}

/// `s` with trailing whitespace removed (as `str::trim_end`).
pub open spec fn trim_end(s: Seq<char>) -> Seq<char>
    decreases s.len(),
{
    if s.len() > 0 && is_white_space(s.last()) {
        trim_end(s.drop_last())
    } else {
        s
    }
}

/// `s` with leading and trailing whitespace removed (as `str::trim`).
pub open spec fn trim(s: Seq<char>) -> Seq<char> {
    trim_end(trim_start(s))
}

proof fn lemma_trim_start_skip(s: Seq<char>, i: int)
    requires
        0 <= i <= s.len(),
        forall|k: int| 0 <= k < i ==> is_white_space(#[trigger] s[k]),
    ensures
        trim_start(s.skip(i)) == trim_start(s),
    decreases i,
{
    if i > 0 {
        lemma_trim_start_skip(s, i - 1);
        assert(s.skip(i - 1).drop_first() == s.skip(i));
        assert(s.skip(i - 1)[0] == s[i - 1]);
        assert(is_white_space(s[i - 1]));
    } else {
        assert(s.skip(i) == s);
    }
}

proof fn lemma_trim_end_take(s: Seq<char>, j: int)
    requires
        0 <= j <= s.len(),
        forall|k: int| j <= k < s.len() ==> is_white_space(#[trigger] s[k]),
    ensures
        trim_end(s.take(j)) == trim_end(s),
    decreases s.len() - j,
{
    if j < s.len() {
        lemma_trim_end_take(s, j + 1);
        assert(s.take(j + 1).drop_last() == s.take(j));
        assert(s.take(j + 1).last() == s[j]);
        assert(is_white_space(s[j]));
    } else {
        assert(s.take(j) == s);
    }
}

/// The bounds `(a, b)` of `trim(v)` inside `v`.
pub fn trim_bounds(v: &Vec<char>) -> (r: (usize, usize))
    ensures
        r.0 <= r.1 <= v@.len(),
        v@.subrange(r.0 as int, r.1 as int) == trim(v@),
{
    let mut a: usize = 0;
    while a < v.len() && white_space(v[a])
        invariant
            a <= v@.len(),
            forall|k: int| 0 <= k < a ==> is_white_space(#[trigger] v@[k]),
        decreases v.len() - a,
    {
        a = a + 1;
    }
    proof {
        lemma_trim_start_skip(v@, a as int);
    }
    let mut b: usize = v.len();
    while b > a && white_space(v[b - 1])
        invariant
            a <= b <= v@.len(),
            forall|k: int| b <= k < v@.len() ==> is_white_space(#[trigger] v@[k]),
        decreases b,
    {
        b = b - 1;
    }
    proof {
        let t = v@.skip(a as int);
        assert(trim_start(t) == t);
        assert forall|k: int| b - a <= k < t.len() implies is_white_space(#[trigger] t[k]) by {
            assert(t[k] == v@[k + a]);
        }
        lemma_trim_end_take(t, b - a);
        assert(t.take(b - a) == v@.subrange(a as int, b as int));
        let u = t.take(b - a);
        if u.len() > 0 {
            assert(u.last() == v@[b - 1]);
        }
        assert(trim_end(u) == u);
    }
    (a, b)
}

/// The words of `s` after `cur`, a word being read: the maximal runs of
/// characters that are not whitespace.
pub open spec fn words_from(s: Seq<char>, cur: Seq<char>) -> Seq<Seq<char>>
    decreases s.len(),
{
    if s.len() == 0 {
        if cur.len() > 0 {
            seq![cur]
        } else {
            Seq::empty()
        }
    } else if is_white_space(s[0]) {
        (if cur.len() > 0 {
            seq![cur]
        } else {
            Seq::empty()
        }) + words_from(s.drop_first(), Seq::empty())
    } else {
        words_from(s.drop_first(), cur.push(s[0]))
    }
}

/// The words of `s`, as `str::split_whitespace` yields them.
pub open spec fn words(s: Seq<char>) -> Seq<Seq<char>> {
    words_from(s, Seq::empty())
}

/// The words of `s`, in order.
pub fn split_words(s: &str) -> (r: Vec<String>)
    ensures
        r@.map_values(|w: String| w@) == words(s@),
{
    let v = chars_of(s);
    let mut out: Vec<String> = Vec::new();
    let mut cur = String::new();
    let mut reading = false;
    let mut i: usize = 0;
    assert(v@.skip(0) == v@);
    assert(cur@ == Seq::<char>::empty());
    assert(out@.map_values(|w: String| w@) + words_from(v@, cur@) == words_from(v@, cur@));
    while i < v.len()
        invariant
            v@ == s@,
            i <= v@.len(),
            reading == (cur@.len() > 0),
            out@.map_values(|w: String| w@) + words_from(v@.skip(i as int), cur@) == words(s@),
        decreases v@.len() - i,
    {
        let ghost rest = v@.skip(i as int);
        assert(rest.drop_first() == v@.skip(i + 1));
        assert(rest[0] == v@[i as int]);
        if white_space(v[i]) {
            if reading {
                let ghost before = out@.map_values(|w: String| w@);
                let w = cur;
                cur = String::new();
                reading = false;
                out.push(w);
                assert(out@.map_values(|w: String| w@) == before.push(w@));
                assert(before + (seq![w@] + words_from(v@.skip(i + 1), Seq::empty())) == before.push(w@)
                    + words_from(v@.skip(i + 1), Seq::empty()));
            } else {
                proof {
                    assert(cur@.len() == 0);
                    assert(cur@ == Seq::<char>::empty());
                    assert(Seq::<Seq<char>>::empty() + words_from(v@.skip(i + 1), Seq::empty())
                        == words_from(v@.skip(i + 1), Seq::empty()));
                }
            }
        } else {
            push_char(&mut cur, v[i]);
            reading = true;
        }
        i = i + 1;
    }
    proof {
        assert(v@.skip(i as int).len() == 0);
    }
    if reading {
        let ghost before = out@.map_values(|w: String| w@);
        out.push(cur);
        assert(out@.map_values(|w: String| w@) == before + seq![out@.last()@]);
    } else {
        proof {
            assert(cur@.len() == 0);
        }
        assert(out@.map_values(|w: String| w@) + Seq::<Seq<char>>::empty() == out@.map_values(
            |w: String| w@,
        ));
    }
    out
}

/// `s` with leading and trailing whitespace removed.
pub fn trim_str(s: &str) -> (r: String)
    ensures
        r@ == trim(s@),
{
    let v = chars_of(s);
    let (a, b) = trim_bounds(&v);
    string_of(&v, a, b)
}

} // verus!

verus! {

/// The character that a backslash escape stands for in a quoted string of a
/// template: `\n`, `\r`, `\t`, and `\`, quotes, `$`, backquote and space
/// standing for themselves; none for any other character.
pub open spec fn escaped_char(c: char) -> Option<char> {
    if c == 'n' {
        Some('\n')
    } else if c == 'r' {
        Some('\r')
    } else if c == 't' {
        Some('\t')
    } else if c == '\\' || c == '\'' || c == '"' || c == '$' || c == '`' || c == ' ' {
        Some(c)
    } else {
        None
    }
}

/// The text of a quoted string with its escapes resolved; none where a
/// backslash ends the text or escapes a character that has no escape.
pub open spec fn unescape(s: Seq<char>) -> Option<Seq<char>>
    decreases s.len(),
{
    if s.len() == 0 {
        Some(Seq::empty())
    } else if s[0] == '\\' {
        if s.len() < 2 {
            None
        } else {
            match escaped_char(s[1]) {
                None => None,
                Some(c) => match unescape(s.skip(2)) {
                    Some(r) => Some(seq![c] + r),
                    None => None,
                },
            }
        }
    } else {
        match unescape(s.skip(1)) {
            Some(r) => Some(seq![s[0]] + r),
            None => None,
        }
    }
}

/// `p` before the text of `o`, where there is one.
pub open spec fn prefixed(p: Seq<char>, o: Option<Seq<char>>) -> Option<Seq<char>> {
    match o {
        Some(r) => Some(p + r),
        None => None,
    }
}

fn escaped_char_x(c: char) -> (r: Option<char>)
    ensures
        r == escaped_char(c),
{
    if c == 'n' {
        Some('\n')
    } else if c == 'r' {
        Some('\r')
    } else if c == 't' {
        Some('\t')
    } else if c == '\\' || c == '\'' || c == '"' || c == '$' || c == '`' || c == ' ' {
        Some(c)
    } else {
        None
    }
}

/// Resolves the escapes of the text of a quoted string.
pub fn unescape_string(raw: &str) -> (r: Option<String>)
    ensures
        match r {
            Some(t) => unescape(raw@) == Some(t@),
            None => unescape(raw@) is None,
        },
{
    let v = chars_of(raw);
    let mut out = String::new();
    let mut i: usize = 0;
    assert(v@.skip(0) == v@);
    while i < v.len()
        invariant
            i <= v@.len(),
            v@ == raw@,
            unescape(v@) == prefixed(out@, unescape(v@.skip(i as int))),
        decreases v@.len() - i,
    {
        let ghost rest = v@.skip(i as int);
        if v[i] == '\\' {
            if i + 1 >= v.len() {
                assert(rest.len() < 2);
                return None;
            }
            match escaped_char_x(v[i + 1]) {
                None => {
                    assert(rest[1] == v@[i + 1]);
                    return None;
                },
                Some(c) => {
                    proof {
                        assert(rest[1] == v@[i + 1]);
                        assert(rest.skip(2) == v@.skip(i + 2));
                        assert(prefixed(out@, prefixed(seq![c], unescape(rest.skip(2)))) == prefixed(out@.push(c), unescape(rest.skip(2)))) by {
                            assert(out@ + seq![c] == out@.push(c));
                            if let Some(r) = unescape(rest.skip(2)) {
                                assert(out@ + (seq![c] + r) == out@.push(c) + r);
                            }
                        }
                    }
                    push_char(&mut out, c);
                    i = i + 2;
                },
            }
        } else {
            let c = v[i];
            proof {
                assert(rest[0] == c);
                assert(rest.skip(1) == v@.skip(i + 1));
                if let Some(r) = unescape(rest.skip(1)) {
                    assert(out@ + (seq![c] + r) == out@.push(c) + r);
                }
            }
            push_char(&mut out, c);
            i = i + 1;
        }
    }
    assert(v@.skip(i as int) == Seq::<char>::empty());
    assert(out@ + Seq::<char>::empty() == out@);
    Some(out)
}

} // verus!
