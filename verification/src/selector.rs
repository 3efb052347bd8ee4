//! Style selectors: a predicate which conditionally applies a style to a node.
//!
//! Selectors support a subset of CSS grammar:
//!
//! ```text
//!   &
//!   &.name
//!   .state > &
//!   .state > * > &.name
//!   &.a, .b
//! ```
//!
//! A selector is read as a chain of compound selectors separated by `>`; the
//! leftmost compound is the innermost node of the tree. Alternatives separated
//! by `,` form an `Either`.
use vstd::prelude::*;
use crate::text::{chars_of, push_char, push_chars, push_str, slice_chars, string_of, trim, trim_bounds};

verus! {

/// Represents a predicate which can be used to conditionally style a node.
#[derive(Debug, PartialEq)]
pub enum Selector {
    /// If we reach this state, it means the match was successful
    Accept,
    /// Match an element with a specific class name.
    Class(String, Box<Selector>),
    /// Reference to the current element.
    Current(Box<Selector>),
    /// Reference to the parent of this element.
    Parent(Box<Selector>),
    /// List of alternate choices.
    Either(Vec<Box<Selector>>),
}

/// The mathematical value of a `Selector`.
pub enum SelectorView {
    Accept,
    Class(Seq<char>, Box<SelectorView>),
    Current(Box<SelectorView>),
    Parent(Box<SelectorView>),
    Either(Seq<SelectorView>),
}

pub open spec fn selector_view(s: Selector) -> SelectorView
    decreases s,
{
    match s {
        Selector::Accept => SelectorView::Accept,
        Selector::Class(n, p) => SelectorView::Class(n@, Box::new(selector_view(*p))),
        Selector::Current(p) => SelectorView::Current(Box::new(selector_view(*p))),
        Selector::Parent(p) => SelectorView::Parent(Box::new(selector_view(*p))),
        Selector::Either(items) => SelectorView::Either(
            Seq::new(
                items@.len(),
                |i: int|
                    if 0 <= i < items@.len() {
                        selector_view(*items@[i])
                    } else {
                        SelectorView::Accept
                    },
            ),
        ),
    }
}

impl View for Selector {
    type V = SelectorView;

    open spec fn view(&self) -> SelectorView {
        selector_view(*self)
    }
}

// ---------------------------------------------------------------------------
// Grammar
// ---------------------------------------------------------------------------

/// Characters skipped around `>` and `,` (space or tab).
pub open spec fn is_space(c: char) -> bool {
    c == ' ' || c == '\t'
}

pub open spec fn is_alpha(c: char) -> bool {
    ('a' <= c && c <= 'z') || ('A' <= c && c <= 'Z')
}

pub open spec fn is_digit(c: char) -> bool {
    '0' <= c && c <= '9'
}

/// Characters allowed after the first character of a class name.
pub open spec fn is_name_char(c: char) -> bool {
    is_alpha(c) || is_digit(c) || c == '-' || c == '_'
}

pub open spec fn skip_spaces(s: Seq<char>) -> Seq<char>
    decreases s.len(),
{
    if s.len() > 0 && is_space(s[0]) {
        skip_spaces(s.drop_first())
    } else {
        s
    }
}

/// Length of the run of name characters at the start of `s`.
pub open spec fn name_run(s: Seq<char>) -> nat
    decreases s.len(),
{
    if s.len() > 0 && is_name_char(s[0]) {
        1 + name_run(s.drop_first())
    } else {
        0
    }
}

/// A class name starts here: `.` followed by a letter.
pub open spec fn class_at(s: Seq<char>) -> bool {
    s.len() >= 2 && s[0] == '.' && is_alpha(s[1])
}

/// Where the class name that starts at `s` ends.
pub open spec fn class_end(s: Seq<char>) -> int {
    2 + name_run(s.skip(2)) as int
}

pub proof fn lemma_name_run_le(s: Seq<char>)
    ensures
        name_run(s) <= s.len(),
    decreases s.len(),
{
    if s.len() > 0 && is_name_char(s[0]) {
        lemma_name_run_le(s.drop_first());
    }
}

/// The class names at the start of `s`, and what follows them.
pub open spec fn class_list(s: Seq<char>) -> (Seq<Seq<char>>, Seq<char>)
    decreases s.len(),
{
    if class_at(s) {
        proof {
            lemma_name_run_le(s.skip(2));
        }
        let n = class_end(s);
        let rest = class_list(s.skip(n));
        (seq![s.subrange(1, n)] + rest.0, rest.1)
    } else {
        (Seq::empty(), s)
    }
}

/// A compound selector: whether it holds `&`, and its class names.
pub type Compound = (bool, Seq<Seq<char>>);

pub open spec fn prefix_len(s: Seq<char>) -> int {
    if s.len() > 0 && (s[0] == '&' || s[0] == '*') {
        1
    } else {
        0
    }
}

/// The compound selector at the start of `s`: an optional `&` or `*`, then
/// class names.
pub open spec fn compound(s: Seq<char>) -> (Compound, Seq<char>) {
    let amp = s.len() > 0 && s[0] == '&';
    let r = class_list(s.skip(prefix_len(s)));
    ((amp, r.0), r.1)
}

/// `s` starts with optional spaces and then `mark`.
pub open spec fn mark_at(s: Seq<char>, mark: char) -> bool {
    let t = skip_spaces(s);
    t.len() > 0 && t[0] == mark
}

/// What follows optional spaces, one character and optional spaces.
pub open spec fn after_mark(s: Seq<char>) -> Seq<char> {
    skip_spaces(skip_spaces(s).drop_first())
}

pub proof fn lemma_skip_spaces(s: Seq<char>)
    ensures
        skip_spaces(s).len() <= s.len(),
        skip_spaces(s) == s.skip(s.len() - skip_spaces(s).len()),
    decreases s.len(),
{
    if s.len() > 0 && is_space(s[0]) {
        lemma_skip_spaces(s.drop_first());
        let t = skip_spaces(s.drop_first());
        assert(s.drop_first().skip(s.drop_first().len() - t.len()) == s.skip(s.len() - t.len()));
    } else {
        assert(s.skip(0) == s);
    }
}

pub proof fn lemma_class_list_len(s: Seq<char>)
    ensures
        class_list(s).1.len() <= s.len(),
    decreases s.len(),
{
    if class_at(s) {
        lemma_name_run_le(s.skip(2));
        lemma_class_list_len(s.skip(class_end(s)));
    }
}

pub proof fn lemma_after_mark_len(s: Seq<char>)
    requires
        skip_spaces(s).len() > 0,
    ensures
        after_mark(s).len() < s.len(),
{
    lemma_skip_spaces(s);
    lemma_skip_spaces(skip_spaces(s).drop_first());
}

/// The chain of compound selectors separated by `>` at the start of `s`.
pub open spec fn compound_list(s: Seq<char>) -> (Seq<Compound>, Seq<char>)
    decreases s.len(),
{
    let (c, r) = compound(s);
    if mark_at(r, '>') {
        proof {
            lemma_class_list_len(s.skip(prefix_len(s)));
            lemma_after_mark_len(r);
        }
        let (cs, rest) = compound_list(after_mark(r));
        (seq![c] + cs, rest)
    } else {
        (seq![c], r)
    }
}

pub proof fn lemma_compound_list_len(s: Seq<char>)
    ensures
        compound_list(s).1.len() <= s.len(),
        compound_list(s).0.len() >= 1,
    decreases s.len(),
{
    let (c, r) = compound(s);
    lemma_class_list_len(s.skip(prefix_len(s)));
    if mark_at(r, '>') {
        lemma_after_mark_len(r);
        lemma_compound_list_len(after_mark(r));
    }
}

/// The alternatives separated by `,` at the start of `s`.
pub open spec fn desc_list(s: Seq<char>) -> (Seq<Seq<Compound>>, Seq<char>)
    decreases s.len(),
{
    let (cs, r) = compound_list(s);
    if mark_at(r, ',') {
        proof {
            lemma_compound_list_len(s);
            lemma_after_mark_len(r);
        }
        let (ds, rest) = desc_list(after_mark(r));
        (seq![cs] + ds, rest)
    } else {
        (seq![cs], r)
    }
}

// ---------------------------------------------------------------------------
// Trees
// ---------------------------------------------------------------------------

/// `base` wrapped by one `Class` node per name, the first name innermost.
pub open spec fn with_classes(base: SelectorView, names: Seq<Seq<char>>) -> SelectorView
    decreases names.len(),
{
    if names.len() == 0 {
        base
    } else {
        SelectorView::Class(names.last(), Box::new(with_classes(base, names.drop_last())))
    }
}

pub open spec fn apply_compound(base: SelectorView, c: Compound) -> SelectorView {
    if c.0 {
        SelectorView::Current(Box::new(with_classes(base, c.1)))
    } else {
        with_classes(base, c.1)
    }
}

/// The tree of a chain of compound selectors; the first one is innermost.
pub open spec fn build(cs: Seq<Compound>) -> SelectorView
    decreases cs.len(),
{
    if cs.len() <= 1 {
        apply_compound(SelectorView::Accept, cs[0])
    } else {
        apply_compound(SelectorView::Parent(Box::new(build(cs.drop_last()))), cs.last())
    }
}

/// The selector that a list of alternatives denotes.
pub open spec fn build_either(ds: Seq<Seq<Compound>>) -> SelectorView {
    if ds.len() == 1 {
        build(ds[0])
    } else {
        SelectorView::Either(Seq::new(ds.len(), |i: int| build(ds[i])))
    }
}

/// What parsing `s` as a selector gives: the trimmed text must be consumed
/// entirely.
pub open spec fn parse_selector(s: Seq<char>) -> Option<SelectorView> {
    let (ds, rest) = desc_list(trim(s));
    if rest.len() == 0 {
        Some(build_either(ds))
    } else {
        None
    }
}

// ---------------------------------------------------------------------------
// Text
// ---------------------------------------------------------------------------

/// The text of a selector. A `Current` node prints its class names after `&`.
pub open spec fn display(s: SelectorView) -> Seq<char>
    decreases s, 0int,
{
    match s {
        SelectorView::Accept => Seq::empty(),
        SelectorView::Current(p) => current_text(*p),
        SelectorView::Class(n, p) => display(*p) + seq!['.'] + n,
        SelectorView::Parent(p) => if *p is Parent {
            display(*p) + seq!['*', ' ', '>', ' ']
        } else {
            display(*p) + seq![' ', '>', ' ']
        },
        SelectorView::Either(items) => join(items, items.len() as int),
    }
}

/// The text of `Current(p)`.
pub open spec fn current_text(p: SelectorView) -> Seq<char>
    decreases p, 1int,
{
    match p {
        SelectorView::Class(n, d) => current_text(*d) + seq!['.'] + n,
        _ => display(p) + seq!['&'],
    }
}

/// The first `n` alternatives, separated by `, `.
pub open spec fn join(items: Seq<SelectorView>, n: int) -> Seq<char>
    decreases items, n,
{
    if n <= 0 || n > items.len() {
        Seq::empty()
    } else if n == 1 {
        display(items[0])
    } else {
        join(items, n - 1) + seq![',', ' '] + display(items[n - 1])
    }
}

// ---------------------------------------------------------------------------
// Parsing
// ---------------------------------------------------------------------------

fn skip_spaces_at(t: &Vec<char>, i: usize) -> (j: usize)
    requires
        i <= t@.len(),
    ensures
        i <= j <= t@.len(),
        t@.skip(j as int) == skip_spaces(t@.skip(i as int)),
{
    let mut j = i;
    while j < t.len() && (t[j] == ' ' || t[j] == '\t')
        invariant
            i <= j <= t@.len(),
            skip_spaces(t@.skip(j as int)) == skip_spaces(t@.skip(i as int)),
        decreases t@.len() - j,
    {
        assert(t@.skip(j as int).drop_first() == t@.skip(j + 1));
        j = j + 1;
    }
    j
}

fn is_alpha_char(c: char) -> (b: bool)
    ensures
        b == is_alpha(c),
{
    ('a' <= c && c <= 'z') || ('A' <= c && c <= 'Z')
}

fn is_name_char_exec(c: char) -> (b: bool)
    ensures
        b == is_name_char(c),
{
    is_alpha_char(c) || ('0' <= c && c <= '9') || c == '-' || c == '_'
}

fn name_run_at(t: &Vec<char>, i: usize) -> (j: usize)
    requires
        i <= t@.len(),
    ensures
        i <= j <= t@.len(),
        j - i == name_run(t@.skip(i as int)),
{
    let mut j = i;
    while j < t.len() && is_name_char_exec(t[j])
        invariant
            i <= j <= t@.len(),
            name_run(t@.skip(i as int)) == (j - i) + name_run(t@.skip(j as int)),
        decreases t@.len() - j,
    {
        assert(t@.skip(j as int).drop_first() == t@.skip(j + 1));
        j = j + 1;
    }
    j
}

fn parse_classes(t: &Vec<char>, i: usize, base: Selector) -> (r: (Selector, usize))
    requires
        i <= t@.len(),
    ensures
        i <= r.1 <= t@.len(),
        t@.skip(r.1 as int) == class_list(t@.skip(i as int)).1,
        r.0@ == with_classes(base@, class_list(t@.skip(i as int)).0),
{
    let mut sel = base;
    let mut j = i;
    let ghost mut names: Seq<Seq<char>> = Seq::empty();
    while j < t.len() && t.len() - j >= 2 && t[j] == '.' && is_alpha_char(t[j + 1])
        invariant
            i <= j <= t@.len(),
            class_list(t@.skip(i as int)).0 == names + class_list(t@.skip(j as int)).0,
            class_list(t@.skip(i as int)).1 == class_list(t@.skip(j as int)).1,
            sel@ == with_classes(base@, names),
        decreases t@.len() - j,
    {
        let k = name_run_at(t, j + 2);
        let ghost s = t@.skip(j as int);
        proof {
            assert(s.skip(2) == t@.skip(j + 2));
            assert(class_at(s));
            assert(class_end(s) == k - j);
            assert(s.skip(k - j) == t@.skip(k as int));
            assert(s.subrange(1, k - j) == t@.subrange(j + 1, k as int));
        }
        let name = string_of(t, j + 1, k);
        sel = Selector::Class(name, Box::new(sel));
        proof {
            let nm = t@.subrange(j + 1, k as int);
            assert(names.push(nm).drop_last() == names);
            assert(names + class_list(s).0 == names.push(nm) + class_list(t@.skip(k as int)).0);
            names = names.push(nm);
        }
        j = k;
    }
    proof {
        let s = t@.skip(j as int);
        if s.len() >= 2 {
            assert(s[0] == t@[j as int]);
            assert(s[1] == t@[j + 1]);
        }
        assert(!class_at(s));
        assert(names + Seq::<Seq<char>>::empty() == names);
    }
    (sel, j)
}

fn parse_compound(t: &Vec<char>, i: usize, base: Selector) -> (r: (Selector, usize))
    requires
        i <= t@.len(),
    ensures
        i <= r.1 <= t@.len(),
        t@.skip(r.1 as int) == compound(t@.skip(i as int)).1,
        r.0@ == apply_compound(base@, compound(t@.skip(i as int)).0),
{
    let ghost s = t@.skip(i as int);
    let amp = i < t.len() && t[i] == '&';
    let start = if i < t.len() && (t[i] == '&' || t[i] == '*') {
        i + 1
    } else {
        i
    };
    proof {
        if s.len() > 0 {
            assert(s[0] == t@[i as int]);
        }
        assert(s.skip(prefix_len(s)) == t@.skip(start as int));
    }
    let (sel, j) = parse_classes(t, start, base);
    if amp {
        (Selector::Current(Box::new(sel)), j)
    } else {
        (sel, j)
    }
}

/// Tests for `mark` after optional spaces at `j`; returns where the text
/// after the mark and following spaces starts.
fn mark_at_exec(t: &Vec<char>, j: usize, mark: char) -> (r: Option<usize>)
    requires
        j <= t@.len(),
    ensures
        r is Some <==> mark_at(t@.skip(j as int), mark),
        r matches Some(m) ==> j < m <= t@.len() && t@.skip(m as int) == after_mark(
            t@.skip(j as int),
        ),
{
    let k = skip_spaces_at(t, j);
    if k < t.len() && t[k] == mark {
        let m = skip_spaces_at(t, k + 1);
        proof {
            assert(t@.skip(k as int)[0] == t@[k as int]);
            assert(t@.skip(k as int).drop_first() == t@.skip(k + 1));
        }
        Some(m)
    } else {
        None
    }
}

/// Parses a chain of compound selectors separated by `>`.
fn parse_desc(t: &Vec<char>, i: usize) -> (r: (Selector, usize))
    requires
        i <= t@.len(),
    ensures
        r.1 <= t@.len(),
        t@.skip(r.1 as int) == compound_list(t@.skip(i as int)).1,
        r.0@ == build(compound_list(t@.skip(i as int)).0),
{
    let (mut sel, mut j) = parse_compound(t, i, Selector::Accept);
    let ghost mut p: int = i as int;
    let ghost mut done: Seq<Compound> = Seq::empty();
    proof {
        assert(done.push(compound(t@.skip(i as int)).0).drop_last() == done);
    }
    loop
        invariant
            i <= p <= j <= t@.len(),
            t@.skip(j as int) == compound(t@.skip(p)).1,
            compound_list(t@.skip(i as int)).0 == done + compound_list(t@.skip(p)).0,
            compound_list(t@.skip(i as int)).1 == compound_list(t@.skip(p)).1,
            sel@ == build(done.push(compound(t@.skip(p)).0)),
        decreases t@.len() - j,
    {
        match mark_at_exec(t, j, '>') {
            Some(m) => {
                let ghost c = compound(t@.skip(p)).0;
                let ghost old_j = j;
                proof {
                    lemma_after_mark_len(t@.skip(j as int));
                }
                let (sel2, j2) = parse_compound(t, m, Selector::Parent(Box::new(sel)));
                proof {
                    let nd = done.push(c);
                    let c2 = compound(t@.skip(m as int)).0;
                    assert(nd.push(c2).drop_last() == nd);
                    assert(done + compound_list(t@.skip(p)).0 == nd + compound_list(
                        t@.skip(m as int),
                    ).0);
                    lemma_class_list_len(t@.skip(m as int).skip(prefix_len(t@.skip(m as int))));
                    done = nd;
                    p = m as int;
                }
                sel = sel2;
                j = j2;
                assert(t@.skip(j as int).len() <= t@.skip(m as int).len());
            },
            None => {
                proof {
                    assert(done + seq![compound(t@.skip(p)).0] == done.push(
                        compound(t@.skip(p)).0,
                    ));
                }
                return (sel, j);
            },
        }
    }
}

/// Parses alternatives separated by `,`; returns them and where they end.
fn parse_either(t: &Vec<char>) -> (r: (Vec<Box<Selector>>, usize))
    ensures
        r.1 <= t@.len(),
        t@.skip(r.1 as int) == desc_list(t@).1,
        r.0@.len() == desc_list(t@).0.len(),
        forall|k: int| 0 <= k < r.0@.len() ==> (#[trigger] r.0@[k])@ == build(desc_list(t@).0[k]),
{
    let mut items: Vec<Box<Selector>> = Vec::new();
    let mut p: usize = 0;
    let ghost mut done: Seq<Seq<Compound>> = Seq::empty();
    assert(t@.skip(0) == t@);
    loop
        invariant
            p <= t@.len(),
            desc_list(t@).0 == done + desc_list(t@.skip(p as int)).0,
            desc_list(t@).1 == desc_list(t@.skip(p as int)).1,
            items@.len() == done.len(),
            forall|k: int| 0 <= k < items@.len() ==> (#[trigger] items@[k])@ == build(done[k]),
        decreases t@.len() - p,
    {
        let (sel, j) = parse_desc(t, p);
        let ghost cs = compound_list(t@.skip(p as int)).0;
        items.push(Box::new(sel));
        proof {
            lemma_compound_list_len(t@.skip(p as int));
        }
        match mark_at_exec(t, j, ',') {
            Some(m) => {
                proof {
                    lemma_after_mark_len(t@.skip(j as int));
                    assert(done + desc_list(t@.skip(p as int)).0 == done.push(cs) + desc_list(
                        t@.skip(m as int),
                    ).0);
                    done = done.push(cs);
                }
                p = m;
            },
            None => {
                proof {
                    assert(done + desc_list(t@.skip(p as int)).0 == done.push(cs));
                    done = done.push(cs);
                }
                return (items, j);
            },
        }
    }
}

fn push_parent_mark(out: &mut String, star: bool)
    ensures
        final(out)@ == old(out)@ + (if star {
            seq!['*', ' ', '>', ' ']
        } else {
            seq![' ', '>', ' ']
        }),
{
    if star {
        push_char(out, '*');
    }
    push_char(out, ' ');
    push_char(out, '>');
    push_char(out, ' ');
    if star {
        assert(old(out)@.push('*').push(' ').push('>').push(' ') =~= old(out)@ + seq!['*', ' ', '>', ' ']);
    } else {
        assert(old(out)@.push(' ').push('>').push(' ') =~= old(out)@ + seq![' ', '>', ' ']);
    }
}

/// Appends the text of `Current(p)`: the part below the class names of `p`,
/// then `&`, then those class names.
fn write_current(p: &Selector, out: &mut String)
    ensures
        final(out)@ == old(out)@ + current_text(p@),
    decreases p, 1int,
{
    match p {
        Selector::Class(n, d) => {
            write_current(d, out);
            push_char(out, '.');
            push_str(out, n.as_str());
            assert(old(out)@ + current_text(d@) + seq!['.'] + n@ =~= old(out)@ + current_text(p@));
        },
        _ => {
            p.write_to(out);
            push_char(out, '&');
            assert(old(out)@ + display(p@) + seq!['&'] =~= old(out)@ + current_text(p@));
        },
    }
}

impl Selector {
    /// Appends the text of this selector to `out`.
    pub fn write_to(&self, out: &mut String)
        ensures
            final(out)@ == old(out)@ + display(self@),
        decreases self, 0int,
    {
        match self {
            Selector::Accept => {
                assert(old(out)@ + display(self@) =~= old(out)@);
            },
            Selector::Current(p) => {
                write_current(p, out);
            },
            Selector::Class(n, p) => {
                p.write_to(out);
                push_char(out, '.');
                push_str(out, n.as_str());
                assert(old(out)@ + display(p@) + seq!['.'] + n@ =~= old(out)@ + display(self@));
            },
            Selector::Parent(p) => {
                p.write_to(out);
                let star = match &**p {
                    Selector::Parent(_) => true,
                    _ => false,
                };
                push_parent_mark(out, star);
                assert(old(out)@ + display(p@) + (if star {
                    seq!['*', ' ', '>', ' ']
                } else {
                    seq![' ', '>', ' ']
                }) =~= old(out)@ + display(self@));
            },
            Selector::Either(items) => {
                let ghost v = self@->Either_0;
                let mut k: usize = 0;
                assert(old(out)@ + join(v, 0) =~= old(out)@);
                while k < items.len()
                    invariant
                        k <= items@.len() == v.len(),
                        *self == Selector::Either(*items),
                        forall|m: int| 0 <= m < v.len() ==> v[m] == (#[trigger] items@[m])@,
                        out@ == old(out)@ + join(v, k as int),
                    decreases items@.len() - k,
                {
                    if k > 0 {
                        push_char(out, ',');
                        push_char(out, ' ');
                    }
                    proof {
                        assert(decreases_to!(*self => (*self)->Either_0));
                        assert(decreases_to!(*items => items@));
                        assert(decreases_to!(items@ => items@[k as int]));
                    }
                    items[k].write_to(out);
                    assert(out@ =~= old(out)@ + join(v, k + 1));
                    k = k + 1;
                }
            },
        }
    }

    /// The text of this selector.
    pub fn to_string(&self) -> (s: String)
        ensures
            s@ == display(self@),
    {
        let mut s = String::new();
        self.write_to(&mut s);
        assert(Seq::<char>::empty() + display(self@) =~= display(self@));
        s
    }

    /// Parses a selector. Surrounding whitespace is ignored; the rest of the
    /// text must form a selector entirely.
    pub fn parse(input: &str) -> (r: Result<Selector, String>)
        ensures
            r matches Ok(sel) ==> parse_selector(input@) == Some(sel@),
            r matches Err(msg) ==> parse_selector(input@) is None && msg@ == seq!['I', 'n', 'v', 'a', 'l', 'i', 'd', ' ', 's', 'e', 'l', 'e', 'c', 't', 'o', 'r', ':', ' '] + input@,
    {
        let all = chars_of(input);
        let (a, b) = trim_bounds(&all);
        let t = slice_chars(&all, a, b);
        let (mut items, end) = parse_either(&t);
        if end == t.len() {
            proof {
                assert(t@.skip(end as int).len() == 0);
            }
            if items.len() == 1 {
                let item = items.pop().unwrap();
                Ok(*item)
            } else {
                let ghost iv = items@;
                let sel = Selector::Either(items);
                proof {
                    let ds = desc_list(t@).0;
                    let v1 = Seq::new(
                        iv.len(),
                        |i: int|
                            if 0 <= i < iv.len() {
                                selector_view(*iv[i])
                            } else {
                                SelectorView::Accept
                            },
                    );
                    let v2 = Seq::new(ds.len(), |i: int| build(ds[i]));
                    assert(v1 =~= v2);
                    let w = match selector_view(sel) {
                        SelectorView::Either(w) => w,
                        _ => Seq::empty(),
                    };
                    assert(w.len() == iv.len());
                    assert forall|k: int| 0 <= k < w.len() implies w[k] == v2[k] by {
                        assert(w[k] == selector_view(*iv[k]));
                    }
                    assert(w =~= v2);
                }
                Ok(sel)
            }
        } else {
            proof {
                assert(t@.skip(end as int).len() > 0);
            }
            let mut msg = String::new();
            let prefix = ['I', 'n', 'v', 'a', 'l', 'i', 'd', ' ', 's', 'e', 'l', 'e', 'c', 't', 'o', 'r', ':', ' '];
            let mut k: usize = 0;
            while k < 18
                invariant
                    k <= 18,
                    msg@ == prefix@.take(k as int),
                decreases 18 - k,
            {
                push_char(&mut msg, prefix[k]);
                assert(prefix@.take(k + 1) == prefix@.take(k as int).push(prefix@[k as int]));
                k = k + 1;
            }
            push_chars(&mut msg, &all, 0, all.len());
            assert(all@.subrange(0, all@.len() as int) == all@);
            assert(prefix@.take(18) == prefix@);
            Err(msg)
        }
    }
}

impl core::str::FromStr for Selector {
    type Err = String;

    fn from_str(input: &str) -> (r: Result<Selector, String>)
        ensures
            r matches Ok(sel) ==> parse_selector(input@) == Some(sel@),
            r matches Err(msg) ==> parse_selector(input@) is None && msg@ == seq!['I', 'n', 'v', 'a', 'l', 'i', 'd', ' ', 's', 'e', 'l', 'e', 'c', 't', 'o', 'r', ':', ' '] + input@,
    {
        Selector::parse(input)
    }
}

} // verus!
