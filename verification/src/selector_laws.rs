//! Laws of selector text: printing a parsed selector and parsing the text back
//! gives the same selector.
use vstd::prelude::*;
use crate::selector::{
    after_mark, apply_compound, build, build_either, class_at, class_end, class_list, compound,
    compound_list, current_text, desc_list, display, is_alpha, is_name_char, is_space, join,
    mark_at, name_run, parse_selector, prefix_len, skip_spaces, with_classes, Compound,
    SelectorView,
};
use crate::text::{is_white_space, trim, trim_end, trim_start};

verus! {

/// The class names `names` written as `.a.b.c`.
pub open spec fn dots(names: Seq<Seq<char>>) -> Seq<char>
    decreases names.len(),
{
    if names.len() == 0 {
        Seq::empty()
    } else {
        dots(names.drop_last()) + seq!['.'] + names.last()
    }
}

pub open spec fn is_empty_compound(c: Compound) -> bool {
    !c.0 && c.1.len() == 0
}

/// The text of a compound selector; an empty one prints as `*` where `star`.
pub open spec fn compound_text(c: Compound, star: bool) -> Seq<char> {
    if c.0 {
        seq!['&'] + dots(c.1)
    } else if star && c.1.len() == 0 {
        seq!['*']
    } else {
        dots(c.1)
    }
}

/// The text of a chain of compound selectors; empty compounds that are
/// neither first (when `first`) nor last print as `*`.
pub open spec fn chain_text(cs: Seq<Compound>, first: bool) -> Seq<char>
    decreases cs.len(),
{
    if cs.len() <= 1 {
        compound_text(cs[0], false)
    } else {
        compound_text(cs[0], !first) + seq![' ', '>', ' '] + chain_text(cs.drop_first(), false)
    }
}

/// The text between a chain and one more compound appended to it.
pub open spec fn chain_sep(cs: Seq<Compound>, first: bool) -> Seq<char> {
    if is_empty_compound(cs.last()) && (cs.len() >= 2 || !first) {
        seq!['*', ' ', '>', ' ']
    } else {
        seq![' ', '>', ' ']
    }
}

pub proof fn lemma_display_with_classes(base: SelectorView, names: Seq<Seq<char>>)
    requires
        !(base is Class),
    ensures
        display(with_classes(base, names)) == display(base) + dots(names),
        current_text(with_classes(base, names)) == display(base) + seq!['&'] + dots(names),
    decreases names.len(),
{
    if names.len() == 0 {
        assert(display(base) + dots(names) =~= display(base));
        assert(display(base) + seq!['&'] + dots(names) =~= display(base) + seq!['&']);
    } else {
        lemma_display_with_classes(base, names.drop_last());
        let w = with_classes(base, names.drop_last());
        assert(with_classes(base, names) == SelectorView::Class(names.last(), Box::new(w)));
        assert(display(w) + seq!['.'] + names.last() =~= display(base) + dots(names));
        assert(current_text(w) + seq!['.'] + names.last() =~= display(base) + seq!['&'] + dots(
            names,
        ));
    }
}

pub proof fn lemma_display_apply(base: SelectorView, c: Compound)
    requires
        base is Accept || base is Parent,
    ensures
        display(apply_compound(base, c)) == display(base) + compound_text(c, false),
{
    lemma_display_with_classes(base, c.1);
    if c.0 {
        assert(display(base) + seq!['&'] + dots(c.1) =~= display(base) + compound_text(c, false));
    }
}

pub proof fn lemma_build_is_parent(cs: Seq<Compound>)
    requires
        cs.len() >= 1,
    ensures
        build(cs) is Parent <==> (cs.len() >= 2 && is_empty_compound(cs.last())),
        !(build(cs) is Either),
{
    let c = cs.last();
    if cs.len() >= 2 {
        let base = SelectorView::Parent(Box::new(build(cs.drop_last())));
        if c.1.len() > 0 {
            assert(with_classes(base, c.1) is Class);
        } else {
            assert(with_classes(base, c.1) == base);
        }
    } else {
        if cs[0].1.len() > 0 {
            assert(with_classes(SelectorView::Accept, cs[0].1) is Class);
        } else {
            assert(with_classes(SelectorView::Accept, cs[0].1) == SelectorView::Accept);
        }
    }
}

pub proof fn lemma_chain_text_push(cs: Seq<Compound>, c: Compound, first: bool)
    requires
        cs.len() >= 1,
    ensures
        chain_text(cs.push(c), first) == chain_text(cs, first) + chain_sep(cs, first)
            + compound_text(c, false),
    decreases cs.len(),
{
    let t = cs.push(c);
    if cs.len() == 1 {
        assert(t.drop_first() =~= seq![c]);
        assert(chain_text(t.drop_first(), false) == compound_text(c, false));
        if is_empty_compound(cs[0]) && !first {
            assert(compound_text(cs[0], !first) =~= seq!['*']);
            assert(compound_text(cs[0], false) =~= Seq::<char>::empty());
        }
        assert(chain_text(t, first) =~= chain_text(cs, first) + chain_sep(cs, first)
            + compound_text(c, false));
    } else {
        assert(t.drop_first() =~= cs.drop_first().push(c));
        lemma_chain_text_push(cs.drop_first(), c, false);
        assert(cs.drop_first().last() == cs.last());
        assert(chain_sep(cs.drop_first(), false) == chain_sep(cs, first));
        assert(chain_text(t, first) =~= chain_text(cs, first) + chain_sep(cs, first)
            + compound_text(c, false));
    }
}

/// The text of the tree of a chain is the chain's text.
pub proof fn lemma_display_build(cs: Seq<Compound>)
    requires
        cs.len() >= 1,
    ensures
        display(build(cs)) == chain_text(cs, true),
    decreases cs.len(),
{
    if cs.len() == 1 {
        lemma_display_apply(SelectorView::Accept, cs[0]);
        assert(display(SelectorView::Accept) + compound_text(cs[0], false) =~= compound_text(
            cs[0],
            false,
        ));
    } else {
        let init = cs.drop_last();
        lemma_display_build(init);
        lemma_build_is_parent(init);
        let base = SelectorView::Parent(Box::new(build(init)));
        lemma_display_apply(base, cs.last());
        lemma_chain_text_push(init, cs.last(), true);
        assert(init.push(cs.last()) =~= cs);
    }
}

/// A class name as the parser reads one.
pub open spec fn valid_name(n: Seq<char>) -> bool {
    &&& n.len() >= 1
    &&& is_alpha(n[0])
    &&& forall|k: int| 1 <= k < n.len() ==> is_name_char(#[trigger] n[k])
}

pub open spec fn valid_compound(c: Compound) -> bool {
    forall|k: int| 0 <= k < c.1.len() ==> valid_name(#[trigger] c.1[k])
}

pub open spec fn valid_chain(cs: Seq<Compound>) -> bool {
    &&& cs.len() >= 1
    &&& forall|k: int| 0 <= k < cs.len() ==> valid_compound(#[trigger] cs[k])
}

/// What may follow a compound selector's text without extending it.
pub open spec fn stops_compound(r: Seq<char>) -> bool {
    r.len() == 0 || r[0] == ' ' || r[0] == ',' || r[0] == '>'
}

pub proof fn lemma_name_run_concat(x: Seq<char>, y: Seq<char>)
    requires
        forall|k: int| 0 <= k < x.len() ==> is_name_char(#[trigger] x[k]),
        y.len() == 0 || !is_name_char(y[0]),
    ensures
        name_run(x + y) == x.len(),
    decreases x.len(),
{
    if x.len() == 0 {
        assert(x + y =~= y);
    } else {
        assert((x + y).drop_first() =~= x.drop_first() + y);
        assert((x + y)[0] == x[0]);
        lemma_name_run_concat(x.drop_first(), y);
    }
}

pub proof fn lemma_dots_cons(n: Seq<char>, ns: Seq<Seq<char>>)
    ensures
        dots(seq![n] + ns) == seq!['.'] + n + dots(ns),
    decreases ns.len(),
{
    if ns.len() == 0 {
        assert(seq![n] + ns =~= seq![n]);
        assert((seq![n] + ns).drop_last() =~= Seq::<Seq<char>>::empty());
        assert((seq![n] + ns).last() == n);
        assert(dots(Seq::<Seq<char>>::empty()) =~= Seq::<char>::empty());
        assert(dots(ns) =~= Seq::<char>::empty());
        assert(dots(seq![n] + ns) =~= seq!['.'] + n + dots(ns));
    } else {
        assert((seq![n] + ns).drop_last() =~= seq![n] + ns.drop_last());
        lemma_dots_cons(n, ns.drop_last());
        assert(dots(seq![n] + ns) =~= seq!['.'] + n + dots(ns));
    }
}

pub proof fn lemma_class_list_dots(names: Seq<Seq<char>>, r: Seq<char>)
    requires
        forall|k: int| 0 <= k < names.len() ==> valid_name(#[trigger] names[k]),
        stops_compound(r),
    ensures
        class_list(dots(names) + r) == (names, r),
    decreases names.len(),
{
    if names.len() == 0 {
        assert(dots(names) + r =~= r);
    } else {
        let n = names[0];
        let ns = names.drop_first();
        assert(names =~= seq![n] + ns);
        lemma_dots_cons(n, ns);
        let s = dots(names) + r;
        assert(s =~= seq!['.'] + n + (dots(ns) + r));
        assert(valid_name(n));
        assert(s[0] == '.');
        assert(s[1] == n[0]);
        assert(class_at(s));
        let x = n.drop_first();
        let y = dots(ns) + r;
        assert(s.skip(2) =~= x + y);
        if ns.len() > 0 {
            lemma_dots_cons(ns[0], ns.drop_first());
            assert(ns =~= seq![ns[0]] + ns.drop_first());
            assert(y[0] == '.');
        } else {
            assert(dots(ns) =~= Seq::<char>::empty());
            assert(y =~= r);
        }
        assert forall|k: int| 0 <= k < x.len() implies is_name_char(#[trigger] x[k]) by {
            assert(x[k] == n[k + 1]);
        }
        lemma_name_run_concat(x, y);
        assert(class_end(s) == n.len() + 1);
        assert(s.subrange(1, n.len() + 1 as int) =~= n);
        assert(s.skip(n.len() + 1 as int) =~= y);
        lemma_class_list_dots(ns, r);
        assert(seq![n] + ns =~= names);
    }
}

/// A compound selector's text parses back to it.
pub proof fn lemma_compound_text(c: Compound, star: bool, r: Seq<char>)
    requires
        valid_compound(c),
        stops_compound(r),
    ensures
        compound(compound_text(c, star) + r) == (c, r),
{
    let s = compound_text(c, star) + r;
    lemma_class_list_dots(c.1, r);
    if c.0 {
        assert(s =~= seq!['&'] + (dots(c.1) + r));
        assert(s.skip(1) =~= dots(c.1) + r);
    } else if star && c.1.len() == 0 {
        assert(s =~= seq!['*'] + r);
        assert(s.skip(1) =~= r);
        assert(dots(c.1) =~= Seq::<char>::empty());
        assert(dots(c.1) + r =~= r);
    } else {
        if c.1.len() > 0 {
            lemma_dots_cons(c.1[0], c.1.drop_first());
            assert(c.1 =~= seq![c.1[0]] + c.1.drop_first());
            assert(s[0] == '.');
        } else {
            assert(s =~= r);
        }
        assert(s.skip(0) =~= s);
    }
}

pub proof fn lemma_skip_spaces_none(s: Seq<char>)
    requires
        s.len() == 0 || !is_space(s[0]),
    ensures
        skip_spaces(s) == s,
{
}

/// Skipping `" > "` or `" >"`-style separators: `after_mark(" > " + y) == y`.
pub proof fn lemma_after_gt(y: Seq<char>)
    requires
        y.len() == 0 || !is_space(y[0]),
    ensures
        mark_at(seq![' ', '>', ' '] + y, '>'),
        after_mark(seq![' ', '>', ' '] + y) == y,
        mark_at(seq!['>', ' '] + y, '>'),
        after_mark(seq!['>', ' '] + y) == y,
{
    let a = seq![' ', '>', ' '] + y;
    let b = seq!['>', ' '] + y;
    assert(a[0] == ' ');
    assert(a.drop_first() =~= b);
    assert(b[0] == '>');
    assert(skip_spaces(b) == b);
    assert(skip_spaces(a) == b);
    let c = seq![' '] + y;
    assert(b.drop_first() =~= c);
    assert(c[0] == ' ');
    assert(c.drop_first() =~= y);
    assert(skip_spaces(c) == skip_spaces(y));
    lemma_skip_spaces_none(y);
}

/// The same for a separator cut short at the end of the text: `" >"`.
pub proof fn lemma_after_gt_end()
    ensures
        mark_at(seq![' ', '>'], '>'),
        after_mark(seq![' ', '>']) == Seq::<char>::empty(),
        mark_at(seq!['>'], '>'),
        after_mark(seq!['>']) == Seq::<char>::empty(),
{
    let a = seq![' ', '>'];
    let b = seq!['>'];
    assert(a.drop_first() =~= b);
    assert(skip_spaces(b) == b);
    assert(skip_spaces(a) == b);
    assert(b.drop_first() =~= Seq::<char>::empty());
    assert(skip_spaces(Seq::<char>::empty()) == Seq::<char>::empty());
}

pub proof fn lemma_compound_list_empty()
    ensures
        compound_list(Seq::<char>::empty()) == (seq![(false, Seq::<Seq<char>>::empty())], Seq::<char>::empty()),
{
    let e = Seq::<char>::empty();
    assert(e.skip(0) =~= e);
    assert(!class_at(e));
    assert(skip_spaces(e) == e);
}

/// The first character of a chain's text.
pub proof fn lemma_chain_head(cs: Seq<Compound>, first: bool)
    requires
        valid_chain(cs),
    ensures
        chain_text(cs, first).len() == 0 ==> cs.len() == 1 && is_empty_compound(cs[0]),
        chain_text(cs, first).len() > 0 ==> {
            let t = chain_text(cs, first);
            ||| t[0] == '&' || t[0] == '.' || t[0] == '*'
            ||| (first && cs.len() >= 2 && is_empty_compound(cs[0]) && t.len() >= 3 && t[0] == ' '
                && t[1] == '>')
        },
        cs.len() >= 2 ==> chain_text(cs, first).len() >= 3,
{
    let c = cs[0];
    if c.1.len() > 0 {
        lemma_dots_cons(c.1[0], c.1.drop_first());
        assert(c.1 =~= seq![c.1[0]] + c.1.drop_first());
        assert(dots(c.1)[0] == '.');
    } else {
        assert(dots(c.1) =~= Seq::<char>::empty());
    }
    if cs.len() >= 2 {
        let t = chain_text(cs, first);
        let h = compound_text(c, !first);
        assert(t =~= h + (seq![' ', '>', ' '] + chain_text(cs.drop_first(), false)));
        if h.len() > 0 {
            assert(t[0] == h[0]);
        } else {
            assert(t[0] == ' ');
            assert(t[1] == '>');
        }
    }
}

/// A chain's text parses back to the chain.
pub proof fn lemma_chain_parse(cs: Seq<Compound>, first: bool, rest: Seq<char>)
    requires
        valid_chain(cs),
        rest.len() == 0 || rest[0] == ',',
    ensures
        compound_list(chain_text(cs, first) + rest) == (cs, rest),
    decreases cs.len(),
{
    let c = cs[0];
    assert(valid_compound(c));
    if cs.len() == 1 {
        lemma_compound_text(c, false, rest);
        lemma_skip_spaces_none(rest);
        assert(seq![c] =~= cs);
    } else {
        let tail = cs.drop_first();
        assert forall|k: int| 0 <= k < tail.len() implies valid_compound(#[trigger] tail[k]) by {
            assert(tail[k] == cs[k + 1]);
        }
        let y = chain_text(tail, false) + rest;
        lemma_chain_head(tail, false);
        if chain_text(tail, false).len() > 0 {
            assert(y[0] == chain_text(tail, false)[0]);
        } else {
            assert(y =~= rest);
        }
        let r = seq![' ', '>', ' '] + y;
        assert(chain_text(cs, first) + rest =~= compound_text(c, !first) + r);
        lemma_compound_text(c, !first, r);
        lemma_after_gt(y);
        lemma_chain_parse(tail, false, rest);
        assert(seq![c] + tail =~= cs);
    }
}

/// A chain whose last compound is empty ends with a space; without it the
/// text still parses back to the chain.
pub proof fn lemma_chain_parse_cut(cs: Seq<Compound>, first: bool)
    requires
        valid_chain(cs),
        cs.len() >= 2,
        is_empty_compound(cs.last()),
    ensures
        chain_text(cs, first).len() >= 3,
        chain_text(cs, first).last() == ' ',
        chain_text(cs, first)[chain_text(cs, first).len() - 2] == '>',
        compound_list(chain_text(cs, first).drop_last()) == (cs, Seq::<char>::empty()),
    decreases cs.len(),
{
    let c = cs[0];
    assert(valid_compound(c));
    let tail = cs.drop_first();
    assert forall|k: int| 0 <= k < tail.len() implies valid_compound(#[trigger] tail[k]) by {
        assert(tail[k] == cs[k + 1]);
    }
    let h = compound_text(c, !first);
    let t = chain_text(cs, first);
    if cs.len() == 2 {
        let c1 = cs[1];
        assert(dots(c1.1) =~= Seq::<char>::empty());
        assert(chain_text(tail, false) =~= Seq::<char>::empty());
        assert(t =~= h + seq![' ', '>', ' ']);
        assert(t.drop_last() =~= h + seq![' ', '>']);
        lemma_compound_text(c, !first, seq![' ', '>']);
        lemma_after_gt_end();
        lemma_compound_list_empty();
        assert(c1.1 =~= Seq::<Seq<char>>::empty());
        assert(seq![c, (false, Seq::<Seq<char>>::empty())] =~= cs);
    } else {
        lemma_chain_parse_cut(tail, false);
        let t2 = chain_text(tail, false);
        lemma_chain_head(tail, false);
        let y = t2.drop_last();
        assert(y[0] == t2[0]);
        assert(t =~= h + (seq![' ', '>', ' '] + t2));
        assert(t.drop_last() =~= h + (seq![' ', '>', ' '] + y));
        lemma_compound_text(c, !first, seq![' ', '>', ' '] + y);
        lemma_after_gt(y);
        assert(seq![c] + tail =~= cs);
        assert(t.last() == t2.last());
        assert(t[t.len() - 2] == t2[t2.len() - 2]);
    }
}

/// A leading space before `>` does not change the parse.
pub proof fn lemma_lead_space(x: Seq<char>)
    requires
        x.len() >= 2,
        x[0] == ' ',
        x[1] == '>',
    ensures
        compound_list(x.drop_first()) == compound_list(x),
{
    let y = x.drop_first();
    assert(x.skip(0) =~= x);
    assert(y.skip(0) =~= y);
    assert(!class_at(x));
    assert(!class_at(y));
    assert(skip_spaces(y) == y);
    assert(skip_spaces(x) == skip_spaces(y));
}

/// The text of alternatives: their chains' texts separated by `, `.
pub open spec fn items_text(ds: Seq<Seq<Compound>>) -> Seq<char>
    decreases ds.len(),
{
    if ds.len() <= 1 {
        chain_text(ds[0], true)
    } else {
        chain_text(ds[0], true) + seq![',', ' '] + items_text(ds.drop_first())
    }
}

pub open spec fn valid_items(ds: Seq<Seq<Compound>>) -> bool {
    &&& ds.len() >= 1
    &&& forall|k: int| 0 <= k < ds.len() ==> valid_chain(#[trigger] ds[k])
}

proof fn lemma_join_items(ds: Seq<Seq<Compound>>, items: Seq<SelectorView>, k: int)
    requires
        valid_items(ds),
        items.len() == ds.len(),
        forall|i: int| 0 <= i < ds.len() ==> #[trigger] items[i] == build(ds[i]),
        1 <= k <= ds.len(),
    ensures
        join(items, ds.len() as int) == join(items, k) + (if k < ds.len() {
            seq![',', ' '] + items_text(ds.skip(k))
        } else {
            Seq::empty()
        }),
    decreases ds.len() - k,
{
    let n = ds.len() as int;
    if k == n {
        assert(join(items, n) + Seq::<char>::empty() =~= join(items, n));
    } else {
        lemma_join_items(ds, items, k + 1);
        lemma_display_build(ds[k]);
        let sk = ds.skip(k);
        assert(sk[0] == ds[k]);
        if k + 1 < n {
            assert(sk.drop_first() =~= ds.skip(k + 1));
            assert(items_text(sk) == chain_text(ds[k], true) + seq![',', ' '] + items_text(
                ds.skip(k + 1),
            ));
        } else {
            assert(items_text(sk) == chain_text(ds[k], true));
        }
        assert(join(items, k + 1) == join(items, k) + seq![',', ' '] + display(items[k]));
        assert(join(items, n) =~= join(items, k) + (seq![',', ' '] + items_text(ds.skip(k))));
    }
}

/// The text of the selector that alternatives denote is their text.
pub proof fn lemma_display_either(ds: Seq<Seq<Compound>>)
    requires
        valid_items(ds),
    ensures
        display(build_either(ds)) == items_text(ds),
{
    lemma_display_build(ds[0]);
    if ds.len() >= 2 {
        let items = Seq::new(ds.len(), |i: int| build(ds[i]));
        lemma_join_items(ds, items, 1);
        assert(ds.drop_first() =~= ds.skip(1));
        assert(display(build_either(ds)) == join(items, ds.len() as int));
    }
}

pub proof fn lemma_dots_last(names: Seq<Seq<char>>)
    requires
        forall|k: int| 0 <= k < names.len() ==> valid_name(#[trigger] names[k]),
    ensures
        dots(names).len() == 0 <==> names.len() == 0,
        dots(names).len() > 0 ==> is_name_char(dots(names).last()),
{
    if names.len() > 0 {
        let n = names.last();
        assert(valid_name(names[names.len() - 1]));
        assert(dots(names).last() == n.last());
        if n.len() == 1 {
            assert(is_alpha(n[0]));
        } else {
            assert(is_name_char(n[n.len() - 1]));
        }
    }
}

/// The last character of a chain's text.
pub proof fn lemma_chain_last(cs: Seq<Compound>, first: bool)
    requires
        valid_chain(cs),
    ensures
        chain_text(cs, first).len() > 0 ==> {
            let t = chain_text(cs, first);
            ||| is_name_char(t.last()) || t.last() == '&'
            ||| (t.len() >= 3 && t.last() == ' ' && t[t.len() - 2] == '>')
        },
        chain_text(cs, first).len() > 0 && chain_text(cs, first).last() == ' ' ==> cs.len() >= 2
            && is_empty_compound(cs.last()),
{
    let c = cs.last();
    assert(valid_compound(cs[cs.len() - 1]));
    lemma_dots_last(c.1);
    let h = compound_text(c, false);
    if c.0 {
        if c.1.len() == 0 {
            assert(h =~= seq!['&']);
        }
        assert(h.last() == '&' || is_name_char(h.last()));
    }
    if cs.len() >= 2 {
        let init = cs.drop_last();
        lemma_chain_text_push(init, c, first);
        assert(init.push(c) =~= cs);
        let t = chain_text(cs, first);
        if h.len() > 0 {
            assert(t.last() == h.last());
        } else {
            assert(t =~= chain_text(init, first) + chain_sep(init, first));
            assert(t.last() == ' ');
            assert(t[t.len() - 2] == '>');
        }
    }
}

/// Facts on the first and last characters of the text of alternatives.
pub proof fn lemma_items_ends(ds: Seq<Seq<Compound>>)
    requires
        valid_items(ds),
    ensures
        items_text(ds).len() > 0 ==> {
            let t = items_text(ds);
            ||| t[0] == '&' || t[0] == '.' || t[0] == '*' || t[0] == ','
            ||| (t.len() >= 3 && t[0] == ' ' && t[1] == '>')
        },
        items_text(ds).len() > 0 ==> {
            let t = items_text(ds);
            ||| is_name_char(t.last()) || t.last() == '&'
            ||| (t.len() >= 2 && t.last() == ' ' && (t[t.len() - 2] == '>' || t[t.len() - 2]
                == ','))
        },
        items_text(ds).len() > 0 && items_text(ds)[0] == ' ' ==> items_text(ds).len() >= 3,
    decreases ds.len(),
{
    let a = chain_text(ds[0], true);
    assert(valid_chain(ds[0]));
    lemma_chain_head(ds[0], true);
    lemma_chain_last(ds[0], true);
    if ds.len() >= 2 {
        let rest = ds.drop_first();
        assert forall|k: int| 0 <= k < rest.len() implies valid_chain(#[trigger] rest[k]) by {
            assert(rest[k] == ds[k + 1]);
        }
        lemma_items_ends(rest);
        let b = items_text(rest);
        let t = items_text(ds);
        assert(t =~= a + (seq![',', ' '] + b));
        if a.len() > 0 {
            assert(t[0] == a[0]);
            if a[0] == ' ' {
                assert(t[1] == a[1]);
            }
        } else {
            assert(t[0] == ',');
        }
        if b.len() > 0 {
            assert(t.last() == b.last());
            if b.len() >= 2 {
                assert(t[t.len() - 2] == b[b.len() - 2]);
            }
        } else {
            assert(t.last() == ' ');
            assert(t[t.len() - 2] == ',');
        }
    }
}

pub open spec fn drop_lead_space(t: Seq<char>) -> Seq<char> {
    if t.len() > 0 && t[0] == ' ' {
        t.drop_first()
    } else {
        t
    }
}

pub open spec fn drop_trail_space(t: Seq<char>) -> Seq<char> {
    if t.len() > 0 && t.last() == ' ' {
        t.drop_last()
    } else {
        t
    }
}

/// `t` with a leading space dropped where `lead`, then a trailing one where
/// `cut`.
pub open spec fn adjust(t: Seq<char>, lead: bool, cut: bool) -> Seq<char> {
    let t1 = if lead {
        drop_lead_space(t)
    } else {
        t
    };
    if cut {
        drop_trail_space(t1)
    } else {
        t1
    }
}

proof fn lemma_desc_list_single(x: Seq<char>, cs: Seq<Compound>)
    requires
        compound_list(x) == (cs, Seq::<char>::empty()),
    ensures
        desc_list(x) == (seq![cs], Seq::<char>::empty()),
{
    assert(skip_spaces(Seq::<char>::empty()) == Seq::<char>::empty());
}

/// The text of alternatives parses back to them, also without a leading
/// space (`lead`) or a trailing one (`cut`).
#[verifier::spinoff_prover]
#[verifier::rlimit(60)]
pub proof fn lemma_items_parse(ds: Seq<Seq<Compound>>, lead: bool, cut: bool)
    requires
        valid_items(ds),
    ensures
        desc_list(adjust(items_text(ds), lead, cut)) == (ds, Seq::<char>::empty()),
    decreases ds.len(),
{
    let e = Seq::<char>::empty();
    let a = chain_text(ds[0], true);
    let cs = ds[0];
    assert(valid_chain(cs));
    lemma_chain_head(cs, true);
    lemma_chain_last(cs, true);
    if ds.len() == 1 {
        let t = a;
        assert(items_text(ds) == t);
        assert(t + e =~= t);
        lemma_chain_parse(cs, true, e);
        if t.len() > 0 && t[0] == ' ' {
            lemma_lead_space(t);
        }
        let t1 = if lead {
            drop_lead_space(t)
        } else {
            t
        };
        if cut && t1.len() > 0 && t1.last() == ' ' {
            assert(t.last() == ' ');
            lemma_chain_parse_cut(cs, true);
            if lead && t.len() > 0 && t[0] == ' ' {
                let u = t.drop_last();
                assert(u[0] == ' ' && u[1] == '>');
                lemma_lead_space(u);
                assert(t1.drop_last() =~= u.drop_first());
            }
        }
        lemma_desc_list_single(adjust(t, lead, cut), cs);
        assert(seq![cs] =~= ds);
    } else {
        let rest = ds.drop_first();
        assert forall|k: int| 0 <= k < rest.len() implies valid_chain(#[trigger] rest[k]) by {
            assert(rest[k] == ds[k + 1]);
        }
        lemma_items_ends(rest);
        let b = items_text(rest);
        let t = items_text(ds);
        assert(t =~= a + (seq![',', ' '] + b));
        let a1 = if lead {
            drop_lead_space(a)
        } else {
            a
        };
        let b1 = if cut {
            drop_trail_space(b)
        } else {
            b
        };
        let r = if b.len() == 0 && cut {
            seq![',']
        } else {
            seq![',', ' '] + b1
        };
        // The adjusted text splits at the first separator.
        if lead && a.len() > 0 && a[0] == ' ' {
            assert(t[0] == ' ');
            assert(drop_lead_space(t) =~= a1 + (seq![',', ' '] + b));
        } else if lead && a.len() == 0 {
            assert(t[0] == ',');
            assert(drop_lead_space(t) =~= a1 + (seq![',', ' '] + b));
        } else if lead {
            assert(t[0] == a[0]);
            assert(drop_lead_space(t) =~= a1 + (seq![',', ' '] + b));
        }
        let t1 = if lead {
            drop_lead_space(t)
        } else {
            t
        };
        assert(t1 =~= a1 + (seq![',', ' '] + b));
        if cut {
            if b.len() > 0 {
                assert(t1.last() == b.last());
                if b.last() == ' ' {
                    assert(t1.drop_last() =~= a1 + (seq![',', ' '] + b.drop_last()));
                }
            } else {
                assert(t1.last() == ' ');
                assert(t1.drop_last() =~= a1 + seq![',']);
            }
        }
        assert(adjust(t, lead, cut) =~= a1 + r);
        // The first alternative.
        lemma_chain_parse(cs, true, r);
        if lead && a.len() > 0 && a[0] == ' ' {
            assert((a + r)[0] == ' ' && (a + r)[1] == '>');
            lemma_lead_space(a + r);
            assert((a + r).drop_first() =~= a1 + r);
        }
        assert(compound_list(a1 + r) == (cs, r));
        assert(r[0] == ',');
        assert(skip_spaces(r) == r);
        // The rest.
        let br = adjust(b, true, cut);
        if b.len() == 0 {
            if cut {
                assert(r.drop_first() =~= e);
            } else {
                assert(r.drop_first() =~= seq![' '] + e);
                assert((seq![' '] + e).drop_first() =~= e);
            }
            assert(skip_spaces(e) == e);
            assert(br =~= e);
            assert(after_mark(r) == br);
        } else {
            assert(r.drop_first() =~= seq![' '] + b1);
            assert((seq![' '] + b1).drop_first() =~= b1);
            assert(skip_spaces(r.drop_first()) == skip_spaces(b1));
            if b[0] == ' ' {
                assert(b1[0] == ' ' && b1[1] == '>');
                assert(b1.drop_first()[0] == '>');
                assert(skip_spaces(b1.drop_first()) == b1.drop_first());
                assert(skip_spaces(b1) == b1.drop_first());
                if cut && b.last() == ' ' {
                    assert(b.drop_first().last() == ' ');
                    assert(br =~= b1.drop_first());
                } else {
                    assert(br =~= b1.drop_first());
                }
            } else {
                assert(b1[0] == b[0]);
                assert(skip_spaces(b1) == b1);
                assert(br =~= b1);
            }
            assert(after_mark(r) == br);
        }
        lemma_items_parse(rest, true, cut);
        assert(seq![cs] + rest =~= ds);
    }
}

proof fn lemma_name_run_chars(x: Seq<char>)
    ensures
        name_run(x) <= x.len(),
        forall|k: int| 0 <= k < name_run(x) ==> is_name_char(#[trigger] x[k]),
    decreases x.len(),
{
    if x.len() > 0 && is_name_char(x[0]) {
        lemma_name_run_chars(x.drop_first());
        assert forall|k: int| 0 <= k < name_run(x) implies is_name_char(#[trigger] x[k]) by {
            if k > 0 {
                assert(x[k] == x.drop_first()[k - 1]);
            }
        }
    }
}

proof fn lemma_class_list_valid(s: Seq<char>)
    ensures
        forall|k: int| 0 <= k < class_list(s).0.len() ==> valid_name(#[trigger] class_list(s).0[k]),
    decreases s.len(),
{
    if class_at(s) {
        let n = class_end(s);
        lemma_name_run_chars(s.skip(2));
        lemma_class_list_valid(s.skip(n));
        let nm = s.subrange(1, n);
        assert forall|k: int| 1 <= k < nm.len() implies is_name_char(#[trigger] nm[k]) by {
            assert(nm[k] == s.skip(2)[k - 1]);
        }
        assert(valid_name(nm));
        let names = class_list(s).0;
        assert forall|k: int| 0 <= k < names.len() implies valid_name(#[trigger] names[k]) by {
            if k > 0 {
                assert(names[k] == class_list(s.skip(n)).0[k - 1]);
            }
        }
    }
}

proof fn lemma_compound_list_valid(s: Seq<char>)
    ensures
        valid_chain(compound_list(s).0),
    decreases s.len(),
{
    let (c, r) = compound(s);
    lemma_class_list_valid(s.skip(prefix_len(s)));
    assert(valid_compound(c));
    if mark_at(r, '>') {
        crate::selector::lemma_class_list_len(s.skip(prefix_len(s)));
        crate::selector::lemma_after_mark_len(r);
        lemma_compound_list_valid(after_mark(r));
        let cs = compound_list(s).0;
        assert forall|k: int| 0 <= k < cs.len() implies valid_compound(#[trigger] cs[k]) by {
            if k > 0 {
                assert(cs[k] == compound_list(after_mark(r)).0[k - 1]);
            }
        }
    }
}

proof fn lemma_desc_list_valid(s: Seq<char>)
    ensures
        valid_items(desc_list(s).0),
    decreases s.len(),
{
    let (cs, r) = compound_list(s);
    lemma_compound_list_valid(s);
    if mark_at(r, ',') {
        crate::selector::lemma_compound_list_len(s);
        crate::selector::lemma_after_mark_len(r);
        lemma_desc_list_valid(after_mark(r));
        let ds = desc_list(s).0;
        assert forall|k: int| 0 <= k < ds.len() implies valid_chain(#[trigger] ds[k]) by {
            if k > 0 {
                assert(ds[k] == desc_list(after_mark(r)).0[k - 1]);
            }
        }
    }
}

/// Trimming the text of alternatives drops at most one space at each end.
proof fn lemma_trim_items(ds: Seq<Seq<Compound>>)
    requires
        valid_items(ds),
    ensures
        trim(items_text(ds)) == adjust(items_text(ds), true, true),
{
    lemma_items_ends(ds);
    let t = items_text(ds);
    let t1 = drop_lead_space(t);
    if t.len() > 0 && t[0] == ' ' {
        assert(t.drop_first()[0] == '>');
        assert(trim_start(t.drop_first()) == t.drop_first());
        assert(trim_start(t) == t1);
    } else if t.len() > 0 {
        assert(!is_white_space(t[0]));
        assert(trim_start(t) == t1);
    } else {
        assert(trim_start(t) == t1);
    }
    if t1.len() > 0 {
        assert(t1.last() == t.last());
        if t.last() == ' ' {
            assert(t1.len() >= 2);
            assert(t1[t1.len() - 2] == t[t.len() - 2]);
            assert(t1.drop_last().last() == t[t.len() - 2]);
            assert(!is_white_space(t1.drop_last().last()));
            assert(trim_end(t1.drop_last()) == t1.drop_last());
        } else {
            assert(!is_white_space(t1.last()));
        }
    }
}

/// Printing a parsed selector and parsing the text again gives the same
/// selector.
pub proof fn lemma_selector_round_trip(s: Seq<char>)
    requires
        parse_selector(s) is Some,
    ensures
        parse_selector(display(parse_selector(s)->0)) == parse_selector(s),
{
    let ds = desc_list(trim(s)).0;
    lemma_desc_list_valid(trim(s));
    lemma_display_either(ds);
    lemma_trim_items(ds);
    lemma_items_parse(ds, true, true);
}

} // verus!
