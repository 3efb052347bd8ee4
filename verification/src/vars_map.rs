//! Style variables: named expressions that a style defines for the
//! expressions that refer to them.
use vstd::prelude::*;
use crate::keywords::str_eq;
use crate::text::{chars_of, string_of};
use crate::untyped::{ExprModel, UntypedExpr};
use crate::values::copy_str;

verus! {

/// The variables of a style, each name defined once, in the order they
/// were first defined.
#[derive(Debug, PartialEq)]
pub struct VarsMap {
    entries: Vec<(String, UntypedExpr)>,
}

/// The names of the entries.
pub open spec fn entry_names(e: Seq<(String, UntypedExpr)>) -> Seq<Seq<char>> {
    e.map_values(|p: (String, UntypedExpr)| p.0@)
}

/// In a sequence without duplicates, the index of an element is where it
/// stands.
proof fn lemma_index_of_unique(s: Seq<Seq<char>>, i: int)
    requires
        s.no_duplicates(),
        0 <= i < s.len(),
    ensures
        s.contains(s[i]),
        s.index_of(s[i]) == i,
{
    assert(s.contains(s[i]));
    let f = s.index_of(s[i]);
    assert(0 <= f < s.len() && s[f] == s[i]);
}

impl VarsMap {
    /// No name is defined twice.
    pub closed spec fn well_formed(&self) -> bool {
        entry_names(self.entries@).no_duplicates()
    }

    /// The expression defined for each name.
    pub closed spec fn view(&self) -> Map<Seq<char>, ExprModel> {
        Map::new(
            |k: Seq<char>| entry_names(self.entries@).contains(k),
            |k: Seq<char>|
                self.entries@[entry_names(self.entries@).index_of(k)].1@,
        )
    }

    pub fn new() -> (r: VarsMap)
        ensures
            r.well_formed(),
            r.view() == Map::<Seq<char>, ExprModel>::empty(),
    {
        let r = VarsMap { entries: Vec::new() };
        assert(entry_names(r.entries@) =~= Seq::<Seq<char>>::empty());
        assert(r.view() =~= Map::<Seq<char>, ExprModel>::empty());
        r
    }

    pub fn with_capacity(capacity: usize) -> (r: VarsMap)
        ensures
            r.well_formed(),
            r.view() == Map::<Seq<char>, ExprModel>::empty(),
    {
        let r = VarsMap { entries: Vec::with_capacity(capacity) };
        assert(entry_names(r.entries@) =~= Seq::<Seq<char>>::empty());
        assert(r.view() =~= Map::<Seq<char>, ExprModel>::empty());
        r
    }

    /// The number of variables.
    pub fn len(&self) -> (r: usize)
        requires
            self.well_formed(),
        ensures
            r == self.view().len(),
    {
        proof {
            self.lemma_len();
        }
        self.entries.len()
    }

    proof fn lemma_len(&self)
        requires
            self.well_formed(),
        ensures
            self.view().len() == self.entries@.len(),
    {
        let names = entry_names(self.entries@);
        names.unique_seq_to_set();
        assert(self.view().dom() =~= names.to_set());
    }

    /// The position of the variable `key`, if it is defined.
    fn find(&self, key: &str) -> (r: Option<usize>)
        requires
            self.well_formed(),
        ensures
            match r {
                Some(i) => i < self.entries@.len() && self.entries@[i as int].0@ == key@
                    && entry_names(self.entries@).index_of(key@) == i,
                None => !entry_names(self.entries@).contains(key@),
            },
    {
        let ghost names = entry_names(self.entries@);
        let mut i: usize = 0;
        while i < self.entries.len()
            invariant
                names == entry_names(self.entries@),
                names.no_duplicates(),
                i <= self.entries@.len(),
                forall|j: int| 0 <= j < i ==> names[j] != key@,
            decreases self.entries@.len() - i,
        {
            if str_eq(self.entries[i].0.as_str(), key) {
                assert(names[i as int] == key@);
                proof {
                    lemma_index_of_unique(names, i as int);
                }
                return Some(i);
            }
            i = i + 1;
        }
        None
    }

    /// The expression defined for `key`.
    pub fn get(&self, key: &str) -> (r: Option<&UntypedExpr>)
        requires
            self.well_formed(),
        ensures
            match r {
                Some(x) => self.view().contains_key(key@) && self.view()[key@] == x@,
                None => !self.view().contains_key(key@),
            },
    {
        match self.find(key) {
            Some(i) => {
                proof {
                    let names = entry_names(self.entries@);
                    assert(names[i as int] == key@);
                    assert(names.contains(key@));
                }
                Some(&self.entries[i].1)
            },
            None => None,
        }
    }

    /// Defines `key` as `value`, giving back the expression it was defined
    /// as before, if any.
    pub fn insert(&mut self, key: &str, value: UntypedExpr) -> (r: Option<UntypedExpr>)
        requires
            old(self).well_formed(),
        ensures
            final(self).well_formed(),
            final(self).view() == old(self).view().insert(key@, value@),
            match r {
                Some(x) => old(self).view().contains_key(key@) && old(self).view()[key@] == x@,
                None => !old(self).view().contains_key(key@),
            },
    {
        let ghost before = self.entries@;
        let ghost v = value@;
        match self.find(key) {
            Some(i) => {
                let k = copy_str(key);
                let old_value = self.entries[i].1.clone();
                self.entries.set(i, (k, value));
                proof {
                    let names = entry_names(before);
                    assert(entry_names(self.entries@) =~= names);
                    assert(names[i as int] == key@);
                    assert(names.contains(key@));
                    assert forall|x: Seq<char>| #[trigger] names.contains(x) implies 0 <= names.index_of(x)
                        < names.len() && names[names.index_of(x)] == x by {}
                    let m1 = self.view();
                    let m0 = old(self).view().insert(key@, v);
                    assert forall|x: Seq<char>| #[trigger] m1.contains_key(x) == m0.contains_key(x) by {}
                    assert forall|x: Seq<char>| m1.contains_key(x) implies #[trigger] m1[x] == m0[x] by {
                        if x != key@ {
                            assert(names.index_of(x) != i);
                        }
                    }
                    assert(m1 =~= m0);
                }
                Some(old_value)
            },
            None => {
                let k = copy_str(key);
                self.entries.push((k, value));
                proof {
                    let names = entry_names(before);
                    let names2 = entry_names(self.entries@);
                    assert(names2 =~= names.push(key@));
                    assert forall|a: int, b: int| 0 <= a < b < names2.len() implies names2[a]
                        != names2[b] by {
                        if b == names.len() {
                            assert(names.contains(names2[a]));
                        }
                    }
                    assert forall|x: Seq<char>| #[trigger] names.contains(x) implies names2.index_of(x)
                        == names.index_of(x) && names2.contains(x) by {
                        let f = names.index_of(x);
                        assert(names[f] == x);
                        assert(names2[f] == x);
                        lemma_index_of_unique(names2, f);
                    }
                    assert(names2[names.len() as int] == key@);
                    lemma_index_of_unique(names2, names.len() as int);
                    assert(self.view() =~= old(self).view().insert(key@, v));
                }
                None
            },
        }
    }

    /// The variables in the order they were first defined, each name with
    /// the `--` that writes it.
    pub fn entries_text(&self) -> (r: Vec<(String, &UntypedExpr)>)
        requires
            self.well_formed(),
        ensures
            r@.len() == self.view().len(),
            forall|i: int|
                0 <= i < r@.len() ==> {
                    let k = (#[trigger] r@[i]).0@.skip(2);
                    &&& r@[i].0@ == seq!['-', '-'] + k
                    &&& self.view().contains_key(k)
                    &&& self.view()[k] == r@[i].1@
                },
            forall|i: int, j: int| 0 <= i < j < r@.len() ==> (#[trigger] r@[i]).0@ != (#[trigger] r@[j]).0@,
    {
        proof {
            self.lemma_len();
        }
        let ghost names = entry_names(self.entries@);
        let mut out: Vec<(String, &UntypedExpr)> = Vec::new();
        let mut i: usize = 0;
        while i < self.entries.len()
            invariant
                names == entry_names(self.entries@),
                names.no_duplicates(),
                i <= self.entries@.len(),
                out@.len() == i,
                forall|j: int|
                    0 <= j < i ==> (#[trigger] out@[j]).0@ == seq!['-', '-'] + names[j] && out@[j].1@
                        == self.entries@[j].1@,
            decreases self.entries@.len() - i,
        {
            let mut k = String::new();
            crate::text::push_char(&mut k, '-');
            crate::text::push_char(&mut k, '-');
            crate::text::push_str(&mut k, self.entries[i].0.as_str());
            out.push((k, &self.entries[i].1));
            i = i + 1;
        }
        proof {
            assert forall|i: int| 0 <= i < out@.len() implies {
                let k = (#[trigger] out@[i]).0@.skip(2);
                &&& out@[i].0@ == seq!['-', '-'] + k
                &&& self.view().contains_key(k)
                &&& self.view()[k] == out@[i].1@
            } by {
                assert((seq!['-', '-'] + names[i]).skip(2) =~= names[i]);
                assert(names.contains(names[i]));
                assert(names.index_of(names[i]) == i) by {
                    let f = names.index_of(names[i]);
                    assert(names[f] == names[i]);
                }
            }
            assert forall|i: int, j: int| 0 <= i < j < out@.len() implies (#[trigger] out@[i]).0@
                != (#[trigger] out@[j]).0@ by {
                assert((seq!['-', '-'] + names[i]).skip(2) =~= names[i]);
                assert((seq!['-', '-'] + names[j]).skip(2) =~= names[j]);
            }
        }
        out
    }
}

/// What the entries of a style's variables read as: each name must begin
/// with `--`, which is dropped; a later definition of a name replaces an
/// earlier one. The error holds the first name that lacks the `--`.
pub open spec fn vars_parse(entries: Seq<(Seq<char>, ExprModel)>) -> Result<Map<Seq<char>, ExprModel>, Seq<char>>
    decreases entries.len(),
{
    if entries.len() == 0 {
        Ok(Map::empty())
    } else {
        match vars_parse(entries.drop_last()) {
            Err(k) => Err(k),
            Ok(m) => {
                let (k, x) = entries.last();
                if k.len() >= 2 && k[0] == '-' && k[1] == '-' {
                    Ok(m.insert(k.skip(2), x))
                } else {
                    Err(k)
                }
            },
        }
    }
}

pub open spec fn entries_view(e: Seq<(String, UntypedExpr)>) -> Seq<(Seq<char>, ExprModel)> {
    e.map_values(|p: (String, UntypedExpr)| (p.0@, p.1@))
}

impl VarsMap {
    /// Reads a style's variables from the entries of its `vars` map, in
    /// order.
    pub fn from_entries(entries: Vec<(String, UntypedExpr)>) -> (r: Result<VarsMap, String>)
        ensures
            match r {
                Ok(v) => v.well_formed() && vars_parse(entries_view(entries@)) == Ok::<_, Seq<char>>(v.view()),
                Err(k) => vars_parse(entries_view(entries@)) == Err::<Map<Seq<char>, ExprModel>, _>(k@),
            },
    {
        let mut result = VarsMap::with_capacity(entries.len());
        let mut i: usize = 0;
        let ghost ev = entries_view(entries@);
        let ghost orig = entries@;
        assert(ev.take(0) =~= Seq::<(Seq<char>, ExprModel)>::empty());
        while i < entries.len()
            invariant
                entries@ == orig,
                ev == entries_view(orig),
                i <= orig.len(),
                result.well_formed(),
                vars_parse(ev.take(i as int)) == Ok::<_, Seq<char>>(result.view()),
            decreases orig.len() - i,
        {
            let k = entries[i].0.clone();
            let x = entries[i].1.clone();
            assert(ev.take(i + 1).drop_last() == ev.take(i as int));
            assert(ev.take(i + 1).last() == (k@, x@));
            let c = chars_of(k.as_str());
            if c.len() >= 2 && c[0] == '-' && c[1] == '-' {
                let name = string_of(&c, 2, c.len());
                assert(name@ == k@.skip(2));
                result.insert(name.as_str(), x);
            } else {
                proof {
                    lemma_vars_parse_err(ev, i + 1);
                }
                return Err(k);
            }
            i = i + 1;
        }
        assert(ev.take(orig.len() as int) == ev);
        Ok(result)
    }
}

/// An error on a prefix of the entries is the error of all of them.
proof fn lemma_vars_parse_err(e: Seq<(Seq<char>, ExprModel)>, n: int)
    requires
        0 <= n <= e.len(),
        vars_parse(e.take(n)) is Err,
    ensures
        vars_parse(e) == vars_parse(e.take(n)),
    decreases e.len() - n,
{
    if n < e.len() {
        assert(e.take(n + 1).drop_last() == e.take(n));
        lemma_vars_parse_err(e, n + 1);
    } else {
        assert(e.take(n) == e);
    }
}

/// Defining a variable and then reading it gives what was defined; other
/// variables keep their definitions.
pub proof fn lemma_vars_read_after_define(m: Map<Seq<char>, ExprModel>, k: Seq<char>, x: ExprModel, other: Seq<char>)
    requires
        other != k,
    ensures
        m.insert(k, x).contains_key(k),
        m.insert(k, x)[k] == x,
        m.insert(k, x).contains_key(other) == m.contains_key(other),
        m.contains_key(other) ==> m.insert(k, x)[other] == m[other],
{
}

} // verus!
