//! Conditional styles: a list of selectors, each with the style that
//! applies where it matches, in the order they were given.
use vstd::prelude::*;
use crate::selector::{display, parse_selector, Selector};

verus! {

/// The selectors of a style, each with its style, in order.
#[derive(Debug, PartialEq)]
pub struct SelectorsMap<S>(pub Vec<(Selector, S)>);

impl<S> SelectorsMap<S> {
    pub fn new() -> (r: SelectorsMap<S>)
        ensures
            r.0@ == Seq::<(Selector, S)>::empty(),
    {
        SelectorsMap(Vec::new())
    }

    pub fn with_capacity(capacity: usize) -> (r: SelectorsMap<S>)
        ensures
            r.0@ == Seq::<(Selector, S)>::empty(),
    {
        SelectorsMap(Vec::with_capacity(capacity))
    }

    pub fn len(&self) -> (r: usize)
        ensures
            r == self.0@.len(),
    {
        self.0.len()
    }

    pub fn entries(&self) -> (r: &[(Selector, S)])
        ensures
            r@ == self.0@,
    {
        self.0.as_slice()
    }

    /// Adds a selector and its style after the others.
    pub fn insert(&mut self, key: Selector, value: S)
        ensures
            final(self).0@ == old(self).0@.push((key, value)),
    {
        self.0.push((key, value))
    }

    /// Reads the selectors of a style from the entries of its `selectors`
    /// map, in order: each key must be a selector. The error is that of the
    /// first key that is not.
    pub fn from_entries(entries: Vec<(String, S)>) -> (r: Result<SelectorsMap<S>, String>)
        ensures
            r matches Ok(m) ==> m.0@.len() == entries@.len() && forall|i: int|
                0 <= i < entries@.len() ==> parse_selector(#[trigger] entries@[i].0@) == Some(
                    m.0@[i].0@,
                ) && m.0@[i].1 == entries@[i].1,
            r matches Err(msg) ==> exists|i: int|
                0 <= i < entries@.len() && parse_selector(#[trigger] entries@[i].0@) is None
                    && msg@ == seq!['I', 'n', 'v', 'a', 'l', 'i', 'd', ' ', 's', 'e', 'l', 'e', 'c', 't', 'o', 'r', ':', ' ']
                    + entries@[i].0@ && forall|j: int|
                    0 <= j < i ==> parse_selector(#[trigger] entries@[j].0@) is Some,
    {
        let ghost orig = entries@;
        let mut result: Vec<(Selector, S)> = Vec::new();
        let mut rest = entries;
        let n = rest.len();
        let mut i: usize = 0;
        assert(orig.subrange(0, orig.len() as int) == orig);
        while rest.len() > 0
            invariant
                orig == entries@,
                n == orig.len(),
                i <= orig.len(),
                rest@ == orig.subrange(i as int, orig.len() as int),
                result@.len() == i,
                forall|k: int| 0 <= k < i ==> parse_selector(#[trigger] orig[k].0@) == Some(
                    result@[k].0@,
                ) && result@[k].1 == orig[k].1,
            decreases rest@.len(),
        {
            let (key, value) = rest.remove(0);
            assert(key@ == orig[i as int].0@);
            assert(value == orig[i as int].1);
            match Selector::parse(key.as_str()) {
                Ok(sel) => {
                    result.push((sel, value));
                },
                Err(msg) => {
                    assert(forall|j: int| 0 <= j < i ==> parse_selector(#[trigger] orig[j].0@) is Some);
                    assert(parse_selector(orig[i as int].0@) is None);
                    assert(msg@ == seq!['I', 'n', 'v', 'a', 'l', 'i', 'd', ' ', 's', 'e', 'l', 'e', 'c', 't', 'o', 'r', ':', ' '] + orig[i as int].0@);
                    assert(exists|k: int|
                        0 <= k < orig.len() && parse_selector(#[trigger] orig[k].0@) is None
                            && msg@ == seq!['I', 'n', 'v', 'a', 'l', 'i', 'd', ' ', 's', 'e', 'l', 'e', 'c', 't', 'o', 'r', ':', ' ']
                            + orig[k].0@ && forall|j: int|
                            0 <= j < k ==> parse_selector(#[trigger] orig[j].0@) is Some);
                    return Err(msg);
                },
            }
            i = i + 1;
        }
        Ok(SelectorsMap(result))
    }

    /// The selectors as their text, with their styles, in order.
    pub fn entries_text(&self) -> (r: Vec<(String, &S)>)
        ensures
            r@.len() == self.0@.len(),
            forall|i: int|
                0 <= i < r@.len() ==> (#[trigger] r@[i]).0@ == display(self.0@[i].0@) && r@[i].1
                    == &self.0@[i].1,
    {
        let mut out: Vec<(String, &S)> = Vec::new();
        let mut i: usize = 0;
        while i < self.0.len()
            invariant
                i <= self.0@.len(),
                out@.len() == i,
                forall|k: int|
                    0 <= k < i ==> (#[trigger] out@[k]).0@ == display(self.0@[k].0@) && out@[k].1
                        == &self.0@[k].1,
            decreases self.0@.len() - i,
        {
            out.push((self.0[i].0.to_string(), &self.0[i].1));
            i = i + 1;
        }
        out
    }
}

} // verus!
