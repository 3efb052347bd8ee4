//! Partial styles: the style attributes that a style sheet entry sets, in
//! the order they are applied.
use vstd::prelude::*;
use crate::attr::{
    byte_text, element_prop, is_element_prop, name_is, prop_from_name, prop_named, value_panics,
    value_parse, value_text, AttrValue, Prop, StyleAttr, ValueError, reports,
};
use crate::error::GuiseError;
use crate::text::{chars_of, string_of, trim, trim_str};
use crate::style::ComputedStyle;
use crate::xml::{empty_element_text, pair_views, read_tag_attributes, reads_view, tag_attributes, write_empty_element};

verus! {

/// A computed style with the attributes `attrs` applied in order.
pub open spec fn apply_all(attrs: Seq<StyleAttr>, c: ComputedStyle) -> ComputedStyle
    decreases attrs.len(),
{
    if attrs.len() == 0 {
        c
    } else {
        attrs.last().applied(apply_all(attrs.drop_last(), c))
    }
}

/// Applying the attributes of one style and then those of another is
/// applying the attributes of both, in that order.
pub proof fn lemma_apply_all_concat(a: Seq<StyleAttr>, b: Seq<StyleAttr>, c: ComputedStyle)
    ensures
        apply_all(a + b, c) == apply_all(b, apply_all(a, c)),
    decreases b.len(),
{
    if b.len() == 0 {
        assert(a + b == a);
    } else {
        lemma_apply_all_concat(a, b.drop_last(), c);
        assert((a + b).drop_last() == a + b.drop_last());
        assert((a + b).last() == b.last());
    }
}

/// The name and value text of each attribute.
pub open spec fn attr_texts(attrs: Seq<StyleAttr>) -> Seq<(Seq<char>, Seq<char>)> {
    attrs.map_values(|a: StyleAttr| (a@.0.spec_name(), value_text(a@.1)))
}

/// An attribute that a style element's reader passes over: the element's
/// `id`, or a name with a namespace prefix.
pub open spec fn skipped_key(k: Seq<u8>) -> bool {
    byte_text(k) == "id"@ || k.contains(0x3a)
}

/// What the attributes of a style element read as, in order: the attributes
/// that are not passed over, each value trimmed of whitespace; or the first
/// error.
pub open spec fn element_parse(attrs: Seq<(Seq<u8>, Seq<char>)>) -> Result<
    Seq<(Prop, AttrValue)>,
    ValueError,
>
    decreases attrs.len(),
{
    if attrs.len() == 0 {
        Ok(Seq::empty())
    } else {
        match element_parse(attrs.drop_last()) {
            Err(e) => Err(e),
            Ok(prev) => {
                let (k, v) = attrs.last();
                if skipped_key(k) {
                    Ok(prev)
                } else {
                    let p = prop_named(k)->0;
                    match value_parse(p, trim(v)) {
                        Ok(x) => Ok(prev.push((p, x))),
                        Err(e) => Err(e),
                    }
                }
            },
        }
    }
}

/// Reading the attributes of a style element reaches, before any error, an
/// attribute whose name the element does not take or whose value holds a
/// number that does not convert.
pub open spec fn element_panics(attrs: Seq<(Seq<u8>, Seq<char>)>) -> bool
    decreases attrs.len(),
{
    if attrs.len() == 0 {
        false
    } else {
        ||| element_panics(attrs.drop_last())
        ||| {
            &&& element_parse(attrs.drop_last()) is Ok
            &&& !skipped_key(attrs.last().0)
            &&& match prop_named(attrs.last().0) {
                None => true,
                Some(p) => !element_prop(p) || value_panics(p, trim(attrs.last().1)),
            }
        }
    }
}

pub open spec fn key_views(attrs: Seq<(Vec<u8>, String)>) -> Seq<(Seq<u8>, Seq<char>)> {
    attrs.map_values(|a: (Vec<u8>, String)| (a.0@, a.1@))
}

/// A reading that does not panic does not panic on any prefix.
proof fn lemma_element_panics_prefix(attrs: Seq<(Seq<u8>, Seq<char>)>, n: int)
    requires
        0 <= n <= attrs.len(),
        !element_panics(attrs),
    ensures
        !element_panics(attrs.take(n)),
    decreases attrs.len() - n,
{
    if n < attrs.len() {
        lemma_element_panics_prefix(attrs, n + 1);
        assert(attrs.take(n + 1).drop_last() == attrs.take(n));
    } else {
        assert(attrs.take(n) == attrs);
    }
}

/// A reading that ends in an error on a prefix ends in that error.
proof fn lemma_element_parse_extends(attrs: Seq<(Seq<u8>, Seq<char>)>, n: int)
    requires
        0 <= n <= attrs.len(),
        element_parse(attrs.take(n)) is Err,
    ensures
        element_parse(attrs) == element_parse(attrs.take(n)),
    decreases attrs.len() - n,
{
    if n < attrs.len() {
        assert(attrs.take(n + 1).drop_last() == attrs.take(n));
        lemma_element_parse_extends(attrs, n + 1);
    } else {
        assert(attrs.take(n) == attrs);
    }
}

/// A reading that panics on a prefix panics.
proof fn lemma_element_panics_extends(attrs: Seq<(Seq<u8>, Seq<char>)>, n: int)
    requires
        0 <= n <= attrs.len(),
        element_panics(attrs.take(n)),
    ensures
        element_panics(attrs),
    decreases attrs.len() - n,
{
    if n < attrs.len() {
        assert(attrs.take(n + 1).drop_last() == attrs.take(n));
        lemma_element_panics_extends(attrs, n + 1);
    } else {
        assert(attrs.take(n) == attrs);
    }
}

/// Nothing after the first error can panic.
proof fn lemma_element_no_panic_after_error(attrs: Seq<(Seq<u8>, Seq<char>)>, n: int)
    requires
        0 <= n <= attrs.len(),
        element_parse(attrs.take(n)) is Err,
        !element_panics(attrs.take(n)),
    ensures
        !element_panics(attrs),
    decreases attrs.len() - n,
{
    if n < attrs.len() {
        assert(attrs.take(n + 1).drop_last() == attrs.take(n));
        lemma_element_no_panic_after_error(attrs, n + 1);
    } else {
        assert(attrs.take(n) == attrs);
    }
}

fn is_skipped_key(k: &Vec<u8>) -> (r: bool)
    ensures
        r == skipped_key(k@),
{
    if name_is(k.as_slice(), "id") {
        return true;
    }
    let mut i: usize = 0;
    while i < k.len()
        invariant
            i <= k@.len(),
            forall|j: int| 0 <= j < i ==> k@[j] != 0x3a,
        decreases k@.len() - i,
    {
        if k[i] == 0x3a {
            assert(k@.contains(0x3a));
            return true;
        }
        i = i + 1;
    }
    false
}

/// A collection of style properties which can be merged to create a `Style`.
/// Rather than storing the attributes in a struct full of optional fields, we
/// store a flat vector of attributes, each of which sets a single property.
#[derive(Debug, Default)]
pub struct PartialStyle {
    attrs: Vec<StyleAttr>,
}

impl View for PartialStyle {
    type V = Seq<StyleAttr>;

    closed spec fn view(&self) -> Seq<StyleAttr> {
        self.attrs@
    }
}

impl Clone for PartialStyle {
    fn clone(&self) -> (r: PartialStyle)
        ensures
            r@ == self@,
    {
        PartialStyle { attrs: clone_attrs(&self.attrs) }
    }
}

fn clone_attrs(attrs: &[StyleAttr]) -> (r: Vec<StyleAttr>)
    ensures
        r@ == attrs@,
{
    let mut out: Vec<StyleAttr> = Vec::new();
    let mut i: usize = 0;
    while i < attrs.len()
        invariant
            i <= attrs@.len(),
            out@ == attrs@.take(i as int),
        decreases attrs@.len() - i,
    {
        out.push(attrs[i].clone());
        assert(attrs@.take(i + 1) == attrs@.take(i as int).push(attrs@[i as int]));
        i = i + 1;
    }
    assert(attrs@.take(attrs@.len() as int) == attrs@);
    out
}

impl PartialStyle {
    /// Construct a new, empty `PartialStyle`.
    pub fn new() -> (r: PartialStyle)
        ensures
            r@ == Seq::<StyleAttr>::empty(),
    {
        PartialStyle { attrs: Vec::new() }
    }

    /// Construct a new, empty `PartialStyle` with room for `size` attributes.
    pub fn with_capacity(size: usize) -> (r: PartialStyle)
        ensures
            r@ == Seq::<StyleAttr>::empty(),
    {
        PartialStyle { attrs: Vec::with_capacity(size) }
    }

    /// Construct a new `PartialStyle` from a list of `StyleAttr`s.
    pub fn from_attrs(attrs: &[StyleAttr]) -> (r: PartialStyle)
        ensures
            r@ == attrs@,
    {
        PartialStyle { attrs: clone_attrs(attrs) }
    }

    /// The attributes, in the order they apply.
    pub fn attrs(&self) -> (r: &Vec<StyleAttr>)
        ensures
            r@ == self@,
    {
        &self.attrs
    }

    /// Reads a style element from its attributes, as keys and unescaped
    /// values in order: the `id` and names with a namespace prefix are
    /// passed over, and each other value is read with its whitespace
    /// trimmed. The first error ends the reading.
    pub fn from_xml(attrs: &Vec<(Vec<u8>, String)>) -> (r: Result<PartialStyle, GuiseError>)
        requires
            !element_panics(key_views(attrs@)),
        ensures
            r matches Ok(s) ==> element_parse(key_views(attrs@)) == Ok::<_, ValueError>(
                s@.map_values(|a: StyleAttr| a@),
            ),
            r matches Err(e) ==> element_parse(key_views(attrs@)) matches Err(ve) && reports(e, ve),
    {
        let mut out: Vec<StyleAttr> = Vec::new();
        let mut i: usize = 0;
        assert(key_views(attrs@).take(0).len() == 0);
        assert(out@.map_values(|a: StyleAttr| a@) =~= Seq::<(Prop, AttrValue)>::empty());
        while i < attrs.len()
            invariant
                i <= attrs@.len(),
                !element_panics(key_views(attrs@)),
                element_parse(key_views(attrs@).take(i as int)) == Ok::<_, ValueError>(
                    out@.map_values(|a: StyleAttr| a@),
                ),
            decreases attrs@.len() - i,
        {
            let ghost kv = key_views(attrs@);
            proof {
                assert(kv.take(i + 1).drop_last() == kv.take(i as int));
                assert(kv.take(i + 1).last() == kv[i as int]);
                assert(kv[i as int] == (attrs@[i as int].0@, attrs@[i as int].1@));
                lemma_element_panics_prefix(kv, i + 1);
            }
            let (k, v) = &attrs[i];
            if !is_skipped_key(k) {
                let value = trim_str(v.as_str());
                match prop_from_name(k.as_slice()) {
                    Some(p) => {
                        match StyleAttr::from_xml(k.as_slice(), value.as_str()) {
                            Ok(a) => {
                                let ghost before = out@;
                                out.push(a);
                                assert(out@.map_values(|a: StyleAttr| a@) == before.map_values(
                                    |a: StyleAttr| a@,
                                ).push(a@));
                            },
                            Err(e) => {
                                proof {
                                    lemma_element_parse_extends(kv, i + 1);
                                }
                                return Err(e);
                            },
                        }
                    },
                    None => {
                        assert(false);
                    },
                }
            }
            i = i + 1;
        }
        assert(key_views(attrs@).take(attrs@.len() as int) == key_views(attrs@));
        Ok(PartialStyle { attrs: out })
    }

    /// Whether reading a style element from these attributes would reach
    /// an attribute it does not take or a number that does not convert.
    pub fn from_xml_would_panic(attrs: &Vec<(Vec<u8>, String)>) -> (r: bool)
        ensures
            r == element_panics(key_views(attrs@)),
    {
        let mut i: usize = 0;
        assert(key_views(attrs@).take(0).len() == 0);
        while i < attrs.len()
            invariant
                i <= attrs@.len(),
                !element_panics(key_views(attrs@).take(i as int)),
                element_parse(key_views(attrs@).take(i as int)) is Ok,
            decreases attrs@.len() - i,
        {
            let ghost kv = key_views(attrs@);
            proof {
                assert(kv.take(i + 1).drop_last() == kv.take(i as int));
                assert(kv.take(i + 1).last() == kv[i as int]);
                assert(kv[i as int] == (attrs@[i as int].0@, attrs@[i as int].1@));
            }
            let (k, v) = &attrs[i];
            if !is_skipped_key(k) {
                let value = trim_str(v.as_str());
                match prop_from_name(k.as_slice()) {
                    Some(p) => {
                        if !is_element_prop(p) || StyleAttr::parse_would_panic(k.as_slice(), value.as_str()) {
                            proof {
                                lemma_element_panics_extends(kv, i + 1);
                            }
                            return true;
                        }
                        if StyleAttr::from_xml(k.as_slice(), value.as_str()).is_err() {
                            proof {
                                lemma_element_parse_extends(kv, i + 1);
                                lemma_element_no_panic_after_error(kv, i + 1);
                            }
                            return false;
                        }
                    },
                    None => {
                        proof {
                            lemma_element_panics_extends(kv, i + 1);
                        }
                        return true;
                    },
                }
            }
            i = i + 1;
        }
        assert(key_views(attrs@).take(attrs@.len() as int) == key_views(attrs@));
        false
    }

    /// Reads a style element as `from_xml` does, or gives `None` where
    /// reading would reach an attribute it does not take or a number that
    /// does not convert.
    pub fn from_xml_checked(attrs: &Vec<(Vec<u8>, String)>) -> (r: Option<Result<PartialStyle, GuiseError>>)
        ensures
            r is None <==> element_panics(key_views(attrs@)),
            r matches Some(Ok(s)) ==> element_parse(key_views(attrs@)) == Ok::<_, ValueError>(
                s@.map_values(|a: StyleAttr| a@),
            ),
            r matches Some(Err(e)) ==> element_parse(key_views(attrs@)) matches Err(ve) && reports(e, ve),
    {
        if PartialStyle::from_xml_would_panic(attrs) {
            None
        } else {
            Some(PartialStyle::from_xml(attrs))
        }
    }

    /// Whether two styles hold the same attributes in the same order.
    pub fn same_as(&self, other: &PartialStyle) -> (r: bool)
        ensures
            r == (self@.map_values(|a: StyleAttr| a@) == other@.map_values(|a: StyleAttr| a@)),
    {
        let ghost x = self@.map_values(|a: StyleAttr| a@);
        let ghost y = other@.map_values(|a: StyleAttr| a@);
        if self.attrs.len() != other.attrs.len() {
            assert(x.len() != y.len());
            return false;
        }
        let mut i: usize = 0;
        while i < self.attrs.len()
            invariant
                x == self@.map_values(|a: StyleAttr| a@),
                y == other@.map_values(|a: StyleAttr| a@),
                self@.len() == other@.len(),
                i <= self@.len(),
                forall|j: int| 0 <= j < i ==> x[j] == y[j],
            decreases self@.len() - i,
        {
            if !self.attrs[i].same_as(&other.attrs[i]) {
                assert(x[i as int] != y[i as int]);
                return false;
            }
            i = i + 1;
        }
        assert(x =~= y);
        true
    }

    /// True if there are no styles defined.
    pub fn is_empty(&self) -> (r: bool)
        ensures
            r == (self@.len() == 0),
    {
        self.attrs.len() == 0
    }

    /// Every attribute can be applied.
    pub open spec fn applicable(&self) -> bool {
        forall|i: int| 0 <= i < self@.len() ==> (#[trigger] self@[i]).apply_ok()
    }

    /// Whether every attribute can be applied: no grid line or span is zero.
    pub fn is_applicable(&self) -> (r: bool)
        ensures
            r == self.applicable(),
    {
        let mut i: usize = 0;
        while i < self.attrs.len()
            invariant
                i <= self@.len(),
                forall|j: int| 0 <= j < i ==> (#[trigger] self@[j]).apply_ok(),
            decreases self@.len() - i,
        {
            let ok = match &self.attrs[i] {
                StyleAttr::GridRowStart(x) => *x != 0,
                StyleAttr::GridRowSpan(x) => *x != 0,
                StyleAttr::GridRowEnd(x) => *x != 0,
                StyleAttr::GridColumnStart(x) => *x != 0,
                StyleAttr::GridColumnSpan(x) => *x != 0,
                StyleAttr::GridColumnEnd(x) => *x != 0,
                _ => true,
            };
            if !ok {
                return false;
            }
            i = i + 1;
        }
        true
    }

    /// Whether every attribute can be written: none is a whole grid placement.
    pub fn is_writable(&self) -> (r: bool)
        ensures
            r == self.writable(),
    {
        let mut i: usize = 0;
        while i < self.attrs.len()
            invariant
                i <= self@.len(),
                forall|j: int| 0 <= j < i ==> (#[trigger] self@[j]).writable(),
            decreases self@.len() - i,
        {
            let ok = match &self.attrs[i] {
                StyleAttr::GridRow(_) => false,
                StyleAttr::GridColumn(_) => false,
                _ => true,
            };
            if !ok {
                return false;
            }
            i = i + 1;
        }
        true
    }

    /// Merge the style properties into a computed `Style` object.
    pub fn apply_to(&self, computed: &mut ComputedStyle)
        requires
            self.applicable(),
        ensures
            *final(computed) == apply_all(self@, *old(computed)),
    {
        let mut i: usize = 0;
        while i < self.attrs.len()
            invariant
                i <= self@.len(),
                self.applicable(),
                *computed == apply_all(self@.take(i as int), *old(computed)),
            decreases self@.len() - i,
        {
            assert(self@[i as int].apply_ok());
            self.attrs[i].apply(computed);
            assert(self@.take(i + 1).drop_last() == self@.take(i as int));
            i = i + 1;
        }
        assert(self@.take(self@.len() as int) == self@);
    }

    /// Returns either the current style or an empty style based on a
    /// condition. Used for dynamic styling in response to state changes.
    pub fn if_cond(&self, cond: bool) -> (r: PartialStyle)
        ensures
            cond ==> r@ == self@,
            !cond ==> r@ == Seq::<StyleAttr>::empty(),
    {
        if cond {
            self.clone()
        } else {
            PartialStyle::new()
        }
    }

    /// Every attribute can be written.
    pub open spec fn writable(&self) -> bool {
        forall|i: int| 0 <= i < self@.len() ==> (#[trigger] self@[i]).writable()
    }

    /// The attributes as name and value text, in order.
    pub fn attr_pairs(&self) -> (r: Vec<(String, String)>)
        requires
            self.writable(),
        ensures
            r@.len() == self@.len(),
            forall|i: int|
                0 <= i < r@.len() ==> (#[trigger] r@[i]).0@ == self@[i]@.0.spec_name() && r@[i].1@
                    == value_text(self@[i]@.1),
    {
        let mut out: Vec<(String, String)> = Vec::new();
        let mut i: usize = 0;
        while i < self.attrs.len()
            invariant
                i <= self@.len(),
                self.writable(),
                out@.len() == i,
                forall|j: int|
                    0 <= j < i ==> (#[trigger] out@[j]).0@ == self@[j]@.0.spec_name() && out@[j].1@
                        == value_text(self@[j]@.1),
            decreases self@.len() - i,
        {
            assert(self@[i as int].writable());
            let ghost before = out@;
            self.attrs[i].write_xml(&mut out);
            assert forall|j: int| 0 <= j < i + 1 implies (#[trigger] out@[j]).0@
                == self@[j]@.0.spec_name() && out@[j].1@ == value_text(
                self@[j]@.1,
            ) by {
                if j < i {
                    assert(out@[j] == out@.take(i as int)[j]);
                }
            }
            i = i + 1;
        }
        out
    }

    /// The style as an empty XML element `<style .../>` holding one
    /// attribute per style attribute, in order.
    pub fn write_xml(&self) -> (r: String)
        requires
            self.writable(),
        ensures
            r@ == empty_element_text("style"@, attr_texts(self@)),
    {
        let pairs = self.attr_pairs();
        assert(pair_views(pairs@) =~= attr_texts(self@));
        write_empty_element("style", &pairs)
    }
}

/// The whitespace that ends a tag's name in XML.
pub open spec fn is_xml_space(c: char) -> bool {
    c == ' ' || c == '\r' || c == '\n' || c == '\t'
}

/// The text of a tag between `<` and `>` without the `/` that closes an
/// empty element.
pub open spec fn tag_body(tag: Seq<char>) -> Seq<char> {
    if tag.len() > 0 && tag.last() == '/' {
        tag.drop_last()
    } else {
        tag
    }
}

/// Where the name of a tag ends, looking from `i`: at its first whitespace,
/// else at its end.
pub open spec fn name_end_from(b: Seq<char>, i: int) -> int
    decreases b.len() - i,
{
    if i >= b.len() {
        b.len() as int
    } else if is_xml_space(b[i]) {
        i
    } else {
        name_end_from(b, i + 1)
    }
}

/// The attribute part of a tag: what follows its name.
pub open spec fn tag_attr_text(tag: Seq<char>) -> Seq<char> {
    let b = tag_body(tag);
    b.subrange(name_end_from(b, 0), b.len() as int)
}

proof fn lemma_name_end_bounds(b: Seq<char>, i: int)
    requires
        0 <= i <= b.len(),
    ensures
        i <= name_end_from(b, i) <= b.len(),
    decreases b.len() - i,
{
    if i < b.len() && !is_xml_space(b[i]) {
        lemma_name_end_bounds(b, i + 1);
    }
}

/// The attribute part of the tag `tag`.
fn attr_text_of(tag: &str) -> (r: String)
    ensures
        r@ == tag_attr_text(tag@),
{
    let v = chars_of(tag);
    let end = if v.len() > 0 && v[v.len() - 1] == '/' {
        v.len() - 1
    } else {
        v.len()
    };
    let ghost b = tag_body(tag@);
    assert(b == v@.subrange(0, end as int));
    let mut k: usize = 0;
    while k < end && !(v[k] == ' ' || v[k] == '\r' || v[k] == '\n' || v[k] == '\t')
        invariant
            end <= v@.len(),
            b == v@.subrange(0, end as int),
            k <= end,
            name_end_from(b, 0) == name_end_from(b, k as int),
        decreases end - k,
    {
        k = k + 1;
    }
    proof {
        lemma_name_end_bounds(b, 0);
    }
    assert(name_end_from(b, k as int) == k);
    let r = string_of(&v, k, end);
    assert(r@ == b.subrange(k as int, b.len() as int));
    r
}

/// The attributes read from a tag up to the first value whose escape does
/// not resolve (skipping those that do not parse), and whether there is
/// such a value.
pub open spec fn pairs_before_bad_escape(r: Seq<Option<(Seq<u8>, Option<Seq<char>>)>>) -> (
    Seq<(Seq<u8>, Seq<char>)>,
    bool,
)
    decreases r.len(),
{
    if r.len() == 0 {
        (Seq::empty(), false)
    } else {
        let (p, bad) = pairs_before_bad_escape(r.drop_last());
        if bad {
            (p, true)
        } else {
            match r.last() {
                None => (p, false),
                Some((k, None)) => (p, true),
                Some((k, Some(v))) => (p.push((k, v)), false),
            }
        }
    }
}

impl PartialStyle {
    /// Reads a style element from the text of its start tag between `<` and
    /// `>`, attribute by attribute as `from_xml` does, passing over the
    /// attributes that do not parse. None where reading reaches, before any
    /// error, a value whose escape does not resolve, an attribute it does
    /// not take, or a number that does not convert.
    pub fn from_tag(tag: &str) -> (r: Option<Result<PartialStyle, GuiseError>>)
        ensures
            ({
                let (p, bad) = pairs_before_bad_escape(tag_attributes(tag_attr_text(tag@)));
                &&& r is None <==> (element_panics(p) || (bad && element_parse(p) is Ok))
                &&& r matches Some(Ok(s)) ==> !bad && element_parse(p) == Ok::<_, ValueError>(
                    s@.map_values(|a: StyleAttr| a@),
                )
                &&& r matches Some(Err(e)) ==> element_parse(p) matches Err(ve) && reports(e, ve)
            }),
    {
        let text = attr_text_of(tag);
        let reads = read_tag_attributes(text.as_str());
        let ghost rv = reads_view(reads@);
        let mut pairs: Vec<(Vec<u8>, String)> = Vec::new();
        let mut bad = false;
        let mut i: usize = 0;
        assert(rv.take(0) =~= Seq::<Option<(Seq<u8>, Option<Seq<char>>)>>::empty());
        while i < reads.len()
            invariant
                i <= reads@.len(),
                rv == reads_view(reads@),
                rv.len() == reads@.len(),
                pairs_before_bad_escape(rv.take(i as int)) == (key_views(pairs@), bad),
                bad ==> pairs_before_bad_escape(rv) == (key_views(pairs@), true),
            decreases reads@.len() - i,
        {
            proof {
                assert(rv.take(i + 1).drop_last() == rv.take(i as int));
                assert(rv.take(i + 1).last() == rv[i as int]);
            }
            if !bad {
                match &reads[i] {
                    None => {},
                    Some((k, v)) => match v {
                        None => {
                            bad = true;
                        },
                        Some(t) => {
                            let kc = k.clone();
                            let tc = t.clone();
                            proof {
                                assert(kc@ =~= k@);
                                assert(key_views(pairs@.push((kc, tc))) =~= key_views(pairs@).push((k@, t@)));
                            }
                            pairs.push((kc, tc));
                        },
                    },
                }
            }
            proof {
                if bad {
                    lemma_bad_escape_stays(rv, i as int + 1);
                }
            }
            i = i + 1;
        }
        assert(rv.take(rv.len() as int) == rv);
        match PartialStyle::from_xml_checked(&pairs) {
            None => None,
            Some(Err(e)) => Some(Err(e)),
            Some(Ok(s)) => if bad {
                None
            } else {
                Some(Ok(s))
            },
        }
    }
}

/// Once a value whose escape does not resolve is reached, what follows
/// changes nothing.
proof fn lemma_bad_escape_stays(r: Seq<Option<(Seq<u8>, Option<Seq<char>>)>>, n: int)
    requires
        0 <= n <= r.len(),
        pairs_before_bad_escape(r.take(n)).1,
    ensures
        pairs_before_bad_escape(r) == pairs_before_bad_escape(r.take(n)),
    decreases r.len() - n,
{
    if n < r.len() {
        assert(r.take(n + 1).drop_last() == r.take(n));
        lemma_bad_escape_stays(r, n + 1);
    } else {
        assert(r.take(n) == r);
    }
}

} // verus!
