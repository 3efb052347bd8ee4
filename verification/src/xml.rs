//! Writing an empty XML element with attributes, and reading the attributes
//! of a start tag, through `quick_xml`.
use vstd::prelude::*;

verus! {

/// How an XML writer escapes a character of an attribute value.
pub open spec fn escape_char(c: char) -> Seq<char> {
    if c == '<' {
        seq!['&', 'l', 't', ';']
    } else if c == '>' {
        seq!['&', 'g', 't', ';']
    } else if c == '&' {
        seq!['&', 'a', 'm', 'p', ';']
    } else if c == '\'' {
        seq!['&', 'a', 'p', 'o', 's', ';']
    } else if c == '"' {
        seq!['&', 'q', 'u', 'o', 't', ';']
    } else {
        seq![c]
    }
}

/// An attribute value with `<`, `>`, `&`, `'` and `"` escaped.
pub open spec fn escape_text(t: Seq<char>) -> Seq<char>
    decreases t.len(),
{
    if t.len() == 0 {
        Seq::empty()
    } else {
        escape_text(t.drop_last()) + escape_char(t.last())
    }
}

/// The attributes of an element: ` key="value"` each, the value escaped.
pub open spec fn attrs_text(attrs: Seq<(Seq<char>, Seq<char>)>) -> Seq<char>
    decreases attrs.len(),
{
    if attrs.len() == 0 {
        Seq::empty()
    } else {
        let (k, v) = attrs.last();
        attrs_text(attrs.drop_last()) + seq![' '] + k + seq!['=', '"'] + escape_text(v) + seq!['"']
    }
}

/// The text of the empty element `<tag key="value" .../>`.
pub open spec fn empty_element_text(tag: Seq<char>, attrs: Seq<(Seq<char>, Seq<char>)>) -> Seq<
    char,
> {
    seq!['<'] + tag + attrs_text(attrs) + seq!['/', '>']
}

pub open spec fn pair_views(attrs: Seq<(String, String)>) -> Seq<(Seq<char>, Seq<char>)> {
    attrs.map_values(|p: (String, String)| (p.0@, p.1@))
}

/// The empty element `<tag key="value" .../>` as `quick_xml`'s writer
/// writes it: `BytesStart::new(tag)`, one `push_attribute` per pair (which
/// escapes `<`, `>`, `&`, `'` and `"` in the value), and the element written
/// as `Event::Empty` without indentation. Writing into a `Vec` cannot fail.
#[verifier::external_body]
pub(crate) fn write_empty_element(tag: &str, attrs: &Vec<(String, String)>) -> (r: String)
    ensures
        r@ == empty_element_text(tag@, pair_views(attrs@)),
{
    let mut elem = quick_xml::events::BytesStart::new(tag);
    for (k, v) in attrs.iter() {
        elem.push_attribute((k.as_str(), v.as_str()));
    }
    let mut writer = quick_xml::Writer::new(std::io::Cursor::new(Vec::new()));
    writer.write_event(quick_xml::events::Event::Empty(elem)).unwrap();
    String::from_utf8(writer.into_inner().into_inner()).unwrap()
}

/// What `quick_xml` reads from the attribute part of a start tag (the text
/// after the tag's name), attribute by attribute in order: none for an
/// attribute that does not parse; else its key as bytes and its value
/// unescaped, or none for a value whose escape does not resolve.
pub uninterp spec fn tag_attributes(attrs: Seq<char>) -> Seq<Option<(Seq<u8>, Option<Seq<char>>)>>;

/// The attributes read, as plain values.
pub open spec fn reads_view(r: Seq<Option<(Vec<u8>, Option<String>)>>) -> Seq<
    Option<(Seq<u8>, Option<Seq<char>>)>,
> {
    r.map_values(
        |x: Option<(Vec<u8>, Option<String>)>|
            match x {
                None => None,
                Some((k, v)) => Some(
                    (
                        k@,
                        match v {
                            Some(t) => Some(t@),
                            None => None,
                        },
                    ),
                ),
            },
    )
}

/// The attributes of the attribute part of a start tag, as
/// `quick_xml::events::BytesStart::from_content(attrs, 0).attributes()` reads
/// them, one entry per attribute: none where the attribute does not parse,
/// else its key and its value through `Attribute::unescape_value` (none
/// where that fails). What the entries are is left to the name
/// `tag_attributes`.
#[verifier::external_body]
pub(crate) fn read_tag_attributes(attrs: &str) -> (r: Vec<Option<(Vec<u8>, Option<String>)>>)
    ensures
        reads_view(r@) == tag_attributes(attrs@),
{
    let start = quick_xml::events::BytesStart::from_content(attrs, 0);
    let mut out = Vec::new();
    for a in start.attributes() {
        match a {
            Ok(attr) => {
                let value = match attr.unescape_value() {
                    Ok(v) => Some(v.into_owned()),
                    Err(_) => None,
                };
                out.push(Some((attr.key.as_ref().to_vec(), value)));
            },
            Err(_) => out.push(None),
        }
    }
    out
}

/// An escaped value holds no `<`, `>` or `"`; a value with none of `<`,
/// `>`, `&`, `'`, `"` is written as it is.
pub proof fn lemma_escape_text(t: Seq<char>)
    ensures
        forall|i: int| 0 <= i < escape_text(t).len() ==> #[trigger] escape_text(t)[i] != '<'
            && escape_text(t)[i] != '>' && escape_text(t)[i] != '"',
        (forall|i: int| 0 <= i < t.len() ==> #[trigger] t[i] != '<' && t[i] != '>' && t[i] != '&' && t[i] != '\'' && t[i] != '"')
            ==> escape_text(t) == t,
    decreases t.len(),
{
    if t.len() > 0 {
        let p = t.drop_last();
        lemma_escape_text(p);
        let e = escape_char(t.last());
        assert forall|i: int| 0 <= i < e.len() implies #[trigger] e[i] != '<' && e[i] != '>' && e[i] != '"' by {}
        assert forall|i: int| 0 <= i < escape_text(t).len() implies #[trigger] escape_text(t)[i] != '<'
            && escape_text(t)[i] != '>' && escape_text(t)[i] != '"' by {
            if i < escape_text(p).len() {
                assert(escape_text(t)[i] == escape_text(p)[i]);
            } else {
                assert(escape_text(t)[i] == e[i - escape_text(p).len()]);
            }
        }
        if forall|i: int| 0 <= i < t.len() ==> #[trigger] t[i] != '<' && t[i] != '>' && t[i] != '&' && t[i] != '\'' && t[i] != '"' {
            assert forall|i: int| 0 <= i < p.len() implies #[trigger] p[i] != '<' && p[i] != '>' && p[i] != '&' && p[i] != '\'' && p[i] != '"' by {
                assert(p[i] == t[i]);
            }
            assert(t[t.len() - 1] == t.last());
            assert(p.push(t.last()) =~= t);
            assert(seq![t.last()] + Seq::<char>::empty() == seq![t.last()]);
            assert(p + seq![t.last()] =~= t);
        }
    }
}

} // verus!
