use vstd::prelude::*;

use crate::text::{chars_of, count_char, count_of, same_text};

verus! {

/// One element of a parsed page: its tag name, its attributes in source order,
/// and the text of all its descendant text nodes, concatenated.
pub struct HtmlElement {
    pub name: String,
    pub attrs: Vec<(String, String)>,
    pub text: String,
}

/// The mathematical view of an [`HtmlElement`].
pub struct ElementModel {
    pub name: Seq<char>,
    pub attrs: Seq<(Seq<char>, Seq<char>)>,
    pub text: Seq<char>,
}

impl View for HtmlElement {
    type V = ElementModel;

    open spec fn view(&self) -> ElementModel {
        ElementModel {
            name: self.name@,
            attrs: self.attrs@.map_values(|p: (String, String)| (p.0@, p.1@)),
            text: self.text@,
        }
    }
}

/// The views of a list of elements.
pub open spec fn elements_view(es: Seq<HtmlElement>) -> Seq<ElementModel> {
    es.map_values(|e: HtmlElement| e@)
}

/// The elements, in document order, that the HTML parser finds in `html`.
pub uninterp spec fn dom_elements(html: Seq<char>) -> Seq<ElementModel>;

/// The longest page, in characters, that the parser takes: at four bytes a
/// character at most, its text stays under the `u32::MAX` bytes that a tendril holds.
pub const MAX_PAGE_CHARS: usize = 1073741823;

/// The most `<` characters that a page given to the parser may hold. Every
/// element comes from a tag that begins with `<`, or is implied by one (at most
/// a few per tag: `html`, `head`, `body`, a table's `tbody` and `tr`, a reopened
/// formatting element), so the parsed tree nests at most about four levels per
/// `<`. The copy of that tree and the text of each element are built by
/// recursion, one call per level, and an unoptimised build fits only about a
/// thousand levels in a 2 MiB thread stack: the bound keeps within that.
pub const MAX_PAGE_TAGS: usize = 256;

/// A page the parser can take: short enough for a tendril, with few enough
/// tags that the parsed tree cannot nest deeper than the stack allows.
pub open spec fn page_fits(html: Seq<char>) -> bool {
    html.len() <= MAX_PAGE_CHARS && count_char(html, '<') <= MAX_PAGE_TAGS
}

/// Whether `html` is a page the parser can take.
pub fn fits_parser(html: &str) -> (r: bool)
    ensures
        r == page_fits(html@),
{
    if html.unicode_len() > MAX_PAGE_CHARS {
        return false;
    }
    let s = chars_of(html);
    count_of(&s, '<') <= MAX_PAGE_TAGS
}

/// Relies on select's `Document::from(&str)` (an html5ever parse, which depends
/// on the text alone; it asserts that the text fits a `u32` byte length) and on
/// its `Element` predicate, `name`, `attrs` and `text` for each element node,
/// taken in document order. Building the tree and collecting the text recurse
/// once per nesting level, which `page_fits` bounds.
#[verifier::external_body]
pub(crate) fn parse_elements(html: &str) -> (r: Vec<HtmlElement>)
    requires
        page_fits(html@),
    ensures
        elements_view(r@) == dom_elements(html@),
{
    let doc = select::document::Document::from(html);
    doc.find(select::predicate::Element).map(|n| HtmlElement {
        name: n.name().unwrap_or("").to_string(),
        attrs: n.attrs().map(|(k, v)| (k.to_string(), v.to_string())).collect(),
        text: n.text(),
    }).collect()
}

/// The value of the first attribute named `k` in `attrs`.
pub open spec fn attr_in(attrs: Seq<(Seq<char>, Seq<char>)>, k: Seq<char>) -> Option<Seq<char>>
    decreases attrs.len(),
{
    if attrs.len() == 0 {
        None
    } else if attrs[0].0 == k {
        Some(attrs[0].1)
    } else {
        attr_in(attrs.drop_first(), k)
    }
}

/// The value of attribute `k` of element `e`, if it has one.
pub open spec fn attr_value(e: ElementModel, k: Seq<char>) -> Option<Seq<char>> {
    attr_in(e.attrs, k)
}

/// `e` is a `<name>` element.
pub open spec fn named(e: ElementModel, name: Seq<char>) -> bool {
    e.name == name
}

/// `e` carries attribute `k`, whatever its value.
pub open spec fn has_attr(e: ElementModel, k: Seq<char>) -> bool {
    attr_value(e, k) is Some
}

/// `e` carries attribute `k` with value exactly `v`.
pub open spec fn attr_is(e: ElementModel, k: Seq<char>, v: Seq<char>) -> bool {
    attr_value(e, k) == Some(v)
}

/// The value of attribute `k` of `e`.
pub fn attr_of<'a>(e: &'a HtmlElement, k: &str) -> (r: Option<&'a String>)
    ensures
        match r {
            Some(v) => attr_value(e@, k@) == Some(v@),
            None => attr_value(e@, k@) is None,
        },
{
    let ghost m = e@.attrs;
    assert(m.subrange(0, m.len() as int) =~= m);
    let mut i: usize = 0;
    while i < e.attrs.len()
        invariant
            m == e@.attrs,
            m.len() == e.attrs@.len(),
            i <= m.len(),
            attr_in(m, k@) == attr_in(m.subrange(i as int, m.len() as int), k@),
        decreases m.len() - i,
    {
        let ghost rest = m.subrange(i as int, m.len() as int);
        assert(rest[0] == (e.attrs@[i as int].0@, e.attrs@[i as int].1@));
        if same_text(&e.attrs[i].0, k) {
            return Some(&e.attrs[i].1);
        }
        assert(rest.drop_first() =~= m.subrange(i + 1, m.len() as int));
        i = i + 1;
    }
    assert(m.subrange(i as int, m.len() as int).len() == 0);
    None
}

/// Whether `e` is a `<name>` element.
pub fn is_named(e: &HtmlElement, name: &str) -> (r: bool)
    ensures
        r == named(e@, name@),
{
    same_text(&e.name, name)
}

/// Whether `e` carries attribute `k`.
pub fn carries_attr(e: &HtmlElement, k: &str) -> (r: bool)
    ensures
        r == has_attr(e@, k@),
{
    attr_of(e, k).is_some()
}

/// Whether `e` carries attribute `k` with value exactly `v`.
pub fn attr_equals(e: &HtmlElement, k: &str, v: &str) -> (r: bool)
    ensures
        r == attr_is(e@, k@, v@),
{
    match attr_of(e, k) {
        Some(x) => same_text(x, v),
        None => false,
    }
}

} // verus!
