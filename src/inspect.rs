use vstd::prelude::*;

use crate::dom::{
    page_fits,
    attr_equals, attr_is, attr_of, attr_value, carries_attr, dom_elements, elements_view, has_attr,
    is_named, named, parse_elements, ElementModel, HtmlElement,
};
use crate::text::{chars_of, contains, contains_text, first_non_white, is_white, lower_of, lowercase};

verus! {

/// The element tests that the page inspectors look for.
#[derive(Clone, Copy, PartialEq, Eq, Structural)]
pub enum Probe {
    /// JSON-LD, Microdata or RDFa markup.
    Schema,
    /// `<link rel="canonical">`.
    CanonicalLink,
    /// `<link rel="amphtml">`, `<html amp>` / `<html ⚡>`, or the AMP runtime script.
    Amp,
    /// `<meta name="viewport">`.
    Viewport,
    /// `<meta name="google-site-verification">`.
    SiteVerification,
    /// `<meta name="robots">`.
    RobotsMeta,
}

/// A `<script type="application/ld+json">` whose trimmed text begins with `{`.
pub open spec fn json_ld_object(e: ElementModel) -> bool {
    &&& named(e, "script"@)
    &&& attr_is(e, "type"@, "application/ld+json"@)
    &&& first_non_white(e.text) == Some('{')
}

/// The attribute name `⚡`.
pub open spec fn bolt() -> Seq<char> {
    seq!['\u{26a1}']
}

/// Whether element `e` passes test `p`.
pub open spec fn probe_holds(p: Probe, e: ElementModel) -> bool {
    match p {
        Probe::Schema => json_ld_object(e) || has_attr(e, "itemscope"@) || has_attr(e, "typeof"@),
        Probe::CanonicalLink => named(e, "link"@) && attr_is(e, "rel"@, "canonical"@),
        Probe::Amp => {
            ||| named(e, "link"@) && attr_is(e, "rel"@, "amphtml"@)
            ||| named(e, "html"@) && (has_attr(e, "amp"@) || has_attr(e, bolt()))
            ||| named(e, "script"@) && attr_is(e, "src"@, "https://cdn.ampproject.org/v0.js"@)
        },
        Probe::Viewport => named(e, "meta"@) && attr_is(e, "name"@, "viewport"@),
        Probe::SiteVerification => named(e, "meta"@) && attr_is(
            e,
            "name"@,
            "google-site-verification"@,
        ),
        Probe::RobotsMeta => named(e, "meta"@) && attr_is(e, "name"@, "robots"@),
    }
}

/// Some element of `els` passes `p`.
pub open spec fn any_holds(els: Seq<ElementModel>, p: Probe) -> bool {
    exists|i: int| 0 <= i < els.len() && probe_holds(p, #[trigger] els[i])
}

/// The index of the first element of `els`, at `i` or later, that passes `p`.
pub open spec fn first_from(els: Seq<ElementModel>, p: Probe, i: int) -> Option<int>
    decreases els.len() - i,
{
    if i < 0 || i >= els.len() {
        None
    } else if probe_holds(p, els[i]) {
        Some(i)
    } else {
        first_from(els, p, i + 1)
    }
}

/// The canonical URL of a page: the `href` of its first `<link rel="canonical">`,
/// or nothing when that element is absent or has no `href`.
pub open spec fn canonical_of(els: Seq<ElementModel>) -> Option<Seq<char>> {
    match first_from(els, Probe::CanonicalLink, 0) {
        Some(i) => attr_value(els[i], "href"@),
        None => None,
    }
}

/// The canonical URL as reported: empty when there is none.
pub open spec fn canonical_text(els: Seq<ElementModel>) -> Seq<char> {
    match canonical_of(els) {
        Some(h) => h,
        None => Seq::empty(),
    }
}

/// A page may be indexed unless its first `<meta name="robots">` has a
/// `content` that, lowercased, contains `noindex`. Without a `content` it may.
pub open spec fn indexed_in(els: Seq<ElementModel>) -> bool {
    match first_from(els, Probe::RobotsMeta, 0) {
        Some(i) => match attr_value(els[i], "content"@) {
            Some(c) => !contains(lower_of(c), "noindex"@),
            None => true,
        },
        None => true,
    }
}

/// The pattern of a Universal Analytics property id.
pub open spec fn analytics_pattern() -> Seq<char> {
    "UA-\\d+-\\d+"@
}

/// What regex reports for `pattern` on `text`: `None` where the pattern does
/// not compile, else whether it matches somewhere in `text`.
pub uninterp spec fn regex_search(pattern: Seq<char>, text: Seq<char>) -> Option<bool>;

/// Relies on regex's `Regex::new` (an error for a pattern it refuses) and
/// `Regex::is_match` (a match anywhere in the text).
#[verifier::external_body]
fn regex_is_match(pattern: &str, text: &str) -> (r: Option<bool>)
    ensures
        r == regex_search(pattern@, text@),
{
    match regex::Regex::new(pattern) {
        Ok(re) => Some(re.is_match(text)),
        Err(_) => None,
    }
}

/// Whether the trimmed `text` begins with `{`.
pub fn trimmed_starts_with_brace(text: &String) -> (r: bool)
    ensures
        r == (first_non_white(text@) == Some('{')),
{
    let s = chars_of(text.as_str());
    let ghost sq = s@;
    assert(sq.subrange(0, sq.len() as int) =~= sq);
    let mut i: usize = 0;
    while i < s.len()
        invariant
            sq == s@,
            sq == text@,
            i <= sq.len(),
            first_non_white(sq) == first_non_white(sq.subrange(i as int, sq.len() as int)),
        decreases sq.len() - i,
    {
        let ghost rest = sq.subrange(i as int, sq.len() as int);
        assert(rest[0] == sq[i as int]);
        if !is_white(s[i]) {
            return s[i] == '{';
        }
        assert(rest.drop_first() =~= sq.subrange(i + 1, sq.len() as int));
        i = i + 1;
    }
    false
}

/// Whether element `e` passes test `p`.
pub fn check_probe(p: Probe, e: &HtmlElement) -> (r: bool)
    ensures
        r == probe_holds(p, e@),
{
    match p {
        Probe::Schema => {
            (is_named(e, "script") && attr_equals(e, "type", "application/ld+json")
                && trimmed_starts_with_brace(&e.text)) || carries_attr(e, "itemscope")
                || carries_attr(e, "typeof")
        },
        Probe::CanonicalLink => is_named(e, "link") && attr_equals(e, "rel", "canonical"),
        Probe::Amp => {
            (is_named(e, "link") && attr_equals(e, "rel", "amphtml")) || (is_named(e, "html") && (
            carries_attr(e, "amp") || carries_bolt(e))) || (is_named(e, "script") && attr_equals(
                e,
                "src",
                "https://cdn.ampproject.org/v0.js",
            ))
        },
        Probe::Viewport => is_named(e, "meta") && attr_equals(e, "name", "viewport"),
        Probe::SiteVerification => is_named(e, "meta") && attr_equals(
            e,
            "name",
            "google-site-verification",
        ),
        Probe::RobotsMeta => is_named(e, "meta") && attr_equals(e, "name", "robots"),
    }
}

/// Whether `e` carries the attribute `⚡`.
fn carries_bolt(e: &HtmlElement) -> (r: bool)
    ensures
        r == has_attr(e@, bolt()),
{
    let name = "\u{26a1}";
    proof {
        reveal_strlit("\u{26a1}");
    }
    assert(name@ =~= bolt());
    carries_attr(e, name)
}

/// The index of the first element of `els` that passes `p`.
pub fn find_first(els: &Vec<HtmlElement>, p: Probe) -> (r: Option<usize>)
    ensures
        match r {
            Some(i) => first_from(elements_view(els@), p, 0) == Some(i as int),
            None => first_from(elements_view(els@), p, 0) is None,
        },
        r is Some <==> any_holds(elements_view(els@), p),
        r matches Some(i) ==> i < els@.len(),
{
    let ghost m = elements_view(els@);
    let mut i: usize = 0;
    while i < els.len()
        invariant
            m == elements_view(els@),
            m.len() == els@.len(),
            i <= m.len(),
            first_from(m, p, 0) == first_from(m, p, i as int),
            forall|j: int| 0 <= j < i ==> !probe_holds(p, #[trigger] m[j]),
        decreases m.len() - i,
    {
        if check_probe(p, &els[i]) {
            return Some(i);
        }
        i = i + 1;
    }
    None
}

/// Whether some element of `els` carries schema markup.
pub fn schema_markup_in(els: &Vec<HtmlElement>) -> (r: bool)
    ensures
        r == any_holds(elements_view(els@), Probe::Schema),
{
    find_first(els, Probe::Schema).is_some()
}

/// Whether the page carries JSON-LD, Microdata (`itemscope`) or RDFa (`typeof`) markup.
pub fn has_schema_markup(html: &str) -> (r: bool)
    requires
        page_fits(html@),
    ensures
        r == any_holds(dom_elements(html@), Probe::Schema),
{
    schema_markup_in(&parse_elements(html))
}

/// The canonical URL among `els`, empty when there is none.
pub fn canonical_in(els: &Vec<HtmlElement>) -> (r: String)
    ensures
        r@ == canonical_text(elements_view(els@)),
{
    match find_first(els, Probe::CanonicalLink) {
        Some(i) => {
            assert(elements_view(els@)[i as int] == els@[i as int]@);
            match attr_of(&els[i], "href") {
                Some(h) => h.clone(),
                None => String::new(),
            }
        },
        None => String::new(),
    }
}

/// The `href` of the page's first `<link rel="canonical">`, empty when there is none.
pub fn get_canonical(html: &str) -> (r: String)
    requires
        page_fits(html@),
    ensures
        r@ == canonical_text(dom_elements(html@)),
{
    canonical_in(&parse_elements(html))
}

/// Whether some element of `els` marks an AMP page.
pub fn amp_in(els: &Vec<HtmlElement>) -> (r: bool)
    ensures
        r == any_holds(elements_view(els@), Probe::Amp),
{
    find_first(els, Probe::Amp).is_some()
}

/// Whether the page is an AMP page.
pub fn has_amp(html: &str) -> (r: bool)
    requires
        page_fits(html@),
    ensures
        r == any_holds(dom_elements(html@), Probe::Amp),
{
    amp_in(&parse_elements(html))
}

/// Whether the page declares a `<meta name="viewport">`.
pub fn is_responsive(html: &str) -> (r: bool)
    requires
        page_fits(html@),
    ensures
        r == any_holds(dom_elements(html@), Probe::Viewport),
{
    find_first(&parse_elements(html), Probe::Viewport).is_some()
}

/// Whether the page carries a `<meta name="google-site-verification">`.
pub fn has_search_console(html: &str) -> (r: bool)
    requires
        page_fits(html@),
    ensures
        r == any_holds(dom_elements(html@), Probe::SiteVerification),
{
    find_first(&parse_elements(html), Probe::SiteVerification).is_some()
}

/// Whether the page text holds a Universal Analytics id (`UA-<digits>-<digits>`).
pub fn has_google_analytics(html: &str) -> (r: bool)
    ensures
        r == (regex_search(analytics_pattern(), html@) == Some(true)),
{
    let pattern = "UA-\\d+-\\d+";
    match regex_is_match(pattern, html) {
        Some(b) => b,
        None => false,
    }
}

/// Whether the robots meta element among `els`, if any, lets the page be indexed.
pub fn indexed_in_elements(els: &Vec<HtmlElement>) -> (r: bool)
    ensures
        r == indexed_in(elements_view(els@)),
{
    match find_first(els, Probe::RobotsMeta) {
        Some(i) => {
            assert(elements_view(els@)[i as int] == els@[i as int]@);
            match attr_of(&els[i], "content") {
                Some(c) => {
                    let lowered = lowercase(c.as_str());
                    !contains_text(lowered.as_str(), "noindex")
                },
                None => true,
            }
        },
        None => true,
    }
}

/// Whether the page may be indexed, going by its `<meta name="robots">`.
pub fn is_indexed(html: &str) -> (r: bool)
    requires
        page_fits(html@),
    ensures
        r == indexed_in(dom_elements(html@)),
{
    indexed_in_elements(&parse_elements(html))
}

} // verus!

verus! {

/// Schema detection answers exactly whether the page holds one of the three
/// mechanisms: a JSON-LD object script, an `itemscope` attribute or a `typeof`
/// attribute. A page with none of them is not detected.
pub proof fn lemma_schema_detection(html: Seq<char>)
    ensures
        any_holds(dom_elements(html), Probe::Schema) <==> exists|i: int|
            0 <= i < dom_elements(html).len() && {
                let e = #[trigger] dom_elements(html)[i];
                json_ld_object(e) || has_attr(e, "itemscope"@) || has_attr(e, "typeof"@)
            },
{
}

/// A page is an AMP page exactly when one of its elements is an AMP link, an
/// `<html>` with `amp` or `⚡`, or the AMP runtime script; with none of them it is not.
pub proof fn lemma_amp_detection(html: Seq<char>)
    ensures
        any_holds(dom_elements(html), Probe::Amp) <==> exists|i: int|
            0 <= i < dom_elements(html).len() && {
                let e = #[trigger] dom_elements(html)[i];
                ||| named(e, "link"@) && attr_is(e, "rel"@, "amphtml"@)
                ||| named(e, "html"@) && (has_attr(e, "amp"@) || has_attr(e, bolt()))
                ||| named(e, "script"@) && attr_is(e, "src"@, "https://cdn.ampproject.org/v0.js"@)
            },
{
}

} // verus!
