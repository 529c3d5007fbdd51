use vstd::prelude::*;

use crate::dom::{
    page_fits,
    attr_of, attr_value, carries_attr, dom_elements, elements_view, has_attr, is_named, named,
    parse_elements, ElementModel, HtmlElement,
};

verus! {

/// A link of the page: `url` is what gets probed, `href` what the page wrote.
pub struct Link {
    pub url: String,
    pub href: String,
}

impl View for Link {
    type V = (Seq<char>, Seq<char>);

    open spec fn view(&self) -> (Seq<char>, Seq<char>) {
        (self.url@, self.href@)
    }
}

/// The views of a list of strings.
pub open spec fn strings_view(v: Seq<String>) -> Seq<Seq<char>> {
    v.map_values(|s: String| s@)
}

/// The views of a list of links.
pub open spec fn links_view(v: Seq<Link>) -> Seq<(Seq<char>, Seq<char>)> {
    v.map_values(|l: Link| l@)
}

/// A root-relative `href` (one that starts with `/`) is appended to `base`;
/// any other is used as it stands.
pub open spec fn resolve(base: Seq<char>, href: Seq<char>) -> Seq<char> {
    if href.len() > 0 && href[0] == '/' {
        base + href
    } else {
        href
    }
}

/// An `<a>` element with an `href`.
pub open spec fn is_anchor(e: ElementModel) -> bool {
    named(e, "a"@) && has_attr(e, "href"@)
}

/// The `href` of every anchor of `els`, in document order.
pub open spec fn anchor_hrefs(els: Seq<ElementModel>) -> Seq<Seq<char>>
    decreases els.len(),
{
    if els.len() == 0 {
        Seq::empty()
    } else {
        let prev = anchor_hrefs(els.drop_last());
        let e = els.last();
        if is_anchor(e) {
            prev.push(attr_value(e, "href"@).unwrap())
        } else {
            prev
        }
    }
}

/// Each href paired as (resolved URL, href).
pub open spec fn resolved_links(base: Seq<char>, hrefs: Seq<Seq<char>>) -> Seq<(Seq<char>, Seq<char>)> {
    hrefs.map_values(|h: Seq<char>| (resolve(base, h), h))
}

/// The links of `links` whose probe failed (`ok[i]` false), in order.
pub open spec fn broken_of(links: Seq<(Seq<char>, Seq<char>)>, ok: Seq<bool>) -> Seq<(Seq<char>, Seq<char>)>
    decreases links.len(),
{
    if links.len() == 0 {
        Seq::empty()
    } else {
        let prev = broken_of(links.drop_last(), ok);
        if !ok[links.len() - 1] {
            prev.push(links.last())
        } else {
            prev
        }
    }
}

/// The first components (resolved URLs) of a list of links.
pub open spec fn urls_of(v: Seq<(Seq<char>, Seq<char>)>) -> Seq<Seq<char>> {
    v.map_values(|p: (Seq<char>, Seq<char>)| p.0)
}

/// The second components (hrefs) of a list of links.
pub open spec fn hrefs_of(v: Seq<(Seq<char>, Seq<char>)>) -> Seq<Seq<char>> {
    v.map_values(|p: (Seq<char>, Seq<char>)| p.1)
}

/// Resolves `href` against `base_url`.
pub fn resolve_href(base_url: &str, href: &String) -> (r: String)
    ensures
        r@ == resolve(base_url@, href@),
{
    let h = href.as_str();
    if h.unicode_len() > 0 && h.get_char(0) == '/' {
        String::from_str(base_url).concat(h)
    } else {
        href.clone()
    }
}

/// The links of the anchors among `els`, resolved against `base_url`.
pub fn links_in(els: &Vec<HtmlElement>, base_url: &str) -> (r: Vec<Link>)
    ensures
        links_view(r@) == resolved_links(base_url@, anchor_hrefs(elements_view(els@))),
{
    let ghost m = elements_view(els@);
    let mut out: Vec<Link> = Vec::new();
    let mut i: usize = 0;
    while i < els.len()
        invariant
            m == elements_view(els@),
            m.len() == els@.len(),
            i <= m.len(),
            links_view(out@) == resolved_links(base_url@, anchor_hrefs(m.subrange(0, i as int))),
        decreases m.len() - i,
    {
        let ghost pre = m.subrange(0, i as int);
        assert(m.subrange(0, i + 1).drop_last() =~= pre);
        assert(m.subrange(0, i + 1).last() == els@[i as int]@);
        let e = &els[i];
        if is_named(e, "a") && carries_attr(e, "href") {
            match attr_of(e, "href") {
                Some(h) => {
                    let ghost old_out = out@;
                    let ghost prev = anchor_hrefs(pre);
                    let url = resolve_href(base_url, h);
                    out.push(Link { url, href: h.clone() });
                    assert(anchor_hrefs(m.subrange(0, i + 1)) == prev.push(h@));
                    assert(links_view(out@) =~= links_view(old_out).push(
                        (resolve(base_url@, h@), h@),
                    ));
                    assert(resolved_links(base_url@, prev.push(h@)) =~= resolved_links(
                        base_url@,
                        prev,
                    ).push((resolve(base_url@, h@), h@)));
                },
                None => {},
            }
        }
        i = i + 1;
    }
    assert(m.subrange(0, m.len() as int) =~= m);
    out
}

/// The links of the page's anchors (`<a href>`), in document order, each
/// resolved against `base_url`.
pub fn resolve_links(html: &str, base_url: &str) -> (r: Vec<Link>)
    requires
        page_fits(html@),
    ensures
        links_view(r@) == resolved_links(base_url@, anchor_hrefs(dom_elements(html@))),
{
    links_in(&parse_elements(html), base_url)
}

/// Splits the links whose probe failed (`reachable[i]` false) into the list of
/// resolved URLs and the parallel list of hrefs as the page wrote them.
pub fn get_broken_links(links: &Vec<Link>, reachable: &Vec<bool>) -> (r: (Vec<String>, Vec<String>))
    requires
        links@.len() == reachable@.len(),
    ensures
        strings_view(r.0@) == urls_of(broken_of(links_view(links@), reachable@)),
        strings_view(r.1@) == hrefs_of(broken_of(links_view(links@), reachable@)),
{
    let ghost m = links_view(links@);
    let mut urls: Vec<String> = Vec::new();
    let mut hrefs: Vec<String> = Vec::new();
    let mut i: usize = 0;
    while i < links.len()
        invariant
            m == links_view(links@),
            m.len() == links@.len(),
            links@.len() == reachable@.len(),
            i <= m.len(),
            strings_view(urls@) == urls_of(broken_of(m.subrange(0, i as int), reachable@)),
            strings_view(hrefs@) == hrefs_of(broken_of(m.subrange(0, i as int), reachable@)),
        decreases m.len() - i,
    {
        assert(m.subrange(0, i + 1).drop_last() =~= m.subrange(0, i as int));
        assert(m.subrange(0, i + 1).last() == links@[i as int]@);
        let ghost prev = broken_of(m.subrange(0, i as int), reachable@);
        let ghost b = broken_of(m.subrange(0, i + 1), reachable@);
        let ghost old_urls = urls@;
        let ghost old_hrefs = hrefs@;
        if !reachable[i] {
            urls.push(links[i].url.clone());
            hrefs.push(links[i].href.clone());
            assert(b == prev.push(m[i as int]));
            assert(strings_view(urls@) =~= strings_view(old_urls).push(m[i as int].0));
            assert(strings_view(hrefs@) =~= strings_view(old_hrefs).push(m[i as int].1));
            assert(urls_of(b) =~= urls_of(prev).push(m[i as int].0));
            assert(hrefs_of(b) =~= hrefs_of(prev).push(m[i as int].1));
        } else {
            assert(b == prev);
        }
        i = i + 1;
    }
    assert(m.subrange(0, m.len() as int) =~= m);
    (urls, hrefs)
}

} // verus!

verus! {

/// Every link reported broken is one whose probe failed: a link that answered
/// shows up in the broken lists only as another, failed link with the same URL
/// and href.
pub proof fn lemma_broken_links_failed(links: Seq<(Seq<char>, Seq<char>)>, ok: Seq<bool>, k: int)
    requires
        links.len() <= ok.len(),
        0 <= k < broken_of(links, ok).len(),
    ensures
        exists|i: int| 0 <= i < links.len() && !ok[i] && #[trigger] links[i] == broken_of(links, ok)[k],
    decreases links.len(),
{
    let pre = links.drop_last();
    let prev = broken_of(pre, ok);
    if k < prev.len() {
        lemma_broken_links_failed(pre, ok, k);
        let i = choose|i: int| 0 <= i < pre.len() && !ok[i] && #[trigger] pre[i] == prev[k];
        assert(links[i] == pre[i]);
    } else {
        assert(links[links.len() - 1] == links.last());
    }
}

/// Every link whose probe failed is reported broken.
pub proof fn lemma_failed_links_broken(links: Seq<(Seq<char>, Seq<char>)>, ok: Seq<bool>, i: int)
    requires
        links.len() <= ok.len(),
        0 <= i < links.len(),
        !ok[i],
    ensures
        broken_of(links, ok).contains(links[i]),
    decreases links.len(),
{
    let pre = links.drop_last();
    if i < links.len() - 1 {
        lemma_failed_links_broken(pre, ok, i);
        let prev = broken_of(pre, ok);
        let k = choose|k: int| 0 <= k < prev.len() && prev[k] == pre[i];
        assert(broken_of(links, ok)[k] == prev[k]);
    } else {
        let b = broken_of(links, ok);
        assert(b[b.len() - 1] == links[i]);
    }
}

} // verus!
