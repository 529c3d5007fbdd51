use seo_audit::dom::HtmlElement;
use seo_audit::inspect::{
    amp_in, canonical_in, get_canonical, has_amp, has_google_analytics, has_schema_markup,
    has_search_console, is_indexed, is_responsive, schema_markup_in,
};

fn element(name: &str, attrs: &[(&str, &str)], text: &str) -> HtmlElement {
    HtmlElement {
        name: name.to_string(),
        attrs: attrs.iter().map(|(k, v)| (k.to_string(), v.to_string())).collect(),
        text: text.to_string(),
    }
}

#[test]
fn schema_absent_on_plain_page() {
    assert!(!has_schema_markup("<html><head><title>x</title></head><body><p>hi</p></body></html>"));
}

#[test]
fn schema_found_by_json_ld() {
    let html = r#"<html><head><script type="application/ld+json">
      {"@type": "Thing"}</script></head><body></body></html>"#;
    assert!(has_schema_markup(html));
}

#[test]
fn schema_json_ld_must_be_an_object() {
    let html = r#"<html><head><script type="application/ld+json">[1, 2]</script></head></html>"#;
    assert!(!has_schema_markup(html));
}

#[test]
fn schema_found_by_itemscope() {
    assert!(has_schema_markup(r#"<div itemscope itemtype="https://schema.org/Person">x</div>"#));
}

#[test]
fn schema_found_by_typeof() {
    assert!(has_schema_markup(r#"<div vocab="https://schema.org/" typeof="Person">x</div>"#));
}

#[test]
fn schema_on_given_elements() {
    let els = vec![element("script", &[("type", "application/ld+json")], " \n\t{}")];
    assert!(schema_markup_in(&els));
    let els = vec![element("script", &[("type", "text/javascript")], "{}")];
    assert!(!schema_markup_in(&els));
    assert!(!schema_markup_in(&vec![]));
}

#[test]
fn indexability_noindex_any_case() {
    let html = r#"<html><head><meta name="robots" content="NOINDEX, nofollow"></head></html>"#;
    assert!(!is_indexed(html));
}

#[test]
fn indexability_without_robots_meta() {
    assert!(is_indexed("<html><head><title>t</title></head></html>"));
}

#[test]
fn indexability_index_follow() {
    let html = r#"<html><head><meta name="robots" content="index,follow"></head></html>"#;
    assert!(is_indexed(html));
}

#[test]
fn indexability_without_content() {
    assert!(is_indexed(r#"<html><head><meta name="robots"></head></html>"#));
}

#[test]
fn canonical_extracted() {
    let html = r#"<html><head><link rel="canonical" href="https://a.com/p"></head></html>"#;
    assert_eq!(get_canonical(html), "https://a.com/p");
}

#[test]
fn canonical_absent_is_empty() {
    assert_eq!(get_canonical("<html><head></head></html>"), "");
}

#[test]
fn canonical_first_wins() {
    let els = vec![
        element("link", &[("rel", "stylesheet"), ("href", "s.css")], ""),
        element("link", &[("rel", "canonical"), ("href", "https://a.com/1")], ""),
        element("link", &[("rel", "canonical"), ("href", "https://a.com/2")], ""),
    ];
    assert_eq!(canonical_in(&els), "https://a.com/1");
}

#[test]
fn amp_by_html_attribute() {
    assert!(has_amp("<html amp><head></head><body></body></html>"));
}

#[test]
fn amp_by_bolt_attribute() {
    let els = vec![element("html", &[("\u{26a1}", "")], "")];
    assert!(amp_in(&els));
}

#[test]
fn amp_by_link_and_script() {
    assert!(has_amp(r#"<html><head><link rel="amphtml" href="/amp"></head></html>"#));
    assert!(has_amp(
        r#"<html><head><script async src="https://cdn.ampproject.org/v0.js"></script></head></html>"#
    ));
}

#[test]
fn amp_absent() {
    assert!(!has_amp("<html><head><link rel=\"stylesheet\" href=\"a.css\"></head></html>"));
}

#[test]
fn responsive_viewport() {
    assert!(is_responsive(r#"<html><head><meta name="viewport" content="width=device-width"></head></html>"#));
    assert!(!is_responsive("<html><head></head></html>"));
}

#[test]
fn search_console_tag() {
    assert!(has_search_console(r#"<html><head><meta name="google-site-verification" content="abc"></head></html>"#));
    assert!(!has_search_console(r#"<html><head><meta name="description" content="abc"></head></html>"#));
}

#[test]
fn analytics_legacy_id() {
    assert!(has_google_analytics("<script>ga('create', 'UA-12345-6', 'auto');</script>"));
    assert!(!has_google_analytics("<script>gtag('config', 'G-ABCDEF');</script>"));
    assert!(!has_google_analytics("UA--1"));
}
