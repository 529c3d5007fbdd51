use seo_audit::dom::{fits_parser, MAX_PAGE_TAGS};
use seo_audit::inspect::{get_canonical, is_indexed};

fn nested_tables(pairs: usize) -> String {
    let mut s = String::new();
    for _ in 0..pairs {
        s.push_str("<table><td>");
    }
    s.push_str("x");
    s
}

#[test]
fn deepest_accepted_page_parses() {
    let html = nested_tables(MAX_PAGE_TAGS / 2);
    assert!(fits_parser(&html));
    assert!(is_indexed(&html));
    assert_eq!(get_canonical(&html), "");
}

#[test]
fn page_with_too_many_tags_is_refused() {
    let html = nested_tables(MAX_PAGE_TAGS / 2 + 1);
    assert!(!fits_parser(&html));
    assert!(fits_parser("<p>plain</p>"));
}

#[test]
fn deep_formatting_and_divs_at_the_bound() {
    let mut html = String::new();
    for i in 0..MAX_PAGE_TAGS {
        html.push_str(if i % 2 == 0 { "<div>" } else { "<b>" });
    }
    assert!(fits_parser(&html));
    assert!(is_indexed(&html));
}
