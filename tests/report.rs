use seo_audit::links::{get_broken_links, resolve_links, Link};
use seo_audit::report::{
    checked_website_details, error_message, found_label, get_website_details, load_band, load_times, robots_status,
    Analysis, LoadBand, RobotsStatus,
};

#[test]
fn broken_links_classified() {
    let html = r#"<html><body><a href="/valid">v</a><a href="/missing">m</a></body></html>"#;
    let links = resolve_links(html, "http://127.0.0.1:9");
    assert_eq!(links.len(), 2);
    let (broken, pages) = get_broken_links(&links, &vec![true, false]);
    assert_eq!(broken, vec!["http://127.0.0.1:9/missing".to_string()]);
    assert_eq!(pages, vec!["/missing".to_string()]);
}

#[test]
fn links_resolution() {
    let html = r#"<a href="https://b.org/x">1</a><a>none</a><a href="about">2</a><a href="/y">3</a>"#;
    let links = resolve_links(html, "https://a.com");
    let pairs: Vec<(String, String)> = links.iter().map(|l: &Link| (l.url.clone(), l.href.clone())).collect();
    assert_eq!(
        pairs,
        vec![
            ("https://b.org/x".to_string(), "https://b.org/x".to_string()),
            ("about".to_string(), "about".to_string()),
            ("https://a.com/y".to_string(), "/y".to_string()),
        ]
    );
}

#[test]
fn load_time_bands() {
    assert_eq!(load_band(1500), LoadBand::Good);
    assert_eq!(load_band(1500).label(), "Good");
    assert_eq!(load_band(1500).grade(), "A");
    assert_eq!(load_band(2500).label(), "Moderate");
    assert_eq!(load_band(2500).grade(), "B");
    assert_eq!(load_band(5000).label(), "Poor");
    assert_eq!(load_band(5000).grade(), "C");
    assert_eq!(load_band(1999), LoadBand::Good);
    assert_eq!(load_band(2000), LoadBand::Moderate);
    assert_eq!(load_band(4000), LoadBand::Poor);
}

#[test]
fn load_times_same_for_each_device() {
    let t = load_times(2500);
    assert_eq!(t.desktop, t.mobile);
    assert_eq!(t.mobile, t.tablet);
    assert_eq!(t.desktop.millis, 2500);
    assert_eq!(t.desktop.band, LoadBand::Moderate);
    assert_eq!(t.grade.grade(), "B");
}

#[test]
fn robots_status_labels() {
    assert_eq!(robots_status(&None), RobotsStatus::NotFound);
    assert_eq!(robots_status(&None).label(), "Not Found");
    assert_eq!(robots_status(&Some("User-agent: *\n".to_string())).label(), "Valid");
    assert_eq!(robots_status(&Some("Sitemap: x\n".to_string())).label(), "Invalid");
    assert_eq!(found_label(true), "Found");
    assert_eq!(found_label(false), "Not Found");
}

#[test]
fn failed_fetch_gives_error_only() {
    let r = get_website_details("https://nowhere.invalid", None, None, false, &vec![], None);
    assert!(matches!(r, Analysis::Failed));
    assert_eq!(error_message(), "Failed to retrieve website content");
}

#[test]
fn full_report() {
    let html = r#"<html amp><head>
        <meta name="robots" content="NOINDEX">
        <meta name="google-site-verification" content="x">
        <link rel="canonical" href="https://a.com/p">
        </head><body itemscope><a href="/gone">g</a><script>var id = 'UA-1-2';</script></body></html>"#;
    let r = get_website_details(
        "https://a.com",
        Some(html),
        Some("User-agent: *\n".to_string()),
        true,
        &vec![false],
        Some(1500),
    );
    match r {
        Analysis::Details(d) => {
            assert!(d.schema_markup);
            assert_eq!(d.robots_status, RobotsStatus::Valid);
            assert!(d.sitemap_found);
            assert_eq!(d.canonical, "https://a.com/p");
            assert!(d.amp);
            assert!(!d.responsive);
            assert!(d.analytics);
            assert!(d.search_console);
            assert_eq!(d.search_console_status(), "Present");
            assert_eq!(d.broken_links, vec!["https://a.com/gone".to_string()]);
            assert_eq!(d.broken_link_pages, vec!["/gone".to_string()]);
            assert_eq!(d.index_page, "");
            assert_eq!(d.non_index_page, "https://a.com");
            let load = d.load.unwrap();
            assert_eq!(load.tablet.band, LoadBand::Good);
            assert_eq!(load.grade.grade(), "A");
        }
        Analysis::Failed => panic!("expected a report"),
    }
}

#[test]
fn checked_details_needs_one_outcome_per_link() {
    let html = r#"<a href="/a">a</a><a href="/b">b</a>"#;
    assert!(checked_website_details("https://a.com", Some(html), None, false, &vec![true], None).is_none());
    match checked_website_details("https://a.com", Some(html), None, false, &vec![true, false], None) {
        Some(Analysis::Details(d)) => {
            assert_eq!(d.broken_links, vec!["https://a.com/b".to_string()]);
            assert_eq!(d.broken_link_pages, vec!["/b".to_string()]);
            assert_eq!(d.robots_status, RobotsStatus::NotFound);
            assert!(d.load.is_none());
        }
        _ => panic!("expected a report"),
    }
    assert!(matches!(
        checked_website_details("https://a.com", None, None, false, &vec![], None),
        Some(Analysis::Failed)
    ));
}
