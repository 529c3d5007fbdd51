use seo_audit::robots::is_valid_robots_txt;

#[test]
fn robots_only_known_directives() {
    let body = "# comment\nUser-agent: *\nDisallow: /private\n\nAllow: /public\n   \n";
    assert!(is_valid_robots_txt(body));
}

#[test]
fn robots_crlf_lines() {
    assert!(is_valid_robots_txt("User-agent: *\r\nDisallow: /x\r\n\r\n"));
}

#[test]
fn robots_sitemap_line_invalidates() {
    let body = "User-agent: *\nDisallow:\nSitemap: https://x/sitemap.xml\n";
    assert!(!is_valid_robots_txt(body));
}

#[test]
fn robots_prefix_is_case_sensitive() {
    assert!(!is_valid_robots_txt("user-agent: *\n"));
}

#[test]
fn robots_empty_file() {
    assert!(is_valid_robots_txt(""));
}

#[test]
fn robots_unicode_whitespace_line_is_blank() {
    assert!(is_valid_robots_txt("User-agent: *\n\u{3000}\u{a0}\t\nAllow: /\n"));
    assert!(!is_valid_robots_txt("User-agent: *\n\u{200b}\n"));
}
