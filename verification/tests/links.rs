use aegis::links::{extract_link_hrefs, join_url, origin_from_url, resolve_href, should_skip_link};
use aegis::{body_has_link_href, href_from_selector};

#[test]
fn extracts_href_from_fast_click_selector() {
    assert_eq!(
        href_from_selector("a[href='/docs/getting-started']").as_deref(),
        Some("/docs/getting-started")
    );
    assert_eq!(
        href_from_selector("a[href=\"/components\"]").as_deref(),
        Some("/components")
    );
}

#[test]
fn detects_link_href_in_html() {
    let html = r#"<a href="/docs">Docs</a><a href='/components'>Components</a>"#;
    assert!(body_has_link_href(html, "/docs"));
    assert!(body_has_link_href(html, "/components"));
    assert!(!body_has_link_href(html, "/missing"));
}

#[test]
fn extracts_link_hrefs_from_html() {
    let html = r##"
<a href="/docs">Docs</a>
<a class="button" href='/components'>Components</a>
<a href="#top">Top</a>
"##;
    assert_eq!(extract_link_hrefs(html), ["/docs", "/components", "#top"]);
}

#[test]
fn skips_non_http_navigation_links() {
    assert!(should_skip_link(""));
    assert!(should_skip_link("#top"));
    assert!(should_skip_link("mailto:hello@example.com"));
    assert!(should_skip_link("tel:+381"));
    assert!(should_skip_link("javascript:void(0)"));
    assert!(should_skip_link("data:text/plain,hello"));
    assert!(!should_skip_link("/docs"));
}

#[test]
fn extracts_origin_from_absolute_url() {
    assert_eq!(
        origin_from_url("https://react.axonyx.dev/docs/getting-started").as_deref(),
        Some("https://react.axonyx.dev")
    );
    assert_eq!(origin_from_url("/docs"), None);
}

#[test]
fn resolves_relative_href_from_current_url() {
    assert_eq!(
        resolve_href("https://react.axonyx.dev/docs", "/components"),
        "https://react.axonyx.dev/components"
    );
    assert_eq!(
        resolve_href("https://react.axonyx.dev/docs", "api/button"),
        "https://react.axonyx.dev/api/button"
    );
}

#[test]
fn selectors_that_are_not_anchor_links_name_nothing() {
    assert_eq!(href_from_selector("  a[href='/x']  ").as_deref(), Some("/x"));
    assert_eq!(href_from_selector("a[href='']").as_deref(), Some(""));
    assert_eq!(href_from_selector("a[href=/x]"), None);
    assert_eq!(href_from_selector("a[href='/x\"]"), None);
    assert_eq!(href_from_selector("a[href=']"), None);
    assert_eq!(href_from_selector("button"), None);
    assert_eq!(href_from_selector("a[href='/x'"), None);
}

#[test]
fn selector_round_trip_on_concrete_targets() {
    for target in ["/docs", "", "a'b", "/x y"] {
        assert_eq!(href_from_selector(&format!("a[href='{target}']")).as_deref(), Some(target));
        assert_eq!(href_from_selector(&format!("a[href=\"{target}\"]")).as_deref(), Some(target));
    }
}

#[test]
fn unquoted_and_unterminated_hrefs() {
    assert_eq!(extract_link_hrefs("<a href=/x>"), Vec::<String>::new());
    assert_eq!(extract_link_hrefs("<a href='/x"), Vec::<String>::new());
    assert_eq!(extract_link_hrefs("href=x href='/y' href="), ["/y"]);
    assert_eq!(extract_link_hrefs("href=\"é/ü\""), ["é/ü"]);
}

#[test]
fn found_links_are_detected_links() {
    let html = "<a href='/a'>A</a> <link href=\"/b.css\"> href=nope";
    for href in extract_link_hrefs(html) {
        assert!(body_has_link_href(html, &href));
    }
}

#[test]
fn skipping_ignores_surrounding_white_space() {
    assert!(should_skip_link("   "));
    assert!(should_skip_link("  #x"));
    assert!(should_skip_link("\tmailto:a@b"));
    assert!(!should_skip_link(" /docs "));
    assert!(!should_skip_link("https://example.com"));
}

#[test]
fn origins_and_resolution_edge_cases() {
    assert_eq!(origin_from_url("http://host").as_deref(), Some("http://host"));
    assert_eq!(origin_from_url("http://host/a/b?c").as_deref(), Some("http://host"));
    assert_eq!(origin_from_url("ftp://h:21/x").as_deref(), Some("ftp://h:21"));
    assert_eq!(resolve_href("https://a.dev/x", "https://b.dev/y"), "https://b.dev/y");
    assert_eq!(resolve_href("https://a.dev/x", "http://b.dev"), "http://b.dev");
    assert_eq!(resolve_href("/relative", "/docs"), "/docs");
    assert_eq!(resolve_href("https://a.dev", "docs"), "https://a.dev/docs");
}

#[test]
fn relative_links_keep_the_origin() {
    let current = "https://react.axonyx.dev/docs/intro";
    for href in ["/a", "b/c", "", "?q=1", "mailto:x"] {
        let url = resolve_href(current, href);
        assert_eq!(origin_from_url(&url), origin_from_url(current));
    }
}

#[test]
fn join_url_uses_one_slash() {
    assert_eq!(join_url("https://a.dev", "/docs"), "https://a.dev/docs");
    assert_eq!(join_url("https://a.dev/", "docs"), "https://a.dev/docs");
    assert_eq!(join_url("https://a.dev//", "//docs"), "https://a.dev/docs");
    assert_eq!(join_url("https://a.dev", "/"), "https://a.dev/");
    assert_eq!(join_url("https://a.dev", ""), "https://a.dev/");
    assert_eq!(join_url("https://a.dev/", "/x"), join_url("https://a.dev", "x"));
}

#[test]
fn origin_begins_its_url_and_is_its_own_origin() {
    for url in [
        "https://react.axonyx.dev/docs/getting-started",
        "http://127.0.0.1:3000",
        "ftp://host/a://b/c",
    ] {
        let origin = origin_from_url(url).unwrap();
        assert!(url.starts_with(&origin));
        assert_eq!(origin_from_url(&origin).as_deref(), Some(origin.as_str()));
        let after = &origin[origin.find("://").unwrap() + 3..];
        assert!(!after.contains('/'));
    }
    assert_eq!(origin_from_url("ftp://host/a://b/c").as_deref(), Some("ftp://host"));
    assert_eq!(origin_from_url("react.axonyx.dev/docs"), None);
}
