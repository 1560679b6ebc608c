use aegis::page::{body_failure, probe_failure, probe_status_outcome, request_failure};
use aegis::{FastPage, LinkProbe};

fn opened(url: &str, status: u16, body: &str) -> FastPage {
    let mut page = FastPage::new("docs".to_string());
    page.record_response(url.to_string(), status, body.to_string());
    page
}

#[test]
fn new_page_has_opened_nothing() {
    let page = FastPage::new("opens docs".to_string());
    assert_eq!(page.test_name(), "opens docs");
    assert_eq!(page.current_url(), None);
    assert_eq!(page.current_status(), None);
    assert_eq!(page.current_body(), "");
}

#[test]
fn recorded_response_is_the_current_page() {
    let page = opened("https://react.axonyx.dev/docs", 404, "Not found");
    assert_eq!(page.test_name(), "docs");
    assert_eq!(page.current_url().as_deref(), Some("https://react.axonyx.dev/docs"));
    assert_eq!(page.current_status(), Some(404));
    assert_eq!(page.current_body(), "Not found");
}

#[test]
fn text_expectations() {
    let page = opened("https://react.axonyx.dev/", 200, "Welcome to Axonyx");
    assert!(page.try_expect_text("Axonyx").is_ok());
    let error = page.try_expect_text("Missing").unwrap_err();
    assert_eq!(error.message(), "expected current response body to contain 'Missing'");
    assert!(!error.was_reported());
    assert!(page.try_expect_not("Internal Server Error").is_ok());
    assert_eq!(
        page.try_expect_not("Welcome").unwrap_err().message(),
        "expected current response body not to contain 'Welcome'"
    );
}

#[test]
fn a_text_and_its_absence_cannot_both_be_expected() {
    let page = opened("https://react.axonyx.dev/", 200, "Welcome to Axonyx");
    for text in ["Axonyx", "Missing", "", "Welcome to Axonyx!"] {
        assert_ne!(page.try_expect_text(text).is_ok(), page.try_expect_not(text).is_ok());
    }
}

#[test]
fn status_expectations() {
    let page = FastPage::new("docs".to_string());
    assert_eq!(
        page.try_expect_status(200).unwrap_err().message(),
        "call goto before expect_status"
    );
    let page = opened("https://react.axonyx.dev/", 503, "");
    assert!(page.try_expect_status(503).is_ok());
    assert_eq!(
        page.try_expect_status(200).unwrap_err().message(),
        "expected HTTP status 200, got 503"
    );
}

#[test]
fn link_expectations() {
    let page = opened(
        "https://react.axonyx.dev/",
        200,
        "<a href=\"/docs\">Docs</a><a href='/components'>C</a>",
    );
    assert!(page.try_expect_link("/docs").is_ok());
    assert!(page.try_expect_link("/components").is_ok());
    assert_eq!(
        page.try_expect_link("/api").unwrap_err().message(),
        "expected current response body to contain link href '/api'"
    );
}

#[test]
fn click_leads_to_the_resolved_link() {
    let page = opened(
        "https://react.axonyx.dev/docs",
        200,
        "<a href='/docs/getting-started'>Start</a><a href=\"api/button\">Button</a>",
    );
    assert_eq!(
        page.click_target("a[href='/docs/getting-started']").unwrap(),
        "https://react.axonyx.dev/docs/getting-started"
    );
    assert_eq!(
        page.click_target("a[href=\"api/button\"]").unwrap(),
        "https://react.axonyx.dev/api/button"
    );
}

#[test]
fn click_errors() {
    let page = opened("https://react.axonyx.dev/docs", 200, "<a href='/docs'>Docs</a>");
    assert_eq!(
        page.click_target("button.primary").unwrap_err().message(),
        "fast click currently supports selectors shaped like a[href='/path']; got 'button.primary'"
    );
    assert_eq!(
        page.click_target("a[href='/missing']").unwrap_err().message(),
        "current page does not contain link href '/missing'"
    );
    let fresh = FastPage::new("docs".to_string());
    assert_eq!(
        fresh.click_target("a[href='']").unwrap_err().message(),
        "current page does not contain link href ''"
    );
}

#[test]
fn link_probes_keep_same_origin_links_once() {
    let body = [
        "<a href=\"/docs\">Docs</a>",
        "<a href='#top'>Top</a>",
        "<a href=\"mailto:hi@example.com\">Mail</a>",
        "<a href=\"https://other.dev/x\">Other</a>",
        "<a href=\"https://react.axonyx.dev/docs\">Docs again</a>",
        "<a href=\"api/button\">Button</a>",
    ]
    .join("");
    let page = opened("https://react.axonyx.dev/start", 200, &body);
    let probes = page.link_probes().unwrap();
    assert_eq!(
        probes,
        vec![
            LinkProbe {
                href: "/docs".to_string(),
                url: "https://react.axonyx.dev/docs".to_string(),
            },
            LinkProbe {
                href: "api/button".to_string(),
                url: "https://react.axonyx.dev/api/button".to_string(),
            },
        ]
    );
}

#[test]
fn link_probes_errors() {
    let fresh = FastPage::new("docs".to_string());
    assert_eq!(
        fresh.link_probes().unwrap_err().message(),
        "call goto before check_links"
    );
    let relative = opened("/docs", 200, "<a href=\"/x\">x</a>");
    assert_eq!(
        relative.link_probes().unwrap_err().message(),
        "check_links requires an absolute current URL"
    );
    let empty = opened("https://react.axonyx.dev/", 200, "no links");
    assert_eq!(empty.link_probes().unwrap(), Vec::<LinkProbe>::new());
}

#[test]
fn request_and_probe_messages() {
    assert_eq!(
        request_failure("https://react.axonyx.dev/", "timed out").message(),
        "failed to request https://react.axonyx.dev/: timed out"
    );
    assert_eq!(
        body_failure("connection reset").message(),
        "failed to read response body: connection reset"
    );
    let probe = LinkProbe {
        href: "/docs".to_string(),
        url: "https://react.axonyx.dev/docs".to_string(),
    };
    assert_eq!(
        probe_failure(&probe, "refused").message(),
        "failed to check link '/docs' -> https://react.axonyx.dev/docs: refused"
    );
    assert!(probe_status_outcome(&probe, 200).is_ok());
    assert!(probe_status_outcome(&probe, 399).is_ok());
    assert_eq!(
        probe_status_outcome(&probe, 400).unwrap_err().message(),
        "link '/docs' resolved to https://react.axonyx.dev/docs returned HTTP 400"
    );
    assert_eq!(
        probe_status_outcome(&probe, 503).unwrap_err().message(),
        "link '/docs' resolved to https://react.axonyx.dev/docs returned HTTP 503"
    );
}
