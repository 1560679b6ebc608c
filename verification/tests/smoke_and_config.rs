use aegis::config::{collect_fast_checks, first_check_url, resolve_config_url};
use aegis::{
    browser, default_status, smoke_report, AegisConfig, AegisError, BrowserPage, FastCheckConfig,
    SmokeArgs, SmokeCheckConfig, SmokeReport,
};

fn smoke_args() -> SmokeArgs {
    SmokeArgs {
        url: "http://127.0.0.1:3000/".to_string(),
        expect_status: 200,
        expect_text: Some("Axonyx".to_string()),
        expect_all: vec!["Docs".to_string()],
        expect_not: vec!["Error".to_string()],
    }
}

#[test]
fn smoke_passes_with_the_expected_response() {
    let report = smoke_report(&smoke_args(), 200, "Axonyx Docs").unwrap();
    assert_eq!(
        report,
        SmokeReport {
            url: "http://127.0.0.1:3000/".to_string(),
            status: 200,
            body_bytes: 11,
            matched_text: Some("Axonyx".to_string()),
        }
    );
}

#[test]
fn smoke_failures_in_order() {
    let args = smoke_args();
    assert_eq!(
        smoke_report(&args, 404, "Axonyx Docs").unwrap_err().message(),
        "expected HTTP 200, got 404 for http://127.0.0.1:3000/"
    );
    assert_eq!(
        smoke_report(&args, 200, "Docs Error").unwrap_err().message(),
        "expected response body to contain 'Axonyx'"
    );
    assert_eq!(
        smoke_report(&args, 200, "Axonyx").unwrap_err().message(),
        "expected response body to contain 'Docs'"
    );
    assert_eq!(
        smoke_report(&args, 200, "Axonyx Docs Error").unwrap_err().message(),
        "expected response body not to contain 'Error'"
    );
}

#[test]
fn default_smoke_accepts_any_body_with_status_200() {
    let args = SmokeArgs {
        url: "http://127.0.0.1:3000/".to_string(),
        expect_status: 200,
        expect_text: None,
        expect_all: Vec::new(),
        expect_not: Vec::new(),
    };
    let report = smoke_report(&args, 200, "").unwrap();
    assert_eq!(report.body_bytes, 0);
    assert_eq!(report.matched_text, None);
}

#[test]
fn default_status_is_200() {
    assert_eq!(default_status(), 200);
}

fn fast(name: &str) -> FastCheckConfig {
    FastCheckConfig {
        name: Some(name.to_string()),
        goto: None,
        url: Some("https://react.axonyx.dev/".to_string()),
        click: Some("a[href='/docs']".to_string()),
        expect_text: None,
        expect_link: Some("/docs".to_string()),
        expect_links: vec!["/api".to_string()],
        check_links: true,
        expect_all: Vec::new(),
        expect_not: Vec::new(),
        status: 200,
    }
}

#[test]
fn collected_checks_are_fast_then_smoke() {
    let config = AegisConfig {
        base_url: Some("https://react.axonyx.dev".to_string()),
        fast: vec![fast("one"), fast("two")],
        smoke: vec![SmokeCheckConfig {
            name: Some("home".to_string()),
            path: Some("/".to_string()),
            url: None,
            expect: Some("Axonyx".to_string()),
            expect_all: vec!["React".to_string()],
            expect_not: vec!["Internal Server Error".to_string()],
            status: 200,
        }],
    };
    let checks = collect_fast_checks(&config);
    assert_eq!(checks.len(), 3);
    assert_eq!(checks[0], fast("one"));
    assert_eq!(checks[1], fast("two"));
    assert_eq!(
        checks[2],
        FastCheckConfig {
            name: Some("home".to_string()),
            goto: Some("/".to_string()),
            url: None,
            click: None,
            expect_text: Some("Axonyx".to_string()),
            expect_link: None,
            expect_links: Vec::new(),
            check_links: false,
            expect_all: vec!["React".to_string()],
            expect_not: vec!["Internal Server Error".to_string()],
            status: 200,
        }
    );
}

#[test]
fn config_urls() {
    let config = AegisConfig {
        base_url: Some("https://react.axonyx.dev/".to_string()),
        fast: Vec::new(),
        smoke: Vec::new(),
    };
    assert_eq!(
        resolve_config_url(&config, "/docs/getting-started").unwrap(),
        "https://react.axonyx.dev/docs/getting-started"
    );
    assert_eq!(resolve_config_url(&config, "/").unwrap(), "https://react.axonyx.dev/");
    assert_eq!(
        resolve_config_url(&config, "http://127.0.0.1:3000/x").unwrap(),
        "http://127.0.0.1:3000/x"
    );
    let bare = AegisConfig { base_url: None, fast: Vec::new(), smoke: Vec::new() };
    assert_eq!(
        resolve_config_url(&bare, "/docs").unwrap_err().message(),
        "fast check with relative goto requires base_url"
    );
    assert_eq!(first_check_url(&bare, &fast("one")).unwrap(), "https://react.axonyx.dev/");
}

#[test]
fn browser_tests_are_refused_without_running() {
    let mut ran = false;
    let result = browser("opens drawer", |page: &mut BrowserPage| {
        page.goto("https://example.com").click("a").expect_text("Drawer");
        ran = true;
    });
    assert!(!ran);
    let error = result.unwrap_err();
    assert_eq!(
        error.message(),
        "Aegis browser test 'opens drawer' needs the future headless browser engine. Use aegis::fast for response tests today."
    );
    assert!(!error.was_reported());
}

#[test]
fn browser_page_steps_hand_back_the_page() {
    let mut page = BrowserPage;
    let same = page.goto("https://example.com").click("[data-ax-drawer-open]").expect_text("x");
    assert_eq!(*same, BrowserPage);
}

#[test]
fn errors_carry_their_message_and_whether_they_were_shown() {
    let fresh = AegisError::new("boom".to_string());
    assert_eq!(fresh.message(), "boom");
    assert!(!fresh.was_reported());
    let shown = AegisError::reported("boom".to_string());
    assert!(shown.was_reported());
    assert_ne!(fresh, shown);
}
