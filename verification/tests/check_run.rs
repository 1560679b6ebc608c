use aegis::{AegisConfig, AegisError, CheckAction, FastCheckConfig, FastCheckRun, LinkProbe, SmokeReport};

fn check() -> FastCheckConfig {
    FastCheckConfig {
        name: Some("home".to_string()),
        goto: Some("/".to_string()),
        url: None,
        click: None,
        expect_text: None,
        expect_link: None,
        expect_links: Vec::new(),
        check_links: false,
        expect_all: Vec::new(),
        expect_not: Vec::new(),
        status: 200,
    }
}

fn config() -> AegisConfig {
    AegisConfig {
        base_url: Some("https://react.axonyx.dev".to_string()),
        fast: Vec::new(),
        smoke: Vec::new(),
    }
}

fn open_url(run: &FastCheckRun) -> String {
    match run.next_action() {
        CheckAction::Open(url) => url,
        other => panic!("expected a page to open, got {other:?}"),
    }
}

fn probe(run: &FastCheckRun) -> LinkProbe {
    match run.next_action() {
        CheckAction::Probe(p) => p,
        other => panic!("expected a link to request, got {other:?}"),
    }
}

fn error_of(result: Result<SmokeReport, AegisError>) -> String {
    result.unwrap_err().message().to_string()
}

#[test]
fn a_plain_check_opens_its_page_and_reports_it() {
    let mut c = check();
    c.expect_text = Some("Axonyx".to_string());
    let mut run = FastCheckRun::start(&config(), &c);
    assert_eq!(open_url(&run), "https://react.axonyx.dev/");
    run.page_loaded(200, "Welcome to Axonyx".to_string());
    assert!(matches!(run.next_action(), CheckAction::Finished));
    assert_eq!(
        run.finish().unwrap(),
        SmokeReport {
            url: "https://react.axonyx.dev/".to_string(),
            status: 200,
            body_bytes: 17,
            matched_text: Some("Axonyx".to_string()),
        }
    );
}

#[test]
fn body_size_counts_utf8_bytes() {
    let mut run = FastCheckRun::start(&config(), &check());
    run.page_loaded(200, "héllo".to_string());
    assert_eq!(run.finish().unwrap().body_bytes, 6);
}

#[test]
fn check_without_a_page_fails_before_any_request() {
    let mut c = check();
    c.goto = None;
    let run = FastCheckRun::start(&config(), &c);
    assert!(matches!(run.next_action(), CheckAction::Finished));
    assert_eq!(error_of(run.finish()), "fast check requires url or goto");

    let mut c = check();
    c.url = Some("https://react.axonyx.dev/".to_string());
    let run = FastCheckRun::start(&config(), &c);
    assert_eq!(error_of(run.finish()), "fast check must use either url or goto, not both");

    let no_base = AegisConfig { base_url: None, fast: Vec::new(), smoke: Vec::new() };
    let run = FastCheckRun::start(&no_base, &check());
    assert_eq!(error_of(run.finish()), "fast check with relative goto requires base_url");
}

#[test]
fn absolute_url_and_absolute_goto_need_no_base() {
    let no_base = AegisConfig { base_url: None, fast: Vec::new(), smoke: Vec::new() };
    let mut c = check();
    c.goto = None;
    c.url = Some("http://127.0.0.1:3000/x".to_string());
    let run = FastCheckRun::start(&no_base, &c);
    assert_eq!(open_url(&run), "http://127.0.0.1:3000/x");

    let mut c = check();
    c.goto = Some("https://react.axonyx.dev/docs".to_string());
    let run = FastCheckRun::start(&no_base, &c);
    assert_eq!(open_url(&run), "https://react.axonyx.dev/docs");
}

#[test]
fn wrong_status_fails_the_check() {
    let mut run = FastCheckRun::start(&config(), &check());
    run.page_loaded(500, "Internal Server Error".to_string());
    assert_eq!(error_of(run.finish()), "expected HTTP status 200, got 500");
}

#[test]
fn click_opens_the_linked_page_and_checks_its_status_again() {
    let mut c = check();
    c.click = Some("a[href='/docs/getting-started']".to_string());
    c.expect_text = Some("Getting Started".to_string());
    let mut run = FastCheckRun::start(&config(), &c);
    run.page_loaded(200, "<a href='/docs/getting-started'>Docs</a>".to_string());
    assert_eq!(open_url(&run), "https://react.axonyx.dev/docs/getting-started");
    run.page_loaded(200, "Getting Started".to_string());
    let report = run.finish().unwrap();
    assert_eq!(report.url, "https://react.axonyx.dev/docs/getting-started");
    assert_eq!(report.body_bytes, 15);

    let mut run = FastCheckRun::start(&config(), &c);
    run.page_loaded(200, "<a href='/docs/getting-started'>Docs</a>".to_string());
    run.page_loaded(404, "Not found".to_string());
    assert_eq!(error_of(run.finish()), "expected HTTP status 200, got 404");
}

#[test]
fn click_on_a_missing_link_fails() {
    let mut c = check();
    c.click = Some("a[href='/docs']".to_string());
    let mut run = FastCheckRun::start(&config(), &c);
    run.page_loaded(200, "no links here".to_string());
    assert_eq!(error_of(run.finish()), "current page does not contain link href '/docs'");
}

#[test]
fn expectations_are_checked_in_order() {
    let mut c = check();
    c.expect_text = Some("Axonyx".to_string());
    c.expect_link = Some("/components".to_string());
    c.expect_links = vec!["/api/button".to_string(), "/react".to_string()];
    c.expect_all = vec!["Docs".to_string()];
    c.expect_not = vec!["Internal Server Error".to_string()];

    let body = "Axonyx Docs <a href=\"/components\"></a><a href=\"/api/button\"></a>";
    let mut run = FastCheckRun::start(&config(), &c);
    run.page_loaded(200, body.to_string());
    assert_eq!(
        error_of(run.finish()),
        "expected current response body to contain link href '/react'"
    );

    let mut run = FastCheckRun::start(&config(), &c);
    run.page_loaded(200, "Docs".to_string());
    assert_eq!(
        error_of(run.finish()),
        "expected current response body to contain 'Axonyx'"
    );

    let full = "Axonyx Docs Internal Server Error <a href=\"/components\"></a><a href=\"/api/button\"></a><a href=\"/react\"></a>";
    let mut run = FastCheckRun::start(&config(), &c);
    run.page_loaded(200, full.to_string());
    assert_eq!(
        error_of(run.finish()),
        "expected current response body not to contain 'Internal Server Error'"
    );
}

#[test]
fn link_check_requests_each_same_origin_link_once() {
    let mut c = check();
    c.check_links = true;
    let body = "<a href=\"/docs\"></a><a href=\"#top\"></a><a href=\"/docs\"></a><a href=\"https://other.dev/\"></a><a href='/api'></a>";
    let mut run = FastCheckRun::start(&config(), &c);
    run.page_loaded(200, body.to_string());
    let first = probe(&run);
    assert_eq!(first.url, "https://react.axonyx.dev/docs");
    run.link_answered(200);
    let second = probe(&run);
    assert_eq!(second.href, "/api");
    assert_eq!(second.url, "https://react.axonyx.dev/api");
    run.link_answered(301);
    assert!(matches!(run.next_action(), CheckAction::Finished));
    let report = run.finish().unwrap();
    assert_eq!(report.url, "https://react.axonyx.dev/");
    assert_eq!(report.status, 200);
}

#[test]
fn broken_link_fails_the_check() {
    let mut c = check();
    c.check_links = true;
    let mut run = FastCheckRun::start(&config(), &c);
    run.page_loaded(200, "<a href=\"/gone\"></a><a href=\"/docs\"></a>".to_string());
    run.link_answered(404);
    assert!(matches!(run.next_action(), CheckAction::Finished));
    assert_eq!(
        error_of(run.finish()),
        "link '/gone' resolved to https://react.axonyx.dev/gone returned HTTP 404"
    );
}

#[test]
fn failed_requests_end_the_check() {
    let mut run = FastCheckRun::start(&config(), &check());
    run.request_failed("connection refused");
    assert_eq!(
        error_of(run.finish()),
        "failed to request https://react.axonyx.dev/: connection refused"
    );

    let mut run = FastCheckRun::start(&config(), &check());
    run.body_unreadable("reset");
    assert_eq!(error_of(run.finish()), "failed to read response body: reset");

    let mut c = check();
    c.check_links = true;
    let mut run = FastCheckRun::start(&config(), &c);
    run.page_loaded(200, "<a href=\"/docs\"></a>".to_string());
    run.request_failed("timed out");
    assert_eq!(
        error_of(run.finish()),
        "failed to check link '/docs' -> https://react.axonyx.dev/docs: timed out"
    );
}

#[test]
fn link_check_without_links_passes_at_once() {
    let mut c = check();
    c.check_links = true;
    let mut run = FastCheckRun::start(&config(), &c);
    run.page_loaded(200, "plain".to_string());
    assert!(matches!(run.next_action(), CheckAction::Finished));
    assert!(run.finish().is_ok());
}
