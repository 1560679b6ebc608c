use aegis::{
    CheckAction, FastCheckRun, collect_fast_suite_report, run_fast_suite, AegisConfig, AegisError, FastArgs, FastCheckConfig, FastCheckReport,
    FastFailureReport, FastSuiteError, FastSuiteReport, FastSuiteRun, OutputFormat, SmokeReport,
    SuiteOutput,
};

fn check(name: Option<&str>) -> FastCheckConfig {
    FastCheckConfig {
        name: name.map(|n| n.to_string()),
        goto: Some("/".to_string()),
        url: None,
        click: None,
        expect_text: None,
        expect_link: None,
        expect_links: Vec::new(),
        check_links: false,
        expect_all: Vec::new(),
        expect_not: Vec::new(),
        status: 200,
    }
}

fn config(names: &[Option<&str>]) -> AegisConfig {
    AegisConfig {
        base_url: Some("https://react.axonyx.dev".to_string()),
        fast: names.iter().map(|n| check(*n)).collect(),
        smoke: Vec::new(),
    }
}

fn args(fail_fast: bool) -> FastArgs {
    FastArgs { config: "aegis.toml".to_string(), format: OutputFormat::Text, fail_fast }
}

fn passing(url: &str) -> Result<SmokeReport, AegisError> {
    Ok(SmokeReport { url: url.to_string(), status: 200, body_bytes: 5, matched_text: None })
}

fn failing(message: &str) -> Result<SmokeReport, AegisError> {
    Err(AegisError::new(message.to_string()))
}

fn error_parts(error: FastSuiteError) -> (String, FastSuiteReport) {
    let (message, report) = error.into_parts();
    (message, report.expect("a report"))
}

#[test]
fn suite_without_checks_is_refused() {
    let error = FastSuiteRun::start(&args(true), &config(&[])).err().unwrap();
    let (message, report) = error.into_parts();
    assert_eq!(message, "config 'aegis.toml' does not define any [[fast]] or [[smoke]] checks");
    assert!(report.is_none());
}

#[test]
fn passing_suite_reports_every_check_under_its_label() {
    let mut run = FastSuiteRun::start(&args(true), &config(&[Some("home"), None])).unwrap();
    assert!(!run.is_finished());
    assert_eq!(run.current_check().name.as_deref(), Some("home"));
    run.record(passing("https://react.axonyx.dev/"));
    assert!(!run.is_finished());
    assert_eq!(run.current_check().name, None);
    run.record(passing("https://react.axonyx.dev/docs"));
    assert!(run.is_finished());
    let report = run.finish().unwrap();
    assert_eq!(
        report,
        FastSuiteReport {
            config: "aegis.toml".to_string(),
            passed: true,
            check_count: 2,
            checks: vec![
                FastCheckReport {
                    name: "home".to_string(),
                    url: "https://react.axonyx.dev/".to_string(),
                    status: 200,
                    body_bytes: 5,
                    matched_text: None,
                },
                FastCheckReport {
                    name: "fast 2".to_string(),
                    url: "https://react.axonyx.dev/docs".to_string(),
                    status: 200,
                    body_bytes: 5,
                    matched_text: None,
                },
            ],
            failures: Vec::new(),
            failure: None,
        }
    );
}

#[test]
fn fail_fast_stops_at_the_first_failure() {
    let mut run = FastSuiteRun::start(&args(true), &config(&[Some("home"), None, Some("docs")])).unwrap();
    run.record(passing("https://react.axonyx.dev/"));
    run.record(failing("expected HTTP status 200, got 500"));
    assert!(run.is_finished());
    let (message, report) = error_parts(run.finish().unwrap_err());
    assert_eq!(message, "check 'fast 2' failed: expected HTTP status 200, got 500");
    assert!(!report.passed);
    assert_eq!(report.check_count, 1);
    assert_eq!(report.checks.len(), 1);
    let failure = FastFailureReport {
        check: "fast 2".to_string(),
        error: "expected HTTP status 200, got 500".to_string(),
    };
    assert_eq!(report.failures, vec![failure.clone()]);
    assert_eq!(report.failure, Some(failure));
}

#[test]
fn without_fail_fast_every_check_runs() {
    let mut run = FastSuiteRun::start(&args(false), &config(&[None, Some("docs"), None])).unwrap();
    run.record(failing("first"));
    assert!(!run.is_finished());
    run.record(passing("https://react.axonyx.dev/docs"));
    run.record(failing("third"));
    assert!(run.is_finished());
    let (message, report) = error_parts(run.finish().unwrap_err());
    assert_eq!(message, "2 fast check(s) failed");
    assert_eq!(report.check_count, 1);
    assert_eq!(report.checks[0].name, "docs");
    assert_eq!(report.failures.len(), 2);
    assert_eq!(report.failures[0].check, "fast 1");
    assert_eq!(report.failures[1].check, "fast 3");
    assert_eq!(report.failure.as_ref().unwrap().error, "first");
}

#[test]
fn smoke_checks_follow_fast_checks() {
    let mut cfg = config(&[Some("fast one")]);
    cfg.smoke.push(aegis::SmokeCheckConfig {
        name: None,
        path: Some("/docs".to_string()),
        url: None,
        expect: Some("Docs".to_string()),
        expect_all: vec!["A".to_string()],
        expect_not: vec!["B".to_string()],
        status: 201,
    });
    let mut run = FastSuiteRun::start(&args(false), &cfg).unwrap();
    run.record(passing("https://react.axonyx.dev/"));
    let smoke = run.current_check();
    assert_eq!(smoke.goto.as_deref(), Some("/docs"));
    assert_eq!(smoke.expect_text.as_deref(), Some("Docs"));
    assert_eq!(smoke.status, 201);
    assert!(!smoke.check_links);
    run.record(passing("https://react.axonyx.dev/docs"));
    let report = run.finish().unwrap();
    assert_eq!(report.checks[1].name, "fast 2");
}

#[test]
fn passing_report_is_printed_in_the_chosen_format() {
    let report = FastSuiteReport {
        config: "aegis.toml".to_string(),
        passed: true,
        check_count: 0,
        checks: Vec::new(),
        failures: Vec::new(),
        failure: None,
    };
    let (output, result) = run_fast_suite(OutputFormat::Text, Ok(report.clone()));
    assert_eq!(output, SuiteOutput::Text(report.clone()));
    assert!(result.is_ok());
    let (output, result) = run_fast_suite(OutputFormat::Json, Ok(report.clone()));
    assert_eq!(output, SuiteOutput::Json(report));
    assert!(result.is_ok());
}

#[test]
fn failures_are_returned_and_reported_once() {
    let report = FastSuiteReport {
        config: "aegis.toml".to_string(),
        passed: false,
        check_count: 0,
        checks: Vec::new(),
        failures: vec![FastFailureReport { check: "home".to_string(), error: "x".to_string() }],
        failure: Some(FastFailureReport { check: "home".to_string(), error: "x".to_string() }),
    };
    let failure = || FastSuiteError::with_report("check 'home' failed: x".to_string(), report.clone());

    let (output, result) = run_fast_suite(OutputFormat::Text, Err(failure()));
    assert_eq!(output, SuiteOutput::Nothing);
    let error = result.unwrap_err();
    assert_eq!(error.message(), "check 'home' failed: x");
    assert!(!error.was_reported());

    let (output, result) = run_fast_suite(OutputFormat::Json, Err(failure()));
    assert_eq!(output, SuiteOutput::Json(report.clone()));
    let error = result.unwrap_err();
    assert_eq!(error.message(), "check 'home' failed: x");
    assert!(error.was_reported());

    let (output, result) =
        run_fast_suite(OutputFormat::Json, Err(FastSuiteError::new("no config".to_string())));
    assert_eq!(output, SuiteOutput::Nothing);
    let error = result.unwrap_err();
    assert_eq!(error.message(), "no config");
    assert!(!error.was_reported());
}

#[test]
fn unreadable_config_message() {
    let (message, report) =
        FastSuiteError::config_unreadable("missing.toml", "No such file").into_parts();
    assert_eq!(message, "failed to read config 'missing.toml': No such file");
    assert!(report.is_none());
}

fn by_name(_config: &AegisConfig, check: &FastCheckConfig) -> Result<SmokeReport, AegisError> {
    match check.name.as_deref() {
        Some("broken") => Err(AegisError::new("expected HTTP status 200, got 500".to_string())),
        _ => passing("https://react.axonyx.dev/"),
    }
}

#[test]
fn whole_suite_passes_when_every_check_passes() {
    let report = collect_fast_suite_report(&args(true), &config(&[Some("home"), None]), by_name).unwrap();
    assert!(report.passed);
    assert_eq!(report.config, "aegis.toml");
    assert_eq!(report.check_count, 2);
    assert_eq!(report.checks[1].name, "fast 2");
    assert_eq!(report.failure, None);
}

#[test]
fn whole_suite_with_fail_fast_stops_at_the_failure() {
    let cfg = config(&[Some("home"), Some("broken"), Some("broken")]);
    let (message, report) = error_parts(collect_fast_suite_report(&args(true), &cfg, by_name).unwrap_err());
    assert_eq!(message, "check 'broken' failed: expected HTTP status 200, got 500");
    assert_eq!(report.check_count, 1);
    assert_eq!(report.failures.len(), 1);
    assert_eq!(report.failure, Some(report.failures[0].clone()));
}

#[test]
fn whole_suite_without_fail_fast_runs_every_check() {
    let cfg = config(&[Some("broken"), Some("home"), Some("broken")]);
    let (message, report) = error_parts(collect_fast_suite_report(&args(false), &cfg, by_name).unwrap_err());
    assert_eq!(message, "2 fast check(s) failed");
    assert_eq!(report.check_count + report.failures.len(), 3);
    assert!(!report.passed);
}

#[test]
fn whole_suite_without_checks_has_no_report() {
    let error = collect_fast_suite_report(&args(true), &config(&[]), by_name).unwrap_err();
    let (message, report) = error.into_parts();
    assert_eq!(message, "config 'aegis.toml' does not define any [[fast]] or [[smoke]] checks");
    assert!(report.is_none());
}

fn without_requests(config: &AegisConfig, check: &FastCheckConfig) -> Result<SmokeReport, AegisError> {
    let run = FastCheckRun::start(config, check);
    match run.next_action() {
        CheckAction::Finished => run.finish(),
        other => panic!("a request was asked for: {other:?}"),
    }
}

fn pageless(name: Option<&str>) -> FastCheckConfig {
    FastCheckConfig { goto: None, ..check(name) }
}

fn requires_page(label: &str) -> FastFailureReport {
    FastFailureReport { check: label.to_string(), error: "fast check requires url or goto".to_string() }
}

#[test]
fn checks_without_a_page_fail_under_their_labels() {
    let cfg = AegisConfig {
        base_url: None,
        fast: vec![pageless(Some("a")), pageless(None)],
        smoke: Vec::new(),
    };
    let (message, report) =
        error_parts(collect_fast_suite_report(&args(false), &cfg, without_requests).unwrap_err());
    assert_eq!(message, "2 fast check(s) failed");
    assert_eq!(
        report,
        FastSuiteReport {
            config: "aegis.toml".to_string(),
            passed: false,
            check_count: 0,
            checks: Vec::new(),
            failures: vec![requires_page("a"), requires_page("fast 2")],
            failure: Some(requires_page("a")),
        }
    );

    let (message, report) =
        error_parts(collect_fast_suite_report(&args(true), &cfg, without_requests).unwrap_err());
    assert_eq!(message, "check 'a' failed: fast check requires url or goto");
    assert_eq!(report.failures, vec![requires_page("a")]);
    assert_eq!(report.failure, Some(requires_page("a")));
    assert_eq!(report.check_count, 0);
}
