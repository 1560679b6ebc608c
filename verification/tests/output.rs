use aegis::{
    init_write_allowed, smoke_report_lines, suite_report_lines, FastCheckReport,
    FastFailureReport, FastSuiteReport, SmokeReport,
};

#[test]
fn smoke_summary_lines() {
    let report = SmokeReport {
        url: "http://127.0.0.1:3000/".to_string(),
        status: 200,
        body_bytes: 1234,
        matched_text: Some("Axonyx".to_string()),
    };
    assert_eq!(
        smoke_report_lines(&report),
        vec![
            "Aegis smoke passed",
            "  url: http://127.0.0.1:3000/",
            "  status: 200",
            "  body: 1234 bytes",
            "  matched: Axonyx",
        ]
    );
    let plain = SmokeReport { matched_text: None, ..report };
    assert_eq!(smoke_report_lines(&plain).len(), 4);
}

#[test]
fn passing_suite_text() {
    let report = FastSuiteReport {
        config: "aegis.toml".to_string(),
        passed: true,
        check_count: 1,
        checks: vec![FastCheckReport {
            name: "home".to_string(),
            url: "https://react.axonyx.dev/".to_string(),
            status: 200,
            body_bytes: 512,
            matched_text: None,
        }],
        failures: Vec::new(),
        failure: None,
    };
    assert_eq!(
        suite_report_lines(&report),
        vec![
            "Aegis fast checks started",
            "  config: aegis.toml",
            "  ok home: https://react.axonyx.dev/ HTTP 200 (512 bytes)",
            "Aegis fast checks passed: 1 check(s)",
        ]
    );
}

#[test]
fn failing_suite_text() {
    let failure = FastFailureReport {
        check: "fast 2".to_string(),
        error: "expected HTTP status 200, got 500".to_string(),
    };
    let report = FastSuiteReport {
        config: "react.aegis.toml".to_string(),
        passed: false,
        check_count: 0,
        checks: Vec::new(),
        failures: vec![failure.clone(), failure.clone()],
        failure: Some(failure),
    };
    assert_eq!(
        suite_report_lines(&report),
        vec![
            "Aegis fast checks started",
            "  config: react.aegis.toml",
            "  fail fast 2: expected HTTP status 200, got 500",
            "  fail fast 2: expected HTTP status 200, got 500",
            "Aegis fast checks failed: 0 passed, 2 failed",
        ]
    );
}

#[test]
fn init_keeps_existing_files_unless_forced() {
    assert!(init_write_allowed("aegis.toml", false, false).is_ok());
    assert!(init_write_allowed("aegis.toml", true, true).is_ok());
    assert!(init_write_allowed("aegis.toml", false, true).is_ok());
    assert_eq!(
        init_write_allowed("aegis.toml", true, false).unwrap_err().message(),
        "aegis.toml already exists; rerun with --force to overwrite"
    );
}
