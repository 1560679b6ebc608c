//! What a check and a suite of checks report.
use vstd::prelude::*;

use crate::cli::SmokeArgs;
use crate::error::{fails_with, AegisError};
use crate::text::{contains, copy_opt, decimal, join3, push_decimal, str_contains};

verus! {

/// What a passing check reports: the page it ended on, its status and body size,
/// and the text it was asked to find.
#[derive(Debug, Clone, PartialEq, Eq)]
pub struct SmokeReport {
    pub url: String,
    pub status: u16,
    pub body_bytes: usize,
    pub matched_text: Option<String>,
}

/// A passing check of a suite, under its label.
#[derive(Debug, Clone, PartialEq, Eq)]
pub struct FastCheckReport {
    pub name: String,
    pub url: String,
    pub status: u16,
    pub body_bytes: usize,
    pub matched_text: Option<String>,
}

/// A failing check of a suite: its label and its error.
#[derive(Debug, Clone, PartialEq, Eq)]
pub struct FastFailureReport {
    pub check: String,
    pub error: String,
}

/// The result of a suite: its configuration file, whether it passed, the passing
/// checks and how many there are, the failing checks and the first of them.
#[derive(Debug, Clone, PartialEq, Eq)]
pub struct FastSuiteReport {
    pub config: String,
    pub passed: bool,
    pub check_count: usize,
    pub checks: Vec<FastCheckReport>,
    pub failures: Vec<FastFailureReport>,
    pub failure: Option<FastFailureReport>,
}

/// The value of a `SmokeReport`.
pub struct SmokeReportView {
    pub url: Seq<char>,
    pub status: u16,
    pub body_bytes: usize,
    pub matched_text: Option<Seq<char>>,
}

/// The value of a `FastCheckReport`.
pub struct CheckReportView {
    pub name: Seq<char>,
    pub url: Seq<char>,
    pub status: u16,
    pub body_bytes: usize,
    pub matched_text: Option<Seq<char>>,
}

/// The value of a `FastSuiteReport`.
pub struct SuiteReportView {
    pub config: Seq<char>,
    pub passed: bool,
    pub check_count: usize,
    pub checks: Seq<CheckReportView>,
    pub failures: Seq<(Seq<char>, Seq<char>)>,
    pub failure: Option<(Seq<char>, Seq<char>)>,
}

impl View for SmokeReport {
    type V = SmokeReportView;

    open spec fn view(&self) -> SmokeReportView {
        SmokeReportView {
            url: self.url@,
            status: self.status,
            body_bytes: self.body_bytes,
            matched_text: self.matched_text.deep_view(),
        }
    }
}

impl View for FastCheckReport {
    type V = CheckReportView;

    open spec fn view(&self) -> CheckReportView {
        CheckReportView {
            name: self.name@,
            url: self.url@,
            status: self.status,
            body_bytes: self.body_bytes,
            matched_text: self.matched_text.deep_view(),
        }
    }
}

impl View for FastFailureReport {
    type V = (Seq<char>, Seq<char>);

    open spec fn view(&self) -> (Seq<char>, Seq<char>) {
        (self.check@, self.error@)
    }
}

/// The value of an optional failure.
pub open spec fn failure_view(f: Option<FastFailureReport>) -> Option<(Seq<char>, Seq<char>)> {
    match f {
        Some(x) => Some(x@),
        None => None,
    }
}

impl View for FastSuiteReport {
    type V = SuiteReportView;

    open spec fn view(&self) -> SuiteReportView {
        SuiteReportView {
            config: self.config@,
            passed: self.passed,
            check_count: self.check_count,
            checks: self.checks@.map_values(|c: FastCheckReport| c@),
            failures: self.failures@.map_values(|f: FastFailureReport| f@),
            failure: failure_view(self.failure),
        }
    }
}

/// The number of bytes of `s` in UTF-8.
pub open spec fn utf8_len(s: Seq<char>) -> usize {
    vstd::utf8::encode_utf8(s).len() as usize
}

/// Each text of `texts` from position `i` on is in `body`; else the message for the
/// first that is not.
pub open spec fn body_holds_all(body: Seq<char>, texts: Seq<Seq<char>>, i: int) -> Result<
    (),
    Seq<char>,
>
    decreases texts.len() - i,
{
    if i < 0 || i >= texts.len() {
        Ok(())
    } else if !contains(body, texts[i]) {
        Err("expected response body to contain '"@ + texts[i] + "'"@)
    } else {
        body_holds_all(body, texts, i + 1)
    }
}

/// No text of `texts` from position `i` on is in `body`; else the message for the
/// first that is.
pub open spec fn body_holds_none(body: Seq<char>, texts: Seq<Seq<char>>, i: int) -> Result<
    (),
    Seq<char>,
>
    decreases texts.len() - i,
{
    if i < 0 || i >= texts.len() {
        Ok(())
    } else if contains(body, texts[i]) {
        Err("expected response body not to contain '"@ + texts[i] + "'"@)
    } else {
        body_holds_none(body, texts, i + 1)
    }
}

/// What a smoke check with options `args` gives for a response with `status` and
/// `body`: the status must be the expected one, the body must hold the expected texts
/// and none of the unexpected ones.
pub open spec fn smoke_judgement(args: crate::cli::SmokeArgsView, status: u16, body: Seq<char>) -> Result<
    SmokeReportView,
    Seq<char>,
> {
    if status != args.expect_status {
        Err("expected HTTP "@ + decimal(args.expect_status as nat) + ", got "@ + decimal(
            status as nat,
        ) + " for "@ + args.url)
    } else if args.expect_text is Some && !contains(body, args.expect_text->0) {
        Err("expected response body to contain '"@ + args.expect_text->0 + "'"@)
    } else {
        match body_holds_all(body, args.expect_all, 0) {
            Err(m) => Err(m),
            Ok(_) => match body_holds_none(body, args.expect_not, 0) {
                Err(m) => Err(m),
                Ok(_) => Ok(
                    SmokeReportView {
                        url: args.url,
                        status,
                        body_bytes: utf8_len(body),
                        matched_text: args.expect_text,
                    },
                ),
            },
        }
    }
}

/// What `aegis smoke` with options `args` reports for a response with `status` and
/// `body`.
pub fn smoke_report(args: &SmokeArgs, status: u16, body: &str) -> (r: Result<SmokeReport, AegisError>)
    ensures
        match (r, smoke_judgement(args@, status, body@)) {
            (Ok(x), Ok(y)) => x@ == y,
            (Err(e), Err(m)) => fails_with(e, m),
            _ => false,
        },
{
    if status != args.expect_status {
        let mut m = "expected HTTP ".to_string();
        push_decimal(&mut m, args.expect_status as u64);
        m.append(", got ");
        push_decimal(&mut m, status as u64);
        m.append(" for ");
        m.append(args.url.as_str());
        return Err(AegisError::new(m));
    }
    if let Some(expected) = &args.expect_text {
        if !str_contains(body, expected.as_str()) {
            return Err(
                AegisError::new(join3("expected response body to contain '", expected.as_str(), "'")),
            );
        }
    }
    let mut i: usize = 0;
    while i < args.expect_all.len()
        invariant
            i <= args.expect_all.len(),
            status == args.expect_status,
            args@.expect_text is Some ==> contains(body@, args@.expect_text->0),
            body_holds_all(body@, args@.expect_all, 0) == body_holds_all(
                body@,
                args@.expect_all,
                i as int,
            ),
        decreases args.expect_all.len() - i,
    {
        let expected = args.expect_all[i].as_str();
        assert(expected@ == args@.expect_all[i as int]);
        if !str_contains(body, expected) {
            return Err(AegisError::new(join3("expected response body to contain '", expected, "'")));
        }
        i = i + 1;
    }
    assert(body_holds_all(body@, args@.expect_all, i as int) is Ok);
    let mut j: usize = 0;
    while j < args.expect_not.len()
        invariant
            j <= args.expect_not.len(),
            status == args.expect_status,
            args@.expect_text is Some ==> contains(body@, args@.expect_text->0),
            body_holds_all(body@, args@.expect_all, 0) is Ok,
            body_holds_none(body@, args@.expect_not, 0) == body_holds_none(
                body@,
                args@.expect_not,
                j as int,
            ),
        decreases args.expect_not.len() - j,
    {
        let unexpected = args.expect_not[j].as_str();
        assert(unexpected@ == args@.expect_not[j as int]);
        if str_contains(body, unexpected) {
            return Err(
                AegisError::new(join3("expected response body not to contain '", unexpected, "'")),
            );
        }
        j = j + 1;
    }
    Ok(
        SmokeReport {
            url: args.url.clone(),
            status,
            body_bytes: body.len(),
            matched_text: copy_opt(&args.expect_text),
        },
    )
}

} // verus!
