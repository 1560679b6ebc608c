//! A suite of fast checks: which check runs next, what each result adds to the
//! report, when the suite stops, and how its result is reported.
use vstd::prelude::*;

use crate::cli::{FastArgs, OutputFormat};
use crate::config::{all_checks, collect_fast_checks, AegisConfig, FastCheckConfig, FastCheckView};
use crate::error::AegisError;
use crate::report::{
    failure_view, CheckReportView, FastCheckReport, FastFailureReport, FastSuiteReport,
    SmokeReport, SmokeReportView, SuiteReportView,
};
use crate::text::{copy_opt, decimal, join3, push_decimal};

verus! {

/// Why a suite did not pass, with its report when the checks ran.
#[derive(Debug, Clone, PartialEq, Eq)]
pub struct FastSuiteError {
    message: String,
    report: Option<FastSuiteReport>,
}

/// The value of a `FastSuiteError`.
pub struct SuiteErrorView {
    pub message: Seq<char>,
    pub report: Option<SuiteReportView>,
}

impl View for FastSuiteError {
    type V = SuiteErrorView;

    closed spec fn view(&self) -> SuiteErrorView {
        SuiteErrorView {
            message: self.message@,
            report: match self.report {
                Some(r) => Some(r@),
                None => None,
            },
        }
    }
}

impl FastSuiteError {
    /// A failure before any check ran.
    pub fn new(message: String) -> (e: FastSuiteError)
        ensures
            e@.message == message@,
            e@.report is None,
    {
        FastSuiteError { message, report: None }
    }

    /// A failure of checks, with the suite's report.
    pub fn with_report(message: String, report: FastSuiteReport) -> (e: FastSuiteError)
        ensures
            e@.message == message@,
            e@.report == Some(report@),
    {
        FastSuiteError { message, report: Some(report) }
    }

    /// The configuration file at `path` could not be read.
    pub fn config_unreadable(path: &str, error: &str) -> (e: FastSuiteError)
        ensures
            e@.message == "failed to read config '"@ + path@ + "': "@ + error@,
            e@.report is None,
    {
        let mut m = join3("failed to read config '", path, "': ");
        m.append(error);
        FastSuiteError::new(m)
    }

    /// The message and the report.
    pub fn into_parts(self) -> (r: (String, Option<FastSuiteReport>))
        ensures
            r.0@ == self@.message,
            match (r.1, self@.report) {
                (Some(x), Some(y)) => x@ == y,
                (None, None) => true,
                _ => false,
            },
    {
        (self.message, self.report)
    }
}

/// The label of the check at position `i`: its name, or `fast <i + 1>`.
pub open spec fn check_label(check: FastCheckView, i: int) -> Seq<char> {
    match check.name {
        Some(n) => n,
        None => "fast "@ + decimal((i + 1) as nat),
    }
}

/// The value of a `FastSuiteRun`: the configuration file, whether the suite stops at
/// the first failure, its checks, the reports and failures so far, and how many
/// checks have run.
pub struct SuiteRunView {
    pub config: Seq<char>,
    pub fail_fast: bool,
    pub checks: Seq<FastCheckView>,
    pub reports: Seq<CheckReportView>,
    pub failures: Seq<(Seq<char>, Seq<char>)>,
    pub next: int,
}

/// A suite is finished once every check ran, or, when it stops at the first failure,
/// once a check failed.
pub open spec fn suite_finished(v: SuiteRunView) -> bool {
    v.next >= v.checks.len() || (v.fail_fast && v.failures.len() > 0)
}

/// The report of a suite in state `v`.
pub open spec fn suite_report(v: SuiteRunView) -> SuiteReportView {
    SuiteReportView {
        config: v.config,
        passed: v.failures.len() == 0,
        check_count: v.reports.len() as usize,
        checks: v.reports,
        failures: v.failures,
        failure: if v.failures.len() > 0 {
            Some(v.failures[0])
        } else {
            None
        },
    }
}

/// The result of a finished suite: its report when every check passed; else the
/// report with a message that names the first failure (when the suite stops at it)
/// or counts the failures.
pub open spec fn suite_result(v: SuiteRunView) -> Result<SuiteReportView, SuiteErrorView> {
    if v.failures.len() == 0 {
        Ok(suite_report(v))
    } else if v.fail_fast {
        Err(
            SuiteErrorView {
                message: "check '"@ + v.failures[0].0 + "' failed: "@ + v.failures[0].1,
                report: Some(suite_report(v)),
            },
        )
    } else {
        Err(
            SuiteErrorView {
                message: decimal(v.failures.len()) + " fast check(s) failed"@,
                report: Some(suite_report(v)),
            },
        )
    }
}

/// The value of a check's result.
pub open spec fn outcome_view(o: Result<SmokeReport, AegisError>) -> Result<
    SmokeReportView,
    (Seq<char>, bool),
> {
    match o {
        Ok(x) => Ok(x@),
        Err(e) => Err(e@),
    }
}

/// The values of the results `outs`, in order.
pub open spec fn outcome_views(outs: Seq<Result<SmokeReport, AegisError>>) -> Seq<
    Result<SmokeReportView, (Seq<char>, bool)>,
> {
    outs.map_values(|o: Result<SmokeReport, AegisError>| outcome_view(o))
}

/// The suite `v` after the check at its position `next` gave `out`: a passing check
/// adds its report, a failing one its failure, both under the check's label.
pub open spec fn record_step(v: SuiteRunView, out: Result<SmokeReportView, (Seq<char>, bool)>) -> SuiteRunView {
    let label = check_label(v.checks[v.next], v.next);
    match out {
        Ok(r) => SuiteRunView {
            reports: v.reports.push(
                CheckReportView {
                    name: label,
                    url: r.url,
                    status: r.status,
                    body_bytes: r.body_bytes,
                    matched_text: r.matched_text,
                },
            ),
            next: v.next + 1,
            ..v
        },
        Err(e) => SuiteRunView { failures: v.failures.push((label, e.0)), next: v.next + 1, ..v },
    }
}

/// The suite `v` after its next checks gave `outs`, in order.
pub open spec fn replay(v: SuiteRunView, outs: Seq<Result<SmokeReportView, (Seq<char>, bool)>>) -> SuiteRunView
    decreases outs.len(),
{
    if outs.len() == 0 {
        v
    } else {
        record_step(replay(v, outs.drop_last()), outs.last())
    }
}

/// A suite as it starts: the checks of a configuration, none of them run yet.
pub open spec fn suite_start(args: crate::cli::FastArgsView, checks: Seq<FastCheckView>) -> SuiteRunView {
    SuiteRunView {
        config: args.config,
        fail_fast: args.fail_fast,
        checks,
        reports: Seq::empty(),
        failures: Seq::empty(),
        next: 0,
    }
}

/// A suite of fast checks in progress.
pub struct FastSuiteRun {
    config: String,
    fail_fast: bool,
    checks: Vec<FastCheckConfig>,
    reports: Vec<FastCheckReport>,
    failures: Vec<FastFailureReport>,
}

impl View for FastSuiteRun {
    type V = SuiteRunView;

    closed spec fn view(&self) -> SuiteRunView {
        SuiteRunView {
            config: self.config@,
            fail_fast: self.fail_fast,
            checks: self.checks@.map_values(|c: FastCheckConfig| c@),
            reports: self.reports@.map_values(|c: FastCheckReport| c@),
            failures: self.failures@.map_values(|f: FastFailureReport| f@),
            next: self.reports.len() + self.failures.len(),
        }
    }
}

/// What holds of every suite in progress: the checks that ran are the reports and
/// the failures, and a suite that stops at the first failure has at most one.
pub open spec fn suite_consistent(v: SuiteRunView) -> bool {
    &&& 0 <= v.next <= v.checks.len() <= usize::MAX
    &&& v.reports.len() + v.failures.len() == v.next
    &&& v.fail_fast ==> v.failures.len() <= 1
}

impl FastSuiteRun {
    #[verifier::type_invariant]
    spec fn inv(&self) -> bool {
        &&& self.reports.len() + self.failures.len() <= self.checks.len()
        &&& self.fail_fast ==> self.failures.len() <= 1
    }

    /// A suite of the checks of `config`, as `args` asks for it; a configuration
    /// without checks is refused.
    pub fn start(args: &FastArgs, config: &AegisConfig) -> (r: Result<FastSuiteRun, FastSuiteError>)
        ensures
            all_checks(config@).len() == 0 <==> r is Err,
            r matches Err(e) ==> e@.message == "config '"@ + args.config@
                + "' does not define any [[fast]] or [[smoke]] checks"@ && e@.report is None,
            r matches Ok(s) ==> s@ == (SuiteRunView {
                config: args.config@,
                fail_fast: args.fail_fast,
                checks: all_checks(config@),
                reports: Seq::empty(),
                failures: Seq::empty(),
                next: 0,
            }) && suite_consistent(s@),
    {
        let checks = collect_fast_checks(config);
        if checks.len() == 0 {
            return Err(
                FastSuiteError::new(
                    join3(
                        "config '",
                        args.config.as_str(),
                        "' does not define any [[fast]] or [[smoke]] checks",
                    ),
                ),
            );
        }
        let run = FastSuiteRun {
            config: args.config.clone(),
            fail_fast: args.fail_fast,
            checks,
            reports: Vec::new(),
            failures: Vec::new(),
        };
        assert(run@.reports =~= Seq::<CheckReportView>::empty());
        assert(run@.failures =~= Seq::<(Seq<char>, Seq<char>)>::empty());
        Ok(run)
    }

    /// Whether the suite is finished.
    pub fn is_finished(&self) -> (r: bool)
        ensures
            r == suite_finished(self@),
            suite_consistent(self@),
    {
        proof {
            use_type_invariant(self);
        }
        self.reports.len() + self.failures.len() >= self.checks.len() || (self.fail_fast
            && self.failures.len() > 0)
    }

    /// The check to run next.
    pub fn current_check(&self) -> (r: &FastCheckConfig)
        requires
            !suite_finished(self@),
        ensures
            r@ == self@.checks[self@.next],
    {
        proof {
            use_type_invariant(self);
        }
        &self.checks[self.reports.len() + self.failures.len()]
    }

    /// Takes in the result of the check that ran: a passing check adds its report, a
    /// failing one its failure, both under the check's label.
    pub fn record(&mut self, outcome: Result<SmokeReport, AegisError>)
        requires
            !suite_finished(old(self)@),
        ensures
            final(self)@.config == old(self)@.config,
            final(self)@.fail_fast == old(self)@.fail_fast,
            final(self)@.checks == old(self)@.checks,
            final(self)@.next == old(self)@.next + 1,
            final(self)@ == record_step(old(self)@, outcome_view(outcome)),
            ({
                let label = check_label(old(self)@.checks[old(self)@.next], old(self)@.next);
                match outcome {
                    Ok(r) => final(self)@.failures == old(self)@.failures && final(self)@.reports
                        == old(self)@.reports.push(
                        CheckReportView {
                            name: label,
                            url: r@.url,
                            status: r@.status,
                            body_bytes: r@.body_bytes,
                            matched_text: r@.matched_text,
                        },
                    ),
                    Err(e) => final(self)@.reports == old(self)@.reports && final(self)@.failures
                        == old(self)@.failures.push((label, e@.0)),
                }
            }),
            suite_consistent(final(self)@),
    {
        proof {
            use_type_invariant(&*self);
        }
        let i = self.reports.len() + self.failures.len();
        let label = match &self.checks[i].name {
            Some(n) => n.clone(),
            None => {
                let mut l = "fast ".to_string();
                push_decimal(&mut l, i as u64 + 1);
                l
            },
        };
        assert(label@ == check_label(self@.checks[i as int], i as int));
        match outcome {
            Ok(r) => {
                let ghost before = self@.reports;
                let ghost rv = r@;
                let mut reports: Vec<FastCheckReport> = Vec::new();
                std::mem::swap(&mut reports, &mut self.reports);
                reports.push(
                    FastCheckReport {
                        name: label,
                        url: r.url,
                        status: r.status,
                        body_bytes: r.body_bytes,
                        matched_text: r.matched_text,
                    },
                );
                std::mem::swap(&mut reports, &mut self.reports);
                assert(self@.reports =~= before.push(
                    CheckReportView {
                        name: label@,
                        url: rv.url,
                        status: rv.status,
                        body_bytes: rv.body_bytes,
                        matched_text: rv.matched_text,
                    },
                ));
            },
            Err(e) => {
                let ghost before = self@.failures;
                let error = e.message().to_string();
                let mut failures: Vec<FastFailureReport> = Vec::new();
                std::mem::swap(&mut failures, &mut self.failures);
                failures.push(FastFailureReport { check: label, error });
                std::mem::swap(&mut failures, &mut self.failures);
                assert(self@.failures =~= before.push((label@, e@.0)));
            },
        }
    }

    /// The result of a finished suite.
    pub fn finish(self) -> (r: Result<FastSuiteReport, FastSuiteError>)
        requires
            suite_finished(self@),
        ensures
            match (r, suite_result(self@)) {
                (Ok(x), Ok(y)) => x@ == y,
                (Err(x), Err(y)) => x@ == y,
                _ => false,
            },
    {
        proof {
            use_type_invariant(&self);
        }
        let ghost v = self@;
        let passed = self.failures.len() == 0;
        let failure = if self.failures.len() > 0 {
            Some(
                FastFailureReport {
                    check: self.failures[0].check.clone(),
                    error: self.failures[0].error.clone(),
                },
            )
        } else {
            None
        };
        let message = if passed {
            String::new()
        } else if self.fail_fast {
            let mut m = join3("check '", self.failures[0].check.as_str(), "' failed: ");
            m.append(self.failures[0].error.as_str());
            m
        } else {
            let mut m = String::new();
            push_decimal(&mut m, self.failures.len() as u64);
            m.append(" fast check(s) failed");
            m
        };
        let report = FastSuiteReport {
            config: self.config,
            passed,
            check_count: self.reports.len(),
            checks: self.reports,
            failures: self.failures,
            failure,
        };
        assert(report@ == suite_report(v));
        if passed {
            Ok(report)
        } else {
            Err(FastSuiteError::with_report(message, report))
        }
    }
}

/// What holds of the result `r` of running the suite of `config` as `args` asks for
/// it, whatever each check gave: a configuration without checks is refused without a
/// report; otherwise the report names the configuration file, counts its passing
/// checks, passed exactly when no check failed, and gives the first failure; the
/// suite succeeds exactly when its report passed; with fail-fast it stopped at its
/// one failure, and without it every check ran.
pub open spec fn suite_outcome(
    args: crate::cli::FastArgsView,
    checks: Seq<FastCheckView>,
    r: Result<SuiteReportView, SuiteErrorView>,
) -> bool {
    if checks.len() == 0 {
        r matches Err(e) && e.report is None && e.message == "config '"@ + args.config
            + "' does not define any [[fast]] or [[smoke]] checks"@
    } else {
        match r {
            Ok(rep) => {
                &&& rep.passed
                &&& rep.config == args.config
                &&& rep.failures.len() == 0
                &&& rep.failure is None
                &&& rep.check_count == rep.checks.len()
                &&& rep.checks.len() == checks.len()
            },
            Err(e) => e.report matches Some(rep) && {
                &&& !rep.passed
                &&& rep.config == args.config
                &&& rep.check_count == rep.checks.len()
                &&& rep.failures.len() > 0
                &&& rep.failure == Some(rep.failures[0])
                &&& args.fail_fast ==> rep.failures.len() == 1 && e.message == "check '"@
                    + rep.failures[0].0 + "' failed: "@ + rep.failures[0].1
                &&& !args.fail_fast ==> rep.checks.len() + rep.failures.len() == checks.len()
                    && e.message == decimal(rep.failures.len()) + " fast check(s) failed"@
            },
        }
    }
}

/// How a suite of the checks of `config`, run as `args` asks for it, went: `run_check`
/// was handed the checks in order, one after the other, and gave `outs`; it was
/// handed a check only while the suite was not finished, and the suite was finished
/// after the last; `r` is the result of the suite that recorded `outs` in order.
pub open spec fn suite_trace<F>(
    args: crate::cli::FastArgsView,
    config: &AegisConfig,
    run_check: F,
    ks: Seq<FastCheckConfig>,
    outs: Seq<Result<SmokeReport, AegisError>>,
    r: Result<FastSuiteReport, FastSuiteError>,
) -> bool
    where
        F: Fn(&AegisConfig, &FastCheckConfig) -> Result<SmokeReport, AegisError>,
{
    let v0 = suite_start(args, all_checks(config@));
    let ov = outcome_views(outs);
    &&& ks.len() == outs.len()
    &&& forall|i: int|
        0 <= i < outs.len() ==> #[trigger] ks[i]@ == all_checks(config@)[i] && call_ensures(
            run_check,
            (config, &ks[i]),
            outs[i],
        )
    &&& forall|j: int| 0 <= j < outs.len() ==> !suite_finished(#[trigger] replay(v0, ov.take(j)))
    &&& suite_finished(replay(v0, ov))
    &&& match (r, suite_result(replay(v0, ov))) {
        (Ok(x), Ok(y)) => x@ == y,
        (Err(x), Err(y)) => x@ == y,
        _ => false,
    }
}

/// Runs the suite of `config` as `args` asks for it, each check by `run_check`, and
/// returns its report or why it failed.
pub fn collect_fast_suite_report<F>(args: &FastArgs, config: &AegisConfig, run_check: F) -> (r:
    Result<FastSuiteReport, FastSuiteError>)
    where
        F: Fn(&AegisConfig, &FastCheckConfig) -> Result<SmokeReport, AegisError>,
    requires
        forall|c: &AegisConfig, k: &FastCheckConfig| #[trigger] run_check.requires((c, k)),
    ensures
        suite_outcome(
            args@,
            all_checks(config@),
            match r {
                Ok(x) => Ok(x@),
                Err(e) => Err(e@),
            },
        ),
        all_checks(config@).len() > 0 ==> exists|
            ks: Seq<FastCheckConfig>,
            outs: Seq<Result<SmokeReport, AegisError>>,
        |
            #[trigger] suite_trace(args@, config, run_check, ks, outs, r),
{
    let mut suite = match FastSuiteRun::start(args, config) {
        Ok(s) => s,
        Err(e) => return Err(e),
    };
    let ghost v0 = suite_start(args@, all_checks(config@));
    let ghost mut ks: Seq<FastCheckConfig> = Seq::empty();
    let ghost mut outs: Seq<Result<SmokeReport, AegisError>> = Seq::empty();
    assert(outcome_views(outs) =~= Seq::empty());
    while !suite.is_finished()
        invariant
            forall|c: &AegisConfig, k: &FastCheckConfig| #[trigger] run_check.requires((c, k)),
            v0 == suite_start(args@, all_checks(config@)),
            suite@.config == args.config@,
            suite@.fail_fast == args.fail_fast,
            suite@.checks == all_checks(config@),
            suite@.checks.len() > 0,
            suite_consistent(suite@),
            ks.len() == outs.len(),
            suite@.next == outs.len(),
            suite@ == replay(v0, outcome_views(outs)),
            forall|i: int|
                0 <= i < outs.len() ==> #[trigger] ks[i]@ == all_checks(config@)[i] && call_ensures(
                    run_check,
                    (config, &ks[i]),
                    outs[i],
                ),
            forall|j: int|
                0 <= j < outs.len() ==> !suite_finished(
                    #[trigger] replay(v0, outcome_views(outs).take(j)),
                ),
        decreases suite@.checks.len() - suite@.next,
    {
        let ghost before = suite@;
        let ghost ov = outcome_views(outs);
        let k = suite.current_check();
        let outcome = run_check(config, k);
        let ghost o = outcome;
        let ghost kc = *k;
        proof {
            assert(kc@ == all_checks(config@)[outs.len() as int]);
            assert(call_ensures(run_check, (config, &kc), o));
        }
        suite.record(outcome);
        proof {
            let ks2 = ks.push(kc);
            let outs2 = outs.push(o);
            let ov2 = outcome_views(outs2);
            assert(ov2 =~= ov.push(outcome_view(o)));
            assert(ov2.drop_last() =~= ov);
            assert(ov2.take(outs.len() as int) =~= ov);
            assert forall|j: int| 0 <= j < outs2.len() implies !suite_finished(
                #[trigger] replay(v0, ov2.take(j)),
            ) by {
                if j < outs.len() {
                    assert(ov2.take(j) =~= ov.take(j));
                }
            }
            assert forall|i: int| 0 <= i < outs2.len() implies #[trigger] ks2[i]@ == all_checks(
                config@,
            )[i] && call_ensures(run_check, (config, &ks2[i]), outs2[i]) by {
                if i < outs.len() {
                    assert(ks2[i] == ks[i] && outs2[i] == outs[i]);
                } else {
                    assert(ks2[i] == kc && outs2[i] == o);
                }
            }
            ks = ks2;
            outs = outs2;
        }
    }
    let ghost v = suite@;
    assert(suite_finished(v));
    let r = suite.finish();
    assert(suite_trace(args@, config, run_check, ks, outs, r));
    r
}

/// What the fast command prints: nothing, or the report as text or as JSON.
#[derive(Debug, Clone, PartialEq, Eq)]
pub enum SuiteOutput {
    Nothing,
    Text(FastSuiteReport),
    Json(FastSuiteReport),
}

/// `o` prints the report `rep` as text.
pub open spec fn prints_text(o: SuiteOutput, rep: SuiteReportView) -> bool {
    o matches SuiteOutput::Text(x) && x@ == rep
}

/// `o` prints the report `rep` as JSON.
pub open spec fn prints_json(o: SuiteOutput, rep: SuiteReportView) -> bool {
    o matches SuiteOutput::Json(x) && x@ == rep
}

/// `r` is an error with message `m`, already reported or not as `reported` says.
pub open spec fn fails_as(r: Result<(), AegisError>, m: Seq<char>, reported: bool) -> bool {
    r matches Err(x) && x@ == (m, reported)
}

/// What the fast command prints and returns for the result of its suite in `format`:
/// a report that passed is printed in the format asked for; a failure is returned as
/// an error, after its report is printed when the format is JSON and the suite has
/// one, in which case the error counts as reported.
pub fn run_fast_suite(format: OutputFormat, outcome: Result<FastSuiteReport, FastSuiteError>) -> (r: (
    SuiteOutput,
    Result<(), AegisError>,
))
    ensures
        match (format, outcome) {
            (OutputFormat::Text, Ok(rep)) => prints_text(r.0, rep@) && r.1 is Ok,
            (OutputFormat::Json, Ok(rep)) => prints_json(r.0, rep@) && r.1 is Ok,
            (OutputFormat::Text, Err(e)) => r.0 is Nothing && fails_as(r.1, e@.message, false),
            (OutputFormat::Json, Err(e)) => match e@.report {
                Some(rep) => prints_json(r.0, rep) && fails_as(r.1, e@.message, true),
                None => r.0 is Nothing && fails_as(r.1, e@.message, false),
            },
        },
{
    match (format, outcome) {
        (OutputFormat::Text, Ok(report)) => (SuiteOutput::Text(report), Ok(())),
        (OutputFormat::Json, Ok(report)) => (SuiteOutput::Json(report), Ok(())),
        (OutputFormat::Text, Err(error)) => {
            let (message, _) = error.into_parts();
            (SuiteOutput::Nothing, Err(AegisError::new(message)))
        },
        (OutputFormat::Json, Err(error)) => {
            let (message, report) = error.into_parts();
            match report {
                Some(report) => (SuiteOutput::Json(report), Err(AegisError::reported(message))),
                None => (SuiteOutput::Nothing, Err(AegisError::new(message))),
            }
        },
    }
}

} // verus!
