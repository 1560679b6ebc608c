//! The lines the command prints for a smoke check and for a suite in text format.
use vstd::prelude::*;

use crate::report::{CheckReportView, FastSuiteReport, SmokeReport, SmokeReportView, SuiteReportView};
use crate::text::{decimal, join3, push_decimal};

verus! {

/// The line of a passing check.
pub open spec fn check_line(c: CheckReportView) -> Seq<char> {
    "  ok "@ + c.name + ": "@ + c.url + " HTTP "@ + decimal(c.status as nat) + " ("@ + decimal(
        c.body_bytes as nat,
    ) + " bytes)"@
}

/// The line of a failing check.
pub open spec fn failure_line(f: (Seq<char>, Seq<char>)) -> Seq<char> {
    "  fail "@ + f.0 + ": "@ + f.1
}

/// The last line: how the suite ended.
pub open spec fn summary_line(r: SuiteReportView) -> Seq<char> {
    if r.passed {
        "Aegis fast checks passed: "@ + decimal(r.check_count as nat) + " check(s)"@
    } else {
        "Aegis fast checks failed: "@ + decimal(r.check_count as nat) + " passed, "@ + decimal(
            r.failures.len(),
        ) + " failed"@
    }
}

/// The text report of a suite: a heading, the configuration file, a line for each
/// passing check, then for each failing one, and the summary.
pub open spec fn suite_lines(r: SuiteReportView) -> Seq<Seq<char>> {
    seq!["Aegis fast checks started"@, "  config: "@ + r.config] + r.checks.map_values(
        |c: CheckReportView| check_line(c),
    ) + r.failures.map_values(|f: (Seq<char>, Seq<char>)| failure_line(f)) + seq![
        summary_line(r),
    ]
}

/// What a passing smoke check prints: the page, its status and body size, and the
/// text it found when one was asked for.
pub open spec fn smoke_lines(r: SmokeReportView) -> Seq<Seq<char>> {
    seq![
        "Aegis smoke passed"@,
        "  url: "@ + r.url,
        "  status: "@ + decimal(r.status as nat),
        "  body: "@ + decimal(r.body_bytes as nat) + " bytes"@,
    ] + match r.matched_text {
        Some(t) => seq!["  matched: "@ + t],
        None => Seq::empty(),
    }
}

fn text_line(before: &str, text: &str) -> (r: String)
    ensures
        r@ == before@ + text@,
{
    let mut s = before.to_string();
    s.append(text);
    s
}

fn number_line(before: &str, n: u64, after: &str) -> (r: String)
    ensures
        r@ == before@ + decimal(n as nat) + after@,
{
    let mut s = before.to_string();
    push_decimal(&mut s, n);
    s.append(after);
    s
}

/// The lines of the text report of `report`.
pub fn suite_report_lines(report: &FastSuiteReport) -> (r: Vec<String>)
    ensures
        r.deep_view() == suite_lines(report@),
{
    let ghost rv = report@;
    let mut lines: Vec<String> = Vec::new();
    lines.push("Aegis fast checks started".to_string());
    lines.push(text_line("  config: ", report.config.as_str()));
    assert(lines.deep_view() =~= seq!["Aegis fast checks started"@, "  config: "@ + rv.config]);
    let ghost head = lines.deep_view();
    let mut i: usize = 0;
    while i < report.checks.len()
        invariant
            i <= report.checks.len(),
            rv == report@,
            lines.deep_view() =~= head + rv.checks.take(i as int).map_values(
                |c: CheckReportView| check_line(c),
            ),
        decreases report.checks.len() - i,
    {
        let c = &report.checks[i];
        assert(c@ == rv.checks[i as int]);
        let mut line = join3("  ok ", c.name.as_str(), ": ");
        line.append(c.url.as_str());
        line.append(" HTTP ");
        push_decimal(&mut line, c.status as u64);
        line.append(" (");
        push_decimal(&mut line, c.body_bytes as u64);
        line.append(" bytes)");
        assert(line@ =~= check_line(rv.checks[i as int]));
        let ghost before = lines.deep_view();
        lines.push(line);
        assert(rv.checks.take(i + 1).map_values(|c: CheckReportView| check_line(c))
            =~= rv.checks.take(i as int).map_values(|c: CheckReportView| check_line(c)).push(
            check_line(rv.checks[i as int]),
        ));
        assert(lines.deep_view() =~= before.push(check_line(rv.checks[i as int])));
        i = i + 1;
    }
    assert(rv.checks.take(i as int) =~= rv.checks);
    let ghost middle = lines.deep_view();
    let mut j: usize = 0;
    while j < report.failures.len()
        invariant
            j <= report.failures.len(),
            rv == report@,
            lines.deep_view() =~= middle + rv.failures.take(j as int).map_values(
                |f: (Seq<char>, Seq<char>)| failure_line(f),
            ),
        decreases report.failures.len() - j,
    {
        let f = &report.failures[j];
        assert(f@ == rv.failures[j as int]);
        let mut line = join3("  fail ", f.check.as_str(), ": ");
        line.append(f.error.as_str());
        assert(line@ =~= failure_line(rv.failures[j as int]));
        let ghost before = lines.deep_view();
        lines.push(line);
        assert(rv.failures.take(j + 1).map_values(|f: (Seq<char>, Seq<char>)| failure_line(f))
            =~= rv.failures.take(j as int).map_values(
            |f: (Seq<char>, Seq<char>)| failure_line(f),
        ).push(failure_line(rv.failures[j as int])));
        assert(lines.deep_view() =~= before.push(failure_line(rv.failures[j as int])));
        j = j + 1;
    }
    assert(rv.failures.take(j as int) =~= rv.failures);
    let last = if report.passed {
        number_line("Aegis fast checks passed: ", report.check_count as u64, " check(s)")
    } else {
        let mut s = number_line(
            "Aegis fast checks failed: ",
            report.check_count as u64,
            " passed, ",
        );
        push_decimal(&mut s, report.failures.len() as u64);
        s.append(" failed");
        s
    };
    assert(last@ =~= summary_line(rv));
    let ghost before = lines.deep_view();
    lines.push(last);
    assert(lines.deep_view() =~= before.push(summary_line(rv)));
    assert(lines.deep_view() =~= suite_lines(rv));
    lines
}

/// The lines that a passing smoke check prints.
pub fn smoke_report_lines(report: &SmokeReport) -> (r: Vec<String>)
    ensures
        r.deep_view() == smoke_lines(report@),
{
    let mut lines: Vec<String> = Vec::new();
    lines.push("Aegis smoke passed".to_string());
    lines.push(text_line("  url: ", report.url.as_str()));
    lines.push({
        let mut l = "  status: ".to_string();
        push_decimal(&mut l, report.status as u64);
        l
    });
    lines.push(number_line("  body: ", report.body_bytes as u64, " bytes"));
    if let Some(t) = &report.matched_text {
        lines.push(text_line("  matched: ", t.as_str()));
    }
    assert(lines.deep_view() =~= smoke_lines(report@));
    lines
}

} // verus!
