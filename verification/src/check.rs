//! One fast check, run as a sequence of requests: the decisions between the
//! requests are made here, the requests themselves by the caller.
use vstd::prelude::*;

use crate::config::{first_check_url, first_url, AegisConfig, AegisConfigView, FastCheckConfig, FastCheckView, copy_check};
use crate::error::{fails_with, unit_outcome, AegisError};
use crate::page::{
    absence_expectation, click_url, link_expectation, link_plan, probe_expectation,
    probe_failure, probe_status_outcome, request_failure, body_failure, status_expectation, text_expectation, FastPage, LinkProbe, PageView,
};
use crate::report::{utf8_len, SmokeReport, SmokeReportView};
use crate::text::copy_opt;

verus! {

/// Each link of `hrefs` from position `i` on is on the page with `body`; else the
/// message for the first that is not.
pub open spec fn links_expectation(body: Seq<char>, hrefs: Seq<Seq<char>>, i: int) -> Result<
    (),
    Seq<char>,
>
    decreases hrefs.len() - i,
{
    if i < 0 || i >= hrefs.len() {
        Ok(())
    } else {
        match link_expectation(body, hrefs[i]) {
            Err(m) => Err(m),
            Ok(_) => links_expectation(body, hrefs, i + 1),
        }
    }
}

/// Each text of `texts` from position `i` on is in `body`; else the message for the
/// first that is not.
pub open spec fn texts_expectation(body: Seq<char>, texts: Seq<Seq<char>>, i: int) -> Result<
    (),
    Seq<char>,
>
    decreases texts.len() - i,
{
    if i < 0 || i >= texts.len() {
        Ok(())
    } else {
        match text_expectation(body, texts[i]) {
            Err(m) => Err(m),
            Ok(_) => texts_expectation(body, texts, i + 1),
        }
    }
}

/// No text of `texts` from position `i` on is in `body`; else the message for the
/// first that is.
pub open spec fn absences_expectation(body: Seq<char>, texts: Seq<Seq<char>>, i: int) -> Result<
    (),
    Seq<char>,
>
    decreases texts.len() - i,
{
    if i < 0 || i >= texts.len() {
        Ok(())
    } else {
        match absence_expectation(body, texts[i]) {
            Err(m) => Err(m),
            Ok(_) => absences_expectation(body, texts, i + 1),
        }
    }
}

/// `a`, and when it succeeds, `b`.
pub open spec fn then(a: Result<(), Seq<char>>, b: Result<(), Seq<char>>) -> Result<(), Seq<char>> {
    match a {
        Err(m) => Err(m),
        Ok(_) => b,
    }
}

/// The expected text, when there is one, is in `body`.
pub open spec fn optional_text(body: Seq<char>, t: Option<Seq<char>>) -> Result<(), Seq<char>> {
    match t {
        Some(t) => text_expectation(body, t),
        None => Ok(()),
    }
}

/// The expected link, when there is one, is on the page with `body`.
pub open spec fn optional_link(body: Seq<char>, h: Option<Seq<char>>) -> Result<(), Seq<char>> {
    match h {
        Some(h) => link_expectation(body, h),
        None => Ok(()),
    }
}

/// What the expectations of `check` give for a page with `body`, checked in this
/// order: the expected text, the expected link, the expected links, all expected
/// texts, then the unexpected texts; the first that fails decides.
pub open spec fn page_expectations(body: Seq<char>, check: FastCheckView) -> Result<(), Seq<char>> {
    then(
        optional_text(body, check.expect_text),
        then(
            optional_link(body, check.expect_link),
            then(
                links_expectation(body, check.expect_links, 0),
                then(
                    texts_expectation(body, check.expect_all, 0),
                    absences_expectation(body, check.expect_not, 0),
                ),
            ),
        ),
    )
}

/// Where a run stands: opening a page (the first one, or the one a click leads to),
/// requesting the links of a link check, or finished with its result.
pub enum PhaseView {
    Opening { url: Seq<char>, clicked: bool },
    Probing { probes: Seq<(Seq<char>, Seq<char>)>, next: int },
    Finished(Result<SmokeReportView, (Seq<char>, bool)>),
}

/// The value of a `FastCheckRun`.
pub struct CheckRunView {
    pub check: FastCheckView,
    pub first_url: Seq<char>,
    pub page: PageView,
    pub phase: PhaseView,
}

/// A finished run with result `r`; an error is a fresh one.
pub open spec fn finished(r: Result<SmokeReportView, Seq<char>>) -> PhaseView {
    match r {
        Ok(x) => PhaseView::Finished(Ok(x)),
        Err(m) => PhaseView::Finished(Err((m, false))),
    }
}

/// What a passing check reports for the page it ended on.
pub open spec fn check_report(check: FastCheckView, first: Seq<char>, page: PageView) -> SmokeReportView {
    SmokeReportView {
        url: match page.url {
            Some(u) => u,
            None => first,
        },
        status: match page.status {
            Some(s) => s,
            None => check.status,
        },
        body_bytes: utf8_len(page.body),
        matched_text: check.expect_text,
    }
}

/// Where a run goes once its last page is open: the expectations, then, when asked
/// for, the link check.
pub open spec fn after_navigation(check: FastCheckView, first: Seq<char>, page: PageView) -> PhaseView {
    match page_expectations(page.body, check) {
        Err(m) => finished(Err(m)),
        Ok(_) => if check.check_links {
            match link_plan(page) {
                Err(m) => finished(Err(m)),
                Ok(ps) => if ps.len() == 0 {
                    finished(Ok(check_report(check, first, page)))
                } else {
                    PhaseView::Probing { probes: ps, next: 0 }
                },
            }
        } else {
            finished(Ok(check_report(check, first, page)))
        },
    }
}

/// Where a run goes once a page has loaded: the status must be the expected one; then
/// the click, if the check has one and it has not been made yet.
pub open spec fn after_load(check: FastCheckView, first: Seq<char>, page: PageView, clicked: bool) -> PhaseView {
    match status_expectation(page.status, check.status) {
        Err(m) => finished(Err(m)),
        Ok(_) => if !clicked && check.click is Some {
            match click_url(page, check.click->0) {
                Err(m) => finished(Err(m)),
                Ok(u) => PhaseView::Opening { url: u, clicked: true },
            }
        } else {
            after_navigation(check, first, page)
        },
    }
}

/// Where a run of `check` under `config` begins: at the first page, unless the check
/// does not name one.
pub open spec fn start_phase(config: AegisConfigView, check: FastCheckView) -> PhaseView {
    match first_url(config, check) {
        Err(m) => finished(Err(m)),
        Ok(u) => PhaseView::Opening { url: u, clicked: false },
    }
}

/// What the caller is asked to do next.
#[derive(Debug, Clone, PartialEq, Eq)]
pub enum CheckAction {
    /// Request this URL and hand back its status and body.
    Open(String),
    /// Request this link and hand back its status.
    Probe(LinkProbe),
    /// Nothing: the run is finished.
    Finished,
}

enum Phase {
    Opening { url: String, clicked: bool },
    Probing { probes: Vec<LinkProbe> },
    Finished(Result<SmokeReport, AegisError>),
}

/// A fast check in progress.
pub struct FastCheckRun {
    check: FastCheckConfig,
    first_url: String,
    page: FastPage,
    phase: Phase,
    next_probe: usize,
}

spec fn phase_view(p: Phase, next: usize) -> PhaseView {
    match p {
        Phase::Opening { url, clicked } => PhaseView::Opening { url: url@, clicked },
        Phase::Probing { probes } => PhaseView::Probing {
            probes: probes@.map_values(|p: LinkProbe| p@),
            next: next as int,
        },
        Phase::Finished(r) => PhaseView::Finished(
            match r {
                Ok(x) => Ok(x@),
                Err(e) => Err(e@),
            },
        ),
    }
}

impl View for FastCheckRun {
    type V = CheckRunView;

    closed spec fn view(&self) -> CheckRunView {
        CheckRunView {
            check: self.check@,
            first_url: self.first_url@,
            page: self.page@,
            phase: phase_view(self.phase, self.next_probe),
        }
    }
}

/// A run whose link check has a next link to request.
pub open spec fn probing_ok(v: CheckRunView) -> bool {
    v.phase matches PhaseView::Probing { probes, next } ==> 0 <= next < probes.len()
}

impl FastCheckRun {
    #[verifier::type_invariant]
    spec fn inv(&self) -> bool {
        match self.phase {
            Phase::Probing { probes } => self.next_probe < probes.len(),
            _ => true,
        }
    }
}

fn run_expectations(page: &FastPage, check: &FastCheckConfig) -> (r: Result<(), AegisError>)
    ensures
        unit_outcome(r, page_expectations(page@.body, check@)),
{
    let ghost body = page@.body;
    if let Some(t) = &check.expect_text {
        page.try_expect_text(t.as_str())?;
    }
    if let Some(h) = &check.expect_link {
        page.try_expect_link(h.as_str())?;
    }
    let mut i: usize = 0;
    while i < check.expect_links.len()
        invariant
            i <= check.expect_links.len(),
            body == page@.body,
            optional_text(body, check@.expect_text) is Ok,
            optional_link(body, check@.expect_link) is Ok,
            links_expectation(body, check@.expect_links, 0) == links_expectation(
                body,
                check@.expect_links,
                i as int,
            ),
        decreases check.expect_links.len() - i,
    {
        assert(check.expect_links[i as int]@ == check@.expect_links[i as int]);
        page.try_expect_link(check.expect_links[i].as_str())?;
        i = i + 1;
    }
    assert(links_expectation(body, check@.expect_links, i as int) is Ok);
    let mut j: usize = 0;
    while j < check.expect_all.len()
        invariant
            j <= check.expect_all.len(),
            body == page@.body,
            optional_text(body, check@.expect_text) is Ok,
            optional_link(body, check@.expect_link) is Ok,
            links_expectation(body, check@.expect_links, 0) is Ok,
            texts_expectation(body, check@.expect_all, 0) == texts_expectation(
                body,
                check@.expect_all,
                j as int,
            ),
        decreases check.expect_all.len() - j,
    {
        assert(check.expect_all[j as int]@ == check@.expect_all[j as int]);
        page.try_expect_text(check.expect_all[j].as_str())?;
        j = j + 1;
    }
    assert(texts_expectation(body, check@.expect_all, j as int) is Ok);
    let mut k: usize = 0;
    while k < check.expect_not.len()
        invariant
            k <= check.expect_not.len(),
            body == page@.body,
            optional_text(body, check@.expect_text) is Ok,
            optional_link(body, check@.expect_link) is Ok,
            links_expectation(body, check@.expect_links, 0) is Ok,
            texts_expectation(body, check@.expect_all, 0) is Ok,
            absences_expectation(body, check@.expect_not, 0) == absences_expectation(
                body,
                check@.expect_not,
                k as int,
            ),
        decreases check.expect_not.len() - k,
    {
        assert(check.expect_not[k as int]@ == check@.expect_not[k as int]);
        page.try_expect_not(check.expect_not[k].as_str())?;
        k = k + 1;
    }
    assert(absences_expectation(body, check@.expect_not, k as int) is Ok);
    Ok(())
}

fn report_for(check: &FastCheckConfig, first: &String, page: &FastPage) -> (r: SmokeReport)
    ensures
        r@ == check_report(check@, first@, page@),
{
    let url = match page.current_url() {
        Some(u) => u,
        None => first.clone(),
    };
    let status = match page.current_status() {
        Some(s) => s,
        None => check.status,
    };
    SmokeReport {
        url,
        status,
        body_bytes: page.current_body().len(),
        matched_text: copy_opt(&check.expect_text),
    }
}

fn decide_after_navigation(check: &FastCheckConfig, first: &String, page: &FastPage) -> (p: Phase)
    ensures
        phase_view(p, 0) == after_navigation(check@, first@, page@),
        p matches Phase::Probing { probes } ==> 0 < probes.len(),
{
    if let Err(e) = run_expectations(page, check) {
        return Phase::Finished(Err(e));
    }
    if check.check_links {
        match page.link_probes() {
            Err(e) => Phase::Finished(Err(e)),
            Ok(probes) => {
                if probes.len() == 0 {
                    Phase::Finished(Ok(report_for(check, first, page)))
                } else {
                    Phase::Probing { probes }
                }
            },
        }
    } else {
        Phase::Finished(Ok(report_for(check, first, page)))
    }
}

fn decide_after_load(check: &FastCheckConfig, first: &String, page: &FastPage, clicked: bool) -> (p: Phase)
    ensures
        phase_view(p, 0) == after_load(check@, first@, page@, clicked),
        p matches Phase::Probing { probes } ==> 0 < probes.len(),
{
    if let Err(e) = page.try_expect_status(check.status) {
        return Phase::Finished(Err(e));
    }
    if !clicked {
        if let Some(selector) = &check.click {
            return match page.click_target(selector.as_str()) {
                Err(e) => Phase::Finished(Err(e)),
                Ok(u) => Phase::Opening { url: u, clicked: true },
            };
        }
    }
    decide_after_navigation(check, first, page)
}

impl FastCheckRun {
    /// A run of `check` under `config`, before its first request.
    pub fn start(config: &AegisConfig, check: &FastCheckConfig) -> (r: FastCheckRun)
        ensures
            r@.check == check@,
            r@.page.url is None,
            r@.page.status is None,
            r@.page.body == Seq::<char>::empty(),
            r@.phase == start_phase(config@, check@),
            first_url(config@, check@) matches Ok(u) ==> r@.first_url == u,
            probing_ok(r@),
    {
        let name = match &check.name {
            Some(n) => n.clone(),
            None => "fast check".to_string(),
        };
        let page = FastPage::new(name);
        match first_check_url(config, check) {
            Ok(u) => FastCheckRun {
                check: copy_check(check),
                first_url: u.clone(),
                page,
                phase: Phase::Opening { url: u, clicked: false },
                next_probe: 0,
            },
            Err(e) => FastCheckRun {
                check: copy_check(check),
                first_url: String::new(),
                page,
                phase: Phase::Finished(Err(e)),
                next_probe: 0,
            },
        }
    }

    /// What the caller is asked to do next.
    pub fn next_action(&self) -> (a: CheckAction)
        ensures
            match (a, self@.phase) {
                (CheckAction::Open(u), PhaseView::Opening { url, clicked: _ }) => u@ == url,
                (CheckAction::Probe(p), PhaseView::Probing { probes, next }) => p@ == probes[next],
                (CheckAction::Finished, PhaseView::Finished(_)) => true,
                _ => false,
            },
    {
        proof {
            use_type_invariant(self);
        }
        match &self.phase {
            Phase::Opening { url, clicked: _ } => CheckAction::Open(url.clone()),
            Phase::Probing { probes } => {
                let p = &probes[self.next_probe];
                CheckAction::Probe(LinkProbe { href: p.href.clone(), url: p.url.clone() })
            },
            Phase::Finished(_) => CheckAction::Finished,
        }
    }

    /// Takes in the page that the last `Open` asked for.
    pub fn page_loaded(&mut self, status: u16, body: String)
        requires
            old(self)@.phase is Opening,
        ensures
            final(self)@.check == old(self)@.check,
            final(self)@.first_url == old(self)@.first_url,
            final(self)@.page.test_name == old(self)@.page.test_name,
            final(self)@.page.url == Some(old(self)@.phase->url),
            final(self)@.page.status == Some(status),
            final(self)@.page.body == body@,
            final(self)@.phase == after_load(
                old(self)@.check,
                old(self)@.first_url,
                final(self)@.page,
                old(self)@.phase->clicked,
            ),
            probing_ok(final(self)@),
    {
        let (url, clicked) = match &self.phase {
            Phase::Opening { url, clicked } => (url.clone(), *clicked),
            _ => {
                proof {
                    assert(false);
                }
                return ;
            },
        };
        self.page.record_response(url, status, body);
        let next = decide_after_load(&self.check, &self.first_url, &self.page, clicked);
        self.next_probe = 0;
        self.phase = next;
    }

    /// Takes in that the last request could not be made: the run fails with `error`.
    pub fn request_failed(&mut self, error: &str)
        requires
            old(self)@.phase is Opening || old(self)@.phase is Probing,
        ensures
            final(self)@.check == old(self)@.check,
            final(self)@.first_url == old(self)@.first_url,
            final(self)@.page == old(self)@.page,
            final(self)@.phase == (match old(self)@.phase {
                PhaseView::Opening { url, clicked: _ } => finished(
                    Err("failed to request "@ + url + ": "@ + error@),
                ),
                PhaseView::Probing { probes, next } => finished(
                    Err("failed to check link '"@ + probes[next].0 + "' -> "@ + probes[next].1
                        + ": "@ + error@),
                ),
                _ => old(self)@.phase,
            }),
            probing_ok(final(self)@),
    {
        proof {
            use_type_invariant(&*self);
        }
        let e = match &self.phase {
            Phase::Opening { url, clicked: _ } => request_failure(url.as_str(), error),
            Phase::Probing { probes } => probe_failure(&probes[self.next_probe], error),
            Phase::Finished(_) => {
                proof {
                    assert(false);
                }
                return ;
            },
        };
        self.phase = Phase::Finished(Err(e));
    }

    /// Takes in that the body of the page that the last `Open` asked for could not be
    /// read: the run fails with `error`.
    pub fn body_unreadable(&mut self, error: &str)
        requires
            old(self)@.phase is Opening,
        ensures
            final(self)@.check == old(self)@.check,
            final(self)@.first_url == old(self)@.first_url,
            final(self)@.page == old(self)@.page,
            final(self)@.phase == finished(Err("failed to read response body: "@ + error@)),
    {
        self.phase = Phase::Finished(Err(body_failure(error)));
    }

    /// Takes in the status of the link that the last `Probe` asked for.
    pub fn link_answered(&mut self, status: u16)
        requires
            old(self)@.phase is Probing,
        ensures
            final(self)@.check == old(self)@.check,
            final(self)@.first_url == old(self)@.first_url,
            final(self)@.page == old(self)@.page,
            final(self)@.phase == (match old(self)@.phase {
                PhaseView::Probing { probes, next } => match probe_expectation(
                    probes[next],
                    status,
                ) {
                    Err(m) => finished(Err(m)),
                    Ok(_) => if next + 1 >= probes.len() {
                        finished(
                            Ok(
                                check_report(
                                    old(self)@.check,
                                    old(self)@.first_url,
                                    old(self)@.page,
                                ),
                            ),
                        )
                    } else {
                        PhaseView::Probing { probes, next: next + 1 }
                    },
                },
                _ => old(self)@.phase,
            }),
            probing_ok(final(self)@),
    {
        proof {
            use_type_invariant(&*self);
        }
        let (outcome, next, len) = match &self.phase {
            Phase::Probing { probes } => (
                probe_status_outcome(&probes[self.next_probe], status),
                self.next_probe,
                probes.len(),
            ),
            _ => {
                proof {
                    assert(false);
                }
                return ;
            },
        };
        if let Err(e) = outcome {
            self.phase = Phase::Finished(Err(e));
            return ;
        }
        if next + 1 >= len {
            self.phase = Phase::Finished(Ok(report_for(&self.check, &self.first_url, &self.page)));
        } else {
            self.next_probe = next + 1;
        }
    }

    /// The result of a finished run.
    pub fn finish(self) -> (r: Result<SmokeReport, AegisError>)
        requires
            self@.phase is Finished,
        ensures
            match (r, self@.phase) {
                (Ok(x), PhaseView::Finished(Ok(y))) => x@ == y,
                (Err(e), PhaseView::Finished(Err(y))) => e@ == y,
                _ => false,
            },
    {
        match self.phase {
            Phase::Finished(r) => r,
            _ => {
                proof {
                    assert(false);
                }
                Err(AegisError::new(String::new()))
            },
        }
    }
}

} // verus!
