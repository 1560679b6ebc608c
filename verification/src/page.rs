//! The page a fast test has reached, and what can be asked of it without a browser.
use vstd::prelude::*;

use crate::error::{fails_with, text_outcome, unit_outcome, AegisError};
use crate::links::{
    body_has_link_href, extract_link_hrefs, has_link, href_from_selector, link_hrefs,
    origin_from_url, resolve_href, resolved, selector_href, should_skip_link, skipped_link,
    url_origin,
};
use crate::text::{contains, decimal, join3, push_decimal, str_contains};

verus! {

/// The state of a fast test: its name, and the URL, status and body of the last
/// response, once a page has been opened.
#[derive(Debug, Clone, PartialEq, Eq)]
pub struct FastPage {
    test_name: String,
    current_url: Option<String>,
    current_body: String,
    current_status: Option<u16>,
}

/// The value of a `FastPage`.
pub struct PageView {
    pub test_name: Seq<char>,
    pub url: Option<Seq<char>>,
    pub body: Seq<char>,
    pub status: Option<u16>,
}

impl View for FastPage {
    type V = PageView;

    closed spec fn view(&self) -> PageView {
        PageView {
            test_name: self.test_name@,
            url: self.current_url.deep_view(),
            body: self.current_body@,
            status: self.current_status,
        }
    }
}

/// A link that a link check requests: its target as written, and the URL it leads to.
#[derive(Debug, Clone, PartialEq, Eq)]
pub struct LinkProbe {
    pub href: String,
    pub url: String,
}

impl View for LinkProbe {
    type V = (Seq<char>, Seq<char>);

    open spec fn view(&self) -> (Seq<char>, Seq<char>) {
        (self.href@, self.url@)
    }
}

/// What expecting `expected` in `body` gives.
pub open spec fn text_expectation(body: Seq<char>, expected: Seq<char>) -> Result<(), Seq<char>> {
    if contains(body, expected) {
        Ok(())
    } else {
        Err("expected current response body to contain '"@ + expected + "'"@)
    }
}

/// What expecting `unexpected` to be absent from `body` gives.
pub open spec fn absence_expectation(body: Seq<char>, unexpected: Seq<char>) -> Result<(), Seq<char>> {
    if !contains(body, unexpected) {
        Ok(())
    } else {
        Err("expected current response body not to contain '"@ + unexpected + "'"@)
    }
}

/// What expecting a link to `href` in `body` gives.
pub open spec fn link_expectation(body: Seq<char>, href: Seq<char>) -> Result<(), Seq<char>> {
    if has_link(body, href) {
        Ok(())
    } else {
        Err("expected current response body to contain link href '"@ + href + "'"@)
    }
}

/// What expecting status `expected` gives, when the last response had `status`.
pub open spec fn status_expectation(status: Option<u16>, expected: u16) -> Result<(), Seq<char>> {
    match status {
        None => Err("call goto before expect_status"@),
        Some(actual) => if actual == expected {
            Ok(())
        } else {
            Err("expected HTTP status "@ + decimal(expected as nat) + ", got "@ + decimal(
                actual as nat,
            ))
        },
    }
}

/// Where clicking the link that `selector` names leads from `page`.
pub open spec fn click_url(page: PageView, selector: Seq<char>) -> Result<Seq<char>, Seq<char>> {
    match selector_href(selector) {
        None => Err(
            "fast click currently supports selectors shaped like a[href='/path']; got '"@
                + selector + "'"@,
        ),
        Some(href) => if !has_link(page.body, href) {
            Err("current page does not contain link href '"@ + href + "'"@)
        } else {
            match page.url {
                None => Err("call goto before click"@),
                Some(u) => Ok(resolved(u, href)),
            }
        },
    }
}

/// The links from position `i` of `hrefs` on that a link check requests from the page
/// at `current`, whose origin is `origin`, when the URLs in `planned` are already
/// requested: those it does not pass over that lead to the same origin, each URL once.
pub open spec fn probes_from(
    hrefs: Seq<Seq<char>>,
    i: int,
    current: Seq<char>,
    origin: Seq<char>,
    planned: Seq<Seq<char>>,
) -> Seq<(Seq<char>, Seq<char>)>
    decreases hrefs.len() - i,
{
    if i < 0 || i >= hrefs.len() {
        seq![]
    } else {
        let h = hrefs[i];
        let u = resolved(current, h);
        if skipped_link(h) || url_origin(u) != Some(origin) || planned.contains(u) {
            probes_from(hrefs, i + 1, current, origin, planned)
        } else {
            seq![(h, u)] + probes_from(hrefs, i + 1, current, origin, planned.push(u))
        }
    }
}

/// The links that a link check of `page` requests, in order, or why it cannot run.
pub open spec fn link_plan(page: PageView) -> Result<Seq<(Seq<char>, Seq<char>)>, Seq<char>> {
    match page.url {
        None => Err("call goto before check_links"@),
        Some(cur) => match url_origin(cur) {
            None => Err("check_links requires an absolute current URL"@),
            Some(o) => Ok(probes_from(link_hrefs(page.body), 0, cur, o, seq![])),
        },
    }
}

/// What a requested link answering with `status` gives.
pub open spec fn probe_expectation(probe: (Seq<char>, Seq<char>), status: u16) -> Result<
    (),
    Seq<char>,
> {
    if status >= 400 {
        Err("link '"@ + probe.0 + "' resolved to "@ + probe.1 + " returned HTTP "@ + decimal(
            status as nat,
        ))
    } else {
        Ok(())
    }
}

fn contains_string(v: &Vec<String>, s: &String) -> (r: bool)
    ensures
        r == v.deep_view().contains(s@),
{
    let mut i: usize = 0;
    while i < v.len()
        invariant
            i <= v.len(),
            forall|j: int| 0 <= j < i ==> v.deep_view()[j] != s@,
        decreases v.len() - i,
    {
        if v[i] == *s {
            assert(v.deep_view()[i as int] == s@);
            return true;
        }
        i = i + 1;
    }
    false
}

impl FastPage {
    /// A fast test called `test_name` that has not opened a page yet.
    pub fn new(test_name: String) -> (p: FastPage)
        ensures
            p@.test_name == test_name@,
            p@.url is None,
            p@.body == Seq::<char>::empty(),
            p@.status is None,
    {
        FastPage { test_name, current_url: None, current_body: String::new(), current_status: None }
    }

    /// Takes in the response to opening `url`.
    pub fn record_response(&mut self, url: String, status: u16, body: String)
        ensures
            final(self)@.test_name == old(self)@.test_name,
            final(self)@.url == Some(url@),
            final(self)@.body == body@,
            final(self)@.status == Some(status),
        no_unwind
    {
        self.current_url = Some(url);
        self.current_status = Some(status);
        self.current_body = body;
    }

    /// The name of the test.
    pub fn test_name(&self) -> (r: &str)
        ensures
            r@ == self@.test_name,
    {
        self.test_name.as_str()
    }

    /// The URL of the page opened last.
    pub fn current_url(&self) -> (r: Option<String>)
        ensures
            r.deep_view() == self@.url,
    {
        match &self.current_url {
            Some(u) => Some(u.clone()),
            None => None,
        }
    }

    /// The body of the page opened last.
    pub fn current_body(&self) -> (r: &str)
        ensures
            r@ == self@.body,
    {
        self.current_body.as_str()
    }

    /// The status of the page opened last.
    pub fn current_status(&self) -> (r: Option<u16>)
        ensures
            r == self@.status,
    {
        self.current_status
    }

    /// Whether the body holds `expected`.
    pub fn try_expect_text(&self, expected: &str) -> (r: Result<(), AegisError>)
        ensures
            unit_outcome(r, text_expectation(self@.body, expected@)),
    {
        if str_contains(self.current_body.as_str(), expected) {
            return Ok(());
        }
        Err(
            AegisError::new(
                join3("expected current response body to contain '", expected, "'"),
            ),
        )
    }

    /// Whether the last response had status `expected`.
    pub fn try_expect_status(&self, expected: u16) -> (r: Result<(), AegisError>)
        ensures
            unit_outcome(r, status_expectation(self@.status, expected)),
    {
        match self.current_status {
            None => Err(AegisError::new("call goto before expect_status".to_string())),
            Some(actual) => {
                if actual == expected {
                    return Ok(());
                }
                let mut m = "expected HTTP status ".to_string();
                push_decimal(&mut m, expected as u64);
                m.append(", got ");
                push_decimal(&mut m, actual as u64);
                Err(AegisError::new(m))
            },
        }
    }

    /// Whether the body holds a link to `href`.
    pub fn try_expect_link(&self, href: &str) -> (r: Result<(), AegisError>)
        ensures
            unit_outcome(r, link_expectation(self@.body, href@)),
    {
        if body_has_link_href(self.current_body.as_str(), href) {
            return Ok(());
        }
        Err(
            AegisError::new(
                join3("expected current response body to contain link href '", href, "'"),
            ),
        )
    }

    /// Whether the body lacks `unexpected`.
    pub fn try_expect_not(&self, unexpected: &str) -> (r: Result<(), AegisError>)
        ensures
            unit_outcome(r, absence_expectation(self@.body, unexpected@)),
    {
        if !str_contains(self.current_body.as_str(), unexpected) {
            return Ok(());
        }
        Err(
            AegisError::new(
                join3("expected current response body not to contain '", unexpected, "'"),
            ),
        )
    }

    /// Where clicking the link that `selector` names leads: the link must be on the
    /// page, and a page must have been opened.
    pub fn click_target(&self, selector: &str) -> (r: Result<String, AegisError>)
        ensures
            text_outcome(r, click_url(self@, selector@)),
    {
        let href = match href_from_selector(selector) {
            Some(h) => h,
            None => {
                return Err(
                    AegisError::new(
                        join3(
                            "fast click currently supports selectors shaped like a[href='/path']; got '",
                            selector,
                            "'",
                        ),
                    ),
                );
            },
        };
        if !body_has_link_href(self.current_body.as_str(), href.as_str()) {
            return Err(
                AegisError::new(
                    join3("current page does not contain link href '", href.as_str(), "'"),
                ),
            );
        }
        match &self.current_url {
            None => Err(AegisError::new("call goto before click".to_string())),
            Some(u) => Ok(resolve_href(u.as_str(), href.as_str())),
        }
    }

    /// The links that a link check of the page requests, in order.
    pub fn link_probes(&self) -> (r: Result<Vec<LinkProbe>, AegisError>)
        ensures
            match (r, link_plan(self@)) {
                (Ok(x), Ok(y)) => x@.map_values(|p: LinkProbe| p@) == y,
                (Err(e), Err(m)) => fails_with(e, m),
                _ => false,
            },
    {
        let current = match &self.current_url {
            None => {
                return Err(AegisError::new("call goto before check_links".to_string()));
            },
            Some(u) => u,
        };
        let origin = match origin_from_url(current.as_str()) {
            None => {
                return Err(
                    AegisError::new("check_links requires an absolute current URL".to_string()),
                );
            },
            Some(o) => o,
        };
        let hrefs = extract_link_hrefs(self.current_body.as_str());
        let ghost hv = hrefs.deep_view();
        let ghost target = probes_from(hv, 0, current@, origin@, seq![]);
        let mut probes: Vec<LinkProbe> = Vec::new();
        let mut planned: Vec<String> = Vec::new();
        let mut i: usize = 0;
        assert(planned.deep_view() =~= Seq::<Seq<char>>::empty());
        assert(probes@.map_values(|p: LinkProbe| p@) + target =~= target);
        while i < hrefs.len()
            invariant
                i <= hrefs.len(),
                hv == hrefs.deep_view(),
                target == probes_from(hv, 0, current@, origin@, seq![]),
                target == probes@.map_values(|p: LinkProbe| p@) + probes_from(
                    hv,
                    i as int,
                    current@,
                    origin@,
                    planned.deep_view(),
                ),
            decreases hrefs.len() - i,
        {
            let h = &hrefs[i];
            assert(h@ == hv[i as int]);
            if !should_skip_link(h.as_str()) {
                let url = resolve_href(current.as_str(), h.as_str());
                let same_origin = match origin_from_url(url.as_str()) {
                    Some(o) => o == origin,
                    None => false,
                };
                if same_origin && !contains_string(&planned, &url) {
                    let ghost before_probes = probes@.map_values(|p: LinkProbe| p@);
                    let ghost before_planned = planned.deep_view();
                    planned.push(url.clone());
                    probes.push(LinkProbe { href: h.clone(), url });
                    assert(planned.deep_view() =~= before_planned.push(resolved(current@, h@)));
                    assert(probes@.map_values(|p: LinkProbe| p@) =~= before_probes.push(
                        (h@, resolved(current@, h@)),
                    ));
                    assert(before_probes + probes_from(
                        hv,
                        i as int,
                        current@,
                        origin@,
                        before_planned,
                    ) =~= probes@.map_values(|p: LinkProbe| p@) + probes_from(
                        hv,
                        i + 1,
                        current@,
                        origin@,
                        planned.deep_view(),
                    ));
                }
            }
            i = i + 1;
        }
        assert(probes_from(hv, i as int, current@, origin@, planned.deep_view()) =~= Seq::<
            (Seq<char>, Seq<char>),
        >::empty());
        assert(target =~= probes@.map_values(|p: LinkProbe| p@));
        Ok(probes)
    }
}

/// The error of a page at `url` that could not be requested.
pub fn request_failure(url: &str, error: &str) -> (e: AegisError)
    ensures
        fails_with(e, "failed to request "@ + url@ + ": "@ + error@),
{
    let mut m = join3("failed to request ", url, ": ");
    m.append(error);
    AegisError::new(m)
}

/// The error of a page whose body could not be read.
pub fn body_failure(error: &str) -> (e: AegisError)
    ensures
        fails_with(e, "failed to read response body: "@ + error@),
{
    let mut m = "failed to read response body: ".to_string();
    m.append(error);
    AegisError::new(m)
}

/// The error of a link of a link check that could not be requested.
pub fn probe_failure(probe: &LinkProbe, error: &str) -> (e: AegisError)
    ensures
        fails_with(e, "failed to check link '"@ + probe@.0 + "' -> "@ + probe@.1 + ": "@ + error@),
{
    let mut m = join3("failed to check link '", probe.href.as_str(), "' -> ");
    m.append(probe.url.as_str());
    m.append(": ");
    m.append(error);
    AegisError::new(m)
}

/// What a requested link answering with `status` gives.
pub fn probe_status_outcome(probe: &LinkProbe, status: u16) -> (r: Result<(), AegisError>)
    ensures
        unit_outcome(r, probe_expectation(probe@, status)),
{
    if status >= 400 {
        let mut m = join3("link '", probe.href.as_str(), "' resolved to ");
        m.append(probe.url.as_str());
        m.append(" returned HTTP ");
        push_decimal(&mut m, status as u64);
        return Err(AegisError::new(m));
    }
    Ok(())
}

} // verus!
