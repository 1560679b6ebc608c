//! The checks that a configuration file describes, and where each one starts.
use vstd::prelude::*;

use crate::error::{fails_with, AegisError};
use crate::links::{is_absolute, join_url, joined};
use crate::text::{copy_opt, copy_strings, str_starts_with};

verus! {

/// A configuration file: the base URL for relative paths, and its checks.
#[derive(Debug, Clone, PartialEq, Eq)]
pub struct AegisConfig {
    pub base_url: Option<String>,
    pub fast: Vec<FastCheckConfig>,
    pub smoke: Vec<SmokeCheckConfig>,
}

/// A `[[smoke]]` check: a page and the texts it must and must not hold.
#[derive(Debug, Clone, PartialEq, Eq)]
pub struct SmokeCheckConfig {
    pub name: Option<String>,
    pub path: Option<String>,
    pub url: Option<String>,
    pub expect: Option<String>,
    pub expect_all: Vec<String>,
    pub expect_not: Vec<String>,
    pub status: u16,
}

/// A `[[fast]]` check: a page, an optional click, and what the page reached must hold.
#[derive(Debug, Clone, PartialEq, Eq)]
pub struct FastCheckConfig {
    pub name: Option<String>,
    pub goto: Option<String>,
    pub url: Option<String>,
    pub click: Option<String>,
    pub expect_text: Option<String>,
    pub expect_link: Option<String>,
    pub expect_links: Vec<String>,
    pub check_links: bool,
    pub expect_all: Vec<String>,
    pub expect_not: Vec<String>,
    pub status: u16,
}

/// The value of a `SmokeCheckConfig`.
pub struct SmokeCheckView {
    pub name: Option<Seq<char>>,
    pub path: Option<Seq<char>>,
    pub url: Option<Seq<char>>,
    pub expect: Option<Seq<char>>,
    pub expect_all: Seq<Seq<char>>,
    pub expect_not: Seq<Seq<char>>,
    pub status: u16,
}

/// The value of a `FastCheckConfig`.
pub struct FastCheckView {
    pub name: Option<Seq<char>>,
    pub goto: Option<Seq<char>>,
    pub url: Option<Seq<char>>,
    pub click: Option<Seq<char>>,
    pub expect_text: Option<Seq<char>>,
    pub expect_link: Option<Seq<char>>,
    pub expect_links: Seq<Seq<char>>,
    pub check_links: bool,
    pub expect_all: Seq<Seq<char>>,
    pub expect_not: Seq<Seq<char>>,
    pub status: u16,
}

/// The value of an `AegisConfig`.
pub struct AegisConfigView {
    pub base_url: Option<Seq<char>>,
    pub fast: Seq<FastCheckView>,
    pub smoke: Seq<SmokeCheckView>,
}

impl View for SmokeCheckConfig {
    type V = SmokeCheckView;

    open spec fn view(&self) -> SmokeCheckView {
        SmokeCheckView {
            name: self.name.deep_view(),
            path: self.path.deep_view(),
            url: self.url.deep_view(),
            expect: self.expect.deep_view(),
            expect_all: self.expect_all.deep_view(),
            expect_not: self.expect_not.deep_view(),
            status: self.status,
        }
    }
}

impl View for FastCheckConfig {
    type V = FastCheckView;

    open spec fn view(&self) -> FastCheckView {
        FastCheckView {
            name: self.name.deep_view(),
            goto: self.goto.deep_view(),
            url: self.url.deep_view(),
            click: self.click.deep_view(),
            expect_text: self.expect_text.deep_view(),
            expect_link: self.expect_link.deep_view(),
            expect_links: self.expect_links.deep_view(),
            check_links: self.check_links,
            expect_all: self.expect_all.deep_view(),
            expect_not: self.expect_not.deep_view(),
            status: self.status,
        }
    }
}

impl View for AegisConfig {
    type V = AegisConfigView;

    open spec fn view(&self) -> AegisConfigView {
        AegisConfigView {
            base_url: self.base_url.deep_view(),
            fast: self.fast@.map_values(|c: FastCheckConfig| c@),
            smoke: self.smoke@.map_values(|c: SmokeCheckConfig| c@),
        }
    }
}

/// A smoke check as the fast check that runs it: the same page and texts, with no
/// click, no expected links and no link check.
pub open spec fn smoke_as_fast(s: SmokeCheckView) -> FastCheckView {
    FastCheckView {
        name: s.name,
        goto: s.path,
        url: s.url,
        click: None,
        expect_text: s.expect,
        expect_link: None,
        expect_links: Seq::empty(),
        check_links: false,
        expect_all: s.expect_all,
        expect_not: s.expect_not,
        status: s.status,
    }
}

/// All checks of a configuration: its fast checks, then its smoke checks, in order.
pub open spec fn all_checks(c: AegisConfigView) -> Seq<FastCheckView> {
    c.fast + c.smoke.map_values(|s: SmokeCheckView| smoke_as_fast(s))
}

/// The URL that a `goto` path names: an absolute URL as it is, else the path under
/// the configuration's base URL.
pub open spec fn config_url(c: AegisConfigView, path_or_url: Seq<char>) -> Result<
    Seq<char>,
    Seq<char>,
> {
    if is_absolute(path_or_url) {
        Ok(path_or_url)
    } else {
        match c.base_url {
            None => Err("fast check with relative goto requires base_url"@),
            Some(b) => Ok(joined(b, path_or_url)),
        }
    }
}

/// The page a check opens first: its `url`, or its `goto` path, but not both.
pub open spec fn first_url(c: AegisConfigView, check: FastCheckView) -> Result<
    Seq<char>,
    Seq<char>,
> {
    match (check.url, check.goto) {
        (Some(u), None) => Ok(u),
        (None, Some(g)) => config_url(c, g),
        (Some(_), Some(_)) => Err("fast check must use either url or goto, not both"@),
        (None, None) => Err("fast check requires url or goto"@),
    }
}

/// The HTTP status a check expects when its configuration names none.
pub fn default_status() -> (status: u16)
    ensures
        status == 200,
{
    200
}

/// A copy of a fast check.
pub fn copy_check(c: &FastCheckConfig) -> (r: FastCheckConfig)
    ensures
        r@ == c@,
{
    FastCheckConfig {
        name: copy_opt(&c.name),
        goto: copy_opt(&c.goto),
        url: copy_opt(&c.url),
        click: copy_opt(&c.click),
        expect_text: copy_opt(&c.expect_text),
        expect_link: copy_opt(&c.expect_link),
        expect_links: copy_strings(&c.expect_links),
        check_links: c.check_links,
        expect_all: copy_strings(&c.expect_all),
        expect_not: copy_strings(&c.expect_not),
        status: c.status,
    }
}

/// All checks of a configuration: its fast checks, then its smoke checks.
pub fn collect_fast_checks(config: &AegisConfig) -> (r: Vec<FastCheckConfig>)
    ensures
        r@.map_values(|c: FastCheckConfig| c@) == all_checks(config@),
{
    let mut checks: Vec<FastCheckConfig> = Vec::new();
    let mut i: usize = 0;
    while i < config.fast.len()
        invariant
            i <= config.fast.len(),
            checks@.map_values(|c: FastCheckConfig| c@) =~= config@.fast.take(i as int),
        decreases config.fast.len() - i,
    {
        let ghost before = checks@.map_values(|c: FastCheckConfig| c@);
        checks.push(copy_check(&config.fast[i]));
        assert(checks@.map_values(|c: FastCheckConfig| c@) =~= before.push(config@.fast[i as int]));
        assert(config@.fast.take(i + 1) =~= config@.fast.take(i as int).push(
            config@.fast[i as int],
        ));
        i = i + 1;
    }
    let mut j: usize = 0;
    while j < config.smoke.len()
        invariant
            j <= config.smoke.len(),
            checks@.map_values(|c: FastCheckConfig| c@) =~= config@.fast + config@.smoke.take(
                j as int,
            ).map_values(|s: SmokeCheckView| smoke_as_fast(s)),
        decreases config.smoke.len() - j,
    {
        let smoke = &config.smoke[j];
        let c = FastCheckConfig {
            name: copy_opt(&smoke.name),
            goto: copy_opt(&smoke.path),
            url: copy_opt(&smoke.url),
            click: None,
            expect_text: copy_opt(&smoke.expect),
            expect_link: None,
            expect_links: Vec::new(),
            check_links: false,
            expect_all: copy_strings(&smoke.expect_all),
            expect_not: copy_strings(&smoke.expect_not),
            status: smoke.status,
        };
        assert(c.expect_links.deep_view() =~= Seq::<Seq<char>>::empty());
        assert(c@ == smoke_as_fast(config@.smoke[j as int]));
        let ghost before = checks@.map_values(|c: FastCheckConfig| c@);
        checks.push(c);
        assert(checks@.map_values(|c: FastCheckConfig| c@) =~= before.push(
            smoke_as_fast(config@.smoke[j as int]),
        ));
        assert(config@.smoke.take(j + 1).map_values(|s: SmokeCheckView| smoke_as_fast(s))
            =~= config@.smoke.take(j as int).map_values(|s: SmokeCheckView| smoke_as_fast(s)).push(
            smoke_as_fast(config@.smoke[j as int]),
        ));
        j = j + 1;
    }
    assert(config@.smoke.take(j as int) =~= config@.smoke);
    assert(config@.fast.take(i as int) =~= config@.fast);
    checks
}

/// The URL that a `goto` path names under `config`.
pub fn resolve_config_url(config: &AegisConfig, path_or_url: &str) -> (r: Result<
    String,
    AegisError,
>)
    ensures
        match (r, config_url(config@, path_or_url@)) {
            (Ok(x), Ok(y)) => x@ == y,
            (Err(e), Err(m)) => fails_with(e, m),
            _ => false,
        },
{
    if str_starts_with(path_or_url, "http://") || str_starts_with(path_or_url, "https://") {
        return Ok(path_or_url.to_string());
    }
    match &config.base_url {
        None => Err(
            AegisError::new("fast check with relative goto requires base_url".to_string()),
        ),
        Some(b) => Ok(join_url(b.as_str(), path_or_url)),
    }
}

/// The page a check opens first.
pub fn first_check_url(config: &AegisConfig, check: &FastCheckConfig) -> (r: Result<
    String,
    AegisError,
>)
    ensures
        match (r, first_url(config@, check@)) {
            (Ok(x), Ok(y)) => x@ == y,
            (Err(e), Err(m)) => fails_with(e, m),
            _ => false,
        },
{
    match (&check.url, &check.goto) {
        (Some(url), None) => Ok(url.clone()),
        (None, Some(goto)) => resolve_config_url(config, goto.as_str()),
        (Some(_), Some(_)) => Err(
            AegisError::new("fast check must use either url or goto, not both".to_string()),
        ),
        (None, None) => Err(AegisError::new("fast check requires url or goto".to_string())),
    }
}

} // verus!
