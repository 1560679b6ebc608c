//! The place reserved for browser tests, which need a browser engine this library
//! does not have.
use vstd::prelude::*;

use crate::error::{fails_with, AegisError};
use crate::text::join3;

verus! {

/// The page of a browser test. Its steps do nothing yet.
#[derive(Debug, Clone, Copy, PartialEq, Eq)]
pub struct BrowserPage;

impl BrowserPage {
    /// Opening a URL: not done yet; hands back the page.
    pub fn goto(&mut self, _url: &str) -> (r: &mut Self)
        ensures
            *r == *old(self),
            *final(self) == *final(r),
    {
        self
    }

    /// Clicking: not done yet; hands back the page.
    pub fn click(&mut self, _selector: &str) -> (r: &mut Self)
        ensures
            *r == *old(self),
            *final(self) == *final(r),
    {
        self
    }

    /// Expecting a text: not done yet; hands back the page.
    pub fn expect_text(&mut self, _expected: &str) -> (r: &mut Self)
        ensures
            *r == *old(self),
            *final(self) == *final(r),
    {
        self
    }
}

/// The message of a browser test called `test_name`.
pub open spec fn browser_unavailable(test_name: Seq<char>) -> Seq<char> {
    "Aegis browser test '"@ + test_name
        + "' needs the future headless browser engine. Use aegis::fast for response tests today."@
}

/// A browser test: refused with an error, since no browser engine is available; the
/// test itself never runs.
pub fn browser<F: FnOnce(&mut BrowserPage)>(test_name: &str, _test: F) -> (r: Result<(), AegisError>)
    ensures
        r matches Err(e) && fails_with(e, browser_unavailable(test_name@)),
{
    Err(
        AegisError::new(
            join3(
                "Aegis browser test '",
                test_name,
                "' needs the future headless browser engine. Use aegis::fast for response tests today.",
            ),
        ),
    )
}

} // verus!
