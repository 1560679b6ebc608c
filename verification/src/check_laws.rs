//! What a passing check and a passing smoke check guarantee of the page, stated with
//! plain text containment, and proved.
use vstd::prelude::*;

use crate::check::{
    absences_expectation, after_load, links_expectation, page_expectations, texts_expectation,
    PhaseView,
};
use crate::cli::SmokeArgsView;
use crate::config::FastCheckView;
use crate::links::has_link;
use crate::page::PageView;
use crate::report::{body_holds_all, body_holds_none, smoke_judgement, utf8_len};
use crate::text::{contains, occurs_at};

verus! {

proof fn lemma_texts(body: Seq<char>, texts: Seq<Seq<char>>, i: int)
    requires
        0 <= i <= texts.len(),
    ensures
        texts_expectation(body, texts, i) is Ok <==> forall|k: int|
            i <= k < texts.len() ==> contains(body, #[trigger] texts[k]),
        body_holds_all(body, texts, i) is Ok <==> forall|k: int|
            i <= k < texts.len() ==> contains(body, #[trigger] texts[k]),
    decreases texts.len() - i,
{
    if i < texts.len() {
        lemma_texts(body, texts, i + 1);
    }
}

proof fn lemma_absences(body: Seq<char>, texts: Seq<Seq<char>>, i: int)
    requires
        0 <= i <= texts.len(),
    ensures
        absences_expectation(body, texts, i) is Ok <==> forall|k: int|
            i <= k < texts.len() ==> !contains(body, #[trigger] texts[k]),
        body_holds_none(body, texts, i) is Ok <==> forall|k: int|
            i <= k < texts.len() ==> !contains(body, #[trigger] texts[k]),
    decreases texts.len() - i,
{
    if i < texts.len() {
        lemma_absences(body, texts, i + 1);
    }
}

proof fn lemma_links(body: Seq<char>, hrefs: Seq<Seq<char>>, i: int)
    requires
        0 <= i <= hrefs.len(),
    ensures
        links_expectation(body, hrefs, i) is Ok <==> forall|k: int|
            i <= k < hrefs.len() ==> has_link(body, #[trigger] hrefs[k]),
    decreases hrefs.len() - i,
{
    if i < hrefs.len() {
        lemma_links(body, hrefs, i + 1);
    }
}

/// The expectations of a check hold of a body exactly when the body holds the
/// expected text, has the expected link and every expected link, holds every text
/// of `expect_all`, and holds none of `expect_not`.
pub proof fn expectations_cover_every_text(body: Seq<char>, check: FastCheckView)
    ensures
        page_expectations(body, check) is Ok <==> {
            &&& (check.expect_text matches Some(t) ==> contains(body, t))
            &&& (check.expect_link matches Some(h) ==> has_link(body, h))
            &&& forall|k: int|
                0 <= k < check.expect_links.len() ==> has_link(body, #[trigger] check.expect_links[k])
            &&& forall|k: int|
                0 <= k < check.expect_all.len() ==> contains(body, #[trigger] check.expect_all[k])
            &&& forall|k: int|
                0 <= k < check.expect_not.len() ==> !contains(body, #[trigger] check.expect_not[k])
        },
{
    lemma_links(body, check.expect_links, 0);
    lemma_texts(body, check.expect_all, 0);
    lemma_absences(body, check.expect_not, 0);
}

/// A check that passes once its page has loaded had the expected status, and its page
/// holds every text it expects and none it expects to be absent.
pub proof fn a_passing_check_found_every_text(
    check: FastCheckView,
    first: Seq<char>,
    page: PageView,
    clicked: bool,
)
    requires
        after_load(check, first, page, clicked) matches PhaseView::Finished(Ok(_)),
    ensures
        page.status == Some(check.status),
        check.expect_text matches Some(t) ==> contains(page.body, t),
        forall|k: int|
            0 <= k < check.expect_all.len() ==> contains(page.body, #[trigger] check.expect_all[k]),
        forall|k: int|
            0 <= k < check.expect_not.len() ==> !contains(page.body, #[trigger] check.expect_not[k]),
        forall|k: int|
            0 <= k < check.expect_links.len() ==> has_link(page.body, #[trigger] check.expect_links[k]),
{
    expectations_cover_every_text(page.body, check);
}

/// A smoke check passes exactly when the response had the expected status, its body
/// holds the expected text and every text of `expect_all`, and none of
/// `expect_not`; it then reports the URL, the status, the body's size in bytes and
/// the expected text.
pub proof fn smoke_passes_exactly_when_every_expectation_holds(
    args: SmokeArgsView,
    status: u16,
    body: Seq<char>,
)
    ensures
        smoke_judgement(args, status, body) is Ok <==> {
            &&& status == args.expect_status
            &&& (args.expect_text matches Some(t) ==> contains(body, t))
            &&& forall|k: int|
                0 <= k < args.expect_all.len() ==> contains(body, #[trigger] args.expect_all[k])
            &&& forall|k: int|
                0 <= k < args.expect_not.len() ==> !contains(body, #[trigger] args.expect_not[k])
        },
        smoke_judgement(args, status, body) matches Ok(r) ==> r.url == args.url && r.status
            == status && r.body_bytes == utf8_len(body) && r.matched_text == args.expect_text,
{
    lemma_texts(body, args.expect_all, 0);
    lemma_absences(body, args.expect_not, 0);
}

/// `s` has no quote of either kind.
pub open spec fn quote_free(s: Seq<char>) -> bool {
    forall|i: int| 0 <= i < s.len() ==> s[i] != '"' && s[i] != '\''
}

/// A body whose only quoted text is one link target has a link to exactly that
/// target: not to a part of it, nor to anything longer.
pub proof fn a_link_is_to_its_whole_target(
    pre: Seq<char>,
    target: Seq<char>,
    post: Seq<char>,
    href: Seq<char>,
)
    requires
        quote_free(pre),
        quote_free(target),
        quote_free(post),
    ensures
        has_link(pre + "href=\""@ + target + "\""@ + post, href) <==> href == target,
{
    reveal_strlit("href=\"");
    reveal_strlit("\"");
    reveal_strlit("href='");
    reveal_strlit("'");
    let open_d = "href=\""@;
    let close_d = "\""@;
    let b = pre + open_d + target + close_d + post;
    let a = pre.len() + 5;
    let c = pre.len() + 6 + target.len();
    assert(open_d.len() == 6 && open_d[5] == '"');
    assert(close_d.len() == 1 && close_d[0] == '"');
    assert(forall|m: int| 0 <= m < 5 ==> open_d[m] != '"' && open_d[m] != '\'');
    assert(b.len() == c + 1 + post.len());
    assert forall|m: int| 0 <= m < b.len() implies (b[m] == '"' <==> (m == a || m == c)) && b[m]
        != '\'' by {
        if m < pre.len() {
            assert(b[m] == pre[m]);
        } else if m < pre.len() + 6 {
            assert(b[m] == open_d[m - pre.len()]);
        } else if m < c {
            assert(b[m] == target[m - pre.len() - 6]);
        } else if m == c {
            assert(b[m] == close_d[0]);
        } else {
            assert(b[m] == post[m - c - 1]);
        }
    }
    let d = open_d + href + close_d;
    let q = "href='"@ + href + "'"@;
    assert("href='"@.len() == 6 && "href='"@[5] == '\'');
    if href == target {
        assert(b.subrange(pre.len() as int, (pre.len() + d.len()) as int) =~= d);
        assert(occurs_at(b, d, pre.len() as int));
    }
    if contains(b, d) {
        let p = choose|p: int| occurs_at(b, d, p);
        assert(b.subrange(p, p + d.len()) == d);
        assert(d[5] == '"');
        assert(b[p + 5] == b.subrange(p, p + d.len())[5]);
        assert(d[6 + href.len() as int] == '"');
        assert(b[p + 6 + href.len()] == b.subrange(p, p + d.len())[6 + href.len() as int]);
        assert(p + 5 == a && p + 6 + href.len() == c);
        assert forall|i: int| 0 <= i < href.len() implies href[i] == target[i] by {
            assert(d[6 + i] == href[i]);
            assert(b[p + 6 + i] == b.subrange(p, p + d.len())[6 + i]);
            assert(b[p + 6 + i] == target[i]);
        }
        assert(href =~= target);
    }
    if contains(b, q) {
        let p = choose|p: int| occurs_at(b, q, p);
        assert(b.subrange(p, p + q.len()) == q);
        assert(q[5] == '\'');
        assert(b[p + 5] == b.subrange(p, p + q.len())[5]);
    }
}

} // verus!
