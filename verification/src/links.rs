//! Links in HTML text and in URLs: which links a page has, where they lead, and
//! which of them a link check follows.
use vstd::prelude::*;

use crate::text::{
    chars_of, contains, occurs_at, range_starts_with, str_starts_with, find, find_from_exec, join3, lemma_find_contains, lemma_find_from,
    lemma_find_shift, occurs_at_exec, starts_with, str_contains,
    string_of, trim, trim_bounds,
};

verus! {

/// The text that introduces a link target in HTML.
pub open spec fn href_marker() -> Seq<char> {
    seq!['h', 'r', 'e', 'f', '=']
}

/// The separator between a URL's scheme and the rest.
pub open spec fn scheme_separator() -> Seq<char> {
    seq![':', '/', '/']
}

/// `c` quotes an attribute value.
pub open spec fn is_quote(c: char) -> bool {
    c == '\'' || c == '"'
}

/// The link target named by a click selector shaped like `a[href='/path']` or
/// `a[href="/path"]`, after the selector's surrounding white space is removed.
pub open spec fn selector_href(s: Seq<char>) -> Option<Seq<char>> {
    let t = trim(s);
    let pre = "a[href="@;
    if starts_with(t, pre) && t.len() >= pre.len() + 1 && t.last() == ']' {
        let rest = t.subrange(pre.len() as int, t.len() - 1);
        if rest.len() >= 2 && is_quote(rest[0]) && rest.last() == rest[0] {
            Some(rest.subrange(1, rest.len() - 1))
        } else {
            None
        }
    } else {
        None
    }
}

/// `body` holds a link to `href`, its target quoted with double or single quotes.
pub open spec fn has_link(body: Seq<char>, href: Seq<char>) -> bool {
    contains(body, "href=\""@ + href + "\""@) || contains(body, "href='"@ + href + "'"@)
}

/// The quoted link targets of `s`, in order: after each `href=` that is followed by a
/// quote, the text up to the next occurrence of that quote.
pub open spec fn link_hrefs(s: Seq<char>) -> Seq<Seq<char>>
    decreases s.len(),
{
    match find(s, href_marker()) {
        None => seq![],
        Some(i) => {
            proof {
                lemma_find_contains(s, href_marker());
            }
            let r = s.skip(i + 5);
            if r.len() == 0 {
                seq![]
            } else if !is_quote(r[0]) {
                link_hrefs(r)
            } else {
                let r2 = r.drop_first();
                match find(r2, seq![r[0]]) {
                    None => seq![],
                    Some(e) => {
                        proof {
                            lemma_find_contains(r2, seq![r[0]]);
                        }
                        seq![r2.take(e)] + link_hrefs(r2.skip(e + 1))
                    },
                }
            }
        },
    }
}

/// A link that a link check does not follow: empty, a fragment, or a `mailto:`,
/// `tel:`, `javascript:` or `data:` link (white space around it aside).
pub open spec fn skipped_link(href: Seq<char>) -> bool {
    let t = trim(href);
    ||| t.len() == 0
    ||| starts_with(t, "#"@)
    ||| starts_with(t, "mailto:"@)
    ||| starts_with(t, "tel:"@)
    ||| starts_with(t, "javascript:"@)
    ||| starts_with(t, "data:"@)
}

/// The authority of a URL's remainder after `://`: the text before the first `/`.
pub open spec fn authority(rest: Seq<char>) -> Seq<char> {
    match find(rest, seq!['/']) {
        Some(j) => rest.take(j),
        None => rest,
    }
}

/// `scheme://authority` of an absolute URL; none for a URL without `://`.
pub open spec fn url_origin(url: Seq<char>) -> Option<Seq<char>> {
    match find(url, scheme_separator()) {
        None => None,
        Some(i) => Some(url.take(i) + scheme_separator() + authority(url.skip(i + 3))),
    }
}

/// `href` is an absolute HTTP(S) URL.
pub open spec fn is_absolute(href: Seq<char>) -> bool {
    starts_with(href, "http://"@) || starts_with(href, "https://"@)
}

/// Where `href` leads from the page at `current`: an absolute URL stays as it is; any
/// other link is taken relative to the origin of `current`, or stays as it is when
/// `current` has no origin.
pub open spec fn resolved(current: Seq<char>, href: Seq<char>) -> Seq<char> {
    if is_absolute(href) {
        href
    } else {
        match url_origin(current) {
            None => href,
            Some(o) => if starts_with(href, "/"@) {
                o + href
            } else {
                o + "/"@ + href
            },
        }
    }
}

/// `s` without the `/` characters that end it.
pub open spec fn without_trailing_slashes(s: Seq<char>) -> Seq<char>
    decreases s.len(),
{
    if s.len() > 0 && s.last() == '/' {
        without_trailing_slashes(s.drop_last())
    } else {
        s
    }
}

/// `s` without the `/` characters that begin it.
pub open spec fn without_leading_slashes(s: Seq<char>) -> Seq<char>
    decreases s.len(),
{
    if s.len() > 0 && s[0] == '/' {
        without_leading_slashes(s.drop_first())
    } else {
        s
    }
}

/// `base` and `path` joined by exactly one `/`.
pub open spec fn joined(base: Seq<char>, path: Seq<char>) -> Seq<char> {
    let b = without_trailing_slashes(base);
    let p = without_leading_slashes(path);
    b + "/"@ + p
}

/// The link target named by a click selector shaped like `a[href='/path']`.
pub fn href_from_selector(selector: &str) -> (r: Option<String>)
    ensures
        r.deep_view() == selector_href(selector@),
{
    let v = chars_of(selector);
    let (lo, hi) = trim_bounds(&v);
    let ghost t = v@.subrange(lo as int, hi as int);
    let pre = chars_of("a[href=");
    if hi - lo <= pre.len() {
        return None;
    }
    let is_pre = occurs_at_exec(&v, &pre, lo);
    assert(t.take(pre@.len() as int) =~= v@.subrange(lo as int, lo + pre@.len()));
    if !is_pre || v[hi - 1] != ']' {
        return None;
    }
    let rs = lo + pre.len();
    let re = hi - 1;
    let ghost rest = t.subrange(pre@.len() as int, t.len() - 1);
    assert(rest =~= v@.subrange(rs as int, re as int));
    if re - rs < 2 {
        return None;
    }
    let q = v[rs];
    if q != '\'' && q != '"' {
        return None;
    }
    if v[re - 1] != q {
        return None;
    }
    let r = string_of(&v, rs + 1, re - 1);
    assert(r@ =~= rest.subrange(1, rest.len() - 1));
    Some(r)
}

/// Whether `body` holds a link to `href`.
pub fn body_has_link_href(body: &str, href: &str) -> (r: bool)
    ensures
        r == has_link(body@, href@),
{
    let double = join3("href=\"", href, "\"");
    let single = join3("href='", href, "'");
    str_contains(body, double.as_str()) || str_contains(body, single.as_str())
}

/// The quoted link targets of `body`, in order of appearance.
pub fn extract_link_hrefs(body: &str) -> (r: Vec<String>)
    ensures
        r.deep_view() == link_hrefs(body@),
{
    let v = chars_of(body);
    let marker = chars_of("href=");
    proof {
        reveal_strlit("href=");
    }
    assert(marker@ =~= href_marker());
    let mut hrefs: Vec<String> = Vec::new();
    let mut pos: usize = 0;
    assert(v@.skip(0) =~= v@);
    assert(hrefs.deep_view() + link_hrefs(v@.skip(0)) =~= link_hrefs(v@));
    loop
        invariant
            pos <= v.len(),
            v@ == body@,
            marker@ == href_marker(),
            link_hrefs(v@) == hrefs.deep_view() + link_hrefs(v@.skip(pos as int)),
        ensures
            link_hrefs(v@) == hrefs.deep_view(),
        decreases v.len() - pos,
    {
        let ghost rest = v@.skip(pos as int);
        let found = find_from_exec(&v, &marker, pos);
        proof {
            lemma_find_shift(v@, href_marker(), pos as int, 0);
            lemma_find_from(v@, href_marker(), pos as int);
        }
        match found {
            None => {
                assert(link_hrefs(rest) =~= Seq::<Seq<char>>::empty());
                assert(hrefs.deep_view() + link_hrefs(rest) =~= hrefs.deep_view());
                break ;
            },
            Some(i) => {
                let after = i + 5;
                assert(rest.skip(i - pos + 5) =~= v@.skip(after as int));
                if after >= v.len() {
                    assert(link_hrefs(rest) =~= Seq::<Seq<char>>::empty());
                    assert(hrefs.deep_view() + link_hrefs(rest) =~= hrefs.deep_view());
                    break ;
                }
                let q = v[after];
                if q != '\'' && q != '"' {
                    pos = after;
                    continue ;
                }
                let qv = vec![q];
                let ghost r2 = v@.skip(after + 1);
                assert(v@.skip(after as int).drop_first() =~= r2);
                let close = find_from_exec(&v, &qv, after + 1);
                proof {
                    lemma_find_shift(v@, qv@, after + 1, 0);
                    lemma_find_from(v@, qv@, after + 1);
                    assert(qv@ =~= seq![q]);
                }
                match close {
                    None => {
                        assert(link_hrefs(rest) =~= Seq::<Seq<char>>::empty());
                        assert(hrefs.deep_view() + link_hrefs(rest) =~= hrefs.deep_view());
                        break ;
                    },
                    Some(e) => {
                        let h = string_of(&v, after + 1, e);
                        let ghost before = hrefs.deep_view();
                        hrefs.push(h);
                        assert(hrefs.deep_view() =~= before.push(h@));
                        assert(r2.take(e - (after + 1)) =~= h@);
                        assert(r2.skip(e - (after + 1) + 1) =~= v@.skip(e + 1));
                        assert(before + link_hrefs(rest) =~= hrefs.deep_view() + link_hrefs(
                            v@.skip(e + 1),
                        ));
                        pos = e + 1;
                    },
                }
            },
        }
    }
    hrefs
}

/// Whether a link check passes over `href`.
pub fn should_skip_link(href: &str) -> (r: bool)
    ensures
        r == skipped_link(href@),
{
    let v = chars_of(href);
    let (lo, hi) = trim_bounds(&v);
    if lo == hi {
        return true;
    }
    range_starts_with(&v, lo, hi, &chars_of("#")) || range_starts_with(
        &v,
        lo,
        hi,
        &chars_of("mailto:"),
    ) || range_starts_with(&v, lo, hi, &chars_of("tel:")) || range_starts_with(
        &v,
        lo,
        hi,
        &chars_of("javascript:"),
    ) || range_starts_with(&v, lo, hi, &chars_of("data:"))
}

/// `scheme://authority` of an absolute URL, as the position where it ends in `v`.
fn origin_end(v: &Vec<char>) -> (r: Option<usize>)
    ensures
        match (r, url_origin(v@)) {
            (Some(n), Some(o)) => n <= v.len() && o == v@.take(n as int),
            (None, None) => true,
            _ => false,
        },
{
    let sep = chars_of("://");
    proof {
        reveal_strlit("://");
    }
    assert(sep@ =~= scheme_separator());
    let found = find_from_exec(v, &sep, 0);
    proof {
        lemma_find_contains(v@, scheme_separator());
    }
    match found {
        None => None,
        Some(i) => {
            assert(occurs_at(v@, scheme_separator(), i as int));
            assert(i + 3 <= v@.len());
            assert(i + 3 <= v.len());
            let slash = vec!['/'];
            let ghost rest = v@.skip(i + 3);
            let end = find_from_exec(v, &slash, i + 3);
            proof {
                lemma_find_shift(v@, seq!['/'], i + 3, 0);
                lemma_find_from(v@, seq!['/'], i + 3);
                assert(slash@ =~= seq!['/']);
            }
            let n = match end {
                Some(j) => j,
                None => v.len(),
            };
            assert(v@.take(i as int) + scheme_separator() =~= v@.take(i + 3));
            assert(authority(rest) =~= v@.subrange(i + 3, n as int));
            assert(v@.take(i + 3) + v@.subrange(i + 3, n as int) =~= v@.take(n as int));
            Some(n)
        },
    }
}

/// `scheme://authority` of an absolute URL; none for a URL without `://`.
pub fn origin_from_url(url: &str) -> (r: Option<String>)
    ensures
        r.deep_view() == url_origin(url@),
{
    let v = chars_of(url);
    match origin_end(&v) {
        Some(n) => Some(string_of(&v, 0, n)),
        None => None,
    }
}

/// Where `href` leads from the page at `current_url`.
pub fn resolve_href(current_url: &str, href: &str) -> (r: String)
    ensures
        r@ == resolved(current_url@, href@),
{
    if str_starts_with(href, "http://") || str_starts_with(href, "https://") {
        return href.to_string();
    }
    match origin_from_url(current_url) {
        None => href.to_string(),
        Some(o) => {
            if str_starts_with(href, "/") {
                o.concat(href)
            } else {
                join3(o.as_str(), "/", href)
            }
        },
    }
}

proof fn lemma_trailing_slashes(s: Seq<char>, k: int)
    requires
        0 <= k <= s.len(),
        forall|j: int| k <= j < s.len() ==> #[trigger] s[j] == '/',
    ensures
        without_trailing_slashes(s) == without_trailing_slashes(s.take(k)),
    decreases s.len() - k,
{
    if k < s.len() {
        assert(s.drop_last().take(k) =~= s.take(k));
        lemma_trailing_slashes(s.drop_last(), k);
    } else {
        assert(s.take(k) =~= s);
    }
}

proof fn lemma_leading_slashes(s: Seq<char>, k: int)
    requires
        0 <= k <= s.len(),
        forall|j: int| 0 <= j < k ==> #[trigger] s[j] == '/',
    ensures
        without_leading_slashes(s) == without_leading_slashes(s.skip(k)),
    decreases k,
{
    if k > 0 {
        assert(s.drop_first().skip(k - 1) =~= s.skip(k));
        lemma_leading_slashes(s.drop_first(), k - 1);
    } else {
        assert(s.skip(0) =~= s);
    }
}

/// `base_url` and `path` joined by exactly one `/`.
pub fn join_url(base_url: &str, path: &str) -> (r: String)
    ensures
        r@ == joined(base_url@, path@),
{
    let b = chars_of(base_url);
    let mut hi = b.len();
    while hi > 0 && b[hi - 1] == '/'
        invariant
            hi <= b.len(),
            forall|j: int| hi <= j < b.len() ==> #[trigger] b@[j] == '/',
        decreases hi,
    {
        hi = hi - 1;
    }
    proof {
        lemma_trailing_slashes(b@, hi as int);
    }
    let p = chars_of(path);
    let mut lo: usize = 0;
    while lo < p.len() && p[lo] == '/'
        invariant
            lo <= p.len(),
            forall|j: int| 0 <= j < lo ==> #[trigger] p@[j] == '/',
        decreases p.len() - lo,
    {
        lo = lo + 1;
    }
    proof {
        lemma_leading_slashes(p@, lo as int);
    }
    let mut r = string_of(&b, 0, hi);
    r.append("/");
    let tail = string_of(&p, lo, p.len());
    r.append(tail.as_str());
    assert(p@.skip(lo as int) =~= p@.subrange(lo as int, p.len() as int));
    assert(b@.take(hi as int) =~= b@.subrange(0, hi as int));
    r
}

} // verus!
