//! Structured data taken from a page: its headings, links and text.
use vstd::prelude::*;
use crate::browser::Page;
use crate::text::{trim, join, views, join_strings, trim_str, is_ascii_alnum, is_ascii_char, lower, chars_of, to_ascii_lower, string_of, owned, char_count};

verus! {

/// A link of a scraped page.
#[derive(Debug, Clone)]
pub struct ScrapedLink {
    pub text: String,
    pub url: String,
}

/// What is scraped from a page.
#[derive(Debug, Clone)]
pub struct ScrapedPage {
    pub url: String,
    pub title: String,
    pub headings: Vec<String>,
    pub links: Vec<ScrapedLink>,
    pub content: String,
}

/// The `h1`, `h2` and `h3` elements that scraper finds in a document, in document order,
/// each as its text nodes.
pub uninterp spec fn html_headings_of(html: Seq<char>) -> Seq<Seq<Seq<char>>>;

/// The views of a list of lists of strings.
pub open spec fn nested_views(v: Seq<Vec<String>>) -> Seq<Seq<Seq<char>>> {
    v.map_values(|x: Vec<String>| views(x@))
}

/// scraper: `Html::parse_document`, then `select("h1, h2, h3")`, each element's `text()`
/// pieces. The claim is only that the list is scraper's, a function of the document text.
#[verifier::external_body]
fn html_headings(html: &str) -> (r: Vec<Vec<String>>)
    ensures
        nested_views(r@) == html_headings_of(html@),
{
    let sel = scraper::Selector::parse("h1, h2, h3").unwrap();
    scraper::Html::parse_document(html).select(&sel).map(|h| h.text().map(String::from).collect()).collect()
}

/// The headings' texts: each one's text nodes joined by spaces and trimmed; empty ones left out.
pub open spec fn heading_texts(hs: Seq<Seq<Seq<char>>>) -> Seq<Seq<char>>
    decreases hs.len(),
{
    if hs.len() == 0 {
        Seq::empty()
    } else {
        let t = trim(join(hs.last(), " "@));
        heading_texts(hs.drop_last()) + if t.len() > 0 { seq![t] } else { Seq::empty() }
    }
}

/// Headings, links and text of a page: the headings as scraper finds them in the page's
/// HTML, the links as the page holds them, and the text lines joined by newlines.
pub fn scrape_page(page: &Page) -> (r: ScrapedPage)
    ensures
        r.url@ == page.url@,
        r.title@ == page.title@,
        views(r.headings@) == heading_texts(html_headings_of(page.raw_content@)),
        r.links@.len() == page.links@.len(),
        forall|i: int| 0 <= i < r.links@.len() ==> (#[trigger] r.links@[i]).text@ == page.links@[i].text@
            && r.links@[i].url@ == page.links@[i].url@,
        r.content@ == join(views(page.content_lines@), "\n"@),
{
    let hs = html_headings(page.raw_content.as_str());
    let mut headings: Vec<String> = Vec::new();
    let mut i: usize = 0;
    while i < hs.len()
        invariant
            i <= hs@.len(),
            nested_views(hs@) == html_headings_of(page.raw_content@),
            views(headings@) == heading_texts(nested_views(hs@).take(i as int)),
        decreases hs.len() - i,
    {
        let t = trim_str(join_strings(&hs[i], " ").as_str());
        proof {
            assert(nested_views(hs@).take(i + 1).drop_last() =~= nested_views(hs@).take(i as int));
            assert(nested_views(hs@).take(i + 1).last() == views(hs@[i as int]@));
        }
        if char_count(t.as_str()) > 0 {
            let ghost before = headings@;
            headings.push(t);
            assert(views(headings@) =~= views(before) + seq![t@]);
        } else {
            assert(views(headings@) =~= views(headings@) + Seq::<Seq<char>>::empty());
        }
        i = i + 1;
    }
    assert(nested_views(hs@).take(hs@.len() as int) =~= nested_views(hs@));
    let mut links: Vec<ScrapedLink> = Vec::new();
    let mut j: usize = 0;
    while j < page.links.len()
        invariant
            j <= page.links@.len(),
            links@.len() == j,
            forall|k: int| 0 <= k < j ==> (#[trigger] links@[k]).text@ == page.links@[k].text@
                && links@[k].url@ == page.links@[k].url@,
        decreases page.links.len() - j,
    {
        links.push(ScrapedLink { text: owned(page.links[j].text.as_str()), url: owned(page.links[j].url.as_str()) });
        j = j + 1;
    }
    ScrapedPage {
        url: owned(page.url.as_str()),
        title: owned(page.title.as_str()),
        headings,
        links,
        content: join_strings(&page.content_lines, "\n"),
    }
}

/// The slug built character by character: ASCII letters and digits in lower case, one `-`
/// for each run of other ASCII characters, other characters left out.
pub open spec fn slug_build(s: Seq<char>) -> Seq<char>
    decreases s.len(),
{
    if s.len() == 0 {
        Seq::empty()
    } else {
        let p = slug_build(s.drop_last());
        let c = s.last();
        if is_ascii_alnum(c) {
            p.push(lower(c))
        } else if is_ascii_char(c) && !(p.len() > 0 && p.last() == '-') {
            p.push('-')
        } else {
            p
        }
    }
}

/// `s` without leading dashes.
pub open spec fn trim_start_dashes(s: Seq<char>) -> Seq<char>
    decreases s.len(),
{
    if s.len() > 0 && s[0] == '-' { trim_start_dashes(s.skip(1)) } else { s }
}

/// `s` without trailing dashes.
pub open spec fn trim_end_dashes(s: Seq<char>) -> Seq<char>
    decreases s.len(),
{
    if s.len() > 0 && s.last() == '-' { trim_end_dashes(s.drop_last()) } else { s }
}

/// The file name stem for a scrape of a page with this title: the slug without dashes at
/// its ends, at most 48 characters, or `page` where nothing is left.
pub open spec fn slug_of(input: Seq<char>) -> Seq<char> {
    let t = trim_end_dashes(trim_start_dashes(slug_build(input)));
    if t.len() == 0 { "page"@ } else if t.len() <= 48 { t } else { t.take(48) }
}

/// The file name stem for a scrape of a page with this title.
pub fn slugify(input: &str) -> (r: String)
    ensures
        r@ == slug_of(input@),
{
    let v = chars_of(input);
    let mut slug: Vec<char> = Vec::new();
    let mut i: usize = 0;
    while i < v.len()
        invariant
            i <= v@.len(),
            slug@ == slug_build(v@.take(i as int)),
        decreases v.len() - i,
    {
        let c = v[i];
        proof {
            assert(v@.take(i + 1).drop_last() =~= v@.take(i as int));
        }
        if ('a' <= c && c <= 'z') || ('A' <= c && c <= 'Z') || ('0' <= c && c <= '9') {
            slug.push(to_ascii_lower(c));
        } else if (c as u32) < 128 && !(slug.len() > 0 && slug[slug.len() - 1] == '-') {
            slug.push('-');
        }
        i = i + 1;
    }
    assert(v@.take(v@.len() as int) =~= v@);
    let n = slug.len();
    let mut lo: usize = 0;
    assert(slug@.skip(0) =~= slug@);
    while lo < n && slug[lo] == '-'
        invariant
            n == slug@.len(),
            lo <= n,
            trim_start_dashes(slug@) == trim_start_dashes(slug@.skip(lo as int)),
        decreases n - lo,
    {
        assert(slug@.skip(lo as int).skip(1) =~= slug@.skip(lo + 1));
        lo = lo + 1;
    }
    assert(trim_start_dashes(slug@.skip(lo as int)) == slug@.skip(lo as int));
    let mut hi: usize = n;
    assert(slug@.subrange(lo as int, n as int) =~= slug@.skip(lo as int));
    while hi > lo && slug[hi - 1] == '-'
        invariant
            n == slug@.len(),
            lo <= hi <= n,
            trim_end_dashes(slug@.skip(lo as int)) == trim_end_dashes(slug@.subrange(lo as int, hi as int)),
        decreases hi,
    {
        assert(slug@.subrange(lo as int, hi as int).drop_last() =~= slug@.subrange(lo as int, hi - 1));
        hi = hi - 1;
    }
    let ghost t = slug@.subrange(lo as int, hi as int);
    assert(trim_end_dashes(t) == t);
    if hi == lo {
        return owned("page");
    }
    let end = if hi - lo <= 48 { hi } else { lo + 48 };
    let mut out: Vec<char> = Vec::new();
    let mut k: usize = lo;
    while k < end
        invariant
            lo <= k <= end,
            end <= hi <= n,
            n == slug@.len(),
            out@ == slug@.subrange(lo as int, k as int),
        decreases end - k,
    {
        out.push(slug[k]);
        assert(slug@.subrange(lo as int, k + 1) =~= slug@.subrange(lo as int, k as int).push(slug@[k as int]));
        k = k + 1;
    }
    assert(out@ =~= (if t.len() <= 48 { t } else { t.take(48) }));
    string_of(&out)
}

} // verus!

verus! {

/// A character a scrape file name may hold: a lower-case ASCII letter, a digit or a dash.
pub open spec fn slug_safe(c: char) -> bool {
    ('a' <= c && c <= 'z') || ('0' <= c && c <= '9') || c == '-'
}

proof fn lemma_build_safe(s: Seq<char>)
    ensures
        forall|k: int| 0 <= k < slug_build(s).len() ==> slug_safe(#[trigger] slug_build(s)[k]),
    decreases s.len(),
{
    if s.len() > 0 {
        lemma_build_safe(s.drop_last());
        let p = slug_build(s.drop_last());
        let c = s.last();
        if is_ascii_alnum(c) {
            assert(slug_safe(lower(c))) by {
                assert(is_ascii_alnum(c));
            }
            assert forall|k: int| 0 <= k < p.push(lower(c)).len() implies slug_safe(#[trigger] p.push(lower(c))[k]) by {
                if k < p.len() {
                    assert(p.push(lower(c))[k] == p[k]);
                }
            }
        } else if is_ascii_char(c) && !(p.len() > 0 && p.last() == '-') {
            assert forall|k: int| 0 <= k < p.push('-').len() implies slug_safe(#[trigger] p.push('-')[k]) by {
                if k < p.len() {
                    assert(p.push('-')[k] == p[k]);
                }
            }
        }
    }
}

proof fn lemma_trim_start_suffix(s: Seq<char>)
    ensures
        exists|j: int| 0 <= j <= s.len() && trim_start_dashes(s) == s.skip(j),
        trim_start_dashes(s).len() > 0 ==> trim_start_dashes(s)[0] != '-',
    decreases s.len(),
{
    if s.len() > 0 && s[0] == '-' {
        lemma_trim_start_suffix(s.skip(1));
        let j = choose|j: int| 0 <= j <= s.skip(1).len() && trim_start_dashes(s.skip(1)) == s.skip(1).skip(j);
        assert(s.skip(1).skip(j) =~= s.skip(j + 1));
    } else {
        assert(s.skip(0) =~= s);
    }
}

proof fn lemma_trim_end_prefix(s: Seq<char>)
    ensures
        exists|j: int| 0 <= j <= s.len() && trim_end_dashes(s) == s.take(j),
        trim_end_dashes(s).len() > 0 ==> trim_end_dashes(s)[0] == s[0],
    decreases s.len(),
{
    if s.len() > 0 && s.last() == '-' {
        lemma_trim_end_prefix(s.drop_last());
        let j = choose|j: int| 0 <= j <= s.drop_last().len() && trim_end_dashes(s.drop_last()) == s.drop_last().take(j);
        assert(s.drop_last().take(j) =~= s.take(j));
    } else {
        assert(s.take(s.len() as int) =~= s);
    }
}

/// The name of a scrape file is safe on every file system: it is never empty, it holds at
/// most 48 characters, only lower-case ASCII letters, digits and dashes, and it does not
/// start with a dash.
pub proof fn law_slug_is_safe(input: Seq<char>)
    ensures
        0 < slug_of(input).len() <= 48,
        forall|k: int| 0 <= k < slug_of(input).len() ==> slug_safe(#[trigger] slug_of(input)[k]),
        slug_of(input)[0] != '-',
{
    reveal_strlit("page");
    let b = slug_build(input);
    lemma_build_safe(input);
    lemma_trim_start_suffix(b);
    let a = trim_start_dashes(b);
    let j = choose|j: int| 0 <= j <= b.len() && a == b.skip(j);
    lemma_trim_end_prefix(a);
    let t = trim_end_dashes(a);
    let j2 = choose|j2: int| 0 <= j2 <= a.len() && t == a.take(j2);
    assert forall|k: int| 0 <= k < t.len() implies slug_safe(#[trigger] t[k]) by {
        assert(t[k] == a[k]);
        assert(a[k] == b[k + j]);
    }
    if t.len() == 0 {
        assert(slug_of(input) == "page"@);
    } else if t.len() > 48 {
        assert forall|k: int| 0 <= k < t.take(48).len() implies slug_safe(#[trigger] t.take(48)[k]) by {
            assert(t.take(48)[k] == t[k]);
        }
    }
}

} // verus!
