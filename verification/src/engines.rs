//! What each search engine is asked, and how its answers become search results.
use vstd::prelude::*;
use crate::search::{EngineType, SearchResult, SearchResponse, results_view, lemma_map_push, ddg_title, extract_ddg_title};
use crate::text::{owned, concat2, concat3, trim, trim_str, join, join_strings, views, take_chars};

verus! {

/// A result as a value: (title, url, description, engine).
pub type ResultView = (Seq<char>, Seq<char>, Seq<char>, Seq<char>);

/// Bytes that URL encoding leaves as they are: ASCII letters and digits, `-`, `.`, `_`, `~`.
pub open spec fn url_safe_byte(b: u8) -> bool {
    (48 <= b <= 57) || (65 <= b <= 90) || (97 <= b <= 122) || b == 45 || b == 46 || b == 95 || b == 126
}

/// An upper-case hexadecimal digit.
pub open spec fn hex_upper(n: nat) -> char {
    if n < 10 { (48 + n) as char } else { (55 + n) as char }
}

/// One byte, URL encoded.
pub open spec fn encode_byte(b: u8) -> Seq<char> {
    if url_safe_byte(b) {
        seq![b as char]
    } else {
        seq!['%', hex_upper((b / 16) as nat), hex_upper((b % 16) as nat)]
    }
}

/// Bytes, URL encoded.
pub open spec fn percent_encode(bs: Seq<u8>) -> Seq<char>
    decreases bs.len(),
{
    if bs.len() == 0 {
        Seq::empty()
    } else {
        percent_encode(bs.drop_last()) + encode_byte(bs.last())
    }
}

/// A text URL encoded: every byte of its UTF-8 form that is not safe becomes `%XX`.
pub open spec fn url_encoded(s: Seq<char>) -> Seq<char> {
    percent_encode(vstd::utf8::encode_utf8(s))
}

/// `urlencoding::encode`: the claim is that it percent-encodes every byte of the UTF-8
/// form except ASCII letters, digits and `-._~`, with upper-case hex digits, as its
/// `encode_into` does.
#[verifier::external_body]
pub(crate) fn url_encode(s: &str) -> (r: String)
    ensures
        r@ == url_encoded(s@),
{
    urlencoding::encode(s).into_owned()
}

/// The request URL for an engine's query; `None` for Google (served by DuckDuckGo) and
/// Exa (asked by a POST request).
pub open spec fn engine_request(e: EngineType, q: Seq<char>) -> Option<Seq<char>> {
    let enc = url_encoded(q);
    match e {
        EngineType::DuckDuckGo => Some("https://api.duckduckgo.com/?q="@ + enc
            + "&format=json&no_html=1&skip_disambig=1"@),
        EngineType::Wikipedia => Some("https://en.wikipedia.org/w/api.php?action=query&list=search&srsearch="@
            + enc + "&format=json&srlimit=20"@),
        EngineType::ArXiv => Some("https://export.arxiv.org/api/query?search_query=all:"@ + enc
            + "&start=0&max_results=20"@),
        EngineType::Scholar => Some("https://scholar.google.com/scholar?q="@ + enc + "&hl=en"@),
        EngineType::PubMed => Some("https://eutils.ncbi.nlm.nih.gov/entrez/eutils/esearch.fcgi?db=pubmed&term="@
            + enc + "&retmode=json&retmax=20"@),
        EngineType::OpenLibrary => Some("https://openlibrary.org/search.json?q="@ + enc + "&limit=20"@),
        _ => None,
    }
}

/// The request URL for an engine's query, as `engine_request` says.
pub fn engine_url(e: EngineType, query: &str) -> (r: Option<String>)
    ensures
        match engine_request(e, query@) {
            Some(u) => r matches Some(s) && s@ == u,
            None => r is None,
        },
{
    let enc = url_encode(query);
    let q = enc.as_str();
    match e {
        EngineType::DuckDuckGo => Some(concat3("https://api.duckduckgo.com/?q=", q, "&format=json&no_html=1&skip_disambig=1")),
        EngineType::Wikipedia => Some(concat3(
            "https://en.wikipedia.org/w/api.php?action=query&list=search&srsearch=",
            q,
            "&format=json&srlimit=20",
        )),
        EngineType::ArXiv => Some(concat3("https://export.arxiv.org/api/query?search_query=all:", q, "&start=0&max_results=20")),
        EngineType::Scholar => Some(concat3("https://scholar.google.com/scholar?q=", q, "&hl=en")),
        EngineType::PubMed => Some(concat3(
            "https://eutils.ncbi.nlm.nih.gov/entrez/eutils/esearch.fcgi?db=pubmed&term=",
            q,
            "&retmode=json&retmax=20",
        )),
        EngineType::OpenLibrary => Some(concat3("https://openlibrary.org/search.json?q=", q, "&limit=20")),
        _ => None,
    }
}

fn make_result(title: String, url: String, description: String, engine: &str) -> (r: SearchResult)
    ensures
        r.title == title,
        r.url == url,
        r.description == description,
        r.engine@ == engine@,
{
    SearchResult { title, url, description, engine: owned(engine) }
}

fn push_result(v: &mut Vec<SearchResult>, r: SearchResult)
    ensures
        results_view(final(v)@) == results_view(old(v)@).push(crate::search::result_view(r)),
{
    let ghost before = v@;
    v.push(r);
    proof {
        lemma_map_push(before, r);
    }
}

// ---------------------------------------------------------------------------
// DuckDuckGo
// ---------------------------------------------------------------------------

/// A result inside a related topic.
#[derive(Debug, Clone)]
pub struct DdgSubtopic {
    pub first_url: Option<String>,
    pub text: Option<String>,
    pub result: Option<String>,
}

/// A related topic, possibly grouping subtopics.
#[derive(Debug, Clone)]
pub struct DdgTopic {
    pub first_url: Option<String>,
    pub text: Option<String>,
    pub result: Option<String>,
    pub topics: Option<Vec<DdgSubtopic>>,
}

/// A direct result.
#[derive(Debug, Clone)]
pub struct DdgResult {
    pub first_url: String,
    pub text: String,
    pub result: String,
}

/// DuckDuckGo's instant answer.
#[derive(Debug, Clone)]
pub struct DdgResponse {
    pub abstract_text: String,
    pub abstract_full: String,
    pub abstract_source: String,
    pub abstract_url: String,
    pub heading: String,
    pub answer: String,
    pub definition: String,
    pub definition_url: String,
    pub related_topics: Vec<DdgTopic>,
    pub results: Vec<DdgResult>,
    pub redirect: String,
}

pub open spec fn ov(o: Option<String>) -> Option<Seq<char>> {
    match o {
        Some(s) => Some(s@),
        None => None,
    }
}

/// The result a topic entry gives: only with a URL and a text, both not empty; its title
/// is the link text of its HTML result when there is one, else its text.
pub open spec fn topic_entry(url: Option<Seq<char>>, text: Option<Seq<char>>, result: Option<Seq<char>>) -> Seq<ResultView> {
    match (url, text) {
        (Some(u), Some(t)) => if u.len() > 0 && t.len() > 0 {
            let title = match result {
                Some(r) => match ddg_title(r) {
                    Some(x) => x,
                    None => t,
                },
                None => t,
            };
            seq![(title, u, t, "DuckDuckGo"@)]
        } else {
            Seq::empty()
        },
        _ => Seq::empty(),
    }
}

/// The results of a list of subtopics, in order.
pub open spec fn subtopic_entries(ts: Seq<DdgSubtopic>) -> Seq<ResultView>
    decreases ts.len(),
{
    if ts.len() == 0 {
        Seq::empty()
    } else {
        subtopic_entries(ts.drop_last()) + topic_entry(ov(ts.last().first_url), ov(ts.last().text), ov(ts.last().result))
    }
}

/// The results of a list of topics, in order: each topic's own, then its subtopics'.
pub open spec fn topic_entries(ts: Seq<DdgTopic>) -> Seq<ResultView>
    decreases ts.len(),
{
    if ts.len() == 0 {
        Seq::empty()
    } else {
        let t = ts.last();
        topic_entries(ts.drop_last()) + topic_entry(ov(t.first_url), ov(t.text), ov(t.result)) + match t.topics {
            Some(subs) => subtopic_entries(subs@),
            None => Seq::empty(),
        }
    }
}

/// The results of the direct results, in order.
pub open spec fn direct_entries(rs: Seq<DdgResult>) -> Seq<ResultView>
    decreases rs.len(),
{
    if rs.len() == 0 {
        Seq::empty()
    } else {
        let r = rs.last();
        direct_entries(rs.drop_last()) + topic_entry(Some(r.first_url@), Some(r.text@), Some(r.result@))
    }
}

/// The results of an instant answer: the abstract (titled by its heading, else the
/// query), the answer, the definition, the related topics, the direct results, and the
/// redirect, each only when present.
pub open spec fn ddg_entries(q: Seq<char>, d: DdgResponse) -> Seq<ResultView> {
    let ddg = "DuckDuckGo"@;
    (if d.abstract_full@.len() > 0 && d.abstract_url@.len() > 0 {
        seq![(if d.heading@.len() == 0 { q } else { d.heading@ }, d.abstract_url@, d.abstract_full@, ddg)]
    } else {
        Seq::empty()
    }) + (if d.answer@.len() > 0 {
        seq![("Instant Answer: "@ + q, "https://duckduckgo.com/?q="@ + url_encoded(q), d.answer@, ddg)]
    } else {
        Seq::empty()
    }) + (if d.definition@.len() > 0 && d.definition_url@.len() > 0 {
        seq![("Definition: "@ + q, d.definition_url@, d.definition@, ddg)]
    } else {
        Seq::empty()
    }) + topic_entries(d.related_topics@) + direct_entries(d.results@) + (if d.redirect@.len() > 0 {
        seq![("Redirect: "@ + q, d.redirect@, "DuckDuckGo suggests this page for: "@ + q, ddg)]
    } else {
        Seq::empty()
    })
}

fn push_topic_entry(v: &mut Vec<SearchResult>, url: &Option<String>, text: &Option<String>, result: &Option<String>)
    ensures
        results_view(final(v)@) == results_view(old(v)@) + topic_entry(ov(*url), ov(*text), ov(*result)),
{
    match (url, text) {
        (Some(u), Some(t)) => {
            if !u.as_str().is_empty() && !t.as_str().is_empty() {
                let title = match result {
                    Some(r) => match extract_ddg_title(r.as_str()) {
                        Some(x) => x,
                        None => t.clone(),
                    },
                    None => t.clone(),
                };
                let r = make_result(title, u.clone(), t.clone(), "DuckDuckGo");
                push_result(v, r);
            } else {
                assert(results_view(v@) =~= results_view(v@) + Seq::<ResultView>::empty());
            }
        },
        _ => {
            assert(results_view(v@) =~= results_view(v@) + Seq::<ResultView>::empty());
        },
    }
}

/// The results of DuckDuckGo's instant answer for a query, as `ddg_entries` says.
pub fn ddg_results(query: &str, d: &DdgResponse) -> (r: Vec<SearchResult>)
    ensures
        results_view(r@) == ddg_entries(query@, *d),
{
    let mut v: Vec<SearchResult> = Vec::new();
    let ghost q = query@;
    assert(results_view(v@) =~= Seq::<ResultView>::empty());
    if !d.abstract_full.as_str().is_empty() && !d.abstract_url.as_str().is_empty() {
        let title = if d.heading.as_str().is_empty() { owned(query) } else { d.heading.clone() };
        push_result(&mut v, make_result(title, d.abstract_url.clone(), d.abstract_full.clone(), "DuckDuckGo"));
    }
    let ghost a = results_view(v@);
    if !d.answer.as_str().is_empty() {
        let enc = url_encode(query);
        push_result(
            &mut v,
            make_result(
                concat2("Instant Answer: ", query),
                concat2("https://duckduckgo.com/?q=", enc.as_str()),
                d.answer.clone(),
                "DuckDuckGo",
            ),
        );
    }
    let ghost b = results_view(v@);
    if !d.definition.as_str().is_empty() && !d.definition_url.as_str().is_empty() {
        push_result(
            &mut v,
            make_result(concat2("Definition: ", query), d.definition_url.clone(), d.definition.clone(), "DuckDuckGo"),
        );
    }
    let ghost c = results_view(v@);
    let mut i: usize = 0;
    while i < d.related_topics.len()
        invariant
            i <= d.related_topics.len(),
            results_view(v@) == c + topic_entries(d.related_topics@.take(i as int)),
        decreases d.related_topics.len() - i,
    {
        let t = &d.related_topics[i];
        proof {
            assert(d.related_topics@.take(i as int + 1).drop_last() =~= d.related_topics@.take(i as int));
        }
        push_topic_entry(&mut v, &t.first_url, &t.text, &t.result);
        let ghost mid = results_view(v@);
        match &t.topics {
            Some(subs) => {
                let mut j: usize = 0;
                while j < subs.len()
                    invariant
                        j <= subs.len(),
                        results_view(v@) == mid + subtopic_entries(subs@.take(j as int)),
                    decreases subs.len() - j,
                {
                    let s = &subs[j];
                    proof {
                        assert(subs@.take(j as int + 1).drop_last() =~= subs@.take(j as int));
                    }
                    push_topic_entry(&mut v, &s.first_url, &s.text, &s.result);
                    j = j + 1;
                    proof {
                        assert(results_view(v@) =~= mid + subtopic_entries(subs@.take(j as int)));
                    }
                }
                assert(subs@.take(subs@.len() as int) =~= subs@);
            },
            None => {},
        }
        i = i + 1;
        proof {
            assert(results_view(v@) =~= c + topic_entries(d.related_topics@.take(i as int)));
        }
    }
    assert(d.related_topics@.take(d.related_topics@.len() as int) =~= d.related_topics@);
    let ghost e = results_view(v@);
    let mut k: usize = 0;
    while k < d.results.len()
        invariant
            k <= d.results.len(),
            results_view(v@) == e + direct_entries(d.results@.take(k as int)),
        decreases d.results.len() - k,
    {
        let r = &d.results[k];
        proof {
            assert(d.results@.take(k as int + 1).drop_last() =~= d.results@.take(k as int));
        }
        let u = Some(r.first_url.clone());
        let t = Some(r.text.clone());
        let x = Some(r.result.clone());
        push_topic_entry(&mut v, &u, &t, &x);
        k = k + 1;
        proof {
            assert(results_view(v@) =~= e + direct_entries(d.results@.take(k as int)));
        }
    }
    assert(d.results@.take(d.results@.len() as int) =~= d.results@);
    if !d.redirect.as_str().is_empty() {
        push_result(
            &mut v,
            make_result(
                concat2("Redirect: ", query),
                d.redirect.clone(),
                concat2("DuckDuckGo suggests this page for: ", query),
                "DuckDuckGo",
            ),
        );
    }
    assert(results_view(v@) =~= ddg_entries(query@, *d));
    v
}

/// The results with their engine renamed.
pub open spec fn renamed(rs: Seq<ResultView>, engine: Seq<char>) -> Seq<ResultView> {
    rs.map_values(|r: ResultView| (r.0, r.1, r.2, engine))
}

/// DuckDuckGo's response: its own results, or, when it has none and Wikipedia (asked
/// instead) has some, Wikipedia's, marked as a fallback.
pub fn ddg_response(query: &str, results: Vec<SearchResult>, wiki: Option<Vec<SearchResult>>) -> (r: SearchResponse)
    ensures
        r.query@ == query@,
        r.engine == EngineType::DuckDuckGo,
        r.total == 0,
        results_view(r.results@) == match wiki {
            Some(w) => if results@.len() == 0 && w@.len() > 0 {
                renamed(results_view(w@), "Wikipedia (via DuckDuckGo fallback)"@)
            } else {
                results_view(results@)
            },
            None => results_view(results@),
        },
{
    let chosen = match wiki {
        Some(w) => {
            if results.len() == 0 && w.len() > 0 {
                let mut out: Vec<SearchResult> = Vec::new();
                let mut i: usize = 0;
                while i < w.len()
                    invariant
                        i <= w.len(),
                        results_view(out@) == renamed(results_view(w@), "Wikipedia (via DuckDuckGo fallback)"@).take(i as int),
                    decreases w.len() - i,
                {
                    let r = &w[i];
                    let n = make_result(r.title.clone(), r.url.clone(), r.description.clone(), "Wikipedia (via DuckDuckGo fallback)");
                    push_result(&mut out, n);
                    i = i + 1;
                    proof {
                        assert(results_view(out@) =~= renamed(results_view(w@), "Wikipedia (via DuckDuckGo fallback)"@).take(i as int));
                    }
                }
                assert(renamed(results_view(w@), "Wikipedia (via DuckDuckGo fallback)"@).take(w@.len() as int)
                    =~= renamed(results_view(w@), "Wikipedia (via DuckDuckGo fallback)"@));
                out
            } else {
                results
            }
        },
        None => results,
    };
    SearchResponse { query: owned(query), engine: EngineType::DuckDuckGo, results: chosen, total: 0 }
}


// ---------------------------------------------------------------------------
// Tag stripping
// ---------------------------------------------------------------------------

/// The text with every `<...>` tag (at least one character between the brackets, none of
/// them `>`) taken out, as the regex `<[^>]+>` replaced by nothing leaves it.
pub open spec fn strip_tags_spec(s: Seq<char>) -> Seq<char>
    decreases s.len(),
{
    if s.len() == 0 {
        s
    } else if s[0] == '<' {
        match crate::text::find_from(s, seq!['>'], 1) {
            Some(j) => if j >= 2 {
                proof {
                    crate::text::lemma_find_from_matches(s, seq!['>'], 1);
                }
                strip_tags_spec(s.skip(j + 1))
            } else {
                seq![s[0]] + strip_tags_spec(s.skip(1))
            },
            None => seq![s[0]] + strip_tags_spec(s.skip(1)),
        }
    } else {
        seq![s[0]] + strip_tags_spec(s.skip(1))
    }
}

/// `regex::Regex::new("<[^>]+>")` and `replace_all(s, "")`: the claim is the leftmost
/// matching of that pattern, as `strip_tags_spec` says.
#[verifier::external_body]
pub(crate) fn strip_tags(s: &str) -> (r: String)
    ensures
        r@ == strip_tags_spec(s@),
{
    regex::Regex::new("<[^>]+>").unwrap().replace_all(s, "").to_string()
}

// ---------------------------------------------------------------------------
// Wikipedia
// ---------------------------------------------------------------------------

/// A Wikipedia search hit.
#[derive(Debug, Clone)]
pub struct WikiHit {
    pub title: String,
    pub pageid: u64,
    pub snippet: String,
}

/// A title with its spaces as underscores, as article URLs have it.
pub open spec fn underscored(s: Seq<char>) -> Seq<char> {
    Seq::new(s.len(), |i: int| if s[i] == ' ' { '_' } else { s[i] })
}

/// The result of a Wikipedia hit: its article URL and its snippet without tags.
pub open spec fn wiki_entry(h: WikiHit) -> ResultView {
    (h.title@, "https://en.wikipedia.org/wiki/"@ + underscored(h.title@), strip_tags_spec(h.snippet@), "Wikipedia"@)
}

/// Wikipedia's results, in order; none when the response has no query part.
pub fn wikipedia_results(hits: Option<Vec<WikiHit>>) -> (r: Vec<SearchResult>)
    ensures
        results_view(r@) == match hits {
            Some(h) => h@.map_values(|x: WikiHit| wiki_entry(x)),
            None => Seq::empty(),
        },
{
    let mut v: Vec<SearchResult> = Vec::new();
    match hits {
        None => {
            assert(results_view(v@) =~= Seq::<ResultView>::empty());
            v
        },
        Some(h) => {
            let mut i: usize = 0;
            while i < h.len()
                invariant
                    i <= h.len(),
                    results_view(v@) == h@.take(i as int).map_values(|x: WikiHit| wiki_entry(x)),
                decreases h.len() - i,
            {
                let hit = &h[i];
                let tv = crate::text::chars_of(hit.title.as_str());
                let mut u: Vec<char> = Vec::new();
                let mut k: usize = 0;
                while k < tv.len()
                    invariant
                        k <= tv.len(),
                        tv@ == hit.title@,
                        u@ == underscored(tv@).take(k as int),
                    decreases tv.len() - k,
                {
                    u.push(if tv[k] == ' ' { '_' } else { tv[k] });
                    k = k + 1;
                    assert(u@ =~= underscored(tv@).take(k as int));
                }
                assert(underscored(tv@).take(tv@.len() as int) =~= underscored(tv@));
                let us = crate::text::string_of(&u);
                let r = make_result(
                    hit.title.clone(),
                    concat2("https://en.wikipedia.org/wiki/", us.as_str()),
                    strip_tags(hit.snippet.as_str()),
                    "Wikipedia",
                );
                push_result(&mut v, r);
                i = i + 1;
                proof {
                    assert(results_view(v@) =~= h@.take(i as int).map_values(|x: WikiHit| wiki_entry(x)));
                }
            }
            assert(h@.take(h@.len() as int) =~= h@);
            v
        },
    }
}

// ---------------------------------------------------------------------------
// PubMed
// ---------------------------------------------------------------------------

/// A PubMed article summary: its title, source and publication date (empty when absent).
#[derive(Debug, Clone)]
pub struct PubMedArticle {
    pub title: String,
    pub source: String,
    pub pubdate: String,
}

/// The summary request for a list of article ids.
pub open spec fn pubmed_summary_request(ids: Seq<Seq<char>>) -> Seq<char> {
    "https://eutils.ncbi.nlm.nih.gov/entrez/eutils/esummary.fcgi?db=pubmed&id="@ + join(ids, ","@)
        + "&retmode=json"@
}

/// The summary request URL, as `pubmed_summary_request` says.
pub fn pubmed_summary_url(ids: &Vec<String>) -> (r: String)
    ensures
        r@ == pubmed_summary_request(views(ids@)),
{
    let j = join_strings(ids, ",");
    concat3("https://eutils.ncbi.nlm.nih.gov/entrez/eutils/esummary.fcgi?db=pubmed&id=", j.as_str(), "&retmode=json")
}

/// The result of an article, when it has a summary with a title.
pub open spec fn pubmed_entry(id: Seq<char>, a: Option<PubMedArticle>) -> Seq<ResultView> {
    match a {
        Some(x) => if x.title@.len() > 0 {
            seq![(x.title@, "https://pubmed.ncbi.nlm.nih.gov/"@ + id + "/"@, x.source@ + " - "@ + x.pubdate@, "PubMed"@)]
        } else {
            Seq::empty()
        },
        None => Seq::empty(),
    }
}

/// The results of a list of ids with their summaries (`None` where the summary lacks
/// the id), in order.
pub open spec fn pubmed_entries(ids: Seq<Seq<char>>, arts: Seq<Option<PubMedArticle>>) -> Seq<ResultView>
    decreases ids.len(),
{
    if ids.len() == 0 || arts.len() == 0 {
        Seq::empty()
    } else {
        pubmed_entries(ids.drop_last(), arts.drop_last()) + pubmed_entry(ids.last(), arts.last())
    }
}

/// PubMed's results, as `pubmed_entries` says.
pub fn pubmed_results(ids: &Vec<String>, articles: &Vec<Option<PubMedArticle>>) -> (r: Vec<SearchResult>)
    requires
        ids@.len() == articles@.len(),
    ensures
        results_view(r@) == pubmed_entries(views(ids@), articles@),
{
    let mut v: Vec<SearchResult> = Vec::new();
    let mut i: usize = 0;
    assert(results_view(v@) =~= Seq::<ResultView>::empty());
    while i < ids.len()
        invariant
            i <= ids.len(),
            ids@.len() == articles@.len(),
            results_view(v@) == pubmed_entries(views(ids@).take(i as int), articles@.take(i as int)),
        decreases ids.len() - i,
    {
        proof {
            assert(views(ids@).take(i as int + 1).drop_last() =~= views(ids@).take(i as int));
            assert(articles@.take(i as int + 1).drop_last() =~= articles@.take(i as int));
        }
        match &articles[i] {
            Some(a) => {
                if !a.title.as_str().is_empty() {
                    let mut desc = a.source.clone();
                    desc.append(" - ");
                    desc.append(a.pubdate.as_str());
                    let r = make_result(
                        a.title.clone(),
                        concat3("https://pubmed.ncbi.nlm.nih.gov/", ids[i].as_str(), "/"),
                        desc,
                        "PubMed",
                    );
                    push_result(&mut v, r);
                }
            },
            None => {},
        }
        i = i + 1;
        proof {
            assert(results_view(v@) =~= pubmed_entries(views(ids@).take(i as int), articles@.take(i as int)));
        }
    }
    assert(views(ids@).take(ids@.len() as int) =~= views(ids@));
    assert(articles@.take(articles@.len() as int) =~= articles@);
    v
}

// ---------------------------------------------------------------------------
// OpenLibrary
// ---------------------------------------------------------------------------

/// An OpenLibrary search document.
#[derive(Debug, Clone)]
pub struct OpenLibraryDoc {
    pub title: String,
    pub key: String,
    pub author_name: Option<Vec<String>>,
    pub first_publish_year: Option<i32>,
}

/// The result of a book: its authors joined by commas (or "Unknown author"), then the
/// year of first publication in brackets when known.
pub open spec fn book_entry(d: OpenLibraryDoc) -> ResultView {
    let authors = match d.author_name {
        Some(a) => join(views(a@), ", "@),
        None => "Unknown author"@,
    };
    let year = match d.first_publish_year {
        Some(y) => " ("@ + crate::text::signed_decimal(y as int) + ")"@,
        None => Seq::empty(),
    };
    (d.title@, "https://openlibrary.org"@ + d.key@, authors + year, "OpenLibrary"@)
}

/// OpenLibrary's results, in order.
pub fn openlibrary_results(docs: &Vec<OpenLibraryDoc>) -> (r: Vec<SearchResult>)
    ensures
        results_view(r@) == docs@.map_values(|d: OpenLibraryDoc| book_entry(d)),
{
    let mut v: Vec<SearchResult> = Vec::new();
    let mut i: usize = 0;
    while i < docs.len()
        invariant
            i <= docs.len(),
            results_view(v@) == docs@.take(i as int).map_values(|d: OpenLibraryDoc| book_entry(d)),
        decreases docs.len() - i,
    {
        let d = &docs[i];
        let mut desc = match &d.author_name {
            Some(a) => join_strings(a, ", "),
            None => owned("Unknown author"),
        };
        match d.first_publish_year {
            Some(y) => {
                desc.append(" (");
                let ys = crate::text::i64_to_string(y as i64);
                assert(ys@ == crate::text::signed_decimal(y as int));
                desc.append(ys.as_str());
                desc.append(")");
            },
            None => {
                proof {
                    assert(desc@ + Seq::<char>::empty() =~= desc@);
                }
            },
        }
        assert(desc@ == book_entry(*d).2);
        let r = make_result(d.title.clone(), concat2("https://openlibrary.org", d.key.as_str()), desc, "OpenLibrary");
        push_result(&mut v, r);
        i = i + 1;
        proof {
            assert(results_view(v@) =~= docs@.take(i as int).map_values(|d: OpenLibraryDoc| book_entry(d)));
        }
    }
    assert(docs@.take(docs@.len() as int) =~= docs@);
    v
}

// ---------------------------------------------------------------------------
// Exa
// ---------------------------------------------------------------------------

/// An Exa search hit (the fields the results use).
#[derive(Debug, Clone)]
pub struct ExaHit {
    pub title: Option<String>,
    pub url: String,
    pub text: Option<String>,
    pub highlights: Option<Vec<String>>,
    pub summary: Option<String>,
}

/// The description of a hit before shortening: its highlights joined by " ... " when
/// there are any, else its summary, else its text (else nothing).
pub open spec fn exa_full_description(h: ExaHit) -> Seq<char> {
    let fallback = match h.summary {
        Some(s) => s@,
        None => match h.text {
            Some(t) => t@,
            None => Seq::empty(),
        },
    };
    match h.highlights {
        Some(hl) => if hl@.len() > 0 { join(views(hl@), " ... "@) } else { fallback },
        None => fallback,
    }
}

/// A description cut to 300 characters, with "..." after a cut.
pub open spec fn shortened(d: Seq<char>) -> Seq<char> {
    if d.len() > 300 { d.take(300) + "..."@ } else { d }
}

/// The result of an Exa hit.
pub open spec fn exa_entry(h: ExaHit) -> ResultView {
    (match h.title {
        Some(t) => t@,
        None => "Untitled"@,
    }, h.url@, shortened(exa_full_description(h)), "Exa"@)
}

/// Exa's results, in order.
pub fn exa_results(hits: &Vec<ExaHit>) -> (r: Vec<SearchResult>)
    ensures
        results_view(r@) == hits@.map_values(|h: ExaHit| exa_entry(h)),
{
    let mut v: Vec<SearchResult> = Vec::new();
    let mut i: usize = 0;
    while i < hits.len()
        invariant
            i <= hits.len(),
            results_view(v@) == hits@.take(i as int).map_values(|h: ExaHit| exa_entry(h)),
        decreases hits.len() - i,
    {
        let h = &hits[i];
        let fallback = match &h.summary {
            Some(s) => s.clone(),
            None => match &h.text {
                Some(t) => t.clone(),
                None => String::new(),
            },
        };
        let full = match &h.highlights {
            Some(hl) => if hl.len() > 0 { join_strings(hl, " ... ") } else { fallback },
            None => fallback,
        };
        let description = if crate::text::char_count(full.as_str()) > 300 {
            concat2(take_chars(full.as_str(), 300).as_str(), "...")
        } else {
            full
        };
        let title = match &h.title {
            Some(t) => t.clone(),
            None => owned("Untitled"),
        };
        push_result(&mut v, make_result(title, h.url.clone(), description, "Exa"));
        i = i + 1;
        proof {
            assert(results_view(v@) =~= hits@.take(i as int).map_values(|h: ExaHit| exa_entry(h)));
        }
    }
    assert(hits@.take(hits@.len() as int) =~= hits@);
    v
}

// ---------------------------------------------------------------------------
// Google Scholar
// ---------------------------------------------------------------------------

/// A Scholar result block: the text pieces and link of its first title link, and the
/// text pieces of its first snippet, each `None` when the block has none.
#[derive(Debug, Clone)]
pub struct ScholarBlock {
    pub title_texts: Option<Vec<String>>,
    pub href: Option<String>,
    pub snippet_texts: Option<Vec<String>>,
}

pub open spec fn ov_texts(o: Option<Vec<String>>) -> Option<Seq<Seq<char>>> {
    match o {
        Some(v) => Some(views(v@)),
        None => None,
    }
}

/// The view of Scholar blocks.
pub open spec fn blocks_view(bs: Seq<ScholarBlock>) -> Seq<(Option<Seq<Seq<char>>>, Option<Seq<char>>, Option<Seq<Seq<char>>>)> {
    bs.map_values(|b: ScholarBlock| (ov_texts(b.title_texts), ov(b.href), ov_texts(b.snippet_texts)))
}

/// The result blocks that scraper finds in a Scholar page with the selectors
/// `.gs_r.gs_or.gs_scl`, `.gs_rt a` and `.gs_rs`, in document order.
pub uninterp spec fn scholar_blocks_of(html: Seq<char>) -> Seq<(Option<Seq<Seq<char>>>, Option<Seq<char>>, Option<Seq<Seq<char>>>)>;

/// scraper: `Html::parse_document`, then for each `.gs_r.gs_or.gs_scl` element the text
/// and `href` of its first `.gs_rt a` and the text of its first `.gs_rs`. The claim is only
/// that the list is scraper's, a function of the page text alone.
#[verifier::external_body]
pub(crate) fn scholar_blocks(html: &str) -> (r: Vec<ScholarBlock>)
    ensures
        blocks_view(r@) == scholar_blocks_of(html@),
{
    let sel = |s: &str| scraper::Selector::parse(s).unwrap();
    let (b, t, n) = (sel(".gs_r.gs_or.gs_scl"), sel(".gs_rt a"), sel(".gs_rs"));
    let texts = |e: scraper::ElementRef| e.text().map(String::from).collect();
    scraper::Html::parse_document(html).select(&b).map(|el| ScholarBlock {
        title_texts: el.select(&t).next().map(texts),
        href: el.select(&t).next().and_then(|e| e.value().attr("href")).map(String::from),
        snippet_texts: el.select(&n).next().map(texts),
    }).collect()
}

/// The text of pieces joined by spaces, empty when there are none.
pub open spec fn joined_or_empty(o: Option<Seq<Seq<char>>>) -> Seq<char> {
    match o {
        Some(v) => join(v, " "@),
        None => Seq::empty(),
    }
}

/// The result of a block: only when its title text (before trimming) is not empty; the
/// three fields trimmed.
pub open spec fn scholar_entry(b: (Option<Seq<Seq<char>>>, Option<Seq<char>>, Option<Seq<Seq<char>>>)) -> Seq<ResultView> {
    let title = joined_or_empty(b.0);
    let url = match b.1 {
        Some(h) => h,
        None => Seq::empty(),
    };
    if title.len() > 0 {
        seq![(trim(title), trim(url), trim(joined_or_empty(b.2)), "Google Scholar"@)]
    } else {
        Seq::empty()
    }
}

/// The results of a list of blocks, in order.
pub open spec fn scholar_entries(bs: Seq<(Option<Seq<Seq<char>>>, Option<Seq<char>>, Option<Seq<Seq<char>>>)>) -> Seq<ResultView>
    decreases bs.len(),
{
    if bs.len() == 0 {
        Seq::empty()
    } else {
        scholar_entries(bs.drop_last()) + scholar_entry(bs.last())
    }
}

/// The results of a Google Scholar page, as `scholar_entries` says of its blocks.
pub fn parse_scholar_html(html: &str) -> (r: Vec<SearchResult>)
    ensures
        results_view(r@) == scholar_entries(scholar_blocks_of(html@)),
{
    let blocks = scholar_blocks(html);
    let ghost bv = blocks_view(blocks@);
    let mut v: Vec<SearchResult> = Vec::new();
    let mut i: usize = 0;
    assert(results_view(v@) =~= Seq::<ResultView>::empty());
    while i < blocks.len()
        invariant
            i <= blocks.len(),
            bv == blocks_view(blocks@),
            results_view(v@) == scholar_entries(bv.take(i as int)),
        decreases blocks.len() - i,
    {
        let b = &blocks[i];
        proof {
            assert(bv.take(i as int + 1).drop_last() =~= bv.take(i as int));
        }
        let title = match &b.title_texts {
            Some(t) => join_strings(t, " "),
            None => String::new(),
        };
        if !title.as_str().is_empty() {
            let url = match &b.href {
                Some(h) => trim_str(h.as_str()),
                None => String::new(),
            };
            let desc = match &b.snippet_texts {
                Some(t) => trim_str(join_strings(t, " ").as_str()),
                None => String::new(),
            };
            proof {
                crate::text::lemma_trim_empty();
            }
            push_result(&mut v, make_result(trim_str(title.as_str()), url, desc, "Google Scholar"));
        }
        i = i + 1;
        proof {
            assert(results_view(v@) =~= scholar_entries(bv.take(i as int)));
        }
    }
    assert(bv.take(bv.len() as int) =~= bv);
    v
}

} // verus!
