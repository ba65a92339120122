//! Multi-engine search: engines, query classification and result pages.
use vstd::prelude::*;
use crate::browser::{Link, Page, strs, links_view};
use crate::text::{
    chars_of, lower_vec, lower_seq, starts_with, trim, trim_range, string_from, owned,
    vec_starts_with, vec_contains_char, contains_char, usize_to_string, decimal, push_str, upper_seq,
};

verus! {

/// Search engine types.
#[derive(Debug, Clone, Copy, PartialEq, Eq, Hash, Structural)]
pub enum EngineType {
    DuckDuckGo,
    Google,
    Wikipedia,
    ArXiv,
    Scholar,
    PubMed,
    OpenLibrary,
    /// AI-powered semantic search
    Exa,
}

pub open spec fn engine_name(e: EngineType) -> Seq<char> {
    match e {
        EngineType::DuckDuckGo => "DuckDuckGo"@,
        EngineType::Google => "Google"@,
        EngineType::Wikipedia => "Wikipedia"@,
        EngineType::ArXiv => "arXiv"@,
        EngineType::Scholar => "Google Scholar"@,
        EngineType::PubMed => "PubMed"@,
        EngineType::OpenLibrary => "OpenLibrary"@,
        EngineType::Exa => "Exa"@,
    }
}

pub open spec fn engine_description(e: EngineType) -> Seq<char> {
    match e {
        EngineType::DuckDuckGo => "Privacy-first general search"@,
        EngineType::Google => "General web search"@,
        EngineType::Wikipedia => "General knowledge encyclopedia"@,
        EngineType::ArXiv => "Pre-prints and academic papers"@,
        EngineType::Scholar => "Scholarly articles and citations"@,
        EngineType::PubMed => "Biomedical literature and research"@,
        EngineType::OpenLibrary => "Books and manuscripts"@,
        EngineType::Exa => "AI-powered semantic search"@,
    }
}

pub open spec fn engine_prefix(e: EngineType) -> Seq<char> {
    match e {
        EngineType::DuckDuckGo => "d:"@,
        EngineType::Google => "g:"@,
        EngineType::Wikipedia => "w:"@,
        EngineType::ArXiv => "a:"@,
        EngineType::Scholar => "s:"@,
        EngineType::PubMed => "p:"@,
        EngineType::OpenLibrary => "ol:"@,
        EngineType::Exa => "e:"@,
    }
}

/// The engine a lower-case prefix key selects.
pub open spec fn engine_for_key(k: Seq<char>) -> Option<EngineType> {
    if k == "d:"@ {
        Some(EngineType::DuckDuckGo)
    } else if k == "g:"@ {
        Some(EngineType::Google)
    } else if k == "w:"@ {
        Some(EngineType::Wikipedia)
    } else if k == "a:"@ {
        Some(EngineType::ArXiv)
    } else if k == "s:"@ {
        Some(EngineType::Scholar)
    } else if k == "p:"@ {
        Some(EngineType::PubMed)
    } else if k == "ol:"@ {
        Some(EngineType::OpenLibrary)
    } else if k == "e:"@ || k == "exa:"@ {
        Some(EngineType::Exa)
    } else {
        None
    }
}

impl EngineType {
    pub fn name(&self) -> (r: &'static str)
        ensures
            r@ == engine_name(*self),
    {
        match self {
            EngineType::DuckDuckGo => "DuckDuckGo",
            EngineType::Google => "Google",
            EngineType::Wikipedia => "Wikipedia",
            EngineType::ArXiv => "arXiv",
            EngineType::Scholar => "Google Scholar",
            EngineType::PubMed => "PubMed",
            EngineType::OpenLibrary => "OpenLibrary",
            EngineType::Exa => "Exa",
        }
    }

    pub fn description(&self) -> (r: &'static str)
        ensures
            r@ == engine_description(*self),
    {
        match self {
            EngineType::DuckDuckGo => "Privacy-first general search",
            EngineType::Google => "General web search",
            EngineType::Wikipedia => "General knowledge encyclopedia",
            EngineType::ArXiv => "Pre-prints and academic papers",
            EngineType::Scholar => "Scholarly articles and citations",
            EngineType::PubMed => "Biomedical literature and research",
            EngineType::OpenLibrary => "Books and manuscripts",
            EngineType::Exa => "AI-powered semantic search",
        }
    }

    pub fn prefix(&self) -> (r: &'static str)
        ensures
            r@ == engine_prefix(*self),
    {
        match self {
            EngineType::DuckDuckGo => "d:",
            EngineType::Google => "g:",
            EngineType::Wikipedia => "w:",
            EngineType::ArXiv => "a:",
            EngineType::Scholar => "s:",
            EngineType::PubMed => "p:",
            EngineType::OpenLibrary => "ol:",
            EngineType::Exa => "e:",
        }
    }

    /// The engine a prefix selects, compared without regard to case.
    pub fn from_prefix(prefix: &str) -> (r: Option<EngineType>)
        ensures
            r == engine_for_key(lower_seq(prefix@)),
    {
        let v = lower_vec(&chars_of(prefix));
        key_lookup(&v)
    }
}

/// Every engine's prefix selects that engine again, written in lower or upper case.
pub proof fn law_prefix_round_trip(e: EngineType)
    ensures
        engine_for_key(lower_seq(engine_prefix(e))) == Some(e),
        engine_for_key(lower_seq(upper_seq(engine_prefix(e)))) == Some(e),
{
    reveal_strlit("d:");
    reveal_strlit("g:");
    reveal_strlit("w:");
    reveal_strlit("a:");
    reveal_strlit("s:");
    reveal_strlit("p:");
    reveal_strlit("ol:");
    reveal_strlit("e:");
    reveal_strlit("exa:");
    let p = engine_prefix(e);
    assert(lower_seq(p) =~= p);
    assert(lower_seq(upper_seq(p)) =~= p);
    assert("d:"@[0] == 'd' && "g:"@[0] == 'g' && "w:"@[0] == 'w' && "a:"@[0] == 'a' && "s:"@[0]
        == 's' && "p:"@[0] == 'p' && "ol:"@[0] == 'o' && "e:"@[0] == 'e' && "exa:"@[0] == 'e');
    assert("e:"@.len() == 2 && "exa:"@.len() == 4 && "ol:"@.len() == 3);
}

/// Prefixes tried before the `m`-th that do not match are passed over.
proof fn lemma_parse_skips(input: Seq<char>, i: nat, m: nat)
    requires
        i <= m < 9,
        forall|x: int| i <= x < m ==> !starts_with(lower_seq(input), #[trigger] query_prefixes()[x]),
        starts_with(lower_seq(input), query_prefixes()[m as int]),
    ensures
        parse_query_from(input, i) == (
            engine_for_key(query_prefixes()[m as int]),
            trim(input.skip(query_prefixes()[m as int].len() as int)),
        ),
    decreases m - i,
{
    if i < m {
        lemma_parse_skips(input, i + 1, m);
    }
}

/// A sequence starting with `x` has `x`'s characters first.
proof fn lemma_starts_with_chars(l: Seq<char>, x: Seq<char>)
    requires
        starts_with(l, x),
    ensures
        forall|k: int| 0 <= k < x.len() ==> l[k] == #[trigger] x[k],
{
    assert forall|k: int| 0 <= k < x.len() implies l[k] == #[trigger] x[k] by {
        assert(l.subrange(0, x.len() as int)[k] == l[k]);
    }
}

/// A query given with an engine's prefix is searched on that engine, with the rest of the
/// input as the query; only Google is served by DuckDuckGo instead. The rest is any text
/// without colons that starts and ends with a non-blank character.
pub proof fn law_prefix_picks_engine(e: EngineType, q: Seq<char>, r: QueryTarget)
    requires
        q.len() > 0,
        !crate::text::is_ws(q[0]),
        !crate::text::is_ws(q.last()),
        forall|k: int| 0 <= k < q.len() ==> q[k] != ':',
        classifies(engine_prefix(e) + q, r),
    ensures
        r matches QueryTarget::Search { engine, query } && query@ == q && engine == (if e
            == EngineType::Google {
            EngineType::DuckDuckGo
        } else {
            e
        }),
{
    reveal_strlit("d:");
    reveal_strlit("g:");
    reveal_strlit("w:");
    reveal_strlit("a:");
    reveal_strlit("s:");
    reveal_strlit("p:");
    reveal_strlit("ol:");
    reveal_strlit("e:");
    reveal_strlit("exa:");
    let p = engine_prefix(e);
    let input = p + q;
    let lp = query_prefixes();
    assert(input[0] == p[0]);
    assert(input.last() == q.last());
    assert(crate::text::trim_start(input) == input);
    assert(crate::text::trim_end(input) == input);
    assert(input.skip(p.len() as int) =~= q);
    assert(crate::text::trim_start(q) == q);
    assert(crate::text::trim_end(q) == q);
    let l = lower_seq(input);
    assert(l.subrange(0, p.len() as int) =~= p) by {
        assert forall|k: int| 0 <= k < p.len() implies l.subrange(0, p.len() as int)[k] == p[k] by {
            assert(input[k] == p[k]);
        }
    }
    assert(p.len() == 2 ==> input[3] == q[1] || input.len() < 4);
    assert(lp[0] =~= "exa:"@ && lp[1] =~= "e:"@ && lp[2] =~= "d:"@ && lp[3] =~= "g:"@ && lp[4] =~= "w:"@
        && lp[5] =~= "a:"@ && lp[6] =~= "s:"@ && lp[7] =~= "p:"@ && lp[8] =~= "ol:"@);
    let m: nat = match e {
        EngineType::Exa => 1,
        EngineType::DuckDuckGo => 2,
        EngineType::Google => 3,
        EngineType::Wikipedia => 4,
        EngineType::ArXiv => 5,
        EngineType::Scholar => 6,
        EngineType::PubMed => 7,
        EngineType::OpenLibrary => 8,
    };
    assert(lp[m as int] == p);
    assert forall|x: int| 0 <= x < m implies !starts_with(l, #[trigger] lp[x]) by {
        if starts_with(l, lp[x]) {
            lemma_starts_with_chars(l, lp[x]);
            assert(l[0] == lp[x][0]);
            assert(l[1] == lp[x][1]);
            assert(l[0] == p[0] && l[1] == p[1]);
        }
    }
    lemma_parse_skips(input, 0, m);
    assert(engine_for_key(p) == Some(e));
}

fn key_is(v: &Vec<char>, k: &str) -> (b: bool)
    ensures
        b == (v@ == k@),
{
    crate::text::seq_eq(v, &chars_of(k))
}

fn key_lookup(v: &Vec<char>) -> (r: Option<EngineType>)
    ensures
        r == engine_for_key(v@),
{
    if key_is(v, "d:") {
        Some(EngineType::DuckDuckGo)
    } else if key_is(v, "g:") {
        Some(EngineType::Google)
    } else if key_is(v, "w:") {
        Some(EngineType::Wikipedia)
    } else if key_is(v, "a:") {
        Some(EngineType::ArXiv)
    } else if key_is(v, "s:") {
        Some(EngineType::Scholar)
    } else if key_is(v, "p:") {
        Some(EngineType::PubMed)
    } else if key_is(v, "ol:") {
        Some(EngineType::OpenLibrary)
    } else if key_is(v, "e:") || key_is(v, "exa:") {
        Some(EngineType::Exa)
    } else {
        None
    }
}

} // verus!

verus! {

/// The prefixes `parse_query` tries, in order.
pub open spec fn query_prefixes() -> Seq<Seq<char>> {
    seq!["exa:"@, "e:"@, "d:"@, "g:"@, "w:"@, "a:"@, "s:"@, "p:"@, "ol:"@]
}

/// What `parse_query` returns for `input`, trying the prefixes from the `i`-th on.
pub open spec fn parse_query_from(input: Seq<char>, i: nat) -> (Option<EngineType>, Seq<char>)
    decreases 9 - i,
{
    if i >= 9 {
        (None, input)
    } else if starts_with(lower_seq(input), query_prefixes()[i as int]) {
        (
            engine_for_key(query_prefixes()[i as int]),
            trim(input.skip(query_prefixes()[i as int].len() as int)),
        )
    } else {
        parse_query_from(input, i + 1)
    }
}

/// The engine prefix of a query, matched without regard to case, and the rest of the
/// query, trimmed; no engine and the whole input when no prefix matches.
pub open spec fn parse_query_spec(input: Seq<char>) -> (Option<EngineType>, Seq<char>) {
    parse_query_from(input, 0)
}

fn prefix_at(i: usize) -> (r: &'static str)
    requires
        i < 9,
    ensures
        r@ == query_prefixes()[i as int],
{
    if i == 0 {
        "exa:"
    } else if i == 1 {
        "e:"
    } else if i == 2 {
        "d:"
    } else if i == 3 {
        "g:"
    } else if i == 4 {
        "w:"
    } else if i == 5 {
        "a:"
    } else if i == 6 {
        "s:"
    } else if i == 7 {
        "p:"
    } else {
        "ol:"
    }
}

/// Parse a query's engine prefix ("w:rust" selects Wikipedia and leaves "rust").
pub fn parse_query(input: &str) -> (r: (Option<EngineType>, String))
    ensures
        r.0 == parse_query_spec(input@).0,
        r.1@ == parse_query_spec(input@).1,
{
    let v = chars_of(input);
    let lv = lower_vec(&v);
    let mut i: usize = 0;
    while i < 9
        invariant
            0 <= i <= 9,
            v@ == input@,
            lv@ == lower_seq(input@),
            parse_query_from(input@, i as nat) == parse_query_spec(input@),
        decreases 9 - i,
    {
        let p = prefix_at(i);
        let pv = chars_of(p);
        if vec_starts_with(&lv, &pv) {
            let k = pv.len();
            assert(lower_seq(input@).len() == input@.len());
            let (a, b) = trim_range(&v, k, v.len());
            assert(input@.skip(k as int) =~= v@.subrange(k as int, v@.len() as int));
            let q = string_from(&v, a, b);
            let e = key_lookup(&pv);
            return (e, q);
        }
        i += 1;
    }
    (None, owned(input))
}

/// Classification of user input into a URL or a search query.
#[derive(Debug, Clone, PartialEq, Eq)]
pub enum QueryTarget {
    Url(String),
    Search { engine: EngineType, query: String },
    /// Search across all engines
    MultiSearch { query: String },
}

/// Google results often need JavaScript or consent, so Google is served by DuckDuckGo.
pub open spec fn served_engine(e: EngineType) -> EngineType {
    if e == EngineType::Google {
        EngineType::DuckDuckGo
    } else {
        e
    }
}

/// Whether `classify_query` treats the trimmed input `t` as a URL given with its scheme.
pub open spec fn has_scheme(t: Seq<char>) -> bool {
    starts_with(t, "http://"@) || starts_with(t, "https://"@)
}

/// Whether `classify_query` treats the trimmed input `t` as a bare host name.
pub open spec fn looks_like_host(t: Seq<char>) -> bool {
    contains_char(t, '.') && !contains_char(t, ' ')
}

/// What `classify_query` makes of an input: an engine prefix wins, then a URL with a
/// scheme, then a dotted word without spaces (a host, given "https://"), and everything
/// else is searched on DuckDuckGo; the input is trimmed first.
pub open spec fn classifies(input: Seq<char>, r: QueryTarget) -> bool {
    let t = trim(input);
    let pq = parse_query_spec(t);
    if pq.0 is Some {
        r matches QueryTarget::Search { engine, query } && engine == served_engine(pq.0->0)
            && query@ == pq.1
    } else if has_scheme(t) {
        r matches QueryTarget::Url(u) && u@ == t
    } else if looks_like_host(t) {
        r matches QueryTarget::Url(u) && u@ == "https://"@ + t
    } else {
        r matches QueryTarget::Search { engine, query } && engine == EngineType::DuckDuckGo
            && query@ == t
    }
}

/// Decide whether the input is a URL or a search query: an engine prefix wins, then a
/// URL with a scheme, then a dotted word without spaces (a host, given "https://"),
/// and everything else is searched on DuckDuckGo.
pub fn classify_query(input: &str) -> (r: QueryTarget)
    ensures
        classifies(input@, r),
{
    let v = chars_of(input);
    let (a, b) = trim_range(&v, 0, v.len());
    assert(v@.subrange(0, v@.len() as int) =~= input@);
    let trimmed = string_from(&v, a, b);
    let (engine, query) = parse_query(trimmed.as_str());
    if let Some(e) = engine {
        let served = if e == EngineType::Google {
            EngineType::DuckDuckGo
        } else {
            e
        };
        return QueryTarget::Search { engine: served, query };
    }
    let tv = chars_of(trimmed.as_str());
    if vec_starts_with(&tv, &chars_of("http://")) || vec_starts_with(&tv, &chars_of("https://")) {
        return QueryTarget::Url(trimmed);
    }
    if vec_contains_char(&tv, '.') && !vec_contains_char(&tv, ' ') {
        let mut u = owned("https://");
        push_str(&mut u, trimmed.as_str());
        return QueryTarget::Url(u);
    }
    QueryTarget::Search { engine: EngineType::DuckDuckGo, query: trimmed }
}

} // verus!

verus! {

/// A search result.
#[derive(Debug, Clone)]
pub struct SearchResult {
    pub title: String,
    pub url: String,
    pub description: String,
    pub engine: String,
}

/// A search response: the query, the engine and its results.
#[derive(Debug, Clone)]
pub struct SearchResponse {
    pub query: String,
    pub engine: EngineType,
    pub results: Vec<SearchResult>,
    pub total: usize,
}

impl SearchResult {
    pub open spec fn same(&self, o: &SearchResult) -> bool {
        &&& self.title@ == o.title@
        &&& self.url@ == o.url@
        &&& self.description@ == o.description@
        &&& self.engine@ == o.engine@
    }

    /// A copy with the same contents.
    pub fn duplicate(&self) -> (r: SearchResult)
        ensures
            r.same(self),
    {
        SearchResult {
            title: self.title.clone(),
            url: self.url.clone(),
            description: self.description.clone(),
            engine: self.engine.clone(),
        }
    }
}

/// The view of a result: (title, url, description, engine).
pub open spec fn result_view(r: SearchResult) -> (Seq<char>, Seq<char>, Seq<char>, Seq<char>) {
    (r.title@, r.url@, r.description@, r.engine@)
}

pub open spec fn results_view(rs: Seq<SearchResult>) -> Seq<
    (Seq<char>, Seq<char>, Seq<char>, Seq<char>),
> {
    rs.map_values(|r: SearchResult| result_view(r))
}

pub proof fn lemma_map_push(s: Seq<SearchResult>, x: SearchResult)
    ensures
        s.push(x).map_values(|r: SearchResult| result_link(r)) == s.map_values(
            |r: SearchResult| result_link(r),
        ).push(result_link(x)),
{
    assert(s.push(x).map_values(|r: SearchResult| result_link(r)) =~= s.map_values(
        |r: SearchResult| result_link(r),
    ).push(result_link(x)));
}

/// The lines `results_to_page` writes for the `n`-th result (1-based).
pub open spec fn result_block(r: SearchResult, n: nat) -> Seq<Seq<char>> {
    seq![decimal(n) + ". "@ + r.title@] + (if r.description@.len() > 0 {
        seq!["   "@ + r.description@]
    } else {
        Seq::empty()
    }) + seq!["   "@ + r.url@, ""@]
}

/// The lines of all results, numbered from 1.
pub open spec fn result_blocks(rs: Seq<SearchResult>) -> Seq<Seq<char>>
    decreases rs.len(),
{
    if rs.len() == 0 {
        Seq::empty()
    } else {
        result_blocks(rs.drop_last()) + result_block(rs.last(), rs.len())
    }
}

/// The sidebar link of a result: its title and engine, to its URL.
pub open spec fn result_link(r: SearchResult) -> (Seq<char>, Seq<char>) {
    (r.title@ + " - "@ + r.engine@, r.url@)
}

/// The page that shows a single engine's results.
pub open spec fn results_page_lines(response: SearchResponse) -> Seq<Seq<char>> {
    seq![
        engine_name(response.engine) + " search results for \""@ + response.query@ + "\""@,
        ""@,
    ] + result_blocks(response.results@) + (if response.results@.len() == 0 {
        seq!["No results found."@]
    } else {
        Seq::empty()
    })
}

/// Push the lines of the `n`-th result.
fn push_result_block(lines: &mut Vec<String>, r: &SearchResult, n: usize)
    ensures
        strs(final(lines)@) == strs(old(lines)@) + result_block(*r, n as nat),
{
    let mut first = usize_to_string(n);
    push_str(&mut first, ". ");
    push_str(&mut first, r.title.as_str());
    lines.push(first);
    if !r.description.as_str().is_empty() {
        let mut d = owned("   ");
        push_str(&mut d, r.description.as_str());
        lines.push(d);
    }
    let mut u = owned("   ");
    push_str(&mut u, r.url.as_str());
    lines.push(u);
    lines.push(owned(""));
    assert(strs(lines@) =~= strs(old(lines)@) + result_block(*r, n as nat));
}

/// Convert a single engine's results into a page.
pub fn results_to_page(response: SearchResponse) -> (p: Page)
    ensures
        p.url@ == "search:"@ + engine_prefix(response.engine) + response.query@,
        p.title@ == engine_name(response.engine) + ": "@ + response.query@,
        strs(p.content_lines@) == results_page_lines(response),
        links_view(p.links@) == response.results@.map_values(|r: SearchResult| result_link(r)),
        p.raw_content@.len() == 0,
{
    let mut lines: Vec<String> = Vec::new();
    let mut head = owned(response.engine.name());
    push_str(&mut head, " search results for \"");
    push_str(&mut head, response.query.as_str());
    push_str(&mut head, "\"");
    lines.push(head);
    lines.push(owned(""));
    let ghost header = strs(lines@);
    let mut links: Vec<Link> = Vec::new();
    let mut i: usize = 0;
    while i < response.results.len()
        invariant
            0 <= i <= response.results@.len(),
            strs(lines@) == header + result_blocks(response.results@.take(i as int)),
            links_view(links@) == response.results@.take(i as int).map_values(
                |r: SearchResult| result_link(r),
            ),
        decreases response.results.len() - i,
    {
        let r = &response.results[i];
        assert(response.results@.take(i + 1).drop_last() =~= response.results@.take(i as int));
        push_result_block(&mut lines, r, i + 1);
        let mut text = r.title.clone();
        push_str(&mut text, " - ");
        push_str(&mut text, r.engine.as_str());
        let ghost old_links = links@;
        links.push(Link { text, url: r.url.clone() });
        i += 1;
        proof {
            assert(links@ == old_links.push(links@.last()));
            crate::browser::lemma_links_view_push(old_links, links@.last());
            assert(response.results@.take(i as int) =~= response.results@.take(i - 1).push(
                response.results@[i - 1],
            ));
            lemma_map_push(response.results@.take(i - 1), response.results@[i - 1]);
        }
        assert(strs(lines@) =~= header + result_blocks(response.results@.take(i as int)));
    }
    assert(response.results@.take(response.results@.len() as int) =~= response.results@);
    let ghost body = strs(lines@);
    if response.results.len() == 0 {
        lines.push(owned("No results found."));
        assert(strs(lines@) =~= body + seq!["No results found."@]);
    } else {
        assert(body + Seq::<Seq<char>>::empty() =~= body);
    }
    assert(header =~= seq![
        engine_name(response.engine) + " search results for \""@ + response.query@ + "\""@,
        ""@,
    ]);
    assert(strs(lines@) =~= results_page_lines(response));
    let mut url = owned("search:");
    push_str(&mut url, response.engine.prefix());
    push_str(&mut url, response.query.as_str());
    let mut title = owned(response.engine.name());
    push_str(&mut title, ": ");
    push_str(&mut title, response.query.as_str());
    Page { url, title, content_lines: lines, raw_content: String::new(), links }
}

} // verus!

verus! {

/// The order in which engines are queried and shown in a multi-engine search.
pub open spec fn display_order() -> Seq<EngineType> {
    seq![
        EngineType::Exa,
        EngineType::Wikipedia,
        EngineType::ArXiv,
        EngineType::Scholar,
        EngineType::DuckDuckGo,
        EngineType::PubMed,
        EngineType::OpenLibrary,
    ]
}

fn display_engine(i: usize) -> (e: EngineType)
    requires
        i < 7,
    ensures
        e == display_order()[i as int],
{
    if i == 0 {
        EngineType::Exa
    } else if i == 1 {
        EngineType::Wikipedia
    } else if i == 2 {
        EngineType::ArXiv
    } else if i == 3 {
        EngineType::Scholar
    } else if i == 4 {
        EngineType::DuckDuckGo
    } else if i == 5 {
        EngineType::PubMed
    } else {
        EngineType::OpenLibrary
    }
}

/// Results gathered from several engines.
#[derive(Debug, Clone)]
pub struct AggregatedSearchResponse {
    pub query: String,
    /// All results, engine after engine in display order
    pub results: Vec<SearchResult>,
    /// The results of each engine that answered, in display order
    pub results_by_engine: Vec<(EngineType, Vec<SearchResult>)>,
}

/// The results recorded for engine `e` (the first entry for it), if any.
pub open spec fn lookup(groups: Seq<(EngineType, Vec<SearchResult>)>, e: EngineType) -> Option<
    Seq<SearchResult>,
>
    decreases groups.len(),
{
    if groups.len() == 0 {
        None
    } else if groups[0].0 == e {
        Some(groups[0].1@)
    } else {
        lookup(groups.drop_first(), e)
    }
}

/// A description cut to 200 characters, with "..." when it was longer.
pub open spec fn short_description(d: Seq<char>) -> Seq<char> {
    if d.len() > 200 {
        d.take(200) + "..."@
    } else {
        d
    }
}

/// The lines of the `n`-th result (1-based) of an engine group.
pub open spec fn group_block(r: SearchResult, n: nat) -> Seq<Seq<char>> {
    seq![decimal(n) + ". **"@ + r.title@ + "**"@] + (if r.description@.len() > 0 {
        seq!["   > "@ + short_description(r.description@)]
    } else {
        Seq::empty()
    }) + seq!["   -- "@ + r.url@, ""@]
}

pub open spec fn group_blocks(rs: Seq<SearchResult>) -> Seq<Seq<char>>
    decreases rs.len(),
{
    if rs.len() == 0 {
        Seq::empty()
    } else {
        group_blocks(rs.drop_last()) + group_block(rs.last(), rs.len())
    }
}

/// The section of one engine: its name and count, then its results.
pub open spec fn group_section(e: EngineType, rs: Seq<SearchResult>) -> Seq<Seq<char>> {
    seq![("## "@ + engine_name(e)) + " ("@ + decimal(rs.len()) + ")"@, ""@] + group_blocks(rs)
}

/// The sections of the engines of `order` that have results.
pub open spec fn sections(groups: Seq<(EngineType, Vec<SearchResult>)>, order: Seq<EngineType>) -> Seq<
    Seq<char>,
>
    decreases order.len(),
{
    if order.len() == 0 {
        Seq::empty()
    } else {
        let e = order.last();
        sections(groups, order.drop_last()) + match lookup(groups, e) {
            Some(rs) => if rs.len() > 0 {
                group_section(e, rs)
            } else {
                Seq::empty()
            },
            None => Seq::empty(),
        }
    }
}

/// The sidebar link of a result in the section of engine `e`.
pub open spec fn group_link(e: EngineType, r: SearchResult) -> (Seq<char>, Seq<char>) {
    ("["@ + engine_name(e) + "] "@ + r.title@, r.url@)
}

/// The links of the engines of `order` that have results.
pub open spec fn section_links(
    groups: Seq<(EngineType, Vec<SearchResult>)>,
    order: Seq<EngineType>,
) -> Seq<(Seq<char>, Seq<char>)>
    decreases order.len(),
{
    if order.len() == 0 {
        Seq::empty()
    } else {
        let e = order.last();
        section_links(groups, order.drop_last()) + match lookup(groups, e) {
            Some(rs) => rs.map_values(|r: SearchResult| group_link(e, r)),
            None => Seq::empty(),
        }
    }
}

/// The lines of the aggregated page, with an optional summary at the top.
pub open spec fn aggregated_lines(a: AggregatedSearchResponse, summary: Option<Seq<char>>) -> Seq<
    Seq<char>,
> {
    seq!["# Multi-Engine Search: \""@ + a.query@ + "\""@, ""@] + match summary {
        Some(s) => seq!["## AI Summary"@, ""@, "> "@ + s, ""@, "---"@, ""@],
        None => Seq::empty(),
    } + seq![
        "Found "@ + decimal(a.results@.len()) + " results across "@ + decimal(
            a.results_by_engine@.len(),
        ) + " engines"@,
        ""@,
        "---"@,
        ""@,
    ] + sections(a.results_by_engine@, display_order()) + (if a.results@.len() == 0 {
        seq!["No results found across any search engine."@]
    } else {
        Seq::empty()
    })
}

/// Index of the first group for `e`, if any.
fn find_group(groups: &Vec<(EngineType, Vec<SearchResult>)>, e: EngineType) -> (r: Option<usize>)
    ensures
        match r {
            Some(i) => i < groups@.len() && lookup(groups@, e) == Some(groups@[i as int].1@),
            None => lookup(groups@, e) is None,
        },
{
    let mut i: usize = 0;
    assert(groups@.skip(0) =~= groups@);
    while i < groups.len()
        invariant
            0 <= i <= groups@.len(),
            lookup(groups@, e) == lookup(groups@.skip(i as int), e),
        decreases groups.len() - i,
    {
        assert(groups@.skip(i as int).drop_first() =~= groups@.skip(i + 1));
        if groups[i].0 == e {
            return Some(i);
        }
        i += 1;
    }
    None
}

/// Cut a description to 200 characters.
fn shorten(d: &str) -> (r: String)
    ensures
        r@ == short_description(d@),
{
    if crate::text::char_count(d) > 200 {
        let mut t = crate::text::take_chars(d, 200);
        push_str(&mut t, "...");
        t
    } else {
        owned(d)
    }
}

fn push_group_block(lines: &mut Vec<String>, r: &SearchResult, n: usize)
    ensures
        strs(final(lines)@) == strs(old(lines)@) + group_block(*r, n as nat),
{
    let mut first = usize_to_string(n);
    push_str(&mut first, ". **");
    push_str(&mut first, r.title.as_str());
    push_str(&mut first, "**");
    lines.push(first);
    if !r.description.as_str().is_empty() {
        let mut d = owned("   > ");
        push_str(&mut d, shorten(r.description.as_str()).as_str());
        lines.push(d);
    }
    let mut u = owned("   -- ");
    push_str(&mut u, r.url.as_str());
    lines.push(u);
    lines.push(owned(""));
    assert(strs(lines@) =~= strs(old(lines)@) + group_block(*r, n as nat));
}

/// Push the section of engine `e` and its links.
fn push_section(
    lines: &mut Vec<String>,
    links: &mut Vec<Link>,
    e: EngineType,
    rs: &Vec<SearchResult>,
)
    requires
        rs@.len() > 0,
    ensures
        strs(final(lines)@) == strs(old(lines)@) + group_section(e, rs@),
        links_view(final(links)@) == links_view(old(links)@) + rs@.map_values(
            |r: SearchResult| group_link(e, r),
        ),
{
    let mut head = owned("## ");
    push_str(&mut head, e.name());
    push_str(&mut head, " (");
    push_str(&mut head, usize_to_string(rs.len()).as_str());
    push_str(&mut head, ")");
    lines.push(head);
    lines.push(owned(""));
    let ghost start = strs(lines@);
    assert(start =~= strs(old(lines)@) + seq![
        ("## "@ + engine_name(e)) + " ("@ + decimal(rs@.len()) + ")"@,
        ""@,
    ]);
    let mut i: usize = 0;
    while i < rs.len()
        invariant
            0 <= i <= rs@.len(),
            strs(lines@) == start + group_blocks(rs@.take(i as int)),
            links_view(links@) == links_view(old(links)@) + rs@.take(i as int).map_values(
                |r: SearchResult| group_link(e, r),
            ),
        decreases rs.len() - i,
    {
        let r = &rs[i];
        assert(rs@.take(i + 1).drop_last() =~= rs@.take(i as int));
        push_group_block(lines, r, i + 1);
        let mut text = owned("[");
        push_str(&mut text, e.name());
        push_str(&mut text, "] ");
        push_str(&mut text, r.title.as_str());
        let ghost before = links@;
        links.push(Link { text, url: r.url.clone() });
        i += 1;
        proof {
            crate::browser::lemma_links_view_push(before, links@.last());
            assert(rs@.take(i as int) =~= rs@.take(i - 1).push(rs@[i - 1]));
            assert(rs@.take(i as int).map_values(|r: SearchResult| group_link(e, r)) =~= rs@.take(
                i - 1,
            ).map_values(|r: SearchResult| group_link(e, r)).push(group_link(e, rs@[i - 1])));
            assert(links_view(links@) =~= links_view(old(links)@) + rs@.take(i as int).map_values(
                |r: SearchResult| group_link(e, r),
            ));
            assert(strs(lines@) =~= start + group_blocks(rs@.take(i as int)));
        }
    }
    assert(rs@.take(rs@.len() as int) =~= rs@);
    assert(strs(lines@) =~= strs(old(lines)@) + group_section(e, rs@));
}

impl AggregatedSearchResponse {
    /// The page of the aggregated results.
    pub fn to_page(&self) -> (p: Page)
        ensures
            p.url@ == "search:multi:"@ + self.query@,
            p.title@ == "Search: "@ + self.query@,
            strs(p.content_lines@) == aggregated_lines(*self, None),
            links_view(p.links@) == section_links(self.results_by_engine@, display_order()),
            p.raw_content@.len() == 0,
    {
        self.to_page_with_summary(None)
    }

    /// The page of the aggregated results, with an optional AI summary at the top.
    pub fn to_page_with_summary(&self, ai_summary: Option<String>) -> (p: Page)
        ensures
            p.url@ == "search:multi:"@ + self.query@,
            p.title@ == "Search: "@ + self.query@,
            strs(p.content_lines@) == aggregated_lines(
                *self,
                match ai_summary {
                    Some(s) => Some(s@),
                    None => None,
                },
            ),
            links_view(p.links@) == section_links(self.results_by_engine@, display_order()),
            p.raw_content@.len() == 0,
    {
        let mut lines: Vec<String> = Vec::new();
        let mut head = owned("# Multi-Engine Search: \"");
        push_str(&mut head, self.query.as_str());
        push_str(&mut head, "\"");
        lines.push(head);
        lines.push(owned(""));
        let ghost summary = match &ai_summary {
            Some(s) => Some(s@),
            None => None::<Seq<char>>,
        };
        if let Some(summary) = ai_summary {
            lines.push(owned("## AI Summary"));
            lines.push(owned(""));
            let mut q = owned("> ");
            push_str(&mut q, summary.as_str());
            lines.push(q);
            lines.push(owned(""));
            lines.push(owned("---"));
            lines.push(owned(""));
        }
        let mut found = owned("Found ");
        push_str(&mut found, usize_to_string(self.results.len()).as_str());
        push_str(&mut found, " results across ");
        push_str(&mut found, usize_to_string(self.results_by_engine.len()).as_str());
        push_str(&mut found, " engines");
        lines.push(found);
        lines.push(owned(""));
        lines.push(owned("---"));
        lines.push(owned(""));
        let ghost top = strs(lines@);
        assert(top =~= seq!["# Multi-Engine Search: \""@ + self.query@ + "\""@, ""@] + match summary {
            Some(s) => seq!["## AI Summary"@, ""@, "> "@ + s, ""@, "---"@, ""@],
            None => Seq::empty(),
        } + seq![
            "Found "@ + decimal(self.results@.len()) + " results across "@ + decimal(
                self.results_by_engine@.len(),
            ) + " engines"@,
            ""@,
            "---"@,
            ""@,
        ]);
        let mut links: Vec<Link> = Vec::new();
        let mut k: usize = 0;
        while k < 7
            invariant
                0 <= k <= 7,
                strs(lines@) == top + sections(
                    self.results_by_engine@,
                    display_order().take(k as int),
                ),
                links_view(links@) == section_links(
                    self.results_by_engine@,
                    display_order().take(k as int),
                ),
            decreases 7 - k,
        {
            let e = display_engine(k);
            assert(display_order().take(k + 1).drop_last() =~= display_order().take(k as int));
            assert(display_order().take(k + 1).last() == e);
            let ghost lines_before = strs(lines@);
            let ghost links_before = links_view(links@);
            match find_group(&self.results_by_engine, e) {
                Some(gi) => {
                    let rs = &self.results_by_engine[gi].1;
                    if rs.len() > 0 {
                        push_section(&mut lines, &mut links, e, rs);
                    } else {
                        assert(lines_before + Seq::<Seq<char>>::empty() =~= lines_before);
                        assert(rs@.map_values(|r: SearchResult| group_link(e, r)) =~= Seq::<
                            (Seq<char>, Seq<char>),
                        >::empty());
                        assert(links_before + Seq::<(Seq<char>, Seq<char>)>::empty()
                            =~= links_before);
                    }
                },
                None => {
                    assert(lines_before + Seq::<Seq<char>>::empty() =~= lines_before);
                    assert(links_before + Seq::<(Seq<char>, Seq<char>)>::empty() =~= links_before);
                },
            }
            k += 1;
            assert(strs(lines@) =~= top + sections(
                self.results_by_engine@,
                display_order().take(k as int),
            ));
        }
        assert(display_order().take(7) =~= display_order());
        let ghost body = strs(lines@);
        if self.results.len() == 0 {
            lines.push(owned("No results found across any search engine."));
            assert(strs(lines@) =~= body + seq!["No results found across any search engine."@]);
        } else {
            assert(body + Seq::<Seq<char>>::empty() =~= body);
        }
        assert(strs(lines@) =~= aggregated_lines(*self, summary));
        let mut url = owned("search:multi:");
        push_str(&mut url, self.query.as_str());
        let mut title = owned("Search: ");
        push_str(&mut title, self.query.as_str());
        Page { url, title, content_lines: lines, raw_content: String::new(), links }
    }
}

} // verus!

verus! {

/// A search engine (implemented by the network-backed engines around the library).
pub trait SearchEngine {
    fn search(&self, query: &str) -> Result<SearchResponse, String>;

    fn engine_type(&self) -> EngineType;
}

/// Manages the available engines and the selected one.
pub struct SearchManager {
    engines: Vec<EngineType>,
    selected: EngineType,
}

/// The engines every manager has.
pub open spec fn standard_engines() -> Seq<EngineType> {
    seq![
        EngineType::DuckDuckGo,
        EngineType::Wikipedia,
        EngineType::ArXiv,
        EngineType::Scholar,
        EngineType::PubMed,
        EngineType::OpenLibrary,
    ]
}

/// Whether the setting names a usable Exa key (set and not empty).
pub open spec fn usable_key(k: Option<String>) -> bool {
    match k {
        Some(s) => s@.len() > 0,
        None => false,
    }
}

impl SearchManager {
    /// The available engines.
    pub closed spec fn available(&self) -> Set<EngineType> {
        self.engines@.to_set()
    }

    /// No engine is listed twice.
    pub closed spec fn wf(&self) -> bool {
        self.engines@.no_duplicates()
    }

    pub closed spec fn spec_selected(&self) -> EngineType {
        self.selected
    }

    /// The standard engines, plus Exa when the environment's `EXA_API_KEY` (read by the
    /// caller and handed in) is set and not empty; DuckDuckGo is selected.
    pub fn new(env_exa_key: Option<String>) -> (m: SearchManager)
        ensures
            m.available() == standard_engines().to_set().union(
                if usable_key(env_exa_key) { set![EngineType::Exa] } else { Set::empty() },
            ),
            m.spec_selected() == EngineType::DuckDuckGo,
            m.wf(),
    {
        let mut engines: Vec<EngineType> = Vec::new();
        engines.push(EngineType::DuckDuckGo);
        engines.push(EngineType::Wikipedia);
        engines.push(EngineType::ArXiv);
        engines.push(EngineType::Scholar);
        engines.push(EngineType::PubMed);
        engines.push(EngineType::OpenLibrary);
        let exa = match &env_exa_key {
            Some(k) => !k.as_str().is_empty(),
            None => false,
        };
        if exa {
            engines.push(EngineType::Exa);
        }
        let m = SearchManager { engines, selected: EngineType::DuckDuckGo };
        proof {
            let u = standard_engines().to_set().union(
                if usable_key(env_exa_key) { set![EngineType::Exa] } else { Set::empty() },
            );
            assert forall|e: EngineType| m.engines@.contains(e) <==> u.contains(e) by {
                if u.contains(e) {
                    if standard_engines().contains(e) {
                        let k = choose|k: int| 0 <= k < 6 && standard_engines()[k] == e;
                        assert(m.engines@[k] == e);
                    } else {
                        assert(m.engines@[6] == e);
                    }
                }
                if m.engines@.contains(e) {
                    let k = choose|k: int| 0 <= k < m.engines@.len() && m.engines@[k] == e;
                    if k < 6 {
                        assert(standard_engines()[k] == e);
                    }
                }
            }
            assert(m.engines@.to_set() =~= u);
        }
        m
    }

    /// A manager with Exa added when the configuration (or the environment) has a key.
    pub fn with_config(config: &crate::config::Config, env_exa_key: Option<String>) -> (m:
        SearchManager)
        ensures
            m.available() == standard_engines().to_set().union(
                if usable_key(env_exa_key) || usable_key(
                    match config.exa_api_key {
                        Some(k) => Some(k),
                        None => env_exa_key,
                    },
                ) {
                    set![EngineType::Exa]
                } else {
                    Set::empty()
                },
            ),
            m.spec_selected() == EngineType::DuckDuckGo,
            m.wf(),
    {
        let mut manager = Self::new(env_exa_key.clone());
        let key = config.get_exa_api_key(env_exa_key);
        let usable = match &key {
            Some(k) => !k.as_str().is_empty(),
            None => false,
        };
        let ghost before = manager.engines@;
        if usable {
            if manager.has_exa() {
                assert(manager.engines@.to_set() =~= before.to_set().insert(EngineType::Exa));
                return manager;
            }
            manager.engines.push(EngineType::Exa);
            assert forall|e: EngineType| manager.engines@.contains(e) <==> before.to_set().insert(
                EngineType::Exa,
            ).contains(e) by {
                if manager.engines@.contains(e) && e != EngineType::Exa {
                    let k = choose|k: int|
                        0 <= k < manager.engines@.len() && manager.engines@[k] == e;
                    assert(before[k] == e);
                }
                if before.contains(e) {
                    let k = choose|k: int| 0 <= k < before.len() && before[k] == e;
                    assert(manager.engines@[k] == e);
                }
                if e == EngineType::Exa {
                    assert(manager.engines@[before.len() as int] == e);
                }
            }
            assert(manager.engines@.to_set() =~= before.to_set().insert(EngineType::Exa));
        }
        proof {
            assert(manager.available() =~= standard_engines().to_set().union(
                if usable_key(env_exa_key) || usable_key(
                    match config.exa_api_key {
                        Some(k) => Some(k),
                        None => env_exa_key,
                    },
                ) {
                    set![EngineType::Exa]
                } else {
                    Set::empty()
                },
            ));
        }
        manager
    }
}

} // verus!

verus! {

/// Position of an engine in the display order (Google, never queried, comes last).
pub open spec fn order_pos(e: EngineType) -> int {
    match e {
        EngineType::Exa => 0,
        EngineType::Wikipedia => 1,
        EngineType::ArXiv => 2,
        EngineType::Scholar => 3,
        EngineType::DuckDuckGo => 4,
        EngineType::PubMed => 5,
        EngineType::OpenLibrary => 6,
        EngineType::Google => 7,
    }
}

/// All results of the groups, group after group.
pub open spec fn flatten_groups(g: Seq<(EngineType, Vec<SearchResult>)>) -> Seq<
    (Seq<char>, Seq<char>, Seq<char>, Seq<char>),
>
    decreases g.len(),
{
    if g.len() == 0 {
        Seq::empty()
    } else {
        flatten_groups(g.drop_last()) + results_view(g.last().1@)
    }
}

/// The first `limit` elements of `s`.
pub open spec fn first_n<T>(s: Seq<T>, limit: nat) -> Seq<T> {
    if limit <= s.len() { s.take(limit as int) } else { s }
}

impl SearchManager {
    pub fn has_exa(&self) -> (b: bool)
        ensures
            b == self.available().contains(EngineType::Exa),
    {
        self.contains(EngineType::Exa)
    }

    fn contains(&self, e: EngineType) -> (b: bool)
        ensures
            b == self.available().contains(e),
    {
        let mut i: usize = 0;
        while i < self.engines.len()
            invariant
                0 <= i <= self.engines@.len(),
                forall|j: int| 0 <= j < i ==> self.engines@[j] != e,
            decreases self.engines.len() - i,
        {
            if self.engines[i] == e {
                assert(self.engines@.contains(e));
                return true;
            }
            i += 1;
        }
        false
    }

    /// Select an engine; refused (false) when it is not available.
    pub fn set_engine(&mut self, engine: EngineType) -> (ok: bool)
        ensures
            ok == old(self).available().contains(engine),
            final(self).available() == old(self).available(),
            final(self).wf() == old(self).wf(),
            final(self).spec_selected() == if ok { engine } else { old(self).spec_selected() },
    {
        if self.contains(engine) {
            self.selected = engine;
            true
        } else {
            false
        }
    }

    pub fn selected(&self) -> (e: EngineType)
        ensures
            e == self.spec_selected(),
    {
        self.selected
    }

    /// The available engines, each once.
    pub fn available_engines(&self) -> (v: Vec<EngineType>)
        requires
            self.wf(),
        ensures
            v@.to_set() == self.available(),
            v@.no_duplicates(),
    {
        self.engines.clone()
    }

    /// Run the selected engine on the query (`run` performs an engine's search).
    pub fn search<F: Fn(EngineType, &str) -> Result<SearchResponse, String>>(
        &self,
        query: &str,
        run: &F,
    ) -> (r: Result<SearchResponse, String>)
        requires
            forall|e: EngineType| call_requires(*run, (e, query)),
        ensures
            self.available().contains(self.spec_selected()) ==> call_ensures(
                *run,
                (self.spec_selected(), query),
                r,
            ),
            !self.available().contains(self.spec_selected()) ==> (r matches Err(m) && m@
                == "Selected engine not found"@),
    {
        if self.contains(self.selected) {
            run(self.selected, query)
        } else {
            Err(owned("Selected engine not found"))
        }
    }

    /// Run the given engine on the query.
    pub fn search_with<F: Fn(EngineType, &str) -> Result<SearchResponse, String>>(
        &self,
        engine: EngineType,
        query: &str,
        run: &F,
    ) -> (r: Result<SearchResponse, String>)
        requires
            forall|e: EngineType| call_requires(*run, (e, query)),
        ensures
            self.available().contains(engine) ==> call_ensures(*run, (engine, query), r),
            !self.available().contains(engine) ==> (r matches Err(m) && m@ == "Engine not found"@),
    {
        if self.contains(engine) {
            run(engine, query)
        } else {
            Err(owned("Engine not found"))
        }
    }

    /// Ask every available engine, in display order, and keep at most `limit` results
    /// of each engine that answered.
    pub fn search_all_with_limit<F: Fn(EngineType, &str) -> Result<SearchResponse, String>>(
        &self,
        query: &str,
        limit: usize,
        run: &F,
    ) -> (r: AggregatedSearchResponse)
        requires
            forall|e: EngineType| call_requires(*run, (e, query)),
        ensures
            r.query@ == query@,
            forall|k: int|
                0 <= k < r.results_by_engine@.len() ==> {
                    let g = #[trigger] r.results_by_engine@[k];
                    &&& self.available().contains(g.0)
                    &&& order_pos(g.0) < 7
                    &&& exists|resp: SearchResponse|
                        call_ensures(*run, (g.0, query), Ok::<SearchResponse, String>(resp))
                            && g.1@ == first_n(resp.results@, limit as nat)
                },
            forall|k: int, l: int|
                0 <= k < l < r.results_by_engine@.len() ==> order_pos(
                    r.results_by_engine@[k].0,
                ) < order_pos(r.results_by_engine@[l].0),
            forall|e: EngineType|
                self.available().contains(e) && order_pos(e) < 7 && !(exists|k: int|
                    0 <= k < r.results_by_engine@.len() && r.results_by_engine@[k].0 == e)
                    ==> exists|m: String|
                    call_ensures(*run, (e, query), Err::<SearchResponse, String>(m)),
            results_view(r.results@) == flatten_groups(r.results_by_engine@),
    {
        let mut groups: Vec<(EngineType, Vec<SearchResult>)> = Vec::new();
        let mut all: Vec<SearchResult> = Vec::new();
        let mut k: usize = 0;
        while k < 7
            invariant
                0 <= k <= 7,
                forall|e: EngineType| call_requires(*run, (e, query)),
                forall|j: int|
                    0 <= j < groups@.len() ==> {
                        let g = #[trigger] groups@[j];
                        &&& self.available().contains(g.0)
                        &&& order_pos(g.0) < k
                        &&& exists|resp: SearchResponse|
                            call_ensures(*run, (g.0, query), Ok::<SearchResponse, String>(resp))
                                && g.1@ == first_n(resp.results@, limit as nat)
                    },
                forall|a: int, b: int|
                    0 <= a < b < groups@.len() ==> order_pos(groups@[a].0) < order_pos(
                        groups@[b].0,
                    ),
                forall|e: EngineType|
                    self.available().contains(e) && order_pos(e) < k && !(exists|j: int|
                        0 <= j < groups@.len() && groups@[j].0 == e) ==> exists|m: String|
                        call_ensures(*run, (e, query), Err::<SearchResponse, String>(m)),
                results_view(all@) == flatten_groups(groups@),
            decreases 7 - k,
        {
            let e = display_engine(k);
            assert(order_pos(e) == k);
            let ghost groups_before = groups@;
            if self.contains(e) {
                let outcome = run(e, query);
                match outcome {
                    Ok(resp) => {
                        let ghost whole = resp;
                        let mut rs = resp.results;
                        rs.truncate(limit);
                        let ghost all_before = all@;
                        let mut i: usize = 0;
                        while i < rs.len()
                            invariant
                                0 <= i <= rs@.len(),
                                results_view(all@) == results_view(all_before) + results_view(
                                    rs@.take(i as int),
                                ),
                            decreases rs.len() - i,
                        {
                            let ghost prev = all@;
                            all.push(rs[i].duplicate());
                            i += 1;
                            assert(rs@.take(i as int) =~= rs@.take(i - 1).push(rs@[i - 1]));
                            assert(results_view(rs@.take(i as int)) =~= results_view(
                                rs@.take(i - 1),
                            ).push(result_view(rs@[i - 1])));
                            assert(results_view(all@) =~= results_view(prev).push(
                                result_view(all@.last()),
                            ));
                            assert(result_view(all@.last()) == result_view(rs@[i - 1]));
                            assert(results_view(all@) =~= results_view(all_before) + results_view(
                                rs@.take(i as int),
                            ));
                        }
                        assert(rs@.take(rs@.len() as int) =~= rs@);
                        assert(rs@ == first_n(whole.results@, limit as nat));
                        groups.push((e, rs));
                        assert(groups@.drop_last() =~= groups_before);
                    },
                    Err(m) => {
                        assert(call_ensures(*run, (e, query), Err::<SearchResponse, String>(m)));
                    },
                }
            }
            k += 1;
            proof {
                assert forall|e2: EngineType|
                    self.available().contains(e2) && order_pos(e2) < k && !(exists|j: int|
                        0 <= j < groups@.len() && groups@[j].0 == e2) implies exists|m: String|
                    call_ensures(*run, (e2, query), Err::<SearchResponse, String>(m)) by {
                    if order_pos(e2) < k - 1 {
                        if exists|j: int| 0 <= j < groups_before.len() && groups_before[j].0 == e2 {
                            let j = choose|j: int|
                                0 <= j < groups_before.len() && groups_before[j].0 == e2;
                            assert(groups@[j] == groups_before[j]);
                        }
                    } else {
                        assert(e2 == e);
                        if groups@.len() > groups_before.len() {
                            assert(groups@[groups_before.len() as int].0 == e2);
                        }
                    }
                }
            }
        }
        let r = AggregatedSearchResponse {
            query: owned(query),
            results: all,
            results_by_engine: groups,
        };
        assert forall|e: EngineType|
            self.available().contains(e) && order_pos(e) < 7 && !(exists|k: int|
                0 <= k < r.results_by_engine@.len() && r.results_by_engine@[k].0 == e) implies exists|
            m: String|
            call_ensures(*run, (e, query), Err::<SearchResponse, String>(m)) by {
            if exists|j: int| 0 <= j < groups@.len() && groups@[j].0 == e {
                let j = choose|j: int| 0 <= j < groups@.len() && groups@[j].0 == e;
                assert(r.results_by_engine@[j].0 == e);
            }
        }
        r
    }

    /// Search every engine, keeping five results from each.
    pub fn search_aggregated<F: Fn(EngineType, &str) -> Result<SearchResponse, String>>(
        &self,
        query: &str,
        run: &F,
    ) -> (r: AggregatedSearchResponse)
        requires
            forall|e: EngineType| call_requires(*run, (e, query)),
        ensures
            r.query@ == query@,
            forall|k: int|
                0 <= k < r.results_by_engine@.len() ==> {
                    let g = #[trigger] r.results_by_engine@[k];
                    &&& self.available().contains(g.0)
                    &&& order_pos(g.0) < 7
                    &&& exists|resp: SearchResponse|
                        call_ensures(*run, (g.0, query), Ok::<SearchResponse, String>(resp))
                            && g.1@ == first_n(resp.results@, 5)
                },
            forall|k: int, l: int|
                0 <= k < l < r.results_by_engine@.len() ==> order_pos(
                    r.results_by_engine@[k].0,
                ) < order_pos(r.results_by_engine@[l].0),
            forall|e: EngineType|
                self.available().contains(e) && order_pos(e) < 7 && !(exists|k: int|
                    0 <= k < r.results_by_engine@.len() && r.results_by_engine@[k].0 == e)
                    ==> exists|m: String|
                    call_ensures(*run, (e, query), Err::<SearchResponse, String>(m)),
            results_view(r.results@) == flatten_groups(r.results_by_engine@),
    {
        self.search_all_with_limit(query, 5, run)
    }
}

} // verus!

verus! {

/// Text between `<tag ...>` and the next `</tag>`.
pub open spec fn xml_content(x: Seq<char>, tag: Seq<char>) -> Option<Seq<char>> {
    match crate::text::find(x, "<"@ + tag) {
        None => None,
        Some(a) => match crate::text::find_from(x, ">"@, a) {
            None => None,
            Some(b) => match crate::text::find_from(x, "</"@ + tag + ">"@, b + 1) {
                None => None,
                Some(c) => Some(x.subrange(b + 1, c)),
            },
        },
    }
}

/// Extract the text of the first `<tag>` element.
pub fn extract_xml_content(xml: &str, tag: &str) -> (r: Option<String>)
    ensures
        match xml_content(xml@, tag@) {
            Some(c) => r matches Some(t) && t@ == c,
            None => r is None,
        },
{
    let v = chars_of(xml);
    let mut start_tag = owned("<");
    push_str(&mut start_tag, tag);
    let mut end_tag = owned("</");
    push_str(&mut end_tag, tag);
    push_str(&mut end_tag, ">");
    let sv = chars_of(start_tag.as_str());
    let ev = chars_of(end_tag.as_str());
    let gt = chars_of(">");
    let a = match crate::text::vec_find(&v, &sv) {
        Some(a) => a,
        None => return None,
    };
    let b = match crate::text::vec_find_from(&v, &gt, a) {
        Some(b) => b,
        None => return None,
    };
    proof {
        crate::text::lemma_find_from_matches(v@, gt@, a as int);
        assert(crate::text::matches_at(v@, gt@, b as int));
        reveal_strlit(">");
        assert(b + 1 <= v@.len());
    }
    assert(b < v.len());
    let c = match crate::text::vec_find_from(&v, &ev, b + 1) {
        Some(c) => c,
        None => return None,
    };
    proof {
        crate::text::lemma_find_from_matches(v@, ev@, b + 1);
    }
    Some(string_from(&v, b + 1, c))
}

/// Extract the title of a DuckDuckGo result such as `<a href="...">Title</a>Description`.
pub open spec fn ddg_title(r: Seq<char>) -> Option<Seq<char>> {
    if r.len() == 0 {
        None
    } else {
        match crate::text::find(r, ">"@) {
            None => None,
            Some(a) => match crate::text::find(r, "</a>"@) {
                None => None,
                Some(b) => if a < b {
                    Some(r.subrange(a + 1, b))
                } else {
                    None
                },
            },
        }
    }
}

pub fn extract_ddg_title(result: &str) -> (r: Option<String>)
    ensures
        match ddg_title(result@) {
            Some(t) => r matches Some(s) && s@ == t,
            None => r is None,
        },
{
    let v = chars_of(result);
    if v.len() == 0 {
        return None;
    }
    let a = match crate::text::vec_find(&v, &chars_of(">")) {
        Some(a) => a,
        None => return None,
    };
    let b = match crate::text::vec_find(&v, &chars_of("</a>")) {
        Some(b) => b,
        None => return None,
    };
    proof {
        crate::text::lemma_find_from_matches(v@, "</a>"@, 0);
    }
    if a < b {
        Some(string_from(&v, a + 1, b))
    } else {
        None
    }
}

} // verus!

verus! {

/// An entry of an arXiv Atom feed, up to its closing tag.
pub open spec fn atom_entry(piece: Seq<char>) -> Seq<char> {
    crate::text::before_first(piece, "</entry>"@)
}

/// The text of a tag of an entry, newlines turned to spaces and trimmed (empty if missing).
pub open spec fn atom_field(entry: Seq<char>, tag: Seq<char>) -> Seq<char> {
    trim(
        crate::text::newlines_to_spaces(
            match xml_content(entry, tag) {
                Some(c) => c,
                None => Seq::empty(),
            },
        ),
    )
}

/// The `<id>` of an entry: what follows the first `<id>` up to the next `<id>`, cut at `</id>`.
pub open spec fn atom_id(entry: Seq<char>) -> Seq<char> {
    let ps = crate::text::split_pieces(entry, "<id>"@);
    trim(if ps.len() >= 2 { crate::text::before_first(ps[1], "</id>"@) } else { Seq::empty() })
}

/// Whether an entry becomes a result: it has a title and an id.
pub open spec fn atom_kept(entry: Seq<char>) -> bool {
    atom_field(entry, "title"@).len() > 0 && atom_id(entry).len() > 0
}

/// A summary longer than 300 bytes is cut to its first 300 bytes, followed by "...".
pub open spec fn atom_description(summary: Seq<char>) -> Seq<char> {
    if crate::text::byte_len(summary) > 300 {
        crate::text::byte_prefix(summary, 300) + "..."@
    } else {
        summary
    }
}

/// Cutting the summary at 300 bytes does not split a character.
pub open spec fn atom_cut_ok(piece: Seq<char>) -> bool {
    let e = atom_entry(piece);
    atom_kept(e) && crate::text::byte_len(atom_field(e, "summary"@)) > 300 ==> crate::text::char_boundary(
        atom_field(e, "summary"@),
        300,
    )
}

/// The result view of a kept entry.
pub open spec fn atom_result(piece: Seq<char>) -> (Seq<char>, Seq<char>, Seq<char>, Seq<char>) {
    let e = atom_entry(piece);
    (atom_field(e, "title"@), atom_id(e), atom_description(atom_field(e, "summary"@)), "arXiv"@)
}

/// The results of a sequence of feed pieces.
pub open spec fn atom_results(pieces: Seq<Seq<char>>) -> Seq<
    (Seq<char>, Seq<char>, Seq<char>, Seq<char>),
>
    decreases pieces.len(),
{
    if pieces.len() == 0 {
        Seq::empty()
    } else {
        atom_results(pieces.drop_last()) + if atom_kept(atom_entry(pieces.last())) {
            seq![atom_result(pieces.last())]
        } else {
            Seq::empty()
        }
    }
}

/// The entries of a feed: the pieces after each `<entry>`.
pub open spec fn atom_pieces(xml: Seq<char>) -> Seq<Seq<char>> {
    crate::text::split_pieces(xml, "<entry>"@).skip(1)
}

fn atom_field_of(entry: &str, tag: &str) -> (r: String)
    ensures
        r@ == atom_field(entry@, tag@),
{
    let c = match extract_xml_content(entry, tag) {
        Some(c) => c,
        None => String::new(),
    };
    let s = crate::text::replace_newlines(c.as_str());
    crate::text::trim_str(s.as_str())
}

fn atom_id_of(entry: &str) -> (r: String)
    ensures
        r@ == atom_id(entry@),
{
    proof {
        reveal_strlit("<id>");
        crate::text::lemma_split_second(entry@, "<id>"@);
    }
    let inner = match crate::text::after_first_str(entry, "<id>") {
        Some(rest) => {
            let second = crate::text::before_first_str(rest.as_str(), "<id>");
            crate::text::before_first_str(second.as_str(), "</id>")
        },
        None => String::new(),
    };
    crate::text::trim_str(inner.as_str())
}

/// Parse an arXiv Atom feed into results.
pub fn parse_arxiv_atom(xml: &str) -> (r: Vec<SearchResult>)
    requires
        forall|i: int| 0 <= i < atom_pieces(xml@).len() ==> atom_cut_ok(#[trigger] atom_pieces(xml@)[i]),
    ensures
        results_view(r@) == atom_results(atom_pieces(xml@)),
{
    proof {
        reveal_strlit("<entry>");
    }
    let pieces = crate::text::split_str(xml, "<entry>");
    let ghost ps = strs(pieces@);
    let mut results: Vec<SearchResult> = Vec::new();
    if pieces.len() == 0 {
        return results;
    }
    let mut i: usize = 1;
    assert(ps.skip(1).take(0) =~= Seq::<Seq<char>>::empty());
    while i < pieces.len()
        invariant
            1 <= i <= pieces@.len(),
            ps == strs(pieces@),
            ps == crate::text::split_pieces(xml@, "<entry>"@),
            forall|k: int| 0 <= k < atom_pieces(xml@).len() ==> atom_cut_ok(#[trigger] atom_pieces(xml@)[k]),
            results_view(results@) == atom_results(ps.skip(1).take(i - 1)),
        decreases pieces.len() - i,
    {
        let piece = &pieces[i];
        let entry = crate::text::before_first_str(piece.as_str(), "</entry>");
        let title = atom_field_of(entry.as_str(), "title");
        let summary = atom_field_of(entry.as_str(), "summary");
        let url = atom_id_of(entry.as_str());
        proof {
            assert(ps.skip(1)[i - 1] == ps[i as int]);
            assert(atom_pieces(xml@)[i - 1] == piece@);
            assert(ps.skip(1).take(i as int).drop_last() =~= ps.skip(1).take(i - 1));
            assert(ps.skip(1).take(i as int).last() == piece@);
        }
        let ghost before = results@;
        if !title.as_str().is_empty() && !url.as_str().is_empty() {
            let sv = chars_of(summary.as_str());
            let description = if crate::text::longer_than_bytes(&sv, 300) {
                let mut d = crate::text::str_byte_prefix(summary.as_str(), 300);
                push_str(&mut d, "...");
                d
            } else {
                summary
            };
            results.push(
                SearchResult { title, url, description, engine: owned("arXiv") },
            );
            proof {
                assert(results_view(results@) =~= results_view(before).push(
                    result_view(results@.last()),
                ));
            }
        }
        i += 1;
    }
    assert(ps.skip(1).take(pieces@.len() - 1) =~= atom_pieces(xml@));
    results
}

} // verus!
