//! Summaries by a language model: which models are asked, the prompts they are given,
//! and how their replies are read.
use vstd::prelude::*;
use crate::browser::strs;
use crate::config::{Config, default_fallbacks, fallback_model_list};
use crate::text::{owned, concat2, concat3, usize_to_string, decimal, join, views, join_strings, byte_len, char_boundary, byte_prefix, chars_of, longer_than_bytes, str_byte_prefix, char_count, trim, lines, str_lines, trim_str, is_ascii_digit};
use crate::chat::first_n;

verus! {

/// The free models asked, in order, when none are configured.
pub fn default_fallback_models() -> (v: Vec<String>)
    ensures
        strs(v@) == default_fallbacks(),
{
    fallback_model_list()
}

/// How to reach an OpenAI-compatible provider: key, models in the order they are tried,
/// and the address of the API.
#[derive(Debug, Clone)]
pub struct ProviderSettings {
    pub api_key: String,
    pub models: Vec<String>,
    pub base_url: String,
}

/// The provider's settings: the models given, else the free fallbacks; the address given,
/// else OpenRouter's.
pub fn provider_settings(api_key: String, models: Option<Vec<String>>, base_url: Option<String>) -> (p: ProviderSettings)
    ensures
        p.api_key@ == api_key@,
        strs(p.models@) == match models { Some(m) => strs(m@), None => default_fallbacks() },
        p.base_url@ == match base_url { Some(b) => b@, None => "https://openrouter.ai/api/v1"@ },
{
    let models = match models { Some(m) => m, None => default_fallback_models() };
    let base_url = match base_url { Some(b) => b, None => owned("https://openrouter.ai/api/v1") };
    ProviderSettings { api_key, models, base_url }
}

/// The models a summarizer asks: the configured model, then the configured fallbacks, or
/// the default model where neither is set.
pub open spec fn configured_models(model: Option<Seq<char>>, fallbacks: Option<Seq<Seq<char>>>) -> Seq<Seq<char>> {
    let m: Seq<Seq<char>> = match model { Some(x) => seq![x], None => Seq::empty() };
    let all = m + match fallbacks { Some(f) => f, None => Seq::empty() };
    if all.len() == 0 { seq!["qwen/qwen3-235b-a22b:free"@] } else { all }
}

/// The settings of a summarizer made from the configuration: none where no API key is set
/// or it is empty; else that key, the configured models (see `configured_models`) and the
/// configured address (OpenRouter's where none is).
pub fn summarizer_settings(config: &Config) -> (r: Option<ProviderSettings>)
    ensures
        match config.spec_api_key() {
            None => r is None,
            Some(k) => if k.len() == 0 {
                r is None
            } else {
                r matches Some(p) && p.api_key@ == k
                    && strs(p.models@) == configured_models(config.spec_ai_model(), config.spec_fallback_models())
                    && p.base_url@ == match config.spec_ai_base_url() { Some(b) => b, None => "https://openrouter.ai/api/v1"@ }
            },
        },
{
    let key = match config.get_api_key() {
        Some(k) => k,
        None => return None,
    };
    if char_count(key) == 0 {
        return None;
    }
    let mut models: Vec<String> = Vec::new();
    let ghost m: Seq<Seq<char>> = match config.spec_ai_model() { Some(x) => seq![x], None => Seq::empty() };
    match config.get_ai_model() {
        Some(x) => { models.push(owned(x)); },
        None => {},
    }
    assert(strs(models@) =~= m);
    match config.get_fallback_models() {
        Some(f) => {
            let mut i: usize = 0;
            while i < f.len()
                invariant
                    i <= f@.len(),
                    strs(models@) == m + strs(f@).take(i as int),
                decreases f.len() - i,
            {
                let ghost before = models@;
                models.push(owned(f[i].as_str()));
                assert(strs(models@) =~= strs(before).push(f@[i as int]@));
                assert(strs(f@).take(i + 1) =~= strs(f@).take(i as int).push(f@[i as int]@));
                i = i + 1;
            }
            assert(strs(f@).take(f@.len() as int) =~= strs(f@));
        },
        None => {
            assert(m + Seq::<Seq<char>>::empty() =~= m);
        },
    }
    if models.len() == 0 {
        models.push(owned("qwen/qwen3-235b-a22b:free"));
        assert(strs(models@) =~= seq!["qwen/qwen3-235b-a22b:free"@]);
    }
    let base = match config.get_ai_base_url() { Some(b) => Some(owned(b)), None => None };
    Some(provider_settings(owned(key), Some(models), base))
}

/// Whether a provider with this key can be asked at all.
pub fn provider_available(api_key: &str) -> (b: bool)
    ensures
        b == (api_key@.len() > 0),
{
    char_count(api_key) > 0
}

/// The messages of a completion request: the system prompt where it is not empty, then the
/// user's prompt, each as its role and text.
pub fn completion_messages(system: &str, user: &str) -> (r: Vec<(String, String)>)
    ensures
        system@.len() > 0 ==> r@.len() == 2 && r@[0].0@ == "system"@ && r@[0].1@ == system@
            && r@[1].0@ == "user"@ && r@[1].1@ == user@,
        system@.len() == 0 ==> r@.len() == 1 && r@[0].0@ == "user"@ && r@[0].1@ == user@,
{
    let mut r: Vec<(String, String)> = Vec::new();
    if char_count(system) > 0 {
        r.push((owned("system"), owned(system)));
    }
    r.push((owned("user"), owned(user)));
    r
}

/// Reads a completion: the error the API reported, no choices, an empty list of choices,
/// or the first choice's text.
pub fn read_completion(error: Option<String>, choices: Option<Vec<String>>) -> (r: Result<String, String>)
    ensures
        match error {
            Some(m) => r matches Err(e) && e@ == "API error: "@ + m@,
            None => match choices {
                None => r matches Err(e) && e@ == "No choices in response"@,
                Some(c) => if c@.len() == 0 {
                    r matches Err(e) && e@ == "Empty choices array"@
                } else {
                    r matches Ok(t) && t@ == c@[0]@
                },
            },
        },
{
    match error {
        Some(m) => Err(concat2("API error: ", m.as_str())),
        None => match choices {
            None => Err(owned("No choices in response")),
            Some(c) => if c.len() == 0 {
                Err(owned("Empty choices array"))
            } else {
                Ok(owned(c[0].as_str()))
            },
        },
    }
}

/// The error once every model failed: each `<model>: <error>`, separated by `; `.
pub fn completion_failed(errors: &Vec<String>) -> (r: String)
    ensures
        r@ == "All models failed: "@ + join(views(errors@), "; "@),
{
    concat2("All models failed: ", join_strings(errors, "; ").as_str())
}

/// A search result handed to the summarizer.
#[derive(Debug, Clone)]
pub struct SearchResult {
    pub title: String,
    pub url: String,
    pub description: String,
    pub source: String,
}

/// How one result is shown to the model.
pub open spec fn result_block(i: int, r: SearchResult) -> Seq<char> {
    "Result "@ + decimal((i + 1) as nat) + ":\n"@ + "Title: "@ + r.title@ + "\n"@ + "Source: "@ + r.source@ + "\n"@
        + (if r.description@.len() > 0 { "Description: "@ + r.description@ + "\n"@ } else { Seq::empty() }) + "\n"@
}

/// The instructions for summarising search results.
pub open spec fn search_system_prompt() -> Seq<char> {
    "You are a helpful research assistant. Analyze the search results and provide a concise summary.\nYour summary should:\n1. Identify the main themes or findings across results\n2. Highlight the most relevant information for the query\n3. Note any conflicting information if present\n4. Be 2-4 sentences long\n5. Be objective and factual\n\nDo NOT include phrases like \"Based on the search results\" or \"The results show\". Just provide the summary directly."@
}

/// The request for summarising search results: the first ten results under the query.
pub open spec fn search_user_prompt(query: Seq<char>, results: Seq<SearchResult>) -> Seq<char> {
    let shown = first_n(results, 10);
    "Query: "@ + query + "\n\nSearch Results:\n"@ + join(Seq::new(shown.len(), |i: int| result_block(i, shown[i])), ""@)
        + "\n\nProvide a brief summary of the key information from these results."@
}

/// The system and user prompts for summarising search results; an error where there are none.
pub fn summarize_search_prompts(query: &str, results: &Vec<SearchResult>) -> (r: Result<(String, String), String>)
    ensures
        results@.len() == 0 ==> (r matches Err(e) && e@ == "No results to summarize"@),
        results@.len() > 0 ==> (r matches Ok(p) && p.0@ == search_system_prompt()
            && p.1@ == search_user_prompt(query@, results@)),
{
    if results.len() == 0 {
        return Err(owned("No results to summarize"));
    }
    let n = if results.len() <= 10 { results.len() } else { 10 };
    let ghost shown = first_n(results@, 10);
    let mut blocks: Vec<String> = Vec::new();
    let mut i: usize = 0;
    while i < n
        invariant
            n == shown.len(),
            shown == first_n(results@, 10),
            i <= n,
            views(blocks@) == Seq::new(i as nat, |k: int| result_block(k, shown[k])),
        decreases n - i,
    {
        let res = &results[i];
        let mut b = concat3("Result ", usize_to_string(i + 1).as_str(), ":\n");
        b.append("Title: ");
        b.append(res.title.as_str());
        b.append("\n");
        b.append("Source: ");
        b.append(res.source.as_str());
        b.append("\n");
        if char_count(res.description.as_str()) > 0 {
            b.append("Description: ");
            b.append(res.description.as_str());
            b.append("\n");
        }
        b.append("\n");
        assert(shown[i as int] == results@[i as int]);
        assert(b@ =~= result_block(i as int, shown[i as int]));
        let ghost before = blocks@;
        blocks.push(b);
        proof {
            assert(views(blocks@) =~= views(before).push(result_block(i as int, shown[i as int])));
            assert(views(blocks@) =~= Seq::new((i + 1) as nat, |k: int| result_block(k, shown[k])));
        }
        i = i + 1;
    }
    let mut user = concat3("Query: ", query, "\n\nSearch Results:\n");
    user.append(join_strings(&blocks, "").as_str());
    user.append("\n\nProvide a brief summary of the key information from these results.");
    let system = owned("You are a helpful research assistant. Analyze the search results and provide a concise summary.\nYour summary should:\n1. Identify the main themes or findings across results\n2. Highlight the most relevant information for the query\n3. Note any conflicting information if present\n4. Be 2-4 sentences long\n5. Be objective and factual\n\nDo NOT include phrases like \"Based on the search results\" or \"The results show\". Just provide the summary directly.");
    Ok((system, user))
}

/// The content as the model sees it: its first 4000 bytes and `...` where it is longer.
pub open spec fn truncated(content: Seq<char>) -> Seq<char> {
    if byte_len(content) > 4000 { byte_prefix(content, 4000) + "..."@ } else { content }
}

/// Whether the cut at 4000 bytes falls on a character boundary (it panics otherwise).
pub open spec fn cuttable(content: Seq<char>) -> bool {
    byte_len(content) > 4000 ==> char_boundary(content, 4000)
}

/// The content as the model sees it: at most its first 4000 bytes, then `...` after a cut.
pub fn truncate_content(content: &str) -> (r: String)
    requires
        cuttable(content@),
    ensures
        r@ == truncated(content@),
{
    let v = chars_of(content);
    if longer_than_bytes(&v, 4000) {
        concat2(str_byte_prefix(content, 4000).as_str(), "...")
    } else {
        owned(content)
    }
}

/// The instructions for summarising a page.
pub open spec fn page_system_prompt() -> Seq<char> {
    "You are a helpful assistant that summarizes web pages. Provide a clear, concise summary that captures the main points.\nYour summary should:\n1. Be 3-5 sentences long\n2. Focus on the key information and main points\n3. Be objective and factual\n4. Not include any meta-commentary about the summarization process"@
}

/// The system and user prompts for summarising a page.
pub fn summarize_page_prompts(title: &str, url: &str, content: &str) -> (r: (String, String))
    requires
        cuttable(content@),
    ensures
        r.0@ == page_system_prompt(),
        r.1@ == "Title: "@ + title@ + "\nURL: "@ + url@ + "\n\nContent:\n"@ + truncated(content@) + "\n\nSummarize this page."@,
{
    let t = truncate_content(content);
    let mut user = concat3("Title: ", title, "\nURL: ");
    user.append(url);
    user.append("\n\nContent:\n");
    user.append(t.as_str());
    user.append("\n\nSummarize this page.");
    (owned("You are a helpful assistant that summarizes web pages. Provide a clear, concise summary that captures the main points.\nYour summary should:\n1. Be 3-5 sentences long\n2. Focus on the key information and main points\n3. Be objective and factual\n4. Not include any meta-commentary about the summarization process"), user)
}

/// The instructions for answering from content.
pub open spec fn answer_system_prompt() -> Seq<char> {
    "You are a helpful assistant that answers questions based on provided content.\nAnswer the question using only information from the given content.\nIf the answer cannot be found in the content, say so clearly.\nKeep your answer concise and direct."@
}

/// The system and user prompts for answering a question about content.
pub fn answer_question_prompts(content: &str, question: &str) -> (r: (String, String))
    requires
        cuttable(content@),
    ensures
        r.0@ == answer_system_prompt(),
        r.1@ == "Content:\n"@ + truncated(content@) + "\n\nQuestion: "@ + question@,
{
    let t = truncate_content(content);
    let mut user = concat3("Content:\n", t.as_str(), "\n\nQuestion: ");
    user.append(question);
    (owned("You are a helpful assistant that answers questions based on provided content.\nAnswer the question using only information from the given content.\nIf the answer cannot be found in the content, say so clearly.\nKeep your answer concise and direct."), user)
}

/// How many key points are asked for: five where none is said.
pub open spec fn point_count(count: usize) -> nat {
    if count == 0 { 5 } else { count as nat }
}

/// The instructions for extracting key points.
pub open spec fn key_points_prompt(count: nat) -> Seq<char> {
    "Extract exactly "@ + decimal(count) + " key points from the given content.\nFormat your response as a numbered list, one point per line.\nEach point should be a single, clear sentence.\nExample format:\n1. First key point\n2. Second key point\n..."@
}

/// The system prompt and the (cut) content for extracting key points.
pub fn key_points_prompts(content: &str, count: usize) -> (r: (String, String))
    requires
        cuttable(content@),
    ensures
        r.0@ == key_points_prompt(point_count(count)),
        r.1@ == truncated(content@),
{
    let n: usize = if count == 0 { 5 } else { count };
    let system = concat3("Extract exactly ", usize_to_string(n).as_str(), " key points from the given content.\nFormat your response as a numbered list, one point per line.\nEach point should be a single, clear sentence.\nExample format:\n1. First key point\n2. Second key point\n...");
    (system, truncate_content(content))
}

/// A line without its list number: a digit, `.` or `)`, and a space.
pub open spec fn strip_number(l: Seq<char>) -> Seq<char> {
    if l.len() >= 3 && is_ascii_digit(l[0]) && (l[1] == '.' || l[1] == ')') && l[2] == ' ' {
        l.skip(3)
    } else {
        l
    }
}

/// The points in a reply: its lines trimmed, the empty ones left out, each without its list
/// number.
pub open spec fn reply_points(ls: Seq<Seq<char>>) -> Seq<Seq<char>>
    decreases ls.len(),
{
    if ls.len() == 0 {
        Seq::empty()
    } else {
        let t = trim(ls.last());
        reply_points(ls.drop_last()) + if t.len() > 0 { seq![strip_number(t)] } else { Seq::empty() }
    }
}

fn strip_number_of(l: &str) -> (r: String)
    ensures
        r@ == strip_number(l@),
{
    let v = chars_of(l);
    if v.len() >= 3 && '0' <= v[0] && v[0] <= '9' && (v[1] == '.' || v[1] == ')') && v[2] == ' ' {
        crate::text::string_from(&v, 3, v.len())
    } else {
        owned(l)
    }
}

/// The key points of the model's reply: at most `count` (five where none is said) of its
/// non-empty trimmed lines, in order, each without its list number.
pub fn parse_key_points(response: &str, count: usize) -> (r: Vec<String>)
    ensures
        views(r@) == first_n(reply_points(lines(response@)), point_count(count)),
{
    let n: usize = if count == 0 { 5 } else { count };
    let ls = str_lines(response);
    let mut all: Vec<String> = Vec::new();
    let mut i: usize = 0;
    while i < ls.len()
        invariant
            i <= ls@.len(),
            views(ls@) == lines(response@),
            views(all@) == reply_points(views(ls@).take(i as int)),
        decreases ls.len() - i,
    {
        let t = trim_str(ls[i].as_str());
        proof {
            assert(views(ls@).take(i + 1).drop_last() =~= views(ls@).take(i as int));
            assert(views(ls@).take(i + 1).last() == ls@[i as int]@);
        }
        if char_count(t.as_str()) > 0 {
            let p = strip_number_of(t.as_str());
            let ghost before = all@;
            all.push(p);
            assert(views(all@) =~= views(before) + seq![p@]);
        } else {
            assert(views(all@) =~= views(all@) + Seq::<Seq<char>>::empty());
        }
        i = i + 1;
    }
    assert(views(ls@).take(ls@.len() as int) =~= views(ls@));
    let k = if all.len() <= n { all.len() } else { n };
    let mut r: Vec<String> = Vec::new();
    let mut j: usize = 0;
    while j < k
        invariant
            j <= k,
            k == first_n(views(all@), n as nat).len(),
            views(r@) == views(all@).take(j as int),
        decreases k - j,
    {
        let ghost before = r@;
        r.push(owned(all[j].as_str()));
        assert(views(r@) =~= views(before).push(all@[j as int]@));
        assert(views(all@).take(j + 1) =~= views(all@).take(j as int).push(all@[j as int]@));
        j = j + 1;
    }
    assert(views(r@) =~= first_n(views(all@), n as nat));
    r
}

} // verus!
