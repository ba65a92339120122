//! The assistant's side of the browser: the tools it is offered, what a tool call asks of
//! the browser, and the text that goes back and forth around the model.
use vstd::prelude::*;
use crate::text::{owned, concat2, concat3, usize_to_string, i64_to_string, decimal, signed_decimal, join, views, join_strings, str_eq, char_count};
use crate::json::{json_str_at, json_int_at, json_bool_at, json_str_field, json_int_field, json_bool_field};
use crate::app::ToolAction;
use crate::chat::{ChatMessage, Role};
use crate::text::{contains, lines, str_lines, str_contains, byte_len, char_boundary, byte_prefix, chars_of, longer_than_bytes, str_byte_prefix};
use crate::chat::first_n;
use crate::text::{split_pieces, split_str, find, vec_find, trim, trim_str, starts_with, str_starts_with, string_from};
use crate::browser::strs;

verus! {

/// What a function tool is: its name, what it does, and the JSON schema of its parameters.
#[derive(Debug, Clone)]
pub struct FunctionDefinition {
    pub name: String,
    pub description: String,
    pub parameters: String,
}

/// A tool offered to the model.
#[derive(Debug, Clone)]
pub struct ToolDefinition {
    pub tool_type: String,
    pub function: FunctionDefinition,
}

/// The JSON text of an object schema with the named properties (each given by the JSON
/// text of its own schema) and the required property names.
pub open spec fn schema_text(names: Seq<Seq<char>>, bodies: Seq<Seq<char>>, required: Seq<Seq<char>>) -> Seq<
    char,
> {
    "{\"type\":\"object\",\"properties\":{"@ + join(property_entries(names, bodies), ","@)
        + "},\"required\":["@ + join(quoted_all(required), ","@) + "]}"@
}

/// `"name":body` for each property.
pub open spec fn property_entries(names: Seq<Seq<char>>, bodies: Seq<Seq<char>>) -> Seq<Seq<char>> {
    Seq::new(names.len(), |j: int| "\""@ + names[j] + "\":"@ + bodies[j])
}

/// Each name in double quotes.
pub open spec fn quoted_all(names: Seq<Seq<char>>) -> Seq<Seq<char>> {
    Seq::new(names.len(), |j: int| "\""@ + names[j] + "\""@)
}

/// Name and description of the tool at position `i` of the offer.
pub open spec fn tool_head(i: int) -> (Seq<char>, Seq<char>) {
    if i == 0 {
        ("exa_search"@,
         "Search the web using Exa AI-powered search. Best for finding high-quality, relevant content. Use this as the primary search tool."@)
    } else if i == 1 {
        ("brave_search"@, "Search the web using Brave Search API. Use as fallback if Exa is unavailable."@)
    } else if i == 2 {
        ("rag_query"@,
         "Query the local knowledge base (home-rag) for information from ingested documents. Use this for questions about local documentation, code, or previously saved content."@)
    } else if i == 3 {
        ("navigate"@, "Navigate to a URL or search query"@)
    } else if i == 4 {
        ("follow_link"@, "Follow a link by its number (1-indexed)"@)
    } else if i == 5 {
        ("scroll"@, "Scroll the page content"@)
    } else if i == 6 {
        ("get_page_content"@, "Get the full content of the current page"@)
    } else {
        ("list_links"@, "List all links on the current page"@)
    }
}

/// The parameter names of the tool at position `i`, with the JSON text of each one's
/// schema.
pub open spec fn tool_params(i: int) -> (Seq<Seq<char>>, Seq<Seq<char>>) {
    if i == 0 {
        (seq!["query"@, "num_results"@, "use_autoprompt"@], seq![
            "{\"type\":\"string\",\"description\":\"The search query - can be a question or keywords\"}"@,
            "{\"type\":\"integer\",\"description\":\"Number of results to return (default 5, max 10)\"}"@,
            "{\"type\":\"boolean\",\"description\":\"Let Exa enhance the query for better results (default true)\"}"@,
        ])
    } else if i == 1 {
        (seq!["query"@, "count"@], seq![
            "{\"type\":\"string\",\"description\":\"The search query\"}"@,
            "{\"type\":\"integer\",\"description\":\"Number of results to return (default 5, max 20)\"}"@,
        ])
    } else if i == 2 {
        (seq!["query"@, "top_k"@], seq![
            "{\"type\":\"string\",\"description\":\"The question or search query\"}"@,
            "{\"type\":\"integer\",\"description\":\"Number of sources to retrieve (default 5)\"}"@,
        ])
    } else if i == 3 {
        (seq!["url"@], seq!["{\"type\":\"string\",\"description\":\"URL to navigate to or search query\"}"@])
    } else if i == 4 {
        (seq!["link_number"@], seq![
            "{\"type\":\"integer\",\"description\":\"Link number to follow (starting from 1)\"}"@,
        ])
    } else if i == 5 {
        (seq!["direction"@, "amount"@], seq![
            "{\"type\":\"string\",\"enum\":[\"up\",\"down\",\"top\",\"bottom\"],\"description\":\"Direction to scroll\"}"@,
            "{\"type\":\"integer\",\"description\":\"Number of lines to scroll (default 5)\"}"@,
        ])
    } else {
        (seq![], seq![])
    }
}

/// The required parameters of the tool at position `i`.
pub open spec fn tool_required(i: int) -> Seq<Seq<char>> {
    if 0 <= i <= 2 {
        seq!["query"@]
    } else if i == 3 {
        seq!["url"@]
    } else if i == 4 {
        seq!["link_number"@]
    } else if i == 5 {
        seq!["direction"@]
    } else {
        seq![]
    }
}

/// Name, description and parameter schema of the tool at position `i` of the offer.
pub open spec fn tool_spec(i: int) -> (Seq<char>, Seq<char>, Seq<char>) {
    (tool_head(i).0, tool_head(i).1, schema_text(tool_params(i).0, tool_params(i).1, tool_required(i)))
}

/// Whether `t` is the offered tool at position `i`.
pub open spec fn is_tool(t: ToolDefinition, i: int) -> bool {
    &&& t.tool_type@ == "function"@
    &&& (t.function.name@, t.function.description@, t.function.parameters@) == tool_spec(i)
}

/// The JSON text of an object schema, as `schema_text` says.
fn schema_json(names: &Vec<String>, bodies: &Vec<String>, required: &Vec<String>) -> (r: String)
    requires
        names.len() == bodies.len(),
    ensures
        r@ == schema_text(views(names@), views(bodies@), views(required@)),
{
    let mut entries: Vec<String> = Vec::new();
    let mut j: usize = 0;
    while j < names.len()
        invariant
            j <= names.len(),
            names.len() == bodies.len(),
            entries.len() == j,
            views(entries@) == property_entries(views(names@), views(bodies@)).take(j as int),
        decreases names.len() - j,
    {
        let mut e = concat3("\"", names[j].as_str(), "\":");
        crate::text::push_str(&mut e, bodies[j].as_str());
        let ghost ev = e@;
        entries.push(e);
        proof {
            assert(views(names@)[j as int] == names@[j as int]@);
            assert(views(bodies@)[j as int] == bodies@[j as int]@);
            assert(views(entries@)[j as int] == ev);
            assert(ev == property_entries(views(names@), views(bodies@))[j as int]);
            assert(views(entries@) =~= property_entries(views(names@), views(bodies@)).take(j + 1));
        }
        j += 1;
    }
    assert(property_entries(views(names@), views(bodies@)).take(j as int) =~= property_entries(
        views(names@),
        views(bodies@),
    ));
    let mut quoted: Vec<String> = Vec::new();
    let mut k: usize = 0;
    while k < required.len()
        invariant
            k <= required.len(),
            quoted.len() == k,
            views(quoted@) == quoted_all(views(required@)).take(k as int),
        decreases required.len() - k,
    {
        let q = concat3("\"", required[k].as_str(), "\"");
        let ghost qv = q@;
        quoted.push(q);
        proof {
            assert(views(required@)[k as int] == required@[k as int]@);
            assert(views(quoted@)[k as int] == qv);
            assert(qv == quoted_all(views(required@))[k as int]);
            assert(views(quoted@) =~= quoted_all(views(required@)).take(k + 1));
        }
        k += 1;
    }
    assert(quoted_all(views(required@)).take(k as int) =~= quoted_all(views(required@)));
    let mut r = owned("{\"type\":\"object\",\"properties\":{");
    crate::text::push_str(&mut r, join_strings(&entries, ",").as_str());
    crate::text::push_str(&mut r, "},\"required\":[");
    crate::text::push_str(&mut r, join_strings(&quoted, ",").as_str());
    crate::text::push_str(&mut r, "]}");
    r
}

fn function_tool(name: &str, description: &str, names: Vec<String>, bodies: Vec<String>, required: Vec<String>) -> (t: ToolDefinition)
    requires
        names.len() == bodies.len(),
    ensures
        t.tool_type@ == "function"@,
        t.function.name@ == name@,
        t.function.description@ == description@,
        t.function.parameters@ == schema_text(views(names@), views(bodies@), views(required@)),
{
    ToolDefinition {
        tool_type: owned("function"),
        function: FunctionDefinition {
            name: owned(name),
            description: owned(description),
            parameters: schema_json(&names, &bodies, &required),
        },
    }
}

/// The tools offered to the model: web search through Exa and Brave, the local knowledge
/// base, navigation, following a link, scrolling, and reading the page and its links.
pub fn get_browser_tools() -> (r: Vec<ToolDefinition>)
    ensures
        r@.len() == 8,
        forall|i: int| 0 <= i < 8 ==> #[trigger] is_tool(r@[i], i),
{
    let mut r: Vec<ToolDefinition> = Vec::new();
    let names = vec![owned("query"), owned("num_results"), owned("use_autoprompt")];
    let bodies = vec![
        owned("{\"type\":\"string\",\"description\":\"The search query - can be a question or keywords\"}"),
        owned("{\"type\":\"integer\",\"description\":\"Number of results to return (default 5, max 10)\"}"),
        owned("{\"type\":\"boolean\",\"description\":\"Let Exa enhance the query for better results (default true)\"}"),
    ];
    assert(views(names@) =~= tool_params(0).0 && views(bodies@) =~= tool_params(0).1);
    let req = vec![owned("query")];
    assert(views(req@) =~= tool_required(0));
    r.push(function_tool("exa_search",
        "Search the web using Exa AI-powered search. Best for finding high-quality, relevant content. Use this as the primary search tool.",
        names, bodies, req));
    let names = vec![owned("query"), owned("count")];
    let bodies = vec![
        owned("{\"type\":\"string\",\"description\":\"The search query\"}"),
        owned("{\"type\":\"integer\",\"description\":\"Number of results to return (default 5, max 20)\"}"),
    ];
    assert(views(names@) =~= tool_params(1).0 && views(bodies@) =~= tool_params(1).1);
    let req = vec![owned("query")];
    assert(views(req@) =~= tool_required(1));
    r.push(function_tool("brave_search",
        "Search the web using Brave Search API. Use as fallback if Exa is unavailable.",
        names, bodies, req));
    let names = vec![owned("query"), owned("top_k")];
    let bodies = vec![
        owned("{\"type\":\"string\",\"description\":\"The question or search query\"}"),
        owned("{\"type\":\"integer\",\"description\":\"Number of sources to retrieve (default 5)\"}"),
    ];
    assert(views(names@) =~= tool_params(2).0 && views(bodies@) =~= tool_params(2).1);
    let req = vec![owned("query")];
    assert(views(req@) =~= tool_required(2));
    r.push(function_tool("rag_query",
        "Query the local knowledge base (home-rag) for information from ingested documents. Use this for questions about local documentation, code, or previously saved content.",
        names, bodies, req));
    let names = vec![owned("url")];
    let bodies = vec![owned("{\"type\":\"string\",\"description\":\"URL to navigate to or search query\"}")];
    assert(views(names@) =~= tool_params(3).0 && views(bodies@) =~= tool_params(3).1);
    let req = vec![owned("url")];
    assert(views(req@) =~= tool_required(3));
    r.push(function_tool("navigate", "Navigate to a URL or search query", names, bodies, req));
    let names = vec![owned("link_number")];
    let bodies = vec![owned("{\"type\":\"integer\",\"description\":\"Link number to follow (starting from 1)\"}")];
    assert(views(names@) =~= tool_params(4).0 && views(bodies@) =~= tool_params(4).1);
    let req = vec![owned("link_number")];
    assert(views(req@) =~= tool_required(4));
    r.push(function_tool("follow_link", "Follow a link by its number (1-indexed)", names, bodies, req));
    let names = vec![owned("direction"), owned("amount")];
    let bodies = vec![
        owned("{\"type\":\"string\",\"enum\":[\"up\",\"down\",\"top\",\"bottom\"],\"description\":\"Direction to scroll\"}"),
        owned("{\"type\":\"integer\",\"description\":\"Number of lines to scroll (default 5)\"}"),
    ];
    assert(views(names@) =~= tool_params(5).0 && views(bodies@) =~= tool_params(5).1);
    let req = vec![owned("direction")];
    assert(views(req@) =~= tool_required(5));
    r.push(function_tool("scroll", "Scroll the page content", names, bodies, req));
    let names: Vec<String> = Vec::new();
    let bodies: Vec<String> = Vec::new();
    let req: Vec<String> = Vec::new();
    assert(views(names@) =~= tool_params(6).0 && views(bodies@) =~= tool_params(6).1);
    assert(views(req@) =~= tool_required(6));
    r.push(function_tool("get_page_content", "Get the full content of the current page", names, bodies, req));
    let names: Vec<String> = Vec::new();
    let bodies: Vec<String> = Vec::new();
    let req: Vec<String> = Vec::new();
    assert(views(names@) =~= tool_params(7).0 && views(bodies@) =~= tool_params(7).1);
    assert(views(req@) =~= tool_required(7));
    r.push(function_tool("list_links", "List all links on the current page", names, bodies, req));
    assert(is_tool(r@[0], 0));
    assert(is_tool(r@[1], 1));
    assert(is_tool(r@[2], 2));
    assert(is_tool(r@[3], 3));
    assert(is_tool(r@[4], 4));
    assert(is_tool(r@[5], 5));
    assert(is_tool(r@[6], 6));
    assert(is_tool(r@[7], 7));
    r
}

/// Every required parameter of an offered tool is one of its properties, every tool has
/// at most one required parameter, and the tools' names are pairwise distinct.
pub proof fn law_tool_schemas(i: int, j: int)
    requires
        0 <= i < 8,
        0 <= j < 8,
    ensures
        tool_params(i).0.len() == tool_params(i).1.len(),
        forall|k: int|
            0 <= k < tool_required(i).len() ==> tool_params(i).0.contains(#[trigger] tool_required(i)[k]),
        i != j ==> tool_head(i).0 != tool_head(j).0,
{
    reveal_strlit("exa_search");
    reveal_strlit("brave_search");
    reveal_strlit("rag_query");
    reveal_strlit("navigate");
    reveal_strlit("follow_link");
    reveal_strlit("scroll");
    reveal_strlit("get_page_content");
    reveal_strlit("list_links");
    if tool_required(i).len() > 0 {
        assert(tool_params(i).0[0] == tool_required(i)[0]);
    }
    assert(tool_head(0).0[0] == 'e' && tool_head(1).0[0] == 'b' && tool_head(2).0[0] == 'r'
        && tool_head(3).0[0] == 'n' && tool_head(4).0[0] == 'f' && tool_head(5).0[0] == 's'
        && tool_head(6).0[0] == 'g' && tool_head(7).0[0] == 'l');
}

/// What a tool call can see of the browser: the page's title, address, text and links
/// (each link as its text and address).
#[derive(Debug, Clone)]
pub struct ToolContext {
    pub title: String,
    pub url: String,
    pub content: String,
    pub links: Vec<(String, String)>,
}

/// A search that a tool call asks for, with its arguments settled.
#[derive(Debug, Clone)]
pub enum SearchCall {
    Exa { query: String, num_results: usize, use_autoprompt: bool },
    Rag { query: String, top_k: usize },
    Brave { query: String, count: usize },
}

/// What answering a tool call takes: a reply at once; an action for the browser and the
/// reply that reports it; or a search, whose outcome `search_reply` turns into the reply.
#[derive(Debug, Clone)]
pub enum ToolPlan {
    Answer(String),
    Act(ToolAction, String),
    Search(SearchCall),
}

/// `n` held between `lo` and `hi`.
pub open spec fn clamp(n: int, lo: int, hi: int) -> int {
    if n > hi { if hi < lo { lo } else { hi } } else if n < lo { lo } else { n }
}

/// `<n>. <text> (<url>)`, numbering from one.
pub open spec fn link_entry(i: int, l: (String, String)) -> Seq<char> {
    decimal((i + 1) as nat) + ". "@ + l.0@ + " ("@ + l.1@ + ")"@
}

/// The reply that reports a missing parameter.
pub open spec fn missing(param: Seq<char>) -> Seq<char> {
    "Error: Missing '"@ + param + "' parameter"@
}

/// Whether `p` is the plan for the tool `name` called with the JSON arguments `args`.
pub open spec fn planned(name: Seq<char>, args: Seq<char>, ctx: ToolContext, p: ToolPlan) -> bool {
    if name == "exa_search"@ {
        match json_str_at(args, "query"@) {
            Some(q) => p matches ToolPlan::Search(SearchCall::Exa { query, num_results, use_autoprompt })
                && query@ == q
                && num_results == clamp((match json_int_at(args, "num_results"@) { Some(n) => n, None => 5 }) as usize as int, 1, 10)
                && use_autoprompt == match json_bool_at(args, "use_autoprompt"@) { Some(b) => b, None => true },
            None => p matches ToolPlan::Answer(t) && t@ == missing("query"@),
        }
    } else if name == "rag_query"@ {
        match json_str_at(args, "query"@) {
            Some(q) => p matches ToolPlan::Search(SearchCall::Rag { query, top_k })
                && query@ == q
                && top_k == (match json_int_at(args, "top_k"@) { Some(n) => n, None => 5 }) as usize,
            None => p matches ToolPlan::Answer(t) && t@ == missing("query"@),
        }
    } else if name == "brave_search"@ {
        match json_str_at(args, "query"@) {
            Some(q) => p matches ToolPlan::Search(SearchCall::Brave { query, count })
                && query@ == q
                && count == clamp((match json_int_at(args, "count"@) { Some(n) => n, None => 5 }) as usize as int, 1, 20),
            None => p matches ToolPlan::Answer(t) && t@ == missing("query"@),
        }
    } else if name == "navigate"@ {
        match json_str_at(args, "url"@) {
            Some(u) => p matches ToolPlan::Act(ToolAction::Navigate(v), t) && v@ == u
                && t@ == "Navigating to: "@ + u,
            None => p matches ToolPlan::Answer(t) && t@ == missing("url"@),
        }
    } else if name == "follow_link"@ {
        match json_int_at(args, "link_number"@) {
            Some(n) => if 1 <= n && n - 1 < ctx.links@.len() {
                p matches ToolPlan::Act(ToolAction::FollowLink(idx), t) && idx == n - 1
                    && t@ == "Following link "@ + signed_decimal(n as int)
            } else {
                p matches ToolPlan::Answer(t) && t@ == "Error: Link "@ + signed_decimal(n as int)
                    + " not found. Available links: 1-"@ + decimal(ctx.links@.len())
            },
            None => p matches ToolPlan::Answer(t) && t@ == missing("link_number"@),
        }
    } else if name == "scroll"@ {
        let d = match json_str_at(args, "direction"@) { Some(d) => d, None => "down"@ };
        let a = (match json_int_at(args, "amount"@) { Some(n) => n, None => 5 }) as usize;
        p matches ToolPlan::Act(ToolAction::Scroll { direction, amount }, t)
            && direction@ == d && amount == a
            && t@ == "Scrolling "@ + d + " by "@ + decimal(a as nat) + " lines"@
    } else if name == "get_page_content"@ {
        p matches ToolPlan::Answer(t) && t@ == if ctx.content@.len() == 0 {
            "No page currently loaded."@
        } else {
            "Page content:\n"@ + ctx.content@
        }
    } else if name == "list_links"@ {
        p matches ToolPlan::Answer(t) && t@ == if ctx.links@.len() == 0 {
            "No links on current page."@
        } else {
            "Links on page:\n"@ + join(Seq::new(ctx.links@.len(), |i: int| link_entry(i, ctx.links@[i])), "\n"@)
        }
    } else {
        p matches ToolPlan::Answer(t) && t@ == "Unknown tool: "@ + name
    }
}

/// A scroll call scrolls in the direction its arguments give, and down only when they
/// give none; the report names that direction.
pub proof fn law_scroll_goes_where_asked(args: Seq<char>, ctx: ToolContext, p: ToolPlan)
    requires
        planned("scroll"@, args, ctx, p),
    ensures
        p matches ToolPlan::Act(ToolAction::Scroll { direction, amount }, t) && {
            &&& (json_str_at(args, "direction"@) matches Some(d) ==> direction@ == d)
            &&& (json_str_at(args, "direction"@) is None ==> direction@ == "down"@)
            &&& t@.subrange(0, 10 + direction@.len() as int) == "Scrolling "@ + direction@
        },
{
    reveal_strlit("scroll");
    reveal_strlit("exa_search");
    reveal_strlit("rag_query");
    reveal_strlit("brave_search");
    reveal_strlit("navigate");
    reveal_strlit("follow_link");
    reveal_strlit("Scrolling ");
    assert("scroll"@[0] == 's' && "exa_search"@[0] == 'e' && "rag_query"@[0] == 'r' && "brave_search"@[0]
        == 'b' && "navigate"@[0] == 'n' && "follow_link"@[0] == 'f');
    if let ToolPlan::Act(ToolAction::Scroll { direction, amount }, t) = p {
        let d = direction@;
        assert(t@.subrange(0, 10 + d.len() as int) =~= "Scrolling "@ + d);
    }
}

fn clamp_usize(n: usize, lo: usize, hi: usize) -> (r: usize)
    ensures
        r == clamp(n as int, lo as int, hi as int),
{
    let m = if n < hi { n } else { hi };
    if m > lo { m } else { lo }
}

/// The numbered list of the page's links.
fn links_listing(links: &Vec<(String, String)>) -> (r: String)
    ensures
        r@ == join(Seq::new(links@.len(), |i: int| link_entry(i, links@[i])), "\n"@),
{
    let mut lines: Vec<String> = Vec::new();
    let mut i: usize = 0;
    while i < links.len()
        invariant
            i <= links@.len(),
            views(lines@) == Seq::new(i as nat, |k: int| link_entry(k, links@[k])),
        decreases links.len() - i,
    {
        let mut line = usize_to_string(i + 1);
        line.append(". ");
        line.append(links[i].0.as_str());
        line.append(" (");
        line.append(links[i].1.as_str());
        line.append(")");
        let ghost before = lines@;
        lines.push(line);
        proof {
            assert(views(lines@) =~= views(before).push(link_entry(i as int, links@[i as int])));
            assert(views(lines@) =~= Seq::new((i + 1) as nat, |k: int| link_entry(k, links@[k])));
        }
        i = i + 1;
    }
    join_strings(&lines, "\n")
}

/// What answering the tool call `name`, with the JSON arguments `arguments`, takes: a
/// search with its settled arguments, a browser action with its report, or a reply
/// (an error where a required argument is missing or a link number is out of range).
pub fn plan_tool_call(name: &str, arguments: &str, context: &ToolContext) -> (p: ToolPlan)
    ensures
        planned(name@, arguments@, *context, p),
{
    if str_eq(name, "exa_search") {
        match json_str_field(arguments, "query") {
            Some(q) => {
                let n = match json_int_field(arguments, "num_results") { Some(n) => n, None => 5 };
                let auto = match json_bool_field(arguments, "use_autoprompt") { Some(b) => b, None => true };
                ToolPlan::Search(SearchCall::Exa { query: q, num_results: clamp_usize(#[verifier::truncate] (n as usize), 1, 10), use_autoprompt: auto })
            },
            None => ToolPlan::Answer(concat3("Error: Missing '", "query", "' parameter")),
        }
    } else if str_eq(name, "rag_query") {
        match json_str_field(arguments, "query") {
            Some(q) => {
                let k = match json_int_field(arguments, "top_k") { Some(n) => n, None => 5 };
                ToolPlan::Search(SearchCall::Rag { query: q, top_k: #[verifier::truncate] (k as usize) })
            },
            None => ToolPlan::Answer(concat3("Error: Missing '", "query", "' parameter")),
        }
    } else if str_eq(name, "brave_search") {
        match json_str_field(arguments, "query") {
            Some(q) => {
                let c = match json_int_field(arguments, "count") { Some(n) => n, None => 5 };
                ToolPlan::Search(SearchCall::Brave { query: q, count: clamp_usize(#[verifier::truncate] (c as usize), 1, 20) })
            },
            None => ToolPlan::Answer(concat3("Error: Missing '", "query", "' parameter")),
        }
    } else if str_eq(name, "navigate") {
        match json_str_field(arguments, "url") {
            Some(u) => {
                let t = concat2("Navigating to: ", u.as_str());
                ToolPlan::Act(ToolAction::Navigate(u), t)
            },
            None => ToolPlan::Answer(concat3("Error: Missing '", "url", "' parameter")),
        }
    } else if str_eq(name, "follow_link") {
        match json_int_field(arguments, "link_number") {
            Some(n) => {
                if 1 <= n && ((n - 1) as u64) < (context.links.len() as u64) {
                    let t = concat2("Following link ", i64_to_string(n).as_str());
                    ToolPlan::Act(ToolAction::FollowLink((n - 1) as usize), t)
                } else {
                    let mut t = concat3("Error: Link ", i64_to_string(n).as_str(), " not found. Available links: 1-");
                    t.append(usize_to_string(context.links.len()).as_str());
                    ToolPlan::Answer(t)
                }
            },
            None => ToolPlan::Answer(concat3("Error: Missing '", "link_number", "' parameter")),
        }
    } else if str_eq(name, "scroll") {
        let d = match json_str_field(arguments, "direction") { Some(d) => d, None => owned("down") };
        let a = match json_int_field(arguments, "amount") { Some(n) => n, None => 5 };
        let amount = #[verifier::truncate] (a as usize);
        let mut t = concat3("Scrolling ", d.as_str(), " by ");
        t.append(usize_to_string(amount).as_str());
        t.append(" lines");
        ToolPlan::Act(ToolAction::Scroll { direction: d, amount }, t)
    } else if str_eq(name, "get_page_content") {
        if char_count(context.content.as_str()) == 0 {
            ToolPlan::Answer(owned("No page currently loaded."))
        } else {
            ToolPlan::Answer(concat2("Page content:\n", context.content.as_str()))
        }
    } else if str_eq(name, "list_links") {
        if context.links.len() == 0 {
            ToolPlan::Answer(owned("No links on current page."))
        } else {
            ToolPlan::Answer(concat2("Links on page:\n", links_listing(&context.links).as_str()))
        }
    } else {
        ToolPlan::Answer(concat2("Unknown tool: ", name))
    }
}

/// The reply to a tool call that asked for a search, given what the search gave back:
/// its text, or its error under a prefix that names the search.
pub fn search_reply(call: &SearchCall, outcome: Result<String, String>) -> (r: String)
    ensures
        r@ == match outcome {
            Ok(t) => t@,
            Err(e) => match call {
                SearchCall::Exa { .. } => "Exa search error: "@ + e@,
                SearchCall::Rag { .. } => "RAG error: "@ + e@,
                SearchCall::Brave { .. } => "Search error: "@ + e@,
            },
        },
{
    match outcome {
        Ok(t) => t,
        Err(e) => match call {
            SearchCall::Exa { .. } => concat2("Exa search error: ", e.as_str()),
            SearchCall::Rag { .. } => concat2("RAG error: ", e.as_str()),
            SearchCall::Brave { .. } => concat2("Search error: ", e.as_str()),
        },
    }
}

/// `<open>\n<body>\n<close>`.
pub open spec fn wrapped_in(open: Seq<char>, body: Seq<char>, close: Seq<char>) -> Seq<char> {
    open + "\n"@ + body + "\n"@ + close
}

/// Whether knowledge-base text is worth handing to the model in a chat: not empty and not
/// a report that the service is unavailable.
pub open spec fn rag_usable(rag: Seq<char>) -> bool {
    rag.len() > 0 && !contains(rag, "unavailable"@)
}

/// What goes before the user's question: the page, the knowledge-base text and the web
/// results, each where there is any.
pub open spec fn context_parts(page: Seq<char>, rag: Seq<char>, web: Seq<char>) -> Seq<Seq<char>> {
    let a: Seq<Seq<char>> = if page.len() > 0 { seq![page] } else { Seq::empty() };
    let b: Seq<Seq<char>> = if rag_usable(rag) { seq![wrapped_in("<rag_results>"@, rag, "</rag_results>"@)] } else { Seq::empty() };
    let c: Seq<Seq<char>> = if web.len() > 0 { seq![wrapped_in("<web_search>"@, web, "</web_search>"@)] } else { Seq::empty() };
    a + b + c
}

/// The user's question with the context put before it, where there is any.
pub open spec fn enhanced_question(parts: Seq<Seq<char>>, question: Seq<char>) -> Seq<char> {
    if parts.len() == 0 {
        question
    } else {
        join(parts, "\n\n"@) + "\n\n**User Question:** "@ + question
    }
}

/// The context pieces, in order.
pub fn build_context_parts(page: &str, rag: &str, web: &str) -> (r: Vec<String>)
    ensures
        views(r@) == context_parts(page@, rag@, web@),
{
    let mut r: Vec<String> = Vec::new();
    let ghost a: Seq<Seq<char>> = if page@.len() > 0 { seq![page@] } else { Seq::empty() };
    if char_count(page) > 0 {
        r.push(owned(page));
    }
    assert(views(r@) =~= a);
    let ghost b: Seq<Seq<char>> = if rag_usable(rag@) { seq![wrapped_in("<rag_results>"@, rag@, "</rag_results>"@)] } else { Seq::empty() };
    if char_count(rag) > 0 && !str_contains(rag, "unavailable") {
        let mut t = concat3("<rag_results>", "\n", rag);
        t.append("\n");
        t.append("</rag_results>");
        let ghost before = r@;
        r.push(t);
        assert(views(r@) =~= views(before).push(t@));
    }
    assert(views(r@) =~= a + b);
    let ghost c: Seq<Seq<char>> = if web@.len() > 0 { seq![wrapped_in("<web_search>"@, web@, "</web_search>"@)] } else { Seq::empty() };
    if char_count(web) > 0 {
        let mut t = concat3("<web_search>", "\n", web);
        t.append("\n");
        t.append("</web_search>");
        let ghost before = r@;
        r.push(t);
        assert(views(r@) =~= views(before).push(t@));
    }
    assert(views(r@) =~= a + b + c);
    r
}

/// Puts the page, the knowledge-base text and the web results before the last message,
/// where that message is the user's; every other message, and every other field of the
/// last one, stays as it was.
pub fn enhance_last_question(messages: &mut Vec<ChatMessage>, page: &str, rag: &str, web: &str)
    ensures
        final(messages)@.len() == old(messages)@.len(),
        forall|i: int| 0 <= i < old(messages)@.len() - 1 ==> final(messages)@[i] == old(messages)@[i],
        old(messages)@.len() > 0 ==> {
            let o = old(messages)@.last();
            let m = final(messages)@.last();
            &&& m.role == o.role
            &&& m.timestamp == o.timestamp
            &&& m.tool_calls == o.tool_calls
            &&& m.content@ == if o.role == Role::User {
                enhanced_question(context_parts(page@, rag@, web@), o.content@)
            } else {
                o.content@
            }
        },
{
    if messages.len() == 0 {
        return;
    }
    let parts = build_context_parts(page, rag, web);
    let mut last = messages.pop().unwrap();
    if matches!(last.role, Role::User) {
        if parts.len() > 0 {
            let mut t = join_strings(&parts, "\n\n");
            t.append("\n\n**User Question:** ");
            t.append(last.content.as_str());
            last.content = t;
        }
    }
    messages.push(last);
}

/// Whether knowledge-base text counts as a source for research: not empty, not a report
/// that the service is unavailable, not a report that nothing was found.
pub open spec fn rag_found(rag: Seq<char>) -> bool {
    rag.len() > 0 && !contains(rag, "unavailable"@) && !contains(rag, "No sources found"@)
}

/// What the research panel shows when neither source gave anything.
pub open spec fn no_results_lines() -> Seq<Seq<char>> {
    seq!["# No Results Found"@, ""@, "Neither Exa nor RAG returned results for this query."@, ""@,
        "**Troubleshooting:**"@, "- Verify exa_api_key is in ~/.config/azul/config.json"@,
        "- Check home-rag: curl http://127.0.0.1:3002/health"@]
}

/// The sources, each under its heading, where there is any.
pub open spec fn sources_text(web: Seq<char>, rag: Seq<char>) -> Seq<char> {
    (if web.len() > 0 { "## Web Search Results (Exa)\n\n"@ + web + "\n\n"@ } else { Seq::empty() })
        + (if rag_found(rag) { "## Local Knowledge (RAG)\n\n"@ + rag } else { Seq::empty() })
}

/// What the model is asked to turn the sources into.
pub open spec fn synthesis_prompt(query: Seq<char>, sources: Seq<char>) -> Seq<char> {
    "You are a research assistant. Based on the sources below, provide a comprehensive answer.\n\n**User Question:** "@
        + query + "\n\n**Sources:**\n"@ + sources
        + "\n\n**Instructions:**\n1. Synthesize information from all sources into a clear, organized answer\n2. Use markdown formatting (headers, bullet points, bold)\n3. End with a Sources section listing URLs and document names\n4. If sources conflict, note the discrepancy\n5. Be comprehensive but concise"@
}

/// The next step of a research question: the panel's lines where there are no sources,
/// else the prompt that asks the model to answer from them.
#[derive(Debug, Clone)]
pub enum ResearchStep {
    Finished(Vec<String>),
    Synthesize(String),
}

fn push_view(v: &mut Vec<String>, s: &str)
    ensures
        views(final(v)@) == views(old(v)@).push(s@),
{
    let ghost before = v@;
    v.push(owned(s));
    assert(views(v@) =~= views(before).push(s@));
}

fn append_lines(v: &mut Vec<String>, text: &str)
    ensures
        views(final(v)@) == views(old(v)@) + lines(text@),
{
    let ls = str_lines(text);
    let ghost start = views(v@);
    let mut i: usize = 0;
    while i < ls.len()
        invariant
            i <= ls@.len(),
            views(ls@) == lines(text@),
            views(v@) == start + views(ls@).take(i as int),
        decreases ls.len() - i,
    {
        push_view(v, ls[i].as_str());
        assert(views(ls@).take(i as int + 1) =~= views(ls@).take(i as int).push(ls@[i as int]@));
        i = i + 1;
    }
    assert(views(ls@).take(ls@.len() as int) =~= views(ls@));
}

/// Where research goes next, given what the web search and the knowledge base gave back.
pub fn research_step(query: &str, web: &str, rag: &str) -> (r: ResearchStep)
    ensures
        !(web@.len() > 0) && !rag_found(rag@) ==> (r matches ResearchStep::Finished(v) && views(v@) == no_results_lines()),
        web@.len() > 0 || rag_found(rag@) ==> (r matches ResearchStep::Synthesize(p) && p@ == synthesis_prompt(query@, sources_text(web@, rag@))),
{
    let has_web = char_count(web) > 0;
    let has_rag = char_count(rag) > 0 && !str_contains(rag, "unavailable") && !str_contains(rag, "No sources found");
    if !has_web && !has_rag {
        let mut v: Vec<String> = Vec::new();
        push_view(&mut v, "# No Results Found");
        push_view(&mut v, "");
        push_view(&mut v, "Neither Exa nor RAG returned results for this query.");
        push_view(&mut v, "");
        push_view(&mut v, "**Troubleshooting:**");
        push_view(&mut v, "- Verify exa_api_key is in ~/.config/azul/config.json");
        push_view(&mut v, "- Check home-rag: curl http://127.0.0.1:3002/health");
        assert(views(v@) =~= no_results_lines());
        return ResearchStep::Finished(v);
    }
    let mut sources = String::new();
    if has_web {
        sources.append("## Web Search Results (Exa)\n\n");
        sources.append(web);
        sources.append("\n\n");
    }
    if has_rag {
        sources.append("## Local Knowledge (RAG)\n\n");
        sources.append(rag);
    }
    assert(sources@ =~= sources_text(web@, rag@));
    let mut p = concat3("You are a research assistant. Based on the sources below, provide a comprehensive answer.\n\n**User Question:** ", query, "\n\n**Sources:**\n");
    p.append(sources.as_str());
    p.append("\n\n**Instructions:**\n1. Synthesize information from all sources into a clear, organized answer\n2. Use markdown formatting (headers, bullet points, bold)\n3. End with a Sources section listing URLs and document names\n4. If sources conflict, note the discrepancy\n5. Be comprehensive but concise");
    ResearchStep::Synthesize(p)
}

/// The research panel's lines: the model's answer under the question, or, where the model
/// gave none, the raw sources under their headings.
pub open spec fn research_lines(query: Seq<char>, web: Seq<char>, rag: Seq<char>, answer: Option<Seq<char>>) -> Seq<Seq<char>> {
    match answer {
        Some(a) => seq!["# Research: "@ + query, ""@] + lines(a),
        None => seq!["# Search Results (LLM unavailable)"@, ""@]
            + (if web.len() > 0 { seq!["## Web (Exa)"@] + lines(web) + seq![""@] } else { Seq::empty() })
            + (if rag_found(rag) { seq!["## Local (RAG)"@] + lines(rag) } else { Seq::empty() }),
    }
}

/// The research panel's lines once the model has answered, or failed to.
pub fn research_results(query: &str, web: &str, rag: &str, answer: Option<String>) -> (r: Vec<String>)
    ensures
        views(r@) == research_lines(query@, web@, rag@, match answer { Some(a) => Some(a@), None => None }),
{
    let mut v: Vec<String> = Vec::new();
    match &answer {
        Some(a) => {
            let head = concat2("# Research: ", query);
            push_view(&mut v, head.as_str());
            push_view(&mut v, "");
            append_lines(&mut v, a.as_str());
        },
        None => {
            push_view(&mut v, "# Search Results (LLM unavailable)");
            push_view(&mut v, "");
            let ghost base = views(v@);
            if char_count(web) > 0 {
                push_view(&mut v, "## Web (Exa)");
                append_lines(&mut v, web);
                push_view(&mut v, "");
                assert(views(v@) =~= base + (seq!["## Web (Exa)"@] + lines(web@) + seq![""@]));
            }
            let ghost mid = views(v@);
            if char_count(rag) > 0 && !str_contains(rag, "unavailable") && !str_contains(rag, "No sources found") {
                push_view(&mut v, "## Local (RAG)");
                append_lines(&mut v, rag);
                assert(views(v@) =~= mid + (seq!["## Local (RAG)"@] + lines(rag@)));
            }
        },
    }
    v
}

/// The function a tool call names, with its arguments as JSON text.
#[derive(Debug, Clone)]
pub struct FunctionCall {
    pub name: String,
    pub arguments: String,
}

/// A tool call as the chat API writes it.
#[derive(Debug, Clone)]
pub struct ToolCall {
    pub id: String,
    pub call_type: String,
    pub function: FunctionCall,
}

/// A message in the chat API's form.
#[derive(Debug, Clone)]
pub struct OpenAIChatMessage {
    pub role: String,
    pub content: Option<String>,
    pub tool_calls: Option<Vec<ToolCall>>,
    pub tool_call_id: Option<String>,
}

/// The role's name in the chat API; with `tool_as_user`, a tool's message is sent as the
/// user's (for providers that take no tool messages).
pub open spec fn role_name(r: Role, tool_as_user: bool) -> Seq<char> {
    match r {
        Role::System => "system"@,
        Role::User => "user"@,
        Role::Assistant => "assistant"@,
        Role::Tool => if tool_as_user { "user"@ } else { "tool"@ },
    }
}

/// The role's name in the chat API.
pub fn api_role(r: Role, tool_as_user: bool) -> (s: String)
    ensures
        s@ == role_name(r, tool_as_user),
{
    match r {
        Role::System => owned("system"),
        Role::User => owned("user"),
        Role::Assistant => owned("assistant"),
        Role::Tool => if tool_as_user { owned("user") } else { owned("tool") },
    }
}

/// The session's messages in the chat API's form: each with its role's name and its text,
/// no tool calls and no call id.
pub fn api_messages(messages: &Vec<ChatMessage>) -> (r: Vec<OpenAIChatMessage>)
    ensures
        r@.len() == messages@.len(),
        forall|i: int| 0 <= i < r@.len() ==> {
            &&& (#[trigger] r@[i]).role@ == role_name(messages@[i].role, false)
            &&& r@[i].content matches Some(c) && c@ == messages@[i].content@
            &&& r@[i].tool_calls is None
            &&& r@[i].tool_call_id is None
        },
{
    let mut r: Vec<OpenAIChatMessage> = Vec::new();
    let mut i: usize = 0;
    while i < messages.len()
        invariant
            i <= messages@.len(),
            r@.len() == i,
            forall|k: int| 0 <= k < i ==> {
                &&& (#[trigger] r@[k]).role@ == role_name(messages@[k].role, false)
                &&& r@[k].content matches Some(c) && c@ == messages@[k].content@
                &&& r@[k].tool_calls is None
                &&& r@[k].tool_call_id is None
            },
        decreases messages.len() - i,
    {
        let m = OpenAIChatMessage {
            role: api_role(messages[i].role, false),
            content: Some(owned(messages[i].content.as_str())),
            tool_calls: None,
            tool_call_id: None,
        };
        r.push(m);
        i = i + 1;
    }
    r
}

/// What a chat completion gave: text, or tool calls to run.
#[derive(Debug, Clone)]
pub enum ChatApiResponse {
    Content(String),
    ToolCalls(Vec<ToolCall>),
}

/// The first choice of a completion: its text and its tool calls, where present.
#[derive(Debug, Clone)]
pub struct ApiChoice {
    pub content: Option<String>,
    pub tool_calls: Option<Vec<ToolCall>>,
}

/// Reads a completion: an error the API reported, no choices, or the first choice's tool
/// calls where it has any, else its text (empty where it has none).
pub fn read_chat_response(error: Option<String>, choices: Option<Vec<ApiChoice>>) -> (r: Result<ChatApiResponse, String>)
    ensures
        match error {
            Some(m) => r matches Err(e) && e@ == "API error: "@ + m@,
            None => match choices {
                None => r matches Err(e) && e@ == "No response from API"@,
                Some(cs) => if cs@.len() == 0 {
                    r matches Err(e) && e@ == "No choices in API response"@
                } else {
                    let c = cs@[0];
                    if c.tool_calls matches Some(tc) && tc@.len() > 0 {
                        r matches Ok(ChatApiResponse::ToolCalls(v)) && v@ == c.tool_calls->0@
                    } else {
                        r matches Ok(ChatApiResponse::Content(t)) && t@ == match c.content {
                            Some(t) => t@,
                            None => Seq::empty(),
                        }
                    }
                },
            },
        },
{
    match error {
        Some(m) => Err(concat2("API error: ", m.as_str())),
        None => match choices {
            None => Err(owned("No response from API")),
            Some(mut cs) => {
                if cs.len() == 0 {
                    return Err(owned("No choices in API response"));
                }
                let c = cs.remove(0);
                match c.tool_calls {
                    Some(tc) if tc.len() > 0 => Ok(ChatApiResponse::ToolCalls(tc)),
                    _ => match c.content {
                        Some(t) => Ok(ChatApiResponse::Content(t)),
                        None => Ok(ChatApiResponse::Content(String::new())),
                    },
                }
            },
        },
    }
}

/// `@ <name>` for each call, then `  -> <result>` for each result, then the model's final
/// answer after a blank line, where it gave one.
pub open spec fn tool_reply_text(names: Seq<Seq<char>>, results: Seq<Seq<char>>, answer: Seq<char>) -> Seq<char> {
    join(names.map_values(|n: Seq<char>| "@ "@ + n), "\n"@)
        + (if results.len() > 0 { "\n"@ + join(results.map_values(|t: Seq<char>| "  -> "@ + t), "\n"@) } else { Seq::empty() })
        + (if answer.len() > 0 { "\n\n"@ + answer } else { Seq::empty() })
}

fn prefixed_all(items: &Vec<String>, prefix: &str) -> (r: Vec<String>)
    ensures
        views(r@) == views(items@).map_values(|t: Seq<char>| prefix@ + t),
{
    let mut r: Vec<String> = Vec::new();
    let mut i: usize = 0;
    while i < items.len()
        invariant
            i <= items@.len(),
            views(r@) == views(items@).take(i as int).map_values(|t: Seq<char>| prefix@ + t),
        decreases items.len() - i,
    {
        let ghost before = r@;
        r.push(concat2(prefix, items[i].as_str()));
        proof {
            assert(views(items@).take(i as int + 1) =~= views(items@).take(i as int).push(items@[i as int]@));
            assert(views(r@) =~= views(before).push(prefix@ + items@[i as int]@));
            assert(views(r@) =~= views(items@).take(i as int + 1).map_values(|t: Seq<char>| prefix@ + t));
        }
        i = i + 1;
    }
    assert(views(items@).take(items@.len() as int) =~= views(items@));
    r
}

/// What the chat shows after tool calls: the calls, their results, and the final answer.
pub fn tool_reply(names: &Vec<String>, results: &Vec<String>, answer: &str) -> (r: String)
    ensures
        r@ == tool_reply_text(views(names@), views(results@), answer@),
{
    let mut r = join_strings(&prefixed_all(names, "@ "), "\n");
    if results.len() > 0 {
        r.append("\n");
        r.append(join_strings(&prefixed_all(results, "  -> "), "\n").as_str());
    }
    if char_count(answer) > 0 {
        r.append("\n\n");
        r.append(answer);
    }
    r
}

/// Whether an error says that the provider limits the rate of requests.
pub open spec fn rate_limited(msg: Seq<char>) -> bool {
    contains(msg, "429"@) || contains(msg, "rate limit"@) || contains(msg, "Rate limit"@)
        || contains(msg, "Too Many Requests"@)
}

/// Whether an error says that the provider limits the rate of requests: then the next
/// model is tried, any other error ends the attempt.
pub fn is_rate_limit(msg: &str) -> (b: bool)
    ensures
        b == rate_limited(msg@),
{
    str_contains(msg, "429") || str_contains(msg, "rate limit") || str_contains(msg, "Rate limit")
        || str_contains(msg, "Too Many Requests")
}

/// `<model>: <error>`.
pub fn model_error(model: &str, error: &str) -> (r: String)
    ensures
        r@ == model@ + ": "@ + error@,
{
    concat3(model, ": ", error)
}

/// The error once every model was rate limited: one line per model.
pub fn all_models_failed(errors: &Vec<String>) -> (r: String)
    ensures
        r@ == "All models failed:\n"@ + join(views(errors@), "\n"@),
{
    concat2("All models failed:\n", join_strings(errors, "\n").as_str())
}

/// What one model said to a plain chat request: a successful reply (with its text where
/// the reply had one), a refusal with its status code, status line and body, or no answer
/// at all (with the error).
#[derive(Debug, Clone)]
pub enum ModelOutcome {
    Reply(Option<String>),
    Refused { code: u16, status: String, body: String },
    Unreachable(String),
}

/// After one model of a plain chat request: its text, or the error to remember while the
/// next model is tried (a reply without text leaves the last error as it was).
pub fn plain_chat_step(model: &str, outcome: ModelOutcome, last_error: String) -> (r: Result<String, String>)
    ensures
        match outcome {
            ModelOutcome::Reply(Some(t)) => r matches Ok(x) && x@ == t@,
            ModelOutcome::Reply(None) => r matches Err(e) && e@ == last_error@,
            ModelOutcome::Refused { code, status, body } => r matches Err(e) && e@ == if code == 429 {
                "Rate limited on "@ + model@
            } else {
                status@ + ": "@ + body@
            },
            ModelOutcome::Unreachable(m) => r matches Err(e) && e@ == m@,
        },
{
    match outcome {
        ModelOutcome::Reply(Some(t)) => Ok(t),
        ModelOutcome::Reply(None) => Err(last_error),
        ModelOutcome::Refused { code, status, body } => if code == 429 {
            Err(concat2("Rate limited on ", model))
        } else {
            Err(concat3(status.as_str(), ": ", body.as_str()))
        },
        ModelOutcome::Unreachable(m) => Err(m),
    }
}

/// The error once no model gave a reply: the last error remembered.
pub fn plain_chat_failed(last_error: &str) -> (r: String)
    ensures
        r@ == "All models failed: "@ + last_error@,
{
    concat2("All models failed: ", last_error)
}

/// At most the first `n` bytes of `s` (what `&s[..n]` holds where `s` is longer).
pub open spec fn preview(s: Seq<char>, n: nat) -> Seq<char> {
    if byte_len(s) > n { byte_prefix(s, n as int) } else { s }
}

/// Whether `preview(s, n)` cuts `s` on a character boundary (the cut panics otherwise).
pub open spec fn previewable(s: Seq<char>, n: nat) -> bool {
    byte_len(s) > n ==> char_boundary(s, n as int)
}

/// The text of an optional string, or `d`.
pub open spec fn or_text(o: Option<String>, d: Seq<char>) -> Seq<char> {
    match o {
        Some(s) => s@,
        None => d,
    }
}

fn or_owned(o: &Option<String>, d: &str) -> (r: String)
    ensures
        r@ == or_text(*o, d@),
{
    match o {
        Some(s) => owned(s.as_str()),
        None => owned(d),
    }
}

fn or_empty(o: &Option<String>) -> (r: String)
    ensures
        r@ == or_text(*o, Seq::empty()),
{
    match o {
        Some(s) => owned(s.as_str()),
        None => String::new(),
    }
}

fn preview_of(s: &str, n: usize) -> (r: String)
    requires
        previewable(s@, n as nat),
    ensures
        r@ == preview(s@, n as nat),
{
    let v = chars_of(s);
    if longer_than_bytes(&v, n) {
        str_byte_prefix(s, n)
    } else {
        owned(s)
    }
}

/// A source the knowledge base named: its text, its document id, and its score already
/// written with two decimals.
#[derive(Debug, Clone)]
pub struct RagHit {
    pub content: Option<String>,
    pub doc_id: Option<String>,
    pub score: String,
}

/// A web result: title, address, text and score written with two decimals.
#[derive(Debug, Clone)]
pub struct WebHit {
    pub title: Option<String>,
    pub url: Option<String>,
    pub text: Option<String>,
    pub score: String,
}

/// `<n>. [<doc>] (score: <s>)\n   <first 300 bytes>\n\n`.
pub open spec fn rag_source_entry(i: int, h: RagHit) -> Seq<char> {
    decimal((i + 1) as nat) + ". ["@ + or_text(h.doc_id, "unknown"@) + "] (score: "@ + h.score@ + ")\n   "@
        + preview(or_text(h.content, Seq::empty()), 300) + "\n\n"@
}

/// The knowledge base's answer and sources as context for the model.
pub open spec fn rag_context_text(answer: Option<String>, sources: Option<Seq<RagHit>>) -> Seq<char> {
    let a = or_text(answer, Seq::empty());
    let r = (if a.len() > 0 { "**RAG Answer:**\n"@ + a + "\n\n"@ } else { Seq::empty() }) + match sources {
        Some(s) => if s.len() > 0 {
            let shown = first_n(s, 5);
            "**Sources:**\n"@ + join(Seq::new(shown.len(), |i: int| rag_source_entry(i, shown[i])), ""@)
        } else {
            "No sources found in RAG.\n"@
        },
        None => Seq::empty(),
    };
    if r.len() == 0 { "No sources found in RAG."@ } else { r }
}

/// The knowledge base's answer and sources as context for the model: the answer where it
/// is not empty, then the first five sources with their ids, scores and first 300 bytes.
pub fn rag_context(answer: Option<String>, sources: Option<Vec<RagHit>>) -> (r: String)
    requires
        sources matches Some(s) ==> forall|i: int| 0 <= i < s@.len() && i < 5
            ==> previewable(or_text(#[trigger] s@[i].content, Seq::empty()), 300),
    ensures
        r@ == rag_context_text(answer, match sources { Some(s) => Some(s@), None => None }),
{
    let a = or_empty(&answer);
    let mut r = String::new();
    if char_count(a.as_str()) > 0 {
        r.append("**RAG Answer:**\n");
        r.append(a.as_str());
        r.append("\n\n");
    }
    let ghost head = r@;
    match &sources {
        Some(s) => {
            if s.len() > 0 {
                let n = if s.len() <= 5 { s.len() } else { 5 };
                let ghost shown = first_n(s@, 5);
                let mut entries: Vec<String> = Vec::new();
                let mut i: usize = 0;
                while i < n
                    invariant
                        n == shown.len(),
                        shown == first_n(s@, 5),
                        i <= n,
                        forall|k: int| 0 <= k < s@.len() && k < 5
                            ==> previewable(or_text(#[trigger] s@[k].content, Seq::empty()), 300),
                        views(entries@) == Seq::new(i as nat, |k: int| rag_source_entry(k, shown[k])),
                    decreases n - i,
                {
                    let h = &s[i];
                    assert(previewable(or_text(s@[i as int].content, Seq::empty()), 300));
                    let c = or_empty(&h.content);
                    let mut e = usize_to_string(i + 1);
                    e.append(". [");
                    e.append(or_owned(&h.doc_id, "unknown").as_str());
                    e.append("] (score: ");
                    e.append(h.score.as_str());
                    e.append(")\n   ");
                    e.append(preview_of(c.as_str(), 300).as_str());
                    e.append("\n\n");
                    let ghost before = entries@;
                    entries.push(e);
                    proof {
                        assert(views(entries@) =~= views(before).push(rag_source_entry(i as int, shown[i as int])));
                        assert(views(entries@) =~= Seq::new((i + 1) as nat, |k: int| rag_source_entry(k, shown[k])));
                    }
                    i = i + 1;
                }
                r.append("**Sources:**\n");
                r.append(join_strings(&entries, "").as_str());
            } else {
                r.append("No sources found in RAG.\n");
            }
        },
        None => {},
    }
    if char_count(r.as_str()) == 0 {
        owned("No sources found in RAG.")
    } else {
        r
    }
}

/// `<n>. **<title>**\n   <url>\n   <first 300 bytes>\n\n`.
pub open spec fn web_context_entry(i: int, h: WebHit) -> Seq<char> {
    decimal((i + 1) as nat) + ". **"@ + or_text(h.title, "No title"@) + "**\n   "@ + or_text(h.url, Seq::empty())
        + "\n   "@ + preview(or_text(h.text, Seq::empty()), 300) + "\n\n"@
}

/// The web results as context for the model (nothing where the reply held no result list).
pub open spec fn web_context_text(results: Option<Seq<WebHit>>) -> Seq<char> {
    match results {
        Some(items) => {
            let shown = first_n(items, 5);
            "**Web Search Results (Exa):**\n\n"@ + join(Seq::new(shown.len(), |i: int| web_context_entry(i, shown[i])), ""@)
        },
        None => Seq::empty(),
    }
}

/// The web results as context for the model: the first five, each with its title, address
/// and first 300 bytes.
pub fn web_context(results: Option<Vec<WebHit>>) -> (r: String)
    requires
        results matches Some(s) ==> forall|i: int| 0 <= i < s@.len() && i < 5
            ==> previewable(or_text(#[trigger] s@[i].text, Seq::empty()), 300),
    ensures
        r@ == web_context_text(match results { Some(s) => Some(s@), None => None }),
{
    match &results {
        Some(s) => {
            let n = if s.len() <= 5 { s.len() } else { 5 };
            let ghost shown = first_n(s@, 5);
            let mut entries: Vec<String> = Vec::new();
            let mut i: usize = 0;
            while i < n
                invariant
                    n == shown.len(),
                    shown == first_n(s@, 5),
                    i <= n,
                    forall|k: int| 0 <= k < s@.len() && k < 5
                        ==> previewable(or_text(#[trigger] s@[k].text, Seq::empty()), 300),
                    views(entries@) == Seq::new(i as nat, |k: int| web_context_entry(k, shown[k])),
                decreases n - i,
            {
                let h = &s[i];
                assert(previewable(or_text(s@[i as int].text, Seq::empty()), 300));
                let t = or_empty(&h.text);
                let mut e = usize_to_string(i + 1);
                e.append(". **");
                e.append(or_owned(&h.title, "No title").as_str());
                e.append("**\n   ");
                e.append(or_empty(&h.url).as_str());
                e.append("\n   ");
                e.append(preview_of(t.as_str(), 300).as_str());
                e.append("\n\n");
                let ghost before = entries@;
                entries.push(e);
                proof {
                    assert(views(entries@) =~= views(before).push(web_context_entry(i as int, shown[i as int])));
                    assert(views(entries@) =~= Seq::new((i + 1) as nat, |k: int| web_context_entry(k, shown[k])));
                }
                i = i + 1;
            }
            concat2("**Web Search Results (Exa):**\n\n", join_strings(&entries, "").as_str())
        },
        None => String::new(),
    }
}

/// `<n>. **<title>** (score: <s>)\n   <url>\n   <first 200 bytes>\n`.
pub open spec fn web_search_entry(i: int, h: WebHit) -> Seq<char> {
    decimal((i + 1) as nat) + ". **"@ + or_text(h.title, "No title"@) + "** (score: "@ + h.score@ + ")\n   "@
        + or_text(h.url, Seq::empty()) + "\n   "@ + preview(or_text(h.text, Seq::empty()), 200) + "\n"@
}

/// The reply of the web search tool: its first `count` results under a heading, or a note
/// that there were none.
pub open spec fn web_search_text(query: Seq<char>, hits: Seq<WebHit>, count: nat) -> Seq<char> {
    let shown = first_n(hits, count);
    if shown.len() == 0 {
        "No results found"@
    } else {
        "## Exa Search: "@ + query + "\n\n"@ + join(Seq::new(shown.len(), |i: int| web_search_entry(i, shown[i])), "\n"@)
    }
}

/// The reply of the web search tool, from the results the search gave back.
pub fn web_search_reply(query: &str, hits: &Vec<WebHit>, count: usize) -> (r: String)
    requires
        forall|i: int| 0 <= i < hits@.len() && i < count
            ==> previewable(or_text(#[trigger] hits@[i].text, Seq::empty()), 200),
    ensures
        r@ == web_search_text(query@, hits@, count as nat),
{
    let n = if hits.len() <= count { hits.len() } else { count };
    let ghost shown = first_n(hits@, count as nat);
    let mut entries: Vec<String> = Vec::new();
    let mut i: usize = 0;
    while i < n
        invariant
            n == shown.len(),
            shown == first_n(hits@, count as nat),
            i <= n,
            forall|k: int| 0 <= k < hits@.len() && k < count
                ==> previewable(or_text(#[trigger] hits@[k].text, Seq::empty()), 200),
            views(entries@) == Seq::new(i as nat, |k: int| web_search_entry(k, shown[k])),
        decreases n - i,
    {
        let h = &hits[i];
        assert(previewable(or_text(hits@[i as int].text, Seq::empty()), 200));
        let t = or_empty(&h.text);
        let mut e = usize_to_string(i + 1);
        e.append(". **");
        e.append(or_owned(&h.title, "No title").as_str());
        e.append("** (score: ");
        e.append(h.score.as_str());
        e.append(")\n   ");
        e.append(or_empty(&h.url).as_str());
        e.append("\n   ");
        e.append(preview_of(t.as_str(), 200).as_str());
        e.append("\n");
        let ghost before = entries@;
        entries.push(e);
        proof {
            assert(views(entries@) =~= views(before).push(web_search_entry(i as int, shown[i as int])));
            assert(views(entries@) =~= Seq::new((i + 1) as nat, |k: int| web_search_entry(k, shown[k])));
        }
        i = i + 1;
    }
    if n == 0 {
        owned("No results found")
    } else {
        let mut r = concat3("## Exa Search: ", query, "\n\n");
        r.append(join_strings(&entries, "\n").as_str());
        r
    }
}

/// A result of the fallback web search: title, address and description.
#[derive(Debug, Clone)]
pub struct BraveHit {
    pub title: Option<String>,
    pub url: Option<String>,
    pub description: Option<String>,
}

/// `<n>. **<title>**\n   <url>\n   <description>\n`.
pub open spec fn brave_entry(i: int, h: BraveHit) -> Seq<char> {
    decimal((i + 1) as nat) + ". **"@ + or_text(h.title, "No title"@) + "**\n   "@ + or_text(h.url, Seq::empty())
        + "\n   "@ + or_text(h.description, "No description"@) + "\n"@
}

/// The reply of the fallback web search: its first `count` results under a heading, or a
/// note that there were none.
pub open spec fn brave_text(query: Seq<char>, hits: Seq<BraveHit>, count: nat) -> Seq<char> {
    let shown = first_n(hits, count);
    if shown.len() == 0 {
        "No results found"@
    } else {
        "## Search Results for: "@ + query + "\n\n"@ + join(Seq::new(shown.len(), |i: int| brave_entry(i, shown[i])), "\n"@)
    }
}

/// The reply of the fallback web search, from the results it gave back.
pub fn brave_reply(query: &str, hits: &Vec<BraveHit>, count: usize) -> (r: String)
    ensures
        r@ == brave_text(query@, hits@, count as nat),
{
    let n = if hits.len() <= count { hits.len() } else { count };
    let ghost shown = first_n(hits@, count as nat);
    let mut entries: Vec<String> = Vec::new();
    let mut i: usize = 0;
    while i < n
        invariant
            n == shown.len(),
            shown == first_n(hits@, count as nat),
            i <= n,
            views(entries@) == Seq::new(i as nat, |k: int| brave_entry(k, shown[k])),
        decreases n - i,
    {
        let h = &hits[i];
        let mut e = usize_to_string(i + 1);
        e.append(". **");
        e.append(or_owned(&h.title, "No title").as_str());
        e.append("**\n   ");
        e.append(or_empty(&h.url).as_str());
        e.append("\n   ");
        e.append(or_owned(&h.description, "No description").as_str());
        e.append("\n");
        let ghost before = entries@;
        entries.push(e);
        proof {
            assert(views(entries@) =~= views(before).push(brave_entry(i as int, shown[i as int])));
            assert(views(entries@) =~= Seq::new((i + 1) as nat, |k: int| brave_entry(k, shown[k])));
        }
        i = i + 1;
    }
    if n == 0 {
        owned("No results found")
    } else {
        let mut r = concat3("## Search Results for: ", query, "\n\n");
        r.append(join_strings(&entries, "\n").as_str());
        r
    }
}

/// `<n>. <first 150 bytes>\n`.
pub open spec fn rag_tool_entry(i: int, h: RagHit) -> Seq<char> {
    decimal((i + 1) as nat) + ". "@ + preview(or_text(h.content, Seq::empty()), 150) + "\n"@
}

/// The reply of the knowledge-base tool: the answer, then up to three sources.
pub open spec fn rag_tool_text(answer: Option<String>, sources: Option<Seq<RagHit>>) -> Seq<char> {
    "## RAG Answer\n\n"@ + or_text(answer, "No answer"@) + "\n\n"@ + match sources {
        Some(s) => if s.len() > 0 {
            let shown = first_n(s, 3);
            "### Sources\n"@ + join(Seq::new(shown.len(), |i: int| rag_tool_entry(i, shown[i])), ""@)
        } else {
            Seq::empty()
        },
        None => Seq::empty(),
    }
}

/// The reply of the knowledge-base tool, from what the knowledge base gave back.
pub fn rag_tool_reply(answer: Option<String>, sources: Option<Vec<RagHit>>) -> (r: String)
    requires
        sources matches Some(s) ==> forall|i: int| 0 <= i < s@.len() && i < 3
            ==> previewable(or_text(#[trigger] s@[i].content, Seq::empty()), 150),
    ensures
        r@ == rag_tool_text(answer, match sources { Some(s) => Some(s@), None => None }),
{
    let mut r = concat3("## RAG Answer\n\n", or_owned(&answer, "No answer").as_str(), "\n\n");
    match &sources {
        Some(s) => {
            if s.len() > 0 {
                let n = if s.len() <= 3 { s.len() } else { 3 };
                let ghost shown = first_n(s@, 3);
                let mut entries: Vec<String> = Vec::new();
                let mut i: usize = 0;
                while i < n
                    invariant
                        n == shown.len(),
                        shown == first_n(s@, 3),
                        i <= n,
                        forall|k: int| 0 <= k < s@.len() && k < 3
                            ==> previewable(or_text(#[trigger] s@[k].content, Seq::empty()), 150),
                        views(entries@) == Seq::new(i as nat, |k: int| rag_tool_entry(k, shown[k])),
                    decreases n - i,
                {
                    assert(previewable(or_text(s@[i as int].content, Seq::empty()), 150));
                    let c = or_empty(&s[i].content);
                    let mut e = usize_to_string(i + 1);
                    e.append(". ");
                    e.append(preview_of(c.as_str(), 150).as_str());
                    e.append("\n");
                    let ghost before = entries@;
                    entries.push(e);
                    proof {
                        assert(views(entries@) =~= views(before).push(rag_tool_entry(i as int, shown[i as int])));
                        assert(views(entries@) =~= Seq::new((i + 1) as nat, |k: int| rag_tool_entry(k, shown[k])));
                    }
                    i = i + 1;
                }
                r.append("### Sources\n");
                r.append(join_strings(&entries, "").as_str());
            }
        },
        None => {},
    }
    r
}

/// `s` with every occurrence of `p` taken out, as `str::replace(p, "")` gives it.
pub open spec fn remove_all(s: Seq<char>, p: Seq<char>) -> Seq<char> {
    join(split_pieces(s, p), ""@)
}

/// `s` without the `c` characters at its end.
pub open spec fn trim_end_char(s: Seq<char>, c: char) -> Seq<char>
    decreases s.len(),
{
    if s.len() > 0 && s.last() == c { trim_end_char(s.drop_last(), c) } else { s }
}

/// What the context holds so far: the page's title, its address and its text.
pub type PageClues = (Seq<char>, Seq<char>, Seq<char>);

/// Up to ten lines after the line `Content preview:` of a message, joined by newlines.
pub open spec fn preview_after(c: Seq<char>) -> Seq<char> {
    let idx = match find(c, "Content preview:"@) { Some(i) => i, None => 0 };
    let ls = lines(c.skip(idx));
    let rest = if ls.len() >= 1 { ls.skip(1) } else { Seq::empty() };
    join(first_n(rest, 10), "\n"@)
}

/// One line of a message carrying the browser's context: `Current page: <title> (<url>)`
/// gives the title and address, `Content preview:` the text that follows.
pub open spec fn scan_line(st: PageClues, line: Seq<char>, c: Seq<char>) -> PageClues {
    if starts_with(line, "Current page:"@) {
        let parts = split_pieces(line, "("@);
        if parts.len() >= 2 {
            (trim(remove_all(parts[0], "Current page:"@)), trim_end_char(parts[1], ')'), st.2)
        } else {
            st
        }
    } else if starts_with(line, "Content preview:"@) {
        (st.0, st.1, preview_after(c))
    } else {
        st
    }
}

/// The lines of a message, read in order.
pub open spec fn scan_lines(st: PageClues, ls: Seq<Seq<char>>, c: Seq<char>) -> PageClues
    decreases ls.len(),
{
    if ls.len() == 0 { st } else { scan_line(scan_lines(st, ls.drop_last(), c), ls.last(), c) }
}

/// What the messages tell of the page: the user's messages that carry `[Browser Context]`
/// are read line by line, later ones overriding earlier ones.
pub open spec fn context_clues(ms: Seq<OpenAIChatMessage>) -> PageClues
    decreases ms.len(),
{
    if ms.len() == 0 {
        (Seq::empty(), Seq::empty(), Seq::empty())
    } else {
        let st = context_clues(ms.drop_last());
        let m = ms.last();
        match m.content {
            Some(c) => if m.role@ == "user"@ && contains(c@, "[Browser Context]"@) {
                scan_lines(st, lines(c@), c@)
            } else {
                st
            },
            None => st,
        }
    }
}

fn remove_all_of(s: &str, p: &str) -> (r: String)
    requires
        p@.len() > 0,
    ensures
        r@ == remove_all(s@, p@),
{
    let pieces = split_str(s, p);
    proof {
        assert(views(pieces@) =~= strs(pieces@));
    }
    join_strings(&pieces, "")
}

fn trim_end_paren(s: &str) -> (r: String)
    ensures
        r@ == trim_end_char(s@, ')'),
{
    let v = chars_of(s);
    let mut end = v.len();
    assert(v@.take(end as int) =~= v@);
    while end > 0 && v[end - 1] == ')'
        invariant
            end <= v@.len(),
            trim_end_char(v@, ')') == trim_end_char(v@.take(end as int), ')'),
        decreases end,
    {
        assert(v@.take(end as int).drop_last() =~= v@.take(end - 1));
        end = end - 1;
    }
    string_from(&v, 0, end)
}

fn preview_of_message(c: &str) -> (r: String)
    ensures
        r@ == preview_after(c@),
{
    let v = chars_of(c);
    let pv = chars_of("Content preview:");
    let idx = match vec_find(&v, &pv) { Some(i) => i, None => 0 };
    proof {
        if find(c@, "Content preview:"@) is Some {
            crate::text::lemma_find_from_matches(c@, "Content preview:"@, 0);
        }
    }
    let tail = string_from(&v, idx, v.len());
    assert(tail@ =~= c@.skip(idx as int));
    let ls = str_lines(tail.as_str());
    let mut rest: Vec<String> = Vec::new();
    let n = if ls.len() >= 1 { if ls.len() - 1 <= 10 { ls.len() - 1 } else { 10 } } else { 0 };
    let ghost r = if views(ls@).len() >= 1 { views(ls@).skip(1) } else { Seq::<Seq<char>>::empty() };
    let mut i: usize = 0;
    while i < n
        invariant
            n == first_n(r, 10).len(),
            r == (if views(ls@).len() >= 1 { views(ls@).skip(1) } else { Seq::<Seq<char>>::empty() }),
            i <= n,
            views(rest@) == first_n(r, 10).take(i as int),
        decreases n - i,
    {
        let ghost before = rest@;
        rest.push(owned(ls[i + 1].as_str()));
        assert(views(rest@) =~= views(before).push(ls@[i + 1]@));
        assert(first_n(r, 10).take(i + 1) =~= first_n(r, 10).take(i as int).push(ls@[i + 1]@));
        i = i + 1;
    }
    assert(views(rest@) =~= first_n(r, 10));
    join_strings(&rest, "\n")
}

fn scan_message(st: (String, String, String), c: &str) -> (r: (String, String, String))
    ensures
        (r.0@, r.1@, r.2@) == scan_lines((st.0@, st.1@, st.2@), lines(c@), c@),
{
    let ls = str_lines(c);
    let (mut title, mut url, mut content) = st;
    let ghost start = (title@, url@, content@);
    let mut i: usize = 0;
    while i < ls.len()
        invariant
            i <= ls@.len(),
            views(ls@) == lines(c@),
            (title@, url@, content@) == scan_lines(start, views(ls@).take(i as int), c@),
        decreases ls.len() - i,
    {
        let line = ls[i].as_str();
        proof {
            assert(views(ls@).take(i + 1).drop_last() =~= views(ls@).take(i as int));
            assert(views(ls@).take(i + 1).last() == ls@[i as int]@);
        }
        if str_starts_with(line, "Current page:") {
            proof {
                reveal_strlit("(");
                reveal_strlit("Current page:");
            }
            let parts = split_str(line, "(");
            if parts.len() >= 2 {
                assert(strs(parts@)[0] == parts@[0]@ && strs(parts@)[1] == parts@[1]@);
                title = trim_str(remove_all_of(parts[0].as_str(), "Current page:").as_str());
                url = trim_end_paren(parts[1].as_str());
            }
        } else if str_starts_with(line, "Content preview:") {
            content = preview_of_message(c);
        }
        i = i + 1;
    }
    assert(views(ls@).take(ls@.len() as int) =~= views(ls@));
    (title, url, content)
}

/// What the messages tell of the page a tool call sees: the title, address and text
/// read from the user's messages that carry the browser's context (no links).
pub fn extract_browser_context(messages: &Vec<OpenAIChatMessage>) -> (r: ToolContext)
    ensures
        (r.title@, r.url@, r.content@) == context_clues(messages@),
        r.links@.len() == 0,
{
    let mut st: (String, String, String) = (String::new(), String::new(), String::new());
    let mut i: usize = 0;
    while i < messages.len()
        invariant
            i <= messages@.len(),
            (st.0@, st.1@, st.2@) == context_clues(messages@.take(i as int)),
        decreases messages.len() - i,
    {
        let m = &messages[i];
        proof {
            assert(messages@.take(i + 1).drop_last() =~= messages@.take(i as int));
            assert(messages@.take(i + 1).last() == messages@[i as int]);
        }
        match &m.content {
            Some(c) => {
                if crate::text::str_eq(m.role.as_str(), "user") && str_contains(c.as_str(), "[Browser Context]") {
                    st = scan_message(st, c.as_str());
                }
            },
            None => {},
        }
        i = i + 1;
    }
    assert(messages@.take(messages@.len() as int) =~= messages@);
    ToolContext { title: st.0, url: st.1, content: st.2, links: Vec::new() }
}

} // verus!

verus! {

/// Whether a plan is the reply that the tool is unknown.
pub open spec fn unknown_tool_reply(name: Seq<char>, p: ToolPlan) -> bool {
    p matches ToolPlan::Answer(t) && t@ == "Unknown tool: "@ + name
}

/// Every tool the browser offers the model is one it carries out: whatever the arguments
/// and the page, a call of an offered tool is never answered as an unknown tool.
pub proof fn law_offered_tools_are_known(t: ToolDefinition, i: int, args: Seq<char>, ctx: ToolContext, p: ToolPlan)
    requires
        0 <= i < 8,
        is_tool(t, i),
        planned(t.function.name@, args, ctx, p),
    ensures
        !unknown_tool_reply(t.function.name@, p),
{
    reveal_strlit("Unknown tool: ");
    reveal_strlit("Error: Missing '");
    reveal_strlit("Error: Link ");
    reveal_strlit("No page currently loaded.");
    reveal_strlit("Page content:\n");
    reveal_strlit("No links on current page.");
    reveal_strlit("Links on page:\n");
    if let ToolPlan::Answer(x) = p {
        let name = t.function.name@;
        if x@ == "Unknown tool: "@ + name {
            assert(x@[0] == 'U');
            if i == 6 {
                if ctx.content@.len() == 0 {
                    assert(x@ == "No page currently loaded."@);
                } else {
                    assert(x@[0] == ("Page content:\n"@ + ctx.content@)[0]);
                }
            } else if i == 7 {
                if ctx.links@.len() == 0 {
                    assert(x@ == "No links on current page."@);
                } else {
                    let body = join(Seq::new(ctx.links@.len(), |k: int| link_entry(k, ctx.links@[k])), "\n"@);
                    assert(x@[0] == ("Links on page:\n"@ + body)[0]);
                }
            } else if i == 4 {
                match json_int_at(args, "link_number"@) {
                    Some(n) => {
                        if !(1 <= n && n - 1 < ctx.links@.len()) {
                            let e = "Error: Link "@ + signed_decimal(n as int) + " not found. Available links: 1-"@
                                + decimal(ctx.links@.len());
                            assert(x@[0] == e[0]);
                        }
                    },
                    None => {
                        assert(x@[0] == missing("link_number"@)[0]);
                    },
                }
            } else if i == 3 {
                assert(x@[0] == missing("url"@)[0]);
            } else {
                assert(x@[0] == missing("query"@)[0]);
            }
        }
    }
}

} // verus!

verus! {

/// The fallback web search's request for at most `count` results.
pub fn brave_search_url(query: &str, count: usize) -> (r: String)
    ensures
        r@ == "https://api.search.brave.com/res/v1/web/search?q="@ + crate::engines::url_encoded(query@)
            + "&count="@ + decimal(count as nat),
{
    let mut r = concat2("https://api.search.brave.com/res/v1/web/search?q=", crate::engines::url_encode(query).as_str());
    r.append("&count=");
    r.append(usize_to_string(count).as_str());
    r
}

} // verus!
