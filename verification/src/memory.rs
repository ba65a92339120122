//! The graph memory kept by the `mem-layer` command: what is asked of it and how its
//! answers are read.
use vstd::prelude::*;
use crate::browser::strs;
use crate::config::Config;
use crate::text::{owned, concat2, concat3, join, views, join_strings, usize_to_string, decimal, lines, str_lines, trim, trim_str, trim_start, trim_start_str, starts_with, contains, str_starts_with, str_contains, char_count};

verus! {

/// Kinds of memory nodes.
#[derive(Debug, Clone, Copy, PartialEq, Eq, Structural)]
pub enum NodeType {
    Bookmark,
    Page,
    Search,
    Conversation,
    Concept,
    Note,
}

/// A memory node; `metadata` is JSON text.
#[derive(Debug, Clone)]
pub struct MemoryNode {
    pub id: String,
    pub node_type: NodeType,
    pub content: String,
    pub tags: Vec<String>,
    pub metadata: String,
}

/// A relation between two memory nodes.
#[derive(Debug, Clone)]
pub struct MemoryRelation {
    pub from_id: String,
    pub to_id: String,
    pub rel_type: String,
}

/// A client of the `mem-layer` command: the scope its nodes live in, the command's path,
/// and whether the command was found.
#[derive(Debug, Clone)]
pub struct MemoryClient {
    scope: String,
    mem_layer_path: String,
    enabled: bool,
}

/// Where `mem-layer` is looked for, in order, given the home directory.
pub open spec fn candidate_paths(home: Seq<char>) -> Seq<Seq<char>> {
    seq![home + "/.local/bin/mem-layer"@, home + "/bin/mem-layer"@, "/usr/local/bin/mem-layer"@,
        "/usr/bin/mem-layer"@, "mem-layer"@]
}

/// Where `mem-layer` is looked for, in order: under the home directory (`/home` where it is
/// unknown), then the system's directories, then the search path.
pub fn mem_layer_candidates(home: Option<String>) -> (r: Vec<String>)
    ensures
        strs(r@) == candidate_paths(match home { Some(h) => h@, None => "/home"@ }),
{
    let h = match home { Some(h) => h, None => owned("/home") };
    let mut r: Vec<String> = Vec::new();
    r.push(concat2(h.as_str(), "/.local/bin/mem-layer"));
    r.push(concat2(h.as_str(), "/bin/mem-layer"));
    r.push(owned("/usr/local/bin/mem-layer"));
    r.push(owned("/usr/bin/mem-layer"));
    r.push(owned("mem-layer"));
    assert(strs(r@) =~= candidate_paths(h@));
    r
}

/// The scope memory nodes live in: the configured one, else `azul-browse`.
pub fn memory_scope(config: &Config) -> (r: String)
    ensures
        r@ == match config.memory_scope { Some(s) => s@, None => "azul-browse"@ },
{
    match &config.memory_scope {
        Some(s) => owned(s.as_str()),
        None => owned("azul-browse"),
    }
}

/// `<flag> <value>` as two arguments.
pub open spec fn flag(name: Seq<char>, value: Seq<char>) -> Seq<Seq<char>> {
    seq![name, value]
}

impl MemoryClient {
    pub closed spec fn spec_scope(&self) -> Seq<char> {
        self.scope@
    }

    pub closed spec fn spec_path(&self) -> Seq<char> {
        self.mem_layer_path@
    }

    pub closed spec fn spec_enabled(&self) -> bool {
        self.enabled
    }

    /// A client for `scope`; `found` is the path at which `mem-layer` answered, if any. Where
    /// it was not found the client is disabled and names the command by its bare name.
    pub fn new(scope: String, found: Option<String>) -> (c: MemoryClient)
        ensures
            c.spec_scope() == scope@,
            c.spec_enabled() == found is Some,
            c.spec_path() == match found { Some(p) => p@, None => "mem-layer"@ },
    {
        match found {
            Some(p) => MemoryClient { scope, mem_layer_path: p, enabled: true },
            None => MemoryClient { scope, mem_layer_path: owned("mem-layer"), enabled: false },
        }
    }

    /// A client made from the configuration: its scope (see `memory_scope`), and none where
    /// `mem-layer` was not found.
    pub fn from_config(config: &Config, found: Option<String>) -> (r: Option<MemoryClient>)
        ensures
            found is None ==> r is None,
            found matches Some(p) ==> (r matches Some(c) && c.spec_enabled() && c.spec_path() == p@
                && c.spec_scope() == match config.memory_scope { Some(s) => s@, None => "azul-browse"@ }),
    {
        let c = MemoryClient::new(memory_scope(config), found);
        if c.is_available() { Some(c) } else { None }
    }

    /// Whether `mem-layer` was found.
    pub fn is_available(&self) -> (b: bool)
        ensures
            b == self.spec_enabled(),
    {
        self.enabled
    }

    /// The scope the client's nodes live in.
    pub fn scope(&self) -> (s: &str)
        ensures
            s@ == self.spec_scope(),
    {
        self.scope.as_str()
    }

    /// The path of the command run.
    pub fn mem_layer_path(&self) -> (s: &str)
        ensures
            s@ == self.spec_path(),
    {
        self.mem_layer_path.as_str()
    }

    /// The arguments that add a note with its tags (comma-separated, where there are any)
    /// and its priority (where given); an error where `mem-layer` is not available.
    pub fn add_note_args(&self, content: &str, tags: &Vec<String>, priority: Option<&str>) -> (r: Result<Vec<String>, String>)
        ensures
            !self.spec_enabled() ==> (r matches Err(e) && e@ == "mem-layer is not available"@),
            self.spec_enabled() ==> (r matches Ok(a) && strs(a@) == seq!["add"@, "note"@, content@, "--scope"@, self.spec_scope()]
                + (if tags@.len() > 0 { flag("--tags"@, join(strs(tags@), ","@)) } else { Seq::empty() })
                + match priority { Some(p) => flag("--priority"@, p@), None => Seq::empty() }),
    {
        if !self.enabled {
            return Err(owned("mem-layer is not available"));
        }
        let mut a: Vec<String> = Vec::new();
        a.push(owned("add"));
        a.push(owned("note"));
        a.push(owned(content));
        a.push(owned("--scope"));
        a.push(owned(self.scope.as_str()));
        let ghost base = strs(a@);
        assert(base =~= seq!["add"@, "note"@, content@, "--scope"@, self.spec_scope()]);
        if tags.len() > 0 {
            a.push(owned("--tags"));
            proof { assert(views(tags@) =~= strs(tags@)); }
            a.push(join_strings(tags, ","));
        }
        let ghost mid = strs(a@);
        assert(mid =~= base + (if tags@.len() > 0 { flag("--tags"@, join(strs(tags@), ","@)) } else { Seq::empty() }));
        match priority {
            Some(p) => {
                a.push(owned("--priority"));
                a.push(owned(p));
            },
            None => {},
        }
        assert(strs(a@) =~= mid + match priority { Some(p) => flag("--priority"@, p@), None => Seq::empty() });
        Ok(a)
    }

    /// The arguments that search the client's scope; an error where `mem-layer` is not available.
    pub fn search_args(&self, query: &str) -> (r: Result<Vec<String>, String>)
        ensures
            !self.spec_enabled() ==> (r matches Err(e) && e@ == "mem-layer is not available"@),
            self.spec_enabled() ==> (r matches Ok(a) && strs(a@) == seq!["search"@, query@, "--scope"@, self.spec_scope()]),
    {
        if !self.enabled {
            return Err(owned("mem-layer is not available"));
        }
        let mut a: Vec<String> = Vec::new();
        a.push(owned("search"));
        a.push(owned(query));
        a.push(owned("--scope"));
        a.push(owned(self.scope.as_str()));
        assert(strs(a@) =~= seq!["search"@, query@, "--scope"@, self.spec_scope()]);
        Ok(a)
    }

    /// The arguments that list nodes of the scope, of one type and up to a limit where
    /// given; an error where `mem-layer` is not available.
    pub fn list_args(&self, node_type: Option<&str>, limit: Option<usize>) -> (r: Result<Vec<String>, String>)
        ensures
            !self.spec_enabled() ==> (r matches Err(e) && e@ == "mem-layer is not available"@),
            self.spec_enabled() ==> (r matches Ok(a) && strs(a@) == seq!["list"@, "--scope"@, self.spec_scope()]
                + match node_type { Some(t) => flag("--type"@, t@), None => Seq::empty() }
                + match limit { Some(l) => flag("--limit"@, decimal(l as nat)), None => Seq::empty() }),
    {
        if !self.enabled {
            return Err(owned("mem-layer is not available"));
        }
        let mut a: Vec<String> = Vec::new();
        a.push(owned("list"));
        a.push(owned("--scope"));
        a.push(owned(self.scope.as_str()));
        let ghost base = strs(a@);
        match node_type {
            Some(t) => {
                a.push(owned("--type"));
                a.push(owned(t));
            },
            None => {},
        }
        let ghost mid = strs(a@);
        assert(mid =~= base + match node_type { Some(t) => flag("--type"@, t@), None => Seq::empty() });
        match limit {
            Some(l) => {
                a.push(owned("--limit"));
                a.push(usize_to_string(l));
            },
            None => {},
        }
        assert(strs(a@) =~= mid + match limit { Some(l) => flag("--limit"@, decimal(l as nat)), None => Seq::empty() });
        Ok(a)
    }

    /// The arguments that store a visited page as a note of low priority.
    pub fn store_page_args(&self, url: &str, title: &str, tags: &Vec<String>) -> (r: Result<Vec<String>, String>)
        ensures
            !self.spec_enabled() ==> r is Err,
            self.spec_enabled() ==> (r matches Ok(a) && strs(a@) == seq!["add"@, "note"@, page_note(url@, title@), "--scope"@, self.spec_scope()]
                + (if tags@.len() > 0 { flag("--tags"@, join(strs(tags@), ","@)) } else { Seq::empty() })
                + flag("--priority"@, "low"@)),
    {
        let content = page_note_text(url, title);
        self.add_note_args(content.as_str(), tags, Some("low"))
    }

    /// The arguments that store a question and its answer as a note tagged `chat`, of
    /// medium priority.
    pub fn store_conversation_args(&self, query: &str, response: &str) -> (r: Result<Vec<String>, String>)
        ensures
            !self.spec_enabled() ==> r is Err,
            self.spec_enabled() ==> (r matches Ok(a) && strs(a@) == seq!["add"@, "note"@, conversation_note(query@, response@), "--scope"@, self.spec_scope()]
                + flag("--tags"@, "chat"@) + flag("--priority"@, "medium"@)),
    {
        let content = conversation_note_text(query, response);
        let mut tags: Vec<String> = Vec::new();
        tags.push(owned("chat"));
        proof {
            assert(strs(tags@) =~= seq!["chat"@]);
            assert(join(strs(tags@), ","@) == "chat"@);
        }
        self.add_note_args(content.as_str(), &tags, Some("medium"))
    }

    /// The arguments that list the most recent nodes, up to `limit`.
    pub fn recent_context_args(&self, limit: usize) -> (r: Result<Vec<String>, String>)
        ensures
            !self.spec_enabled() ==> r is Err,
            self.spec_enabled() ==> (r matches Ok(a) && strs(a@) == seq!["list"@, "--scope"@, self.spec_scope()]
                + flag("--limit"@, decimal(limit as nat))),
    {
        let r = self.list_args(None, Some(limit));
        proof {
            if self.spec_enabled() {
                let a = r->Ok_0;
                assert(strs(a@) =~= seq!["list"@, "--scope"@, self.spec_scope()] + flag("--limit"@, decimal(limit as nat)));
            }
        }
        r
    }
}

/// The note stored for a visited page.
pub open spec fn page_note(url: Seq<char>, title: Seq<char>) -> Seq<char> {
    "Page: "@ + title + " ("@ + url + ")"@
}

/// The note stored for a visited page: `Page: <title> (<url>)`.
pub fn page_note_text(url: &str, title: &str) -> (r: String)
    ensures
        r@ == page_note(url@, title@),
{
    let mut r = concat3("Page: ", title, " (");
    r.append(url);
    r.append(")");
    r
}

/// The note stored for a question and its answer.
pub open spec fn conversation_note(q: Seq<char>, a: Seq<char>) -> Seq<char> {
    "Q: "@ + q + "\nA: "@ + a
}

/// The note stored for a question and its answer: `Q: <question>\nA: <answer>`.
pub fn conversation_note_text(query: &str, response: &str) -> (r: String)
    ensures
        r@ == conversation_note(query@, response@),
{
    let mut r = concat3("Q: ", query, "\nA: ");
    r.append(response);
    r
}

/// The error of a failed `mem-layer` run: `mem-layer <what> failed: <stderr>`.
pub fn command_failed(what: &str, stderr: &str) -> (r: String)
    ensures
        r@ == "mem-layer "@ + what@ + " failed: "@ + stderr@,
{
    let mut r = concat3("mem-layer ", what, " failed: ");
    r.append(stderr);
    r
}

/// The id `mem-layer add` printed: its output trimmed.
pub fn added_note_id(stdout: &str) -> (r: String)
    ensures
        r@ == trim(stdout@),
{
    trim_str(stdout)
}

/// The non-empty lines of a search's output.
pub open spec fn nonempty_lines(ls: Seq<Seq<char>>) -> Seq<Seq<char>>
    decreases ls.len(),
{
    if ls.len() == 0 {
        Seq::empty()
    } else {
        nonempty_lines(ls.drop_last()) + if ls.last().len() > 0 { seq![ls.last()] } else { Seq::empty() }
    }
}

/// The results of a search: the non-empty lines of its output.
pub fn parse_search_output(stdout: &str) -> (r: Vec<String>)
    ensures
        views(r@) == nonempty_lines(lines(stdout@)),
{
    let ls = str_lines(stdout);
    let mut r: Vec<String> = Vec::new();
    let mut i: usize = 0;
    while i < ls.len()
        invariant
            i <= ls@.len(),
            views(ls@) == lines(stdout@),
            views(r@) == nonempty_lines(views(ls@).take(i as int)),
        decreases ls.len() - i,
    {
        proof {
            assert(views(ls@).take(i + 1).drop_last() =~= views(ls@).take(i as int));
            assert(views(ls@).take(i + 1).last() == ls@[i as int]@);
        }
        if char_count(ls[i].as_str()) > 0 {
            let ghost before = r@;
            r.push(owned(ls[i].as_str()));
            assert(views(r@) =~= views(before) + seq![ls@[i as int]@]);
        } else {
            assert(views(r@) =~= views(r@) + Seq::<Seq<char>>::empty());
        }
        i = i + 1;
    }
    assert(views(ls@).take(ls@.len() as int) =~= views(ls@));
    r
}

/// Whether a line of a listing is a row of the table: not empty, not a border line, not a
/// log line, not the header.
pub open spec fn table_row(l: Seq<char>) -> bool {
    &&& l.len() > 0
    &&& !starts_with(l, "┏"@)
    &&& !starts_with(l, "┡"@)
    &&& !starts_with(l, "└"@)
    &&& !starts_with(l, "━"@)
    &&& !contains(l, "INFO - "@)
    &&& !starts_with(trim_start(l), "ID"@)
}

/// The rows of a listing, trimmed, the empty ones left out.
pub open spec fn table_rows(ls: Seq<Seq<char>>) -> Seq<Seq<char>>
    decreases ls.len(),
{
    if ls.len() == 0 {
        Seq::empty()
    } else {
        let l = ls.last();
        table_rows(ls.drop_last()) + if table_row(l) && trim(l).len() > 0 { seq![trim(l)] } else { Seq::empty() }
    }
}

fn is_table_row(l: &str) -> (b: bool)
    ensures
        b == table_row(l@),
{
    char_count(l) > 0 && !str_starts_with(l, "┏") && !str_starts_with(l, "┡") && !str_starts_with(l, "└")
        && !str_starts_with(l, "━") && !str_contains(l, "INFO - ") && !str_starts_with(trim_start_str(l).as_str(), "ID")
}

/// The nodes of a listing: the rows of its table, trimmed.
pub fn parse_node_list(stdout: &str) -> (r: Vec<String>)
    ensures
        views(r@) == table_rows(lines(stdout@)),
{
    let ls = str_lines(stdout);
    let mut r: Vec<String> = Vec::new();
    let mut i: usize = 0;
    while i < ls.len()
        invariant
            i <= ls@.len(),
            views(ls@) == lines(stdout@),
            views(r@) == table_rows(views(ls@).take(i as int)),
        decreases ls.len() - i,
    {
        proof {
            assert(views(ls@).take(i + 1).drop_last() =~= views(ls@).take(i as int));
            assert(views(ls@).take(i + 1).last() == ls@[i as int]@);
        }
        let keep = if is_table_row(ls[i].as_str()) {
            let t = trim_str(ls[i].as_str());
            if char_count(t.as_str()) > 0 { Some(t) } else { None }
        } else {
            None
        };
        match keep {
            Some(t) => {
                let ghost before = r@;
                r.push(t);
                assert(views(r@) =~= views(before) + seq![trim(ls@[i as int]@)]);
            },
            None => {
                assert(views(r@) =~= views(r@) + Seq::<Seq<char>>::empty());
            },
        }
        i = i + 1;
    }
    assert(views(ls@).take(ls@.len() as int) =~= views(ls@));
    r
}

} // verus!
