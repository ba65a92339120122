//! Chat with the assistant: messages, sessions, and the browser context handed to it.
use vstd::prelude::*;
use crate::browser::{Link, Page};
use crate::storage::{Bookmark, HistoryEntry};
use crate::text::{join, join_strings, views, decimal, usize_to_string, owned};
use crate::json::{json_quote, json_quoted};

verus! {

/// Who wrote a chat message.
#[derive(Debug, Clone, Copy, PartialEq, Eq, Structural)]
pub enum Role {
    System,
    User,
    Assistant,
    Tool,
}

/// A tool call requested by the assistant; `arguments` is the JSON text of its arguments.
#[derive(Debug, Clone)]
pub struct ToolCall {
    pub name: String,
    pub arguments: String,
}

/// Browser tools the assistant may ask for.
#[derive(Debug, Clone)]
pub enum BrowserTool {
    GetCurrentPage,
    GetLinks,
    GetBookmarks,
    GetHistory,
    Navigate { url: String },
    Search { query: String },
    AddBookmark { url: String, title: String },
}

/// A chat message; `timestamp` is milliseconds since the Unix epoch, taken when it was made.
#[derive(Debug, Clone)]
pub struct ChatMessage {
    pub role: Role,
    pub content: String,
    pub timestamp: i64,
    pub tool_calls: Option<Vec<ToolCall>>,
}

/// The current time in milliseconds since the Unix epoch, from `chrono::Utc::now`.
/// Nothing is promised of the value: it is the clock's.
#[verifier::external_body]
fn now_millis() -> i64 {
    chrono::Utc::now().timestamp_millis()
}

impl ChatMessage {
    /// The message's role and text.
    pub open spec fn entry(&self) -> (Role, Seq<char>) {
        (self.role, self.content@)
    }

    fn with_role(role: Role, content: String) -> (m: ChatMessage)
        ensures
            m.role == role,
            m.content@ == content@,
            m.tool_calls is None,
    {
        ChatMessage { role, content, timestamp: now_millis(), tool_calls: None }
    }

    /// A message from the user, stamped with the current time.
    pub fn new_user(content: String) -> (m: ChatMessage)
        ensures
            m.role == Role::User,
            m.content@ == content@,
            m.tool_calls is None,
    {
        Self::with_role(Role::User, content)
    }

    /// A message from the assistant, stamped with the current time.
    pub fn new_assistant(content: String) -> (m: ChatMessage)
        ensures
            m.role == Role::Assistant,
            m.content@ == content@,
            m.tool_calls is None,
    {
        Self::with_role(Role::Assistant, content)
    }

    /// A system message, stamped with the current time.
    pub fn new_system(content: String) -> (m: ChatMessage)
        ensures
            m.role == Role::System,
            m.content@ == content@,
            m.tool_calls is None,
    {
        Self::with_role(Role::System, content)
    }
}

/// The roles and texts of a list of messages.
pub open spec fn entries(ms: Seq<ChatMessage>) -> Seq<(Role, Seq<char>)> {
    ms.map_values(|m: ChatMessage| m.entry())
}

/// The system prompt that opens every session.
pub open spec fn system_prompt() -> Seq<char> {
    SYSTEM_PROMPT@
}

/// The text of the system prompt.
pub const SYSTEM_PROMPT: &'static str = "You are Azul Assistant, an AI helper integrated into the Azul terminal web browser.

You have access to the following browser tools:
- get_current_page: Get the currently displayed page content and metadata
- get_links: Get all links from the current page
- get_bookmarks: Get user's bookmarks
- get_history: Get browsing history
- navigate: Navigate to a URL
- search: Perform a web search
- add_bookmark: Bookmark the current page

When the user asks about the current page, links, or wants to navigate, use these tools.
Be helpful, concise, and focused on assisting with web browsing tasks.";

/// A chat session: its messages, the chosen model and the models to fall back on.
pub struct ChatSession {
    pub messages: Vec<ChatMessage>,
    pub model: String,
    pub available_models: Vec<String>,
}

impl ChatSession {
    /// A session holding only the system prompt.
    pub fn new(model: String, available_models: Vec<String>) -> (s: ChatSession)
        ensures
            entries(s.messages@) == seq![(Role::System, system_prompt())],
            s.model@ == model@,
            views(s.available_models@) == views(available_models@),
    {
        let mut session = ChatSession { messages: Vec::new(), model, available_models };
        session.add_system_message();
        assert(entries(session.messages@) =~= seq![(Role::System, system_prompt())]);
        session
    }

    fn add_system_message(&mut self)
        ensures
            final(self).messages@ == old(self).messages@.push(final(self).messages@.last()),
            final(self).messages@.last().entry() == (Role::System, system_prompt()),
            final(self).model == old(self).model,
            final(self).available_models == old(self).available_models,
    {
        self.messages.push(ChatMessage::new_system(owned(SYSTEM_PROMPT)));
    }

    /// Append a message from the user.
    pub fn add_user_message(&mut self, content: String)
        ensures
            entries(final(self).messages@) == entries(old(self).messages@).push((Role::User, content@)),
            final(self).model == old(self).model,
            final(self).available_models == old(self).available_models,
    {
        self.messages.push(ChatMessage::new_user(content));
        assert(entries(self.messages@) =~= entries(old(self).messages@).push((Role::User, content@)));
    }

    /// Append a message from the assistant.
    pub fn add_assistant_message(&mut self, content: String)
        ensures
            entries(final(self).messages@) == entries(old(self).messages@).push(
                (Role::Assistant, content@),
            ),
            final(self).model == old(self).model,
            final(self).available_models == old(self).available_models,
    {
        self.messages.push(ChatMessage::new_assistant(content));
        assert(entries(self.messages@) =~= entries(old(self).messages@).push(
            (Role::Assistant, content@),
        ));
    }

    /// Choose another model.
    pub fn set_model(&mut self, model: String)
        ensures
            final(self).model@ == model@,
            final(self).messages == old(self).messages,
            final(self).available_models == old(self).available_models,
    {
        self.model = model;
    }

    /// Forget the conversation, keeping the system prompt.
    pub fn clear(&mut self)
        ensures
            entries(final(self).messages@) == seq![(Role::System, system_prompt())],
            final(self).model == old(self).model,
            final(self).available_models == old(self).available_models,
    {
        self.messages.clear();
        self.add_system_message();
        assert(entries(self.messages@) =~= seq![(Role::System, system_prompt())]);
    }
}

/// What the browser tells the assistant about itself.
#[derive(Debug, Clone)]
pub struct BrowserContext {
    pub current_page: Option<Page>,
    pub bookmarks: Vec<Bookmark>,
    pub history: Vec<HistoryEntry>,
}

/// At most the first `n` items.
pub open spec fn first_n<T>(s: Seq<T>, n: nat) -> Seq<T> {
    if s.len() <= n { s } else { s.take(n as int) }
}

/// `<n>. <text> -> <url>`, numbering from one.
pub open spec fn link_line(i: int, l: Link) -> Seq<char> {
    decimal((i + 1) as nat) + ". "@ + l.text@ + " -> "@ + l.url@
}

/// `<title> - <url>`.
pub open spec fn titled_line(title: Seq<char>, url: Seq<char>) -> Seq<char> {
    title + " - "@ + url
}

/// The numbered lines of the first twenty links.
pub open spec fn links_text(links: Seq<Link>) -> Seq<char> {
    let shown = first_n(links, 20);
    join(Seq::new(shown.len(), |i: int| link_line(i, shown[i])), "\n"@)
}

/// The lines of the first twenty bookmarks, or a note that there are none.
pub open spec fn bookmarks_text(bs: Seq<Bookmark>) -> Seq<char> {
    if bs.len() == 0 {
        "No bookmarks"@
    } else {
        let shown = first_n(bs, 20);
        join(Seq::new(shown.len(), |i: int| titled_line(shown[i].title@, shown[i].url@)), "\n"@)
    }
}

/// The lines of the first twenty history entries, or a note that there are none.
pub open spec fn history_text(hs: Seq<HistoryEntry>) -> Seq<char> {
    if hs.len() == 0 {
        "No history"@
    } else {
        let shown = first_n(hs, 20);
        join(Seq::new(shown.len(), |i: int| titled_line(shown[i].title@, shown[i].url@)), "\n"@)
    }
}

/// The page summary object, indented as the second level of the context object.
pub open spec fn page_summary_json(p: Page) -> Seq<char> {
    "{\n    \"title\": "@ + json_quoted(p.title@) + ",\n    \"url\": "@ + json_quoted(p.url@)
        + ",\n    \"links_count\": "@ + decimal(p.links@.len()) + ",\n    \"content_preview\": "@
        + json_quoted(join(views(first_n(p.content_lines@, 10)), "\n"@)) + "\n  }"@
}

/// The context as pretty-printed JSON: the page summary (or null), and the numbers of
/// bookmarks and history entries.
pub open spec fn context_json(c: BrowserContext) -> Seq<char> {
    "{\n  \"current_page\": "@ + match c.current_page {
        Some(p) => page_summary_json(p),
        None => "null"@,
    } + ",\n  \"bookmarks_count\": "@ + decimal(c.bookmarks@.len()) + ",\n  \"history_count\": "@
        + decimal(c.history@.len()) + "\n}"@
}

impl BrowserContext {
    /// The context as pretty-printed JSON, for the assistant.
    pub fn to_json(&self) -> (r: String)
        ensures
            r@ == context_json(*self),
    {
        let mut out = owned("{\n  \"current_page\": ");
        match &self.current_page {
            Some(p) => {
                out.append("{\n    \"title\": ");
                out.append(json_quote(p.title.as_str()).as_str());
                out.append(",\n    \"url\": ");
                out.append(json_quote(p.url.as_str()).as_str());
                out.append(",\n    \"links_count\": ");
                out.append(usize_to_string(p.links.len()).as_str());
                out.append(",\n    \"content_preview\": ");
                let n = if p.content_lines.len() <= 10 { p.content_lines.len() } else { 10 };
                let mut first: Vec<String> = Vec::new();
                let mut i: usize = 0;
                while i < n
                    invariant
                        i <= n,
                        n == first_n(p.content_lines@, 10).len(),
                        first@ == first_n(p.content_lines@, 10).take(i as int),
                    decreases n - i,
                {
                    first.push(p.content_lines[i].clone());
                    proof {
                        assert(first@ =~= first_n(p.content_lines@, 10).take(i as int + 1));
                    }
                    i = i + 1;
                }
                assert(first@ =~= first_n(p.content_lines@, 10));
                let preview = join_strings(&first, "\n");
                out.append(json_quote(preview.as_str()).as_str());
                out.append("\n  }");
            },
            None => {
                out.append("null");
            },
        }
        out.append(",\n  \"bookmarks_count\": ");
        out.append(usize_to_string(self.bookmarks.len()).as_str());
        out.append(",\n  \"history_count\": ");
        out.append(usize_to_string(self.history.len()).as_str());
        out.append("\n}");
        out
    }

    /// No page, no bookmarks, no history.
    pub fn new() -> (c: BrowserContext)
        ensures
            c.current_page is None,
            c.bookmarks@.len() == 0,
            c.history@.len() == 0,
    {
        BrowserContext { current_page: None, bookmarks: Vec::new(), history: Vec::new() }
    }

    /// The current page's links, numbered, one per line (at most twenty).
    pub fn get_links_text(&self) -> (r: String)
        ensures
            r@ == match self.current_page {
                Some(p) => links_text(p.links@),
                None => "No page loaded"@,
            },
    {
        match &self.current_page {
            Some(page) => {
                let n = if page.links.len() <= 20 { page.links.len() } else { 20 };
                let ghost shown = first_n(page.links@, 20);
                let mut lines: Vec<String> = Vec::new();
                let mut i: usize = 0;
                while i < n
                    invariant
                        n == shown.len(),
                        shown == first_n(page.links@, 20),
                        i <= n,
                        views(lines@) == Seq::new(i as nat, |k: int| link_line(k, shown[k])),
                    decreases n - i,
                {
                    let link = &page.links[i];
                    let mut line = usize_to_string(i + 1);
                    line.append(". ");
                    line.append(link.text.as_str());
                    line.append(" -> ");
                    line.append(link.url.as_str());
                    assert(line@ == link_line(i as int, shown[i as int]));
                    let ghost before = lines@;
                    lines.push(line);
                    proof {
                        assert(views(lines@) =~= views(before).push(link_line(i as int, shown[i as int])));
                        assert(views(lines@) =~= Seq::new((i + 1) as nat, |k: int| link_line(k, shown[k])));
                    }
                    i = i + 1;
                }
                join_strings(&lines, "\n")
            },
            None => owned("No page loaded"),
        }
    }

    /// The bookmarks, one per line (at most twenty).
    pub fn get_bookmarks_text(&self) -> (r: String)
        ensures
            r@ == bookmarks_text(self.bookmarks@),
    {
        if self.bookmarks.len() == 0 {
            return owned("No bookmarks");
        }
        let n = if self.bookmarks.len() <= 20 { self.bookmarks.len() } else { 20 };
        let ghost shown = first_n(self.bookmarks@, 20);
        let mut lines: Vec<String> = Vec::new();
        let mut i: usize = 0;
        while i < n
            invariant
                n == shown.len(),
                shown == first_n(self.bookmarks@, 20),
                i <= n,
                views(lines@) == Seq::new(i as nat, |k: int| titled_line(shown[k].title@, shown[k].url@)),
            decreases n - i,
        {
            let b = &self.bookmarks[i];
            let mut line = b.title.clone();
            line.append(" - ");
            line.append(b.url.as_str());
            assert(line@ == titled_line(shown[i as int].title@, shown[i as int].url@));
            let ghost before = lines@;
            lines.push(line);
            proof {
                assert(views(lines@) =~= views(before).push(line@));
                assert(views(lines@) =~= Seq::new((i + 1) as nat, |k: int| titled_line(shown[k].title@, shown[k].url@)));
            }
            i = i + 1;
        }
        join_strings(&lines, "\n")
    }

    /// The history, one entry per line (at most twenty).
    pub fn get_history_text(&self) -> (r: String)
        ensures
            r@ == history_text(self.history@),
    {
        if self.history.len() == 0 {
            return owned("No history");
        }
        let n = if self.history.len() <= 20 { self.history.len() } else { 20 };
        let ghost shown = first_n(self.history@, 20);
        let mut lines: Vec<String> = Vec::new();
        let mut i: usize = 0;
        while i < n
            invariant
                n == shown.len(),
                shown == first_n(self.history@, 20),
                i <= n,
                views(lines@) == Seq::new(i as nat, |k: int| titled_line(shown[k].title@, shown[k].url@)),
            decreases n - i,
        {
            let h = &self.history[i];
            let mut line = h.title.clone();
            line.append(" - ");
            line.append(h.url.as_str());
            assert(line@ == titled_line(shown[i as int].title@, shown[i as int].url@));
            let ghost before = lines@;
            lines.push(line);
            proof {
                assert(views(lines@) =~= views(before).push(line@));
                assert(views(lines@) =~= Seq::new((i + 1) as nat, |k: int| titled_line(shown[k].title@, shown[k].url@)));
            }
            i = i + 1;
        }
        join_strings(&lines, "\n")
    }
}

impl Default for BrowserContext {
    fn default() -> (c: BrowserContext)
        ensures
            c.current_page is None,
            c.bookmarks@.len() == 0,
            c.history@.len() == 0,
    {
        BrowserContext::new()
    }
}

} // verus!
