//! Tab management for multiple browser tabs.
use vstd::prelude::*;
use crate::browser::{Link, Page, RenderMode, strs, links_view};
use crate::text::{owned, str_byte_len, str_byte_prefix, concat2, byte_len, char_boundary, byte_prefix};

verus! {

/// A single browser tab.
#[derive(Debug, Clone)]
pub struct Tab {
    pub id: usize,
    pub url: String,
    pub title: String,
    pub page: Option<Page>,
    pub loading: bool,
    pub error: Option<String>,
    pub scroll_offset: usize,
    pub sidebar_selected: usize,
    pub render_mode: RenderMode,
    /// Navigation history within the tab
    pub history: NavHistory,
}

/// A history as a value: the visited URLs, oldest first, and the current position
/// (-1 before any navigation).
pub type HistoryModel = (Seq<Seq<char>>, int);

/// The position lies inside the history, or is -1 for an empty history.
pub open spec fn history_ok(m: HistoryModel) -> bool {
    &&& (m.0.len() == 0 <==> m.1 == -1)
    &&& (m.0.len() > 0 ==> 0 <= m.1 < m.0.len())
}

/// Visiting `url`: the entries after the current one are dropped, `url` is appended and
/// becomes current.
pub open spec fn visit_step(m: HistoryModel, url: Seq<char>) -> HistoryModel {
    let entries = m.0.take(m.1 + 1).push(url);
    (entries, entries.len() - 1)
}

/// Stepping back one entry, when there is one.
pub open spec fn back_step(m: HistoryModel) -> HistoryModel {
    if m.1 > 0 { (m.0, m.1 - 1) } else { m }
}

/// Stepping forward one entry, when there is one.
pub open spec fn forward_step(m: HistoryModel) -> HistoryModel {
    if 0 <= m.1 < m.0.len() - 1 { (m.0, m.1 + 1) } else { m }
}

/// The URLs a tab has visited and the position within them.
#[derive(Debug, Clone)]
pub struct NavHistory {
    entries: Vec<String>,
    index: isize,
}

impl NavHistory {
    /// The URLs, oldest first.
    pub closed spec fn entries(&self) -> Seq<Seq<char>> {
        strs(self.entries@)
    }

    /// The current position (-1 before any navigation).
    pub closed spec fn pos(&self) -> int {
        self.index as int
    }

    pub open spec fn model(&self) -> HistoryModel {
        (self.entries(), self.pos())
    }

    /// The position lies inside the history, or is -1 for an empty history.
    pub open spec fn wf(&self) -> bool {
        &&& self.entries().len() < isize::MAX
        &&& history_ok(self.model())
    }

    pub open spec fn can_back(&self) -> bool {
        self.pos() > 0
    }

    pub open spec fn can_forward(&self) -> bool {
        0 <= self.pos() < self.entries().len() - 1
    }

    pub fn new() -> (h: NavHistory)
        ensures
            h.wf(),
            h.entries().len() == 0,
            h.pos() == -1,
    {
        let h = NavHistory { entries: Vec::new(), index: -1 };
        assert(h.entries() =~= Seq::<Seq<char>>::empty());
        h
    }

    /// Drop the entries after the current one, then append `url` and move to it.
    pub fn visit(&mut self, url: &str)
        requires
            old(self).wf(),
            old(self).entries().len() + 1 < isize::MAX,
        ensures
            final(self).wf(),
            final(self).model() == visit_step(old(self).model(), url@),
    {
        let len = self.entries.len();
        let last: usize = if len >= 1 { len - 1 } else { 0 };
        if self.index >= 0 && (self.index as usize) < last {
            self.entries.truncate((self.index + 1) as usize);
        }
        proof {
            if old(self).index >= 0 {
                assert(self.entries@ =~= old(self).entries@.take(old(self).index + 1));
            } else {
                assert(self.entries@ =~= old(self).entries@.take(0));
            }
        }
        self.entries.push(owned(url));
        self.index = self.entries.len() as isize - 1;
        proof {
            assert(self.entries() =~= old(self).entries().take(old(self).pos() + 1).push(url@));
        }
    }

    /// Number of entries.
    pub fn len(&self) -> (n: usize)
        ensures
            n == self.entries().len(),
    {
        self.entries.len()
    }

    /// Whether there is an earlier entry.
    pub fn has_back(&self) -> (b: bool)
        ensures
            b == self.can_back(),
    {
        self.index > 0
    }

    /// Whether there is a later entry.
    pub fn has_forward(&self) -> (b: bool)
        requires
            self.wf(),
        ensures
            b == self.can_forward(),
    {
        let len = self.entries.len();
        let last: usize = if len >= 1 { len - 1 } else { 0 };
        self.index >= 0 && (self.index as usize) < last
    }

    /// Move one entry back and return it.
    pub fn back(&mut self) -> (u: String)
        requires
            old(self).wf(),
            old(self).can_back(),
        ensures
            final(self).wf(),
            final(self).model() == back_step(old(self).model()),
            u@ == final(self).entries()[final(self).pos()],
    {
        self.index = self.index - 1;
        self.entries[self.index as usize].clone()
    }

    /// Move one entry forward and return it.
    pub fn forward(&mut self) -> (u: String)
        requires
            old(self).wf(),
            old(self).can_forward(),
        ensures
            final(self).wf(),
            final(self).model() == forward_step(old(self).model()),
            u@ == final(self).entries()[final(self).pos()],
    {
        self.index = self.index + 1;
        self.entries[self.index as usize].clone()
    }
}

/// The lines of the welcome page.
pub open spec fn welcome_lines() -> Seq<Seq<char>> {
    seq![
        "# Welcome to Azul"@,
        ""@,
        "**Terminal Web Browser**"@,
        ""@,
        "---"@,
        ""@,
        "## Getting Started"@,
        ""@,
        "- Press `/` to search or enter a URL"@,
        "- Press `?` for help"@,
        "- Press `1` for links, `2` for content, `3` for chat"@,
        ""@,
        "## Quick Links"@,
        ""@,
        "Browse the **Links** panel on the left to visit suggested sites."@,
        ""@,
        "## AI Assistant"@,
        ""@,
        "Chat with the AI (press `c` or `3`) - it can search the web, summarize pages, and help you navigate."@,
        ""@,
    ]
}

/// The suggested links of the welcome page.
pub open spec fn welcome_links() -> Seq<(Seq<char>, Seq<char>)> {
    seq![
        ("Ethers Blog"@, "https://blog.ethers.club"@),
        ("Hacker News"@, "https://news.ycombinator.com"@),
        ("Wikipedia"@, "https://en.wikipedia.org"@),
        ("arXiv"@, "https://arxiv.org"@),
        ("GitHub"@, "https://github.com"@),
        ("Lobsters"@, "https://lobste.rs"@),
        ("DuckDuckGo"@, "https://duckduckgo.com"@),
    ]
}

/// Whether `p` is the welcome page.
pub open spec fn is_welcome_page(p: Page) -> bool {
    &&& p.url@ == "azul://home"@
    &&& p.title@ == "Welcome to Azul"@
    &&& strs(p.content_lines@) == welcome_lines()
    &&& p.raw_content@ == "Welcome to Azul Browser"@
    &&& links_view(p.links@) == welcome_links()
}

fn welcome_page() -> (p: Page)
    ensures
        is_welcome_page(p),
{
    let mut lines: Vec<String> = Vec::new();
    lines.push(owned("# Welcome to Azul"));
    lines.push(owned(""));
    lines.push(owned("**Terminal Web Browser**"));
    lines.push(owned(""));
    lines.push(owned("---"));
    lines.push(owned(""));
    lines.push(owned("## Getting Started"));
    lines.push(owned(""));
    lines.push(owned("- Press `/` to search or enter a URL"));
    lines.push(owned("- Press `?` for help"));
    lines.push(owned("- Press `1` for links, `2` for content, `3` for chat"));
    lines.push(owned(""));
    lines.push(owned("## Quick Links"));
    lines.push(owned(""));
    lines.push(owned("Browse the **Links** panel on the left to visit suggested sites."));
    lines.push(owned(""));
    lines.push(owned("## AI Assistant"));
    lines.push(owned(""));
    lines.push(
        owned(
            "Chat with the AI (press `c` or `3`) - it can search the web, summarize pages, and help you navigate.",
        ),
    );
    lines.push(owned(""));
    let mut links: Vec<Link> = Vec::new();
    links.push(Link::new("Ethers Blog", "https://blog.ethers.club"));
    links.push(Link::new("Hacker News", "https://news.ycombinator.com"));
    links.push(Link::new("Wikipedia", "https://en.wikipedia.org"));
    links.push(Link::new("arXiv", "https://arxiv.org"));
    links.push(Link::new("GitHub", "https://github.com"));
    links.push(Link::new("Lobsters", "https://lobste.rs"));
    links.push(Link::new("DuckDuckGo", "https://duckduckgo.com"));
    let p = Page {
        url: owned("azul://home"),
        title: owned("Welcome to Azul"),
        content_lines: lines,
        raw_content: owned("Welcome to Azul Browser"),
        links: links,
    };
    assert(strs(p.content_lines@) =~= welcome_lines());
    assert(links_view(p.links@) =~= welcome_links());
    p
}

/// The title a tab shows before truncation.
pub open spec fn shown_title(loading: bool, title: Seq<char>) -> Seq<char> {
    if loading {
        "Loading..."@
    } else if title.len() == 0 {
        "New Tab"@
    } else {
        title
    }
}

pub open spec fn sat_sub(a: int, b: int) -> int {
    if a >= b { a - b } else { 0 }
}

/// `t`, cut to `max_len - 3` bytes followed by "..." when it is longer than `max_len` bytes.
pub open spec fn truncated_title(t: Seq<char>, max_len: nat) -> Seq<char> {
    if byte_len(t) > max_len {
        byte_prefix(t, sat_sub(max_len as int, 3)) + "..."@
    } else {
        t
    }
}

/// `n` is `o` stepped one entry back in its unchanged history, showing that entry's URL;
/// nothing else changes.
pub open spec fn went_back(o: Tab, n: Tab) -> bool {
    &&& n.wf()
    &&& n.history_view() == o.history_view()
    &&& n.history_pos() == o.history_pos() - 1
    &&& n.url@ == o.history_view()[o.history_pos() - 1]
    &&& n.id == o.id
    &&& n.title == o.title
    &&& n.page == o.page
    &&& n.loading == o.loading
    &&& n.error == o.error
    &&& n.scroll_offset == o.scroll_offset
    &&& n.sidebar_selected == o.sidebar_selected
    &&& n.render_mode == o.render_mode
}

/// `n` is `o` stepped one entry forward in its unchanged history, showing that entry's
/// URL; nothing else changes.
pub open spec fn went_forward(o: Tab, n: Tab) -> bool {
    &&& n.wf()
    &&& n.history_view() == o.history_view()
    &&& n.history_pos() == o.history_pos() + 1
    &&& n.url@ == o.history_view()[o.history_pos() + 1]
    &&& n.id == o.id
    &&& n.title == o.title
    &&& n.page == o.page
    &&& n.loading == o.loading
    &&& n.error == o.error
    &&& n.scroll_offset == o.scroll_offset
    &&& n.sidebar_selected == o.sidebar_selected
    &&& n.render_mode == o.render_mode
}

/// In a tab that shows its history's current entry (as `navigate`, `go_back` and
/// `go_forward` leave it), going back and then forward can always be done and comes back
/// to the same URL at the same place of the same history, with nothing else changed; and
/// the other way round.
pub proof fn law_tab_back_forward(t0: Tab, t1: Tab, t2: Tab)
    requires
        t0.wf(),
        t0.history_pos() >= 0,
        t0.url@ == t0.history_view()[t0.history_pos()],
    ensures
        t0.spec_can_go_back() && went_back(t0, t1) ==> {
            &&& t1.spec_can_go_forward()
            &&& went_forward(t1, t2) ==> {
                &&& t2.url@ == t0.url@
                &&& t2.history_view() == t0.history_view()
                &&& t2.history_pos() == t0.history_pos()
                &&& t2.id == t0.id && t2.page == t0.page && t2.title == t0.title
                &&& t2.loading == t0.loading && t2.error == t0.error
                &&& t2.scroll_offset == t0.scroll_offset && t2.render_mode == t0.render_mode
            }
        },
        t0.spec_can_go_forward() && went_forward(t0, t1) ==> {
            &&& t1.spec_can_go_back()
            &&& went_back(t1, t2) ==> {
                &&& t2.url@ == t0.url@
                &&& t2.history_view() == t0.history_view()
                &&& t2.history_pos() == t0.history_pos()
            }
        },
{
}

impl Tab {
    /// The URLs of the tab's history, oldest first.
    pub open spec fn history_view(&self) -> Seq<Seq<char>> {
        self.history.entries()
    }

    /// The position in the history (-1 before any navigation).
    pub open spec fn history_pos(&self) -> int {
        self.history.pos()
    }

    pub open spec fn wf(&self) -> bool {
        self.history.wf()
    }

    pub open spec fn spec_can_go_back(&self) -> bool {
        self.history.can_back()
    }

    pub open spec fn spec_can_go_forward(&self) -> bool {
        self.history.can_forward()
    }

    /// Create a new tab showing the welcome page.
    pub fn new(id: usize) -> (t: Tab)
        ensures
            t.wf(),
            t.id == id,
            t.url@ == "azul://home"@,
            t.title@ == "Welcome to Azul"@,
            t.page matches Some(p) && is_welcome_page(p),
            !t.loading,
            t.error is None,
            t.scroll_offset == 0,
            t.sidebar_selected == 0,
            t.render_mode == RenderMode::Auto,
            t.history_view().len() == 0,
            t.history_pos() == -1,
    {
        Tab {
            id,
            url: owned("azul://home"),
            title: owned("Welcome to Azul"),
            page: Some(welcome_page()),
            loading: false,
            error: None,
            scroll_offset: 0,
            sidebar_selected: 0,
            render_mode: RenderMode::Auto,
            history: NavHistory::new(),
        }
    }

    /// Navigate to a URL: forward entries are dropped and the URL becomes the newest entry.
    pub fn navigate(&mut self, url: &str)
        requires
            old(self).wf(),
            old(self).history_view().len() + 1 < isize::MAX,
        ensures
            final(self).wf(),
            final(self).history_view() == old(self).history_view().take(
                old(self).history_pos() + 1,
            ).push(url@),
            final(self).history_pos() == final(self).history_view().len() - 1,
            final(self).url@ == url@,
            final(self).loading,
            final(self).error is None,
            final(self).id == old(self).id,
            final(self).title == old(self).title,
            final(self).page == old(self).page,
            final(self).scroll_offset == old(self).scroll_offset,
            final(self).sidebar_selected == old(self).sidebar_selected,
            final(self).render_mode == old(self).render_mode,
    {
        self.history.visit(url);
        self.url = owned(url);
        self.loading = true;
        self.error = None;
    }

    /// Show a loaded page.
    pub fn set_page(&mut self, page: Page)
        ensures
            final(self).title@ == page.title@,
            final(self).url@ == page.url@,
            final(self).page == Some(page),
            !final(self).loading,
            final(self).error is None,
            final(self).scroll_offset == 0,
            final(self).sidebar_selected == 0,
            final(self).id == old(self).id,
            final(self).render_mode == old(self).render_mode,
            final(self).history == old(self).history,
    {
        self.title = page.title.clone();
        self.url = page.url.clone();
        self.page = Some(page);
        self.loading = false;
        self.error = None;
        self.scroll_offset = 0;
        self.sidebar_selected = 0;
    }

    /// Show an error.
    pub fn set_error(&mut self, error: String)
        ensures
            !final(self).loading,
            final(self).error == Some(error),
            final(self).id == old(self).id,
            final(self).url == old(self).url,
            final(self).title == old(self).title,
            final(self).page == old(self).page,
            final(self).scroll_offset == old(self).scroll_offset,
            final(self).sidebar_selected == old(self).sidebar_selected,
            final(self).render_mode == old(self).render_mode,
            final(self).history == old(self).history,
    {
        self.loading = false;
        self.error = Some(error);
    }

    /// Number of history entries.
    pub fn history_len(&self) -> (n: usize)
        ensures
            n == self.history_view().len(),
    {
        self.history.len()
    }

    /// Whether there is an earlier history entry.
    pub fn can_go_back(&self) -> (b: bool)
        ensures
            b == self.spec_can_go_back(),
    {
        self.history.has_back()
    }

    /// Whether there is a later history entry.
    pub fn can_go_forward(&self) -> (b: bool)
        requires
            self.wf(),
        ensures
            b == self.spec_can_go_forward(),
    {
        self.history.has_forward()
    }

    /// Step back in the history; returns the URL to load.
    pub fn go_back(&mut self) -> (r: Option<String>)
        requires
            old(self).wf(),
        ensures
            final(self).wf(),
            final(self).history_view() == old(self).history_view(),
            old(self).spec_can_go_back() ==> went_back(*old(self), *final(self)) && (r matches Some(
                u,
            ) && u@ == final(self).url@),
            !old(self).spec_can_go_back() ==> r is None && *final(self) == *old(self),
    {
        if !self.can_go_back() {
            return None;
        }
        let u = self.history.back();
        self.url = u.clone();
        Some(u)
    }

    /// Step forward in the history; returns the URL to load.
    pub fn go_forward(&mut self) -> (r: Option<String>)
        requires
            old(self).wf(),
        ensures
            final(self).wf(),
            final(self).history_view() == old(self).history_view(),
            old(self).spec_can_go_forward() ==> went_forward(*old(self), *final(self)) && (r matches Some(
                u,
            ) && u@ == final(self).url@),
            !old(self).spec_can_go_forward() ==> r is None && *final(self) == *old(self),
    {
        if !self.can_go_forward() {
            return None;
        }
        let u = self.history.forward();
        self.url = u.clone();
        Some(u)
    }

    /// The title to display, cut to `max_len` bytes.
    pub fn display_title(&self, max_len: usize) -> (r: String)
        requires
            byte_len(shown_title(self.loading, self.title@)) <= usize::MAX,
            byte_len(shown_title(self.loading, self.title@)) > max_len ==> char_boundary(
                shown_title(self.loading, self.title@),
                sat_sub(max_len as int, 3),
            ),
        ensures
            r@ == truncated_title(shown_title(self.loading, self.title@), max_len as nat),
    {
        let title = if self.loading {
            owned("Loading...")
        } else if self.title.as_str().is_empty() {
            owned("New Tab")
        } else {
            self.title.clone()
        };
        if str_byte_len(title.as_str()) > max_len {
            let keep: usize = if max_len >= 3 { max_len - 3 } else { 0 };
            proof {
                vstd::utf8::encode_utf8_valid_utf8(title@);
            }
            concat2(str_byte_prefix(title.as_str(), keep).as_str(), "...")
        } else {
            title
        }
    }
}

/// The ids of `tabs` increase from first to last.
pub open spec fn ids_increasing(tabs: Seq<Tab>) -> bool {
    forall|i: int, j: int| 0 <= i < j < tabs.len() ==> #[trigger] tabs[i].id < #[trigger] tabs[j].id
}

/// Manages multiple browser tabs.
pub struct TabManager {
    tabs: Vec<Tab>,
    active: usize,
    next_id: usize,
    max_tabs: usize,
}

impl TabManager {
    pub closed spec fn spec_tabs(&self) -> Seq<Tab> {
        self.tabs@
    }

    pub closed spec fn spec_active(&self) -> nat {
        self.active as nat
    }

    pub closed spec fn spec_next_id(&self) -> nat {
        self.next_id as nat
    }

    pub closed spec fn spec_max_tabs(&self) -> nat {
        self.max_tabs as nat
    }

    /// At least one and at most nine tabs, the active one among them, each well formed;
    /// the tabs' ids increase from first to last and stay below the next id to hand out.
    pub closed spec fn wf(&self) -> bool {
        &&& self.max_tabs == 9
        &&& 1 <= self.tabs@.len() <= self.max_tabs
        &&& self.active < self.tabs@.len()
        &&& forall|i: int| 0 <= i < self.tabs@.len() ==> (#[trigger] self.tabs@[i]).wf()
        &&& ids_increasing(self.tabs@)
        &&& forall|i: int| 0 <= i < self.tabs@.len() ==> (#[trigger] self.tabs@[i]).id < self.next_id
    }

    pub proof fn lemma_wf(&self)
        requires
            self.wf(),
        ensures
            self.spec_max_tabs() == 9,
            1 <= self.spec_tabs().len() <= 9,
            self.spec_active() < self.spec_tabs().len(),
            forall|i: int| 0 <= i < self.spec_tabs().len() ==> (#[trigger] self.spec_tabs()[i]).wf(),
    {
    }

    /// Replacing a tab by a well-formed one with the same id keeps the manager well formed.
    pub proof fn lemma_wf_update(&self, other: &TabManager, i: int, t: Tab)
        requires
            self.wf(),
            0 <= i < self.spec_tabs().len(),
            t.wf(),
            t.id == self.spec_tabs()[i].id,
            other.spec_tabs() == self.spec_tabs().update(i, t),
            other.spec_active() == self.spec_active(),
            other.spec_next_id() == self.spec_next_id(),
            other.spec_max_tabs() == self.spec_max_tabs(),
        ensures
            other.wf(),
    {
        assert forall|k: int| 0 <= k < other.tabs@.len() implies (#[trigger] other.tabs@[k]).wf()
            && other.tabs@[k].id == self.tabs@[k].id by {
            if k != i {
                assert(other.tabs@[k] == self.tabs@[k]);
            }
        }
    }

    /// The ids of the tabs are distinct: they increase from first to last, and each is
    /// below the next id to hand out.
    pub proof fn law_tab_ids_unique(&self)
        requires
            self.wf(),
        ensures
            forall|i: int, j: int|
                0 <= i < j < self.spec_tabs().len() ==> #[trigger] self.spec_tabs()[i].id
                    < #[trigger] self.spec_tabs()[j].id,
            forall|i: int|
                0 <= i < self.spec_tabs().len() ==> #[trigger] self.spec_tabs()[i].id
                    < self.spec_next_id(),
    {
    }

    /// Whether tab ids are left to hand out.
    pub fn ids_left(&self) -> (b: bool)
        ensures
            b == (self.spec_next_id() < usize::MAX),
    {
        self.next_id < usize::MAX
    }

    /// Create a manager holding one welcome tab.
    pub fn new() -> (m: TabManager)
        ensures
            m.wf(),
            m.spec_tabs().len() == 1,
            m.spec_active() == 0,
            m.spec_next_id() == 1,
            m.spec_tabs()[0].id == 0,
            m.spec_tabs()[0].url@ == "azul://home"@,
            m.spec_tabs()[0].title@ == "Welcome to Azul"@,
            m.spec_tabs()[0].history_view().len() == 0,
            m.spec_tabs()[0].history_pos() == -1,
            m.spec_tabs()[0].page matches Some(p) && is_welcome_page(p),
            !m.spec_tabs()[0].loading,
            m.spec_tabs()[0].error is None,
            m.spec_tabs()[0].scroll_offset == 0,
            m.spec_tabs()[0].sidebar_selected == 0,
            m.spec_tabs()[0].render_mode == RenderMode::Auto,
    {
        let mut tabs: Vec<Tab> = Vec::new();
        tabs.push(Tab::new(0));
        TabManager { tabs, active: 0, next_id: 1, max_tabs: 9 }
    }

    /// Open a new tab (navigating it to `url` if given) and make it active; `None` when full.
    pub fn new_tab(&mut self, url: Option<&str>) -> (r: Option<usize>)
        requires
            old(self).wf(),
            old(self).spec_next_id() < usize::MAX,
        ensures
            final(self).wf(),
            old(self).spec_tabs().len() >= 9 ==> r is None && *final(self) == *old(self),
            old(self).spec_tabs().len() < 9 ==> {
                &&& r == Some(old(self).spec_tabs().len() as usize)
                &&& final(self).spec_tabs().len() == old(self).spec_tabs().len() + 1
                &&& final(self).spec_tabs().take(old(self).spec_tabs().len() as int)
                    == old(self).spec_tabs()
                &&& final(self).spec_active() == old(self).spec_tabs().len()
                &&& final(self).spec_next_id() == old(self).spec_next_id() + 1
                &&& final(self).spec_tabs().last().id == old(self).spec_next_id()
                &&& match url {
                    None => {
                        &&& final(self).spec_tabs().last().history_view().len() == 0
                        &&& !final(self).spec_tabs().last().loading
                        &&& final(self).spec_tabs().last().url@ == "azul://home"@
                    },
                    Some(u) => {
                        &&& final(self).spec_tabs().last().history_view() == seq![u@]
                        &&& final(self).spec_tabs().last().loading
                        &&& final(self).spec_tabs().last().url@ == u@
                    },
                }
            },
    {
        if self.tabs.len() >= self.max_tabs {
            return None;
        }
        let mut tab = Tab::new(self.next_id);
        self.next_id = self.next_id + 1;
        if let Some(u) = url {
            tab.navigate(u);
            assert(tab.history_view() =~= seq![u@]);
        }
        self.tabs.push(tab);
        let idx = self.tabs.len() - 1;
        self.active = idx;
        proof {
            assert(self.tabs@.take(old(self).tabs@.len() as int) =~= old(self).tabs@);
            assert forall|i: int| 0 <= i < self.tabs@.len() implies (#[trigger] self.tabs@[i]).wf() by {
                if i < old(self).tabs@.len() {
                    assert(self.tabs@[i] == old(self).tabs@[i]);
                }
            }
        }
        Some(idx)
    }

    /// Close the tab at `index` unless it is the last one; keeps the active tab pointing
    /// at the same tab when it survives.
    pub fn close_tab(&mut self, index: usize) -> (closed: bool)
        requires
            old(self).wf(),
        ensures
            final(self).wf(),
            closed == (index < old(self).spec_tabs().len() && old(self).spec_tabs().len() > 1),
            !closed ==> *final(self) == *old(self),
            closed ==> {
                &&& final(self).spec_tabs() == old(self).spec_tabs().remove(index as int)
                &&& final(self).spec_next_id() == old(self).spec_next_id()
                &&& final(self).spec_active() == if old(self).spec_active()
                    >= final(self).spec_tabs().len() {
                    (final(self).spec_tabs().len() - 1) as nat
                } else if index < old(self).spec_active() {
                    (old(self).spec_active() - 1) as nat
                } else {
                    old(self).spec_active()
                }
            },
    {
        if index >= self.tabs.len() || self.tabs.len() <= 1 {
            return false;
        }
        self.tabs.remove(index);
        if self.active >= self.tabs.len() {
            self.active = self.tabs.len() - 1;
        } else if index < self.active {
            self.active = self.active - 1;
        }
        proof {
            assert forall|i: int| 0 <= i < self.tabs@.len() implies (#[trigger] self.tabs@[i]).wf() by {
                if i < index {
                    assert(self.tabs@[i] == old(self).tabs@[i]);
                } else {
                    assert(self.tabs@[i] == old(self).tabs@[i + 1]);
                }
            }
        }
        true
    }

    /// Close the active tab unless it is the last one.
    pub fn close_current_tab(&mut self) -> (closed: bool)
        requires
            old(self).wf(),
        ensures
            final(self).wf(),
            closed == (old(self).spec_tabs().len() > 1),
            !closed ==> *final(self) == *old(self),
            closed ==> {
                &&& final(self).spec_tabs() == old(self).spec_tabs().remove(
                    old(self).spec_active() as int,
                )
                &&& final(self).spec_active() == if old(self).spec_active()
                    >= final(self).spec_tabs().len() {
                    (final(self).spec_tabs().len() - 1) as nat
                } else {
                    old(self).spec_active()
                }
            },
    {
        let a = self.active;
        self.close_tab(a)
    }

    /// The active tab.
    pub fn active_tab(&self) -> (r: Option<&Tab>)
        requires
            self.wf(),
        ensures
            r matches Some(t) && *t == self.spec_tabs()[self.spec_active() as int],
    {
        Some(&self.tabs[self.active])
    }

    /// The active tab, mutably.
    pub fn active_tab_mut(&mut self) -> (r: Option<&mut Tab>)
        requires
            old(self).wf(),
        ensures
            r matches Some(t) && *t == old(self).spec_tabs()[old(self).spec_active() as int],
            r matches Some(t) && final(self).spec_tabs() == old(self).spec_tabs().update(
                old(self).spec_active() as int,
                *final(t),
            ),
            final(self).spec_active() == old(self).spec_active(),
            final(self).spec_next_id() == old(self).spec_next_id(),
            final(self).spec_max_tabs() == old(self).spec_max_tabs(),
    {
        let a = self.active;
        Some(&mut self.tabs[a])
    }

    /// Index of the active tab.
    pub fn active_index(&self) -> (i: usize)
        ensures
            i == self.spec_active(),
    {
        self.active
    }

    /// Make the tab at `index` active, if it exists.
    pub fn set_active(&mut self, index: usize)
        requires
            old(self).wf(),
        ensures
            final(self).wf(),
            final(self).spec_tabs() == old(self).spec_tabs(),
            final(self).spec_next_id() == old(self).spec_next_id(),
            final(self).spec_active() == if index < old(self).spec_tabs().len() {
                index as nat
            } else {
                old(self).spec_active()
            },
    {
        if index < self.tabs.len() {
            self.active = index;
        }
    }

    /// Switch to the next tab, wrapping around.
    pub fn next_tab(&mut self)
        requires
            old(self).wf(),
        ensures
            final(self).wf(),
            final(self).spec_tabs() == old(self).spec_tabs(),
            final(self).spec_next_id() == old(self).spec_next_id(),
            final(self).spec_active() == next_index(
                old(self).spec_active(),
                old(self).spec_tabs().len(),
            ),
    {
        if self.tabs.len() > 1 {
            self.active = (self.active + 1) % self.tabs.len();
        }
    }

    /// Switch to the previous tab, wrapping around.
    pub fn prev_tab(&mut self)
        requires
            old(self).wf(),
        ensures
            final(self).wf(),
            final(self).spec_tabs() == old(self).spec_tabs(),
            final(self).spec_next_id() == old(self).spec_next_id(),
            final(self).spec_active() == prev_index(
                old(self).spec_active(),
                old(self).spec_tabs().len(),
            ),
    {
        if self.tabs.len() > 1 {
            if self.active == 0 {
                self.active = self.tabs.len() - 1;
            } else {
                self.active = self.active - 1;
            }
        }
    }

    /// Go to tab number `num` (1-based), if it exists.
    pub fn go_to_tab(&mut self, num: usize)
        requires
            old(self).wf(),
        ensures
            final(self).wf(),
            final(self).spec_tabs() == old(self).spec_tabs(),
            final(self).spec_next_id() == old(self).spec_next_id(),
            final(self).spec_active() == if 0 < num <= old(self).spec_tabs().len() {
                (num - 1) as nat
            } else {
                old(self).spec_active()
            },
    {
        if num > 0 && num <= self.tabs.len() {
            self.active = num - 1;
        }
    }

    /// Number of tabs.
    pub fn count(&self) -> (n: usize)
        ensures
            n == self.spec_tabs().len(),
    {
        self.tabs.len()
    }

    /// All tabs.
    pub fn tabs(&self) -> (t: &[Tab])
        ensures
            t@ == self.spec_tabs(),
    {
        self.tabs.as_slice()
    }

    /// The tab at `index`.
    pub fn get_tab(&self, index: usize) -> (r: Option<&Tab>)
        ensures
            index < self.spec_tabs().len() ==> (r matches Some(t) && *t == self.spec_tabs()[index as int]),
            index >= self.spec_tabs().len() ==> r is None,
    {
        if index < self.tabs.len() {
            Some(&self.tabs[index])
        } else {
            None
        }
    }

    /// The tab at `index`, mutably.
    pub fn get_tab_mut(&mut self, index: usize) -> (r: Option<&mut Tab>)
        ensures
            index < old(self).spec_tabs().len() ==> (r matches Some(t) && *t == old(
                self,
            ).spec_tabs()[index as int] && final(self).spec_tabs() == old(self).spec_tabs().update(
                index as int,
                *final(t),
            )),
            index >= old(self).spec_tabs().len() ==> r is None && *final(self) == *old(self),
            final(self).spec_active() == old(self).spec_active(),
            final(self).spec_next_id() == old(self).spec_next_id(),
            final(self).spec_max_tabs() == old(self).spec_max_tabs(),
    {
        if index < self.tabs.len() {
            Some(&mut self.tabs[index])
        } else {
            None
        }
    }

    /// Whether no more tabs can be opened.
    pub fn is_full(&self) -> (b: bool)
        ensures
            b == (self.spec_tabs().len() >= self.spec_max_tabs()),
    {
        self.tabs.len() >= self.max_tabs
    }

    /// A manager is full exactly when it holds nine tabs, and it is then the only state
    /// in which `new_tab` opens nothing.
    pub proof fn law_full_at_nine(&self)
        requires
            self.wf(),
        ensures
            (self.spec_tabs().len() >= self.spec_max_tabs()) == (self.spec_tabs().len() == 9),
            (self.spec_tabs().len() >= 9) == (self.spec_tabs().len() == 9),
    {
    }
}

} // verus!

verus! {

/// Stepping back and then forward returns to the same place of an unchanged history.
pub proof fn law_back_then_forward(m: HistoryModel)
    requires
        history_ok(m),
        m.1 > 0,
    ensures
        forward_step(back_step(m)) == m,
{
}

/// Stepping forward and then back returns to the same place of an unchanged history.
pub proof fn law_forward_then_back(m: HistoryModel)
    requires
        history_ok(m),
        0 <= m.1 < m.0.len() - 1,
    ensures
        back_step(forward_step(m)) == m,
{
}

/// After a visit there is nothing to go forward to, and going back returns to the
/// entry that was current before the visit, with the earlier entries kept.
pub proof fn law_visit_then_back(m: HistoryModel, url: Seq<char>)
    requires
        history_ok(m),
    ensures
        history_ok(visit_step(m, url)),
        !(0 <= visit_step(m, url).1 < visit_step(m, url).0.len() - 1),
        visit_step(m, url).0.last() == url,
        m.1 >= 0 ==> {
            let b = back_step(visit_step(m, url));
            &&& b.1 == m.1
            &&& b.0[b.1] == m.0[m.1]
            &&& b.0.take(m.1 + 1) == m.0.take(m.1 + 1)
        },
{
    let v = visit_step(m, url);
    if m.1 >= 0 {
        assert(v.0.take(m.1 + 1) =~= m.0.take(m.1 + 1));
    }
}

/// The tab after `active` among `n` tabs, wrapping around.
pub open spec fn next_index(active: nat, n: nat) -> nat {
    if n > 1 { (active + 1) % n } else { active }
}

/// The tab before `active` among `n` tabs, wrapping around.
pub open spec fn prev_index(active: nat, n: nat) -> nat {
    if n > 1 {
        if active == 0 { (n - 1) as nat } else { (active - 1) as nat }
    } else {
        active
    }
}

/// Switching to the next tab and then to the previous one comes back to the same tab,
/// and so does the reverse.
pub proof fn law_next_prev_inverse(active: nat, n: nat)
    requires
        active < n,
    ensures
        prev_index(next_index(active, n), n) == active,
        next_index(prev_index(active, n), n) == active,
{
    if n > 1 {
        if active + 1 < n {
            assert((active + 1) % n == active + 1) by (nonlinear_arith)
                requires active + 1 < n;
        } else {
            assert((active + 1) % n == 0) by (nonlinear_arith)
                requires active + 1 == n, n > 1;
        }
        if active == 0 {
            assert(((n - 1) as nat + 1) % n == 0) by (nonlinear_arith)
                requires n > 1;
        } else {
            assert(((active - 1) as nat + 1) % n == active) by (nonlinear_arith)
                requires 0 < active < n;
        }
    }
}

} // verus!
