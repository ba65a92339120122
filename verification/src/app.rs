//! Application state and the decisions taken on key presses and background messages.
//!
//! The state here is the browser's plain state; the work that reaches the outside world
//! (fetching, the database, the assistant, the system viewer) is described by an
//! [`Effect`] that the caller performs.
use vstd::prelude::*;
use crate::browser::{Page, RenderMode};
use crate::chat::{ChatSession, entries, Role};
use crate::config::Config;
use crate::mascot::{Mascot, CompanionState};
use crate::search::{QueryTarget, classifies, classify_query, engine_name};
use crate::storage::{Bookmark, HistoryEntry};
use crate::tabs::{Tab, TabManager};
use crate::text::{owned, trim, trim_str, decimal, usize_to_string, concat2, concat3, push_char, pop_char, views};
use crate::ui::theme::{ThemeManager, preset_after, preset_before, preset_name};

verus! {

/// Which part of the interface has the keyboard.
#[derive(Debug, Clone, Copy, PartialEq, Eq, Structural)]
pub enum Focus {
    Content,
    Sidebar,
    URLBar,
    TabBar,
    Bookmarks,
    History,
}

pub open spec fn focus_after(f: Focus) -> Focus {
    match f {
        Focus::Content => Focus::Sidebar,
        Focus::Sidebar => Focus::URLBar,
        Focus::URLBar => Focus::Content,
        _ => Focus::Content,
    }
}

pub open spec fn focus_before(f: Focus) -> Focus {
    match f {
        Focus::Content => Focus::URLBar,
        Focus::Sidebar => Focus::Content,
        Focus::URLBar => Focus::Sidebar,
        _ => Focus::Content,
    }
}

impl Focus {
    /// The next focus in the cycle Content, Sidebar, URL bar (the others go to Content).
    pub fn next(&self) -> (f: Focus)
        ensures
            f == focus_after(*self),
    {
        match self {
            Focus::Content => Focus::Sidebar,
            Focus::Sidebar => Focus::URLBar,
            Focus::URLBar => Focus::Content,
            Focus::TabBar => Focus::Content,
            Focus::Bookmarks => Focus::Content,
            Focus::History => Focus::Content,
        }
    }

    /// The previous focus in the cycle (the others go to Content).
    pub fn previous(&self) -> (f: Focus)
        ensures
            f == focus_before(*self),
    {
        match self {
            Focus::Content => Focus::URLBar,
            Focus::Sidebar => Focus::Content,
            Focus::URLBar => Focus::Sidebar,
            Focus::TabBar => Focus::Content,
            Focus::Bookmarks => Focus::Content,
            Focus::History => Focus::Content,
        }
    }
}

/// On the cycle Content, Sidebar, URL bar, `next` and `previous` undo each other, and
/// three steps come back to the start; every focus reaches the cycle in one step.
pub proof fn law_focus_cycle(f: Focus)
    ensures
        (f == Focus::Content || f == Focus::Sidebar || f == Focus::URLBar) ==> {
            &&& focus_before(focus_after(f)) == f
            &&& focus_after(focus_before(f)) == f
            &&& focus_after(focus_after(focus_after(f))) == f
        },
        focus_after(f) == Focus::Content || focus_after(f) == Focus::Sidebar || focus_after(f)
            == Focus::URLBar,
{
}

/// Where Tab moves the keyboard, as a focus and whether the chat has the keys: the
/// cycle is content, chat, URL bar; a focused chat gives way to the URL bar, and a pane
/// off the cycle moves on as `focus_after` says.
pub open spec fn tab_stop_after(f: Focus, chat: bool) -> (Focus, bool) {
    if chat {
        (Focus::URLBar, false)
    } else if f == Focus::Content {
        (Focus::Content, true)
    } else {
        (focus_after(f), false)
    }
}

/// Where Shift+Tab moves the keyboard: the cycle content, chat, URL bar run backwards;
/// a focused chat gives way to the content, and a pane off the cycle moves back as
/// `focus_before` says.
pub open spec fn tab_stop_before(f: Focus, chat: bool) -> (Focus, bool) {
    if chat {
        (Focus::Content, false)
    } else if f == Focus::URLBar {
        (Focus::Content, true)
    } else {
        (focus_before(f), false)
    }
}

/// The three stops of the Tab cycle: the content, the chat and the URL bar.
pub open spec fn is_tab_stop(f: Focus, chat: bool) -> bool {
    (f == Focus::Content) || (f == Focus::URLBar && !chat)
}

/// The status line shown at a stop of the Tab cycle.
pub open spec fn tab_stop_status(f: Focus, chat: bool) -> Seq<char> {
    if chat {
        "Chat - type message, Esc to exit"@
    } else {
        focus_status(f)
    }
}

/// On the stops content, chat and URL bar, Tab and Shift+Tab undo each other and three
/// presses of Tab come back to the start; from anywhere, one press of either lands on a
/// stop.
pub proof fn law_tab_cycle(f: Focus, chat: bool)
    ensures
        is_tab_stop(f, chat) ==> {
            let a = tab_stop_after(f, chat);
            let b = tab_stop_before(f, chat);
            &&& tab_stop_before(a.0, a.1) == (f, chat)
            &&& tab_stop_after(b.0, b.1) == (f, chat)
            &&& tab_stop_after(tab_stop_after(a.0, a.1).0, tab_stop_after(a.0, a.1).1) == (f, chat)
        },
        is_tab_stop(tab_stop_after(f, chat).0, tab_stop_after(f, chat).1),
        is_tab_stop(tab_stop_before(f, chat).0, tab_stop_before(f, chat).1),
        tab_stop_after(Focus::Content, false) == (Focus::Content, true),
        tab_stop_after(Focus::Content, true) == (Focus::URLBar, false),
        tab_stop_after(Focus::URLBar, false) == (Focus::Content, false),
{
}

/// Messages sent back to the application by background work.
pub enum AppMessage {
    /// tab id, page
    PageLoaded(usize, Page),
    LoadError(usize, String),
    AiSummary(String),
    AiError(String),
    ChatResponse(String),
    ToolAction(ToolAction),
    RagResponse(Vec<String>),
    RagError(String),
}

/// Actions that AI tool calls can trigger.
#[derive(Debug, Clone)]
pub enum ToolAction {
    Navigate(String),
    FollowLink(usize),
    Scroll { direction: String, amount: usize },
}

/// Overlay panels.
#[derive(Debug, Clone, Copy, PartialEq, Eq, Structural)]
pub enum PanelMode {
    /// No overlay panel is open
    Closed,
    Bookmarks,
    History,
    Help,
    Chat,
    Settings,
    Rag,
    Memory,
}

/// How page content is shown.
#[derive(Debug, Clone, Copy, PartialEq, Eq, Structural)]
pub enum ViewMode {
    Rendered,
    Raw,
}

} // verus!

verus! {

/// A key, as the terminal reports it.
#[derive(Debug, Clone, Copy, PartialEq, Eq, Structural)]
pub enum KeyCode {
    Backspace,
    Enter,
    Left,
    Right,
    Up,
    Down,
    Home,
    End,
    PageUp,
    PageDown,
    Tab,
    BackTab,
    Delete,
    Insert,
    F(u8),
    Char(char),
    Esc,
    /// Any other key (media keys, lock keys, lone modifiers, ...)
    Other,
}

/// No modifier held.
pub const MOD_NONE: u8 = 0;
/// Shift held.
pub const MOD_SHIFT: u8 = 1;
/// Control held.
pub const MOD_CONTROL: u8 = 2;
/// Alt held.
pub const MOD_ALT: u8 = 4;

/// A key press: the key and the set of modifiers, one bit each (shift, control, alt,
/// super, hyper, meta from the lowest bit up).
#[derive(Debug, Clone, Copy, PartialEq, Eq, Structural)]
pub struct KeyEvent {
    pub code: KeyCode,
    pub modifiers: u8,
}

impl KeyEvent {
    pub fn new(code: KeyCode, modifiers: u8) -> (k: KeyEvent)
        ensures
            k == (KeyEvent { code, modifiers }),
    {
        KeyEvent { code, modifiers }
    }
}

/// The key is the character `c`, with exactly the modifiers `m`.
pub open spec fn is_key(k: KeyEvent, c: char, m: u8) -> bool {
    k.code == KeyCode::Char(c) && k.modifiers == m
}

/// The key is the character `c`, whatever the modifiers.
pub open spec fn is_char(k: KeyEvent, c: char) -> bool {
    k.code == KeyCode::Char(c)
}

/// Control is among the modifiers.
pub open spec fn has_control(m: u8) -> bool {
    (m / 2) % 2 == 1
}

/// A page load or search to start: which tab gets the result, what to fetch, and how.
pub struct Load {
    pub tab_id: usize,
    pub target: QueryTarget,
    pub render_mode: RenderMode,
}

/// Work the caller performs after a key press or a message.
pub enum Effect {
    Nothing,
    /// Fetch a page or run a search in the background.
    Load(Load),
    /// Record a visit in the history database.
    RecordVisit { url: String, title: String },
    /// Add the page to the bookmarks, or remove it when it is there already.
    ToggleBookmark { url: String, title: String },
    /// Reload the bookmark list from the database.
    RefreshBookmarks,
    /// Reload the history list from the database.
    RefreshHistory,
    /// Reload the memory graph nodes; with `report`, the status line tells the outcome.
    RefreshMemory { report: bool },
    /// Remove a bookmark from the database, then reload the list.
    RemoveBookmark(String),
    /// Clear the history database, then reload the list.
    ClearHistory,
    /// Save the current page's scrape.
    Scrape,
    /// Ask the assistant for a summary of a page.
    Summarize { title: String, url: String, content: String },
    /// Open a URL in the system viewer.
    OpenExternal(String),
    /// Send the chat session's messages to the assistant; `message` is the user's new
    /// message, `context` the current page's context (empty when there is none).
    SendChat { message: String, context: String },
    /// Run a research query over the web and the local knowledge base.
    Research(String),
}

/// The browser's state.
pub struct App {
    pub config: Config,
    pub focus: Focus,
    pub should_quit: bool,
    pub animation_tick: usize,
    /// 0-255, for the focus pulse animation
    pub focus_pulse_phase: u8,
    pub status_message: String,
    pub view_mode: ViewMode,
    pub format_text: bool,
    pub zen_mode: bool,
    pub ai_summary: Option<String>,
    pub panel_mode: PanelMode,
    pub tabs: TabManager,
    pub url_input: String,
    pub mascot: Mascot,
    /// Whether the bookmark and history database is open
    pub has_db: bool,
    /// Whether a summarizer is configured
    pub ai_available: bool,
    pub bookmarks_list: Vec<Bookmark>,
    pub history_list: Vec<HistoryEntry>,
    pub bookmarks_selected: usize,
    pub history_selected: usize,
    pub chat_session: Option<ChatSession>,
    pub chat_input: String,
    pub chat_selected_model: usize,
    pub chat_scroll: usize,
    pub chat_focused: bool,
    pub settings_selected: usize,
    pub settings_model_input: String,
    pub settings_editing_model: bool,
    pub rag_results: Vec<String>,
    pub rag_query: String,
    pub rag_scroll: usize,
    pub rag_loading: bool,
    pub memory_nodes: Vec<String>,
    pub theme_manager: ThemeManager,
}

/// The status line shown for each focus.
pub open spec fn focus_status(f: Focus) -> Seq<char> {
    match f {
        Focus::Content => "Content - j/k scroll | H/L back/fwd | / search | ? help"@,
        Focus::Sidebar => "Sidebar - j/k navigate | Enter open | 1 content"@,
        Focus::URLBar => "URL Bar - Enter go | Esc cancel"@,
        Focus::TabBar => "Tab Bar - h/l switch | x close | Enter select"@,
        Focus::Bookmarks => "Bookmarks - j/k nav | Enter open | d delete | Esc close"@,
        Focus::History => "History - j/k nav | Enter open | Ctrl+C clear | Esc close"@,
    }
}

/// The status line at start.
pub open spec fn ready_status() -> Seq<char> {
    "Ready - / search | t new tab | b bookmarks | c chat | r rag | m memory | ? help"@
}

/// The model asked for when the configuration names none.
pub open spec fn default_chat_model() -> Seq<char> {
    "qwen/qwen3-235b-a22b:free"@
}

/// A chat session exists when an API key is configured and not empty: its model is the
/// configured one (or the default), and its models are that one then the fallbacks.
pub open spec fn chat_models(c: Config) -> Option<(Seq<char>, Seq<Seq<char>>)> {
    match c.spec_api_key() {
        Some(k) => if k.len() > 0 {
            let model = match c.spec_ai_model() {
                Some(m) => m,
                None => default_chat_model(),
            };
            Some((model, seq![model] + match c.spec_fallback_models() {
                Some(f) => f,
                None => Seq::empty(),
            }))
        } else {
            None
        },
        None => None,
    }
}

/// The chat session that a configuration calls for.
pub fn chat_session_for(config: &Config) -> (s: Option<ChatSession>)
    ensures
        match chat_models(*config) {
            None => s is None,
            Some((model, models)) => s matches Some(cs) && cs.model@ == model && views(
                cs.available_models@,
            ) == models && entries(cs.messages@) == seq![(Role::System, crate::chat::system_prompt())],
        },
{
    match config.get_api_key() {
        Some(k) => {
            if k.is_empty() {
                return None;
            }
            let model = match config.get_ai_model() {
                Some(m) => owned(m),
                None => owned("qwen/qwen3-235b-a22b:free"),
            };
            let mut models: Vec<String> = Vec::new();
            models.push(model.clone());
            match config.get_fallback_models() {
                Some(f) => {
                    let mut i: usize = 0;
                    while i < f.len()
                        invariant
                            i <= f.len(),
                            views(models@) == seq![model@] + views(f@).take(i as int),
                        decreases f.len() - i,
                    {
                        let ghost before = models@;
                        models.push(f[i].clone());
                        proof {
                            crate::text::lemma_views_push(before, f@[i as int]);
                            assert(views(models@) =~= seq![model@] + views(f@).take(i as int + 1));
                        }
                        i = i + 1;
                    }
                    assert(views(f@).take(f@.len() as int) =~= views(f@));
                    assert(crate::config::opt_list_view(Some(f)) == Some(views(f@))) by {
                        assert(crate::browser::strs(f@) =~= views(f@));
                    }
                },
                None => {
                    assert(views(models@) =~= seq![model@] + Seq::<Seq<char>>::empty());
                },
            }
            Some(ChatSession::new(model, models))
        },
        None => None,
    }
}

impl App {
    /// The tab manager is well formed.
    pub open spec fn wf(&self) -> bool {
        self.tabs.wf()
    }

    /// The active tab.
    pub open spec fn active(&self) -> Tab {
        self.tabs.spec_tabs()[self.tabs.spec_active() as int]
    }

    /// A fresh browser: one welcome tab, content focus, the chat session the
    /// configuration calls for, empty lists.
    pub fn new(config: Config, has_db: bool, ai_available: bool) -> (a: App)
        ensures
            a.wf(),
            a.focus == Focus::Content,
            !a.should_quit,
            a.status_message@ == ready_status(),
            a.panel_mode == PanelMode::Closed,
            a.view_mode == ViewMode::Rendered,
            a.format_text,
            !a.zen_mode,
            !a.chat_focused,
            a.has_db == has_db,
            a.ai_available == ai_available,
            a.config == config,
            a.animation_tick == 0,
            a.focus_pulse_phase == 0,
            a.ai_summary is None,
            a.mascot.spec_state() == CompanionState::Idle,
            a.mascot.spec_frame() == 0,
            a.tabs.spec_tabs().len() == 1,
            a.tabs.spec_active() == 0,
            a.tabs.spec_next_id() == 1,
            a.tabs.spec_tabs()[0].id == 0,
            a.tabs.spec_tabs()[0].url@ == "azul://home"@,
            a.tabs.spec_tabs()[0].title@ == "Welcome to Azul"@,
            a.tabs.spec_tabs()[0].history_view().len() == 0,
            a.tabs.spec_tabs()[0].history_pos() == -1,
            a.tabs.spec_tabs()[0].page matches Some(p) && crate::tabs::is_welcome_page(p),
            !a.tabs.spec_tabs()[0].loading,
            a.tabs.spec_tabs()[0].error is None,
            a.tabs.spec_tabs()[0].scroll_offset == 0,
            a.tabs.spec_tabs()[0].sidebar_selected == 0,
            a.tabs.spec_tabs()[0].render_mode == RenderMode::Auto,
            a.url_input@.len() == 0,
            a.bookmarks_list@.len() == 0,
            a.history_list@.len() == 0,
            a.bookmarks_selected == 0,
            a.history_selected == 0,
            match chat_models(config) {
                None => a.chat_session is None,
                Some((model, models)) => a.chat_session matches Some(cs) && cs.model@ == model
                    && views(cs.available_models@) == models && entries(cs.messages@) == seq![
                    (Role::System, crate::chat::system_prompt()),
                ],
            },
            a.chat_input@.len() == 0,
            a.chat_selected_model == 0,
            a.chat_scroll == 0,
            a.settings_selected == 0,
            a.settings_model_input@.len() == 0,
            !a.settings_editing_model,
            a.rag_results@.len() == 0,
            a.rag_query@.len() == 0,
            a.rag_scroll == 0,
            !a.rag_loading,
            a.memory_nodes@.len() == 0,
            a.theme_manager.spec_preset() == crate::ui::theme::ThemePreset::WarmPaperDark,
    {
        let chat_session = chat_session_for(&config);
        App {
            config,
            focus: Focus::Content,
            should_quit: false,
            animation_tick: 0,
            focus_pulse_phase: 0,
            status_message: owned(
                "Ready - / search | t new tab | b bookmarks | c chat | r rag | m memory | ? help",
            ),
            view_mode: ViewMode::Rendered,
            format_text: true,
            zen_mode: false,
            ai_summary: None,
            panel_mode: PanelMode::Closed,
            tabs: TabManager::new(),
            url_input: String::new(),
            mascot: Mascot::new(),
            has_db,
            ai_available,
            bookmarks_list: Vec::new(),
            history_list: Vec::new(),
            bookmarks_selected: 0,
            history_selected: 0,
            chat_session,
            chat_input: String::new(),
            chat_selected_model: 0,
            chat_scroll: 0,
            chat_focused: false,
            settings_selected: 0,
            settings_model_input: String::new(),
            settings_editing_model: false,
            rag_results: Vec::new(),
            rag_query: String::new(),
            rag_scroll: 0,
            rag_loading: false,
            memory_nodes: Vec::new(),
            theme_manager: ThemeManager::new(),
        }
    }

    /// The page of the active tab.
    pub fn current_page(&self) -> (p: Option<&Page>)
        requires
            self.wf(),
        ensures
            p == match self.active().page {
                Some(pg) => Some(&pg),
                None => None::<&Page>,
            },
    {
        match self.tabs.active_tab() {
            Some(t) => match &t.page {
                Some(p) => Some(p),
                None => None,
            },
            None => None,
        }
    }

    /// The scroll offset of the active tab.
    pub fn scroll_offset(&self) -> (n: usize)
        requires
            self.wf(),
        ensures
            n == self.active().scroll_offset,
    {
        match self.tabs.active_tab() {
            Some(t) => t.scroll_offset,
            None => 0,
        }
    }

    /// The selected link of the active tab.
    pub fn sidebar_selected(&self) -> (n: usize)
        requires
            self.wf(),
        ensures
            n == self.active().sidebar_selected,
    {
        match self.tabs.active_tab() {
            Some(t) => t.sidebar_selected,
            None => 0,
        }
    }

    /// Whether the active tab is loading.
    pub fn loading(&self) -> (b: bool)
        requires
            self.wf(),
        ensures
            b == self.active().loading,
    {
        match self.tabs.active_tab() {
            Some(t) => t.loading,
            None => false,
        }
    }

    /// The render mode of the active tab.
    pub fn render_mode(&self) -> (m: RenderMode)
        requires
            self.wf(),
        ensures
            m == self.active().render_mode,
    {
        match self.tabs.active_tab() {
            Some(t) => t.render_mode,
            None => RenderMode::Auto,
        }
    }

    /// Ask to quit.
    pub fn quit(&mut self)
        ensures
            *final(self) == (App { should_quit: true, ..*old(self) }),
    {
        self.should_quit = true;
    }

    /// Replace the status line.
    pub fn set_status(&mut self, s: String)
        ensures
            *final(self) == (App { status_message: s, ..*old(self) }),
    {
        self.status_message = s;
    }

    /// Show the status line that belongs to the focus.
    pub fn update_status(&mut self)
        ensures
            *final(self) == (App { status_message: final(self).status_message, ..*old(self) }),
            final(self).status_message@ == focus_status(old(self).focus),
    {
        let s = match self.focus {
            Focus::Content => owned("Content - j/k scroll | H/L back/fwd | / search | ? help"),
            Focus::Sidebar => owned("Sidebar - j/k navigate | Enter open | 1 content"),
            Focus::URLBar => owned("URL Bar - Enter go | Esc cancel"),
            Focus::TabBar => owned("Tab Bar - h/l switch | x close | Enter select"),
            Focus::Bookmarks => owned("Bookmarks - j/k nav | Enter open | d delete | Esc close"),
            Focus::History => owned("History - j/k nav | Enter open | Ctrl+C clear | Esc close"),
        };
        self.status_message = s;
    }

    /// Move the keyboard forward in the cycle content, chat, URL bar, as
    /// `tab_stop_after` says, and show the status line of where it went.
    pub fn focus_next(&mut self)
        ensures
            *final(self) == (App {
                focus: tab_stop_after(old(self).focus, old(self).chat_focused).0,
                chat_focused: tab_stop_after(old(self).focus, old(self).chat_focused).1,
                status_message: final(self).status_message,
                ..*old(self)
            }),
            final(self).status_message@ == tab_stop_status(
                tab_stop_after(old(self).focus, old(self).chat_focused).0,
                tab_stop_after(old(self).focus, old(self).chat_focused).1,
            ),
    {
        if self.chat_focused {
            self.chat_focused = false;
            self.focus = Focus::URLBar;
            self.update_status();
        } else if self.focus == Focus::Content {
            self.chat_focused = true;
            self.status_message = owned("Chat - type message, Esc to exit");
        } else {
            self.focus = self.focus.next();
            self.update_status();
        }
    }

    /// Move the keyboard back in the cycle content, chat, URL bar, as
    /// `tab_stop_before` says, and show the status line of where it went.
    pub fn focus_previous(&mut self)
        ensures
            *final(self) == (App {
                focus: tab_stop_before(old(self).focus, old(self).chat_focused).0,
                chat_focused: tab_stop_before(old(self).focus, old(self).chat_focused).1,
                status_message: final(self).status_message,
                ..*old(self)
            }),
            final(self).status_message@ == tab_stop_status(
                tab_stop_before(old(self).focus, old(self).chat_focused).0,
                tab_stop_before(old(self).focus, old(self).chat_focused).1,
            ),
    {
        if self.chat_focused {
            self.chat_focused = false;
            self.focus = Focus::Content;
            self.update_status();
        } else if self.focus == Focus::URLBar {
            self.focus = Focus::Content;
            self.chat_focused = true;
            self.status_message = owned("Chat - type message, Esc to exit");
        } else {
            self.focus = self.focus.previous();
            self.update_status();
        }
    }

    /// Advance the animations by one frame.
    pub fn tick(&mut self)
        ensures
            final(self).animation_tick == if old(self).animation_tick == usize::MAX {
                0
            } else {
                (old(self).animation_tick + 1) as usize
            },
            final(self).focus_pulse_phase == (old(self).focus_pulse_phase + 8) % 256,
            final(self).mascot.spec_state() == old(self).mascot.spec_state(),
            final(self).mascot.spec_frame() == if old(self).mascot.spec_frame() == usize::MAX as nat {
                0
            } else {
                old(self).mascot.spec_frame() + 1
            },
            *final(self) == (App {
                animation_tick: final(self).animation_tick,
                focus_pulse_phase: final(self).focus_pulse_phase,
                mascot: final(self).mascot,
                ..*old(self)
            }),
    {
        self.animation_tick = if self.animation_tick == usize::MAX { 0 } else { self.animation_tick + 1 };
        self.focus_pulse_phase = if self.focus_pulse_phase >= 248 {
            self.focus_pulse_phase - 248
        } else {
            self.focus_pulse_phase + 8
        };
        self.mascot.tick();
    }
}


/// How a load announces its render mode.
pub open spec fn mode_tag(m: RenderMode) -> Seq<char> {
    match m {
        RenderMode::Static => ""@,
        RenderMode::Auto => " [auto-JS]"@,
        RenderMode::JavaScript => " [JS]"@,
    }
}

/// The status line of a load that starts.
pub open spec fn load_status(t: QueryTarget, m: RenderMode) -> Seq<char> {
    match t {
        QueryTarget::Url(u) => "Loading"@ + mode_tag(m) + ": "@ + u@,
        QueryTarget::Search { engine, query } => "Searching "@ + engine_name(engine) + ": "@ + query@,
        QueryTarget::MultiSearch { query } => "Multi-engine search: "@ + query@,
    }
}

/// The tabs after the active one alone changed into `t`.
pub open spec fn active_replaced(o: TabManager, n: TabManager, t: Tab) -> bool {
    &&& n.spec_tabs() == o.spec_tabs().update(o.spec_active() as int, t)
    &&& n.spec_active() == o.spec_active()
    &&& n.spec_next_id() == o.spec_next_id()
    &&& n.spec_max_tabs() == o.spec_max_tabs()
}

/// `t1` is `t0` navigated to `url`: forward entries dropped, `url` appended, loading.
pub open spec fn navigated(t0: Tab, t1: Tab, url: Seq<char>) -> bool {
    &&& t1.wf()
    &&& t1.history_view() == t0.history_view().take(t0.history_pos() + 1).push(url)
    &&& t1.history_pos() == t1.history_view().len() - 1
    &&& t1.url@ == url
    &&& t1.loading
    &&& t1.error is None
    &&& t1.id == t0.id
    &&& t1.title == t0.title
    &&& t1.page == t0.page
    &&& t1.scroll_offset == t0.scroll_offset
    &&& t1.sidebar_selected == t0.sidebar_selected
    &&& t1.render_mode == t0.render_mode
}

/// What starting a navigation does. With an empty URL input, nothing. Otherwise the
/// trimmed input is classified; the active tab is navigated to it (recorded in its
/// history when `add` holds and the history has room, else only marked loading); the AI
/// summary is dropped, the indicator shows loading (or searching), the status line
/// announces the load, and the load is handed out.
#[verifier::opaque]
pub open spec fn navigation(o: App, n: App, add: bool, e: Effect) -> bool {
    if o.url_input@.len() == 0 {
        n == o && e is Nothing
    } else {
        let input = trim(o.url_input@);
        let t0 = o.active();
        let t1 = n.active();
        &&& e matches Effect::Load(l) && {
            &&& classifies(input, l.target)
            &&& l.tab_id == t0.id
            &&& l.render_mode == t0.render_mode
            &&& n.status_message@ == load_status(l.target, l.render_mode)
            &&& n.mascot.spec_state() == if l.target is Url {
                CompanionState::Loading
            } else {
                CompanionState::Searching
            }
            &&& n.mascot.spec_frame() == if l.target is Url && o.mascot.spec_state()
                == CompanionState::Loading {
                o.mascot.spec_frame()
            } else {
                0
            }
        }
        &&& n.ai_summary is None
        &&& active_replaced(o.tabs, n.tabs, t1)
        &&& if add && t0.history_view().len() + 1 < isize::MAX {
            navigated(t0, t1, input)
        } else {
            t1 == (Tab { loading: true, error: None, ..t0 })
        }
        &&& n == (App {
            status_message: n.status_message,
            ai_summary: None,
            mascot: n.mascot,
            tabs: n.tabs,
            ..o
        })
    }
}

/// The status line of a load, as `load_status` says.
fn load_message(target: &QueryTarget, mode: RenderMode) -> (s: String)
    ensures
        s@ == load_status(*target, mode),
{
    match target {
        QueryTarget::Url(u) => {
            let mut s = owned("Loading");
            match mode {
                RenderMode::Static => {
                    proof {
                        reveal_strlit("");
                    }
                },
                RenderMode::Auto => s.append(" [auto-JS]"),
                RenderMode::JavaScript => s.append(" [JS]"),
            }
            s.append(": ");
            s.append(u.as_str());
            s
        },
        QueryTarget::Search { engine, query } => {
            let mut s = owned("Searching ");
            s.append(engine.name());
            s.append(": ");
            s.append(query.as_str());
            s
        },
        QueryTarget::MultiSearch { query } => concat2("Multi-engine search: ", query.as_str()),
    }
}

impl App {
    /// Start navigating to the URL input, as `navigation` says.
    pub fn begin_navigation(&mut self, add_to_history: bool) -> (e: Effect)
        requires
            old(self).wf(),
        ensures
            final(self).wf(),
            navigation(*old(self), *final(self), add_to_history, e),
    {
        proof {
            reveal(navigation);
        }
        if self.url_input.as_str().is_empty() {
            return Effect::Nothing;
        }
        let input = trim_str(self.url_input.as_str());
        self.ai_summary = None;
        self.mascot.set_state(CompanionState::Loading);
        proof {
            self.tabs.lemma_wf();
        }
        let (tab_id, render_mode) = match self.tabs.active_tab() {
            Some(t) => (t.id, t.render_mode),
            None => (0, RenderMode::Auto),
        };
        let ghost before = self.tabs;
        let ghost a = self.tabs.spec_active() as int;
        match self.tabs.active_tab_mut() {
            Some(tab) => {
                if add_to_history && tab.history_len() < isize::MAX as usize - 1 {
                    tab.navigate(input.as_str());
                } else {
                    tab.loading = true;
                    tab.error = None;
                }
            },
            None => {},
        }
        proof {
            before.lemma_wf_update(&self.tabs, a, self.tabs.spec_tabs()[a]);
        }
        let target = classify_query(input.as_str());
        let msg = load_message(&target, render_mode);
        self.status_message = msg;
        match target {
            QueryTarget::Url(_) => self.mascot.set_state(CompanionState::Loading),
            _ => self.mascot.set_state(CompanionState::Searching),
        }
        Effect::Load(Load { tab_id, target, render_mode })
    }
}


/// The active tab's scroll offset becomes `v`; nothing else changes.
pub open spec fn scrolled_to(o: App, n: App, v: usize) -> bool {
    &&& active_replaced(o.tabs, n.tabs, Tab { scroll_offset: v, ..o.active() })
    &&& n == (App { tabs: n.tabs, ..o })
}

/// Only the status line changes, to `msg`.
pub open spec fn status_only(o: App, n: App, msg: Seq<char>) -> bool {
    &&& n == (App { status_message: n.status_message, ..o })
    &&& n.status_message@ == msg
}

pub open spec fn sat_sub(a: int, b: int) -> int {
    if a >= b { a - b } else { 0 }
}

/// A key with no modifiers, or the character `c` with none.
pub open spec fn plain_code(k: KeyEvent, code: KeyCode) -> bool {
    k.code == code && k.modifiers == 0
}

/// What stepping back (or forward) in the active tab's history does before the load starts:
/// the position moves, the URL input takes the URL stepped to, and the status line shows
/// it behind an arrow.
pub open spec fn stepped(o: App, n: App, back: bool) -> bool {
    let t0 = o.active();
    let t1 = n.active();
    let p = if back { t0.history_pos() - 1 } else { t0.history_pos() + 1 };
    &&& active_replaced(o.tabs, n.tabs, t1)
    &&& t1.wf()
    &&& t1 == (Tab { url: t1.url, history: t1.history, ..t0 })
    &&& t1.history_view() == t0.history_view()
    &&& t1.history_pos() == p
    &&& t1.url@ == t0.history_view()[p]
    &&& n.url_input@ == t1.url@
    &&& n.status_message@ == (if back { "\u{2190} "@ } else { "\u{2192} "@ }) + t1.url@
    &&& n == (App { tabs: n.tabs, url_input: n.url_input, status_message: n.status_message, ..o })
}

/// The theme status line after cycling forward.
pub open spec fn theme_next_status(name: Seq<char>) -> Seq<char> {
    "Theme: "@ + name + " (Ctrl+T to cycle)"@
}

/// The theme status line after cycling back.
pub open spec fn theme_prev_status(name: Seq<char>) -> Seq<char> {
    "Theme: "@ + name + " (T to cycle back)"@
}

/// What a key does while the content pane has the focus. The active tab's offset
/// scrolls by one line (arrows, j/k), half a page of 15 (Ctrl+U/B up, Ctrl+D/F down),
/// a page of 30 (PageUp; PageDown or space), five lines (K/J), to the top (g) or to
/// the last line (G); f and z toggle formatting and zen mode, Ctrl+T and T cycle the
/// theme, v switches raw and rendered views, Ctrl+S scrapes and s summarizes the page,
/// r reloads, o opens the URL outside, Left/p/H and Right/n/L step through the tab's
/// history and load, 2 or F2 moves to the sidebar. Upward scrolls stop at zero.
#[verifier::opaque]
pub open spec fn content_post(o: App, n: App, k: KeyEvent, e: Effect) -> bool {
    let scroll = o.active().scroll_offset;
    let page = o.active().page;
    if plain_code(k, KeyCode::Up) || is_key(k, 'k', 0) {
        e is Nothing && scrolled_to(o, n, sat_sub(scroll as int, 1) as usize)
    } else if plain_code(k, KeyCode::Down) || is_key(k, 'j', 0) {
        e is Nothing && scrolled_to(o, n, (scroll + 1) as usize)
    } else if is_key(k, 'u', MOD_CONTROL) || is_key(k, 'b', MOD_CONTROL) {
        e is Nothing && scrolled_to(o, n, sat_sub(scroll as int, 15) as usize)
    } else if is_key(k, 'd', MOD_CONTROL) || is_key(k, 'f', MOD_CONTROL) {
        e is Nothing && scrolled_to(o, n, (scroll + 15) as usize)
    } else if k.code == KeyCode::PageUp {
        e is Nothing && scrolled_to(o, n, sat_sub(scroll as int, 30) as usize)
    } else if k.code == KeyCode::PageDown || is_key(k, ' ', 0) {
        e is Nothing && scrolled_to(o, n, (scroll + 30) as usize)
    } else if is_key(k, 'K', MOD_SHIFT) || is_key(k, 'K', 0) {
        e is Nothing && scrolled_to(o, n, sat_sub(scroll as int, 5) as usize)
    } else if is_key(k, 'J', MOD_SHIFT) || is_key(k, 'J', 0) {
        e is Nothing && scrolled_to(o, n, (scroll + 5) as usize)
    } else if is_key(k, 'f', 0) {
        &&& e is Nothing
        &&& n == (App { format_text: !o.format_text, status_message: n.status_message, ..o })
        &&& n.status_message@ == if n.format_text {
            "Text formatting ON"@
        } else {
            "Text formatting OFF"@
        }
    } else if is_key(k, 'z', 0) {
        &&& e is Nothing
        &&& if !o.zen_mode {
            &&& n == (App {
                zen_mode: true,
                focus: Focus::Content,
                chat_focused: false,
                status_message: n.status_message,
                ..o
            })
            &&& n.status_message@ == "Zen mode ON (z to toggle)"@
        } else {
            &&& n == (App { zen_mode: false, status_message: n.status_message, ..o })
            &&& n.status_message@ == "Zen mode OFF"@
        }
    } else if is_key(k, 't', MOD_CONTROL) {
        &&& e is Nothing
        &&& n == (App { theme_manager: n.theme_manager, status_message: n.status_message, ..o })
        &&& n.theme_manager.spec_preset() == preset_after(o.theme_manager.spec_preset())
        &&& n.status_message@ == theme_next_status(preset_name(n.theme_manager.spec_preset()))
    } else if is_char(k, 'T') {
        &&& e is Nothing
        &&& n == (App { theme_manager: n.theme_manager, status_message: n.status_message, ..o })
        &&& n.theme_manager.spec_preset() == preset_before(o.theme_manager.spec_preset())
        &&& n.status_message@ == theme_prev_status(preset_name(n.theme_manager.spec_preset()))
    } else if is_key(k, 'v', 0) {
        let m = if o.view_mode == ViewMode::Rendered { ViewMode::Raw } else { ViewMode::Rendered };
        &&& e is Nothing
        &&& active_replaced(o.tabs, n.tabs, Tab { scroll_offset: 0, ..o.active() })
        &&& n == (App { view_mode: m, tabs: n.tabs, status_message: n.status_message, ..o })
        &&& n.status_message@ == if m == ViewMode::Rendered {
            "Viewing formatted content"@
        } else {
            "Viewing raw page source"@
        }
    } else if is_key(k, 's', MOD_CONTROL) {
        match page {
            None => e is Nothing && status_only(o, n, "No page to scrape"@),
            Some(_) => e is Scrape && n == o,
        }
    } else if is_key(k, 's', 0) {
        if !o.ai_available {
            e is Nothing && status_only(o, n, "AI not configured (set OPENROUTER_API_KEY)"@)
        } else {
            match page {
                None => e is Nothing && status_only(o, n, "No page to summarize"@),
                Some(p) => {
                    &&& e matches Effect::Summarize { title, url, content } && title@ == p.title@
                        && url@ == p.url@ && content@ == crate::text::join(
                        views(p.content_lines@),
                        "\n"@,
                    )
                    &&& n == (App { mascot: n.mascot, status_message: n.status_message, ..o })
                    &&& n.mascot.spec_state() == CompanionState::Loading
                    &&& n.mascot.spec_frame() == if o.mascot.spec_state() == CompanionState::Loading {
                        o.mascot.spec_frame()
                    } else {
                        0
                    }
                    &&& n.status_message@ == "Summarizing page with AI..."@
                },
            }
        }
    } else if is_key(k, 'g', 0) {
        e is Nothing && scrolled_to(o, n, 0)
    } else if is_char(k, 'G') {
        match page {
            Some(p) => e is Nothing && scrolled_to(o, n, sat_sub(p.content_lines@.len() as int, 1) as usize),
            None => e is Nothing && n == o,
        }
    } else if is_key(k, 'r', 0) {
        if o.active().url@.len() > 0 {
            navigation(App { url_input: o.active().url, ..o }, n, true, e)
        } else {
            e is Nothing && n == o
        }
    } else if is_key(k, 'o', 0) {
        if o.active().url@.len() > 0 {
            n == o && (e matches Effect::OpenExternal(u) && u@ == o.active().url@)
        } else {
            e is Nothing && n == o
        }
    } else if k.code == KeyCode::Left || is_key(k, 'p', 0) || is_char(k, 'H') {
        if o.active().spec_can_go_back() {
            exists|mid: App| #[trigger] stepped(o, mid, true) && mid.wf() && navigation(mid, n, false, e)
        } else {
            e is Nothing && status_only(o, n, "No previous page"@)
        }
    } else if k.code == KeyCode::Right || is_key(k, 'n', 0) || is_char(k, 'L') {
        if o.active().spec_can_go_forward() {
            exists|mid: App| #[trigger] stepped(o, mid, false) && mid.wf() && navigation(mid, n, false, e)
        } else {
            e is Nothing && status_only(o, n, "No next page"@)
        }
    } else if is_char(k, '2') || k.code == KeyCode::F(2) {
        e is Nothing && n == (App { focus: Focus::Sidebar, status_message: n.status_message, ..o })
            && n.status_message@ == focus_status(Focus::Sidebar)
    } else if link_digit(k) is Some {
        let i = link_digit(k)->0 - 1;
        match page {
            Some(p) => if i < p.links@.len() {
                navigation(App { url_input: p.links@[i].url, ..o }, n, true, e)
            } else {
                e is Nothing && n == o
            },
            None => e is Nothing && n == o,
        }
    } else {
        e is Nothing && n == o
    }
}

/// The number of a plain digit key from 1 to 9, which follows the link of that number.
pub open spec fn link_digit(k: KeyEvent) -> Option<int> {
    if (k.code is Char) && k.modifiers == MOD_NONE && '1' <= k.code->Char_0 <= '9' {
        Some(k.code->Char_0 as int - '0' as int)
    } else {
        None
    }
}

/// The link number of a plain digit key, as `link_digit` says.
pub fn link_number(k: KeyEvent) -> (d: Option<usize>)
    ensures
        match d {
            Some(v) => link_digit(k) == Some(v as int) && 1 <= v <= 9,
            None => link_digit(k) is None,
        },
{
    match k.code {
        KeyCode::Char(c) => {
            if k.modifiers == MOD_NONE && c >= '1' && c <= '9' {
                let u: u32 = c as u32;
                Some((u - 48) as usize)
            } else {
                None
            }
        },
        _ => None,
    }
}

/// Keys that only scroll the content pane.
pub open spec fn content_scroll_key(k: KeyEvent) -> bool {
    ||| plain_code(k, KeyCode::Up) || is_key(k, 'k', 0)
    ||| plain_code(k, KeyCode::Down) || is_key(k, 'j', 0)
    ||| is_key(k, 'u', MOD_CONTROL) || is_key(k, 'b', MOD_CONTROL)
    ||| is_key(k, 'd', MOD_CONTROL) || is_key(k, 'f', MOD_CONTROL)
    ||| k.code == KeyCode::PageUp
    ||| k.code == KeyCode::PageDown || is_key(k, ' ', 0)
    ||| is_key(k, 'K', MOD_SHIFT) || is_key(k, 'K', 0)
    ||| is_key(k, 'J', MOD_SHIFT) || is_key(k, 'J', 0)
    ||| is_key(k, 'g', 0)
    ||| is_char(k, 'G')
}

/// Keys that change how the content is shown.
pub open spec fn content_view_key(k: KeyEvent) -> bool {
    ||| is_key(k, 'f', 0)
    ||| is_key(k, 'z', 0)
    ||| is_key(k, 't', MOD_CONTROL)
    ||| is_char(k, 'T')
    ||| is_key(k, 'v', 0)
}

pub exec fn content_scroll_key_exec(k: KeyEvent) -> (b: bool)
    ensures
        b == content_scroll_key(k),
{
    let c = k.code;
    let m = k.modifiers;
    (c == KeyCode::Up && m == MOD_NONE) || (c == KeyCode::Char('k') && m == MOD_NONE)
        || (c == KeyCode::Down && m == MOD_NONE) || (c == KeyCode::Char('j') && m == MOD_NONE)
        || ((c == KeyCode::Char('u') || c == KeyCode::Char('b') || c == KeyCode::Char('d') || c
        == KeyCode::Char('f')) && m == MOD_CONTROL) || c == KeyCode::PageUp || c == KeyCode::PageDown
        || (c == KeyCode::Char(' ') && m == MOD_NONE) || ((c == KeyCode::Char('K') || c
        == KeyCode::Char('J')) && (m == MOD_SHIFT || m == MOD_NONE)) || (c == KeyCode::Char('g')
        && m == MOD_NONE) || c == KeyCode::Char('G')
}

pub exec fn content_view_key_exec(k: KeyEvent) -> (b: bool)
    ensures
        b == content_view_key(k),
{
    let c = k.code;
    let m = k.modifiers;
    (c == KeyCode::Char('f') && m == MOD_NONE) || (c == KeyCode::Char('z') && m == MOD_NONE) || (c
        == KeyCode::Char('t') && m == MOD_CONTROL) || c == KeyCode::Char('T') || (c == KeyCode::Char(
        'v',
    ) && m == MOD_NONE)
}

/// Scroll offsets leave room for the largest step down.
pub open spec fn room_to_scroll(a: App) -> bool {
    a.active().scroll_offset + 30 <= usize::MAX
}

impl App {
    /// Set the active tab's scroll offset.
    fn set_scroll_offset(&mut self, v: usize)
        requires
            old(self).wf(),
        ensures
            final(self).wf(),
            scrolled_to(*old(self), *final(self), v),
    {
        proof {
            self.tabs.lemma_wf();
        }
        let ghost before = self.tabs;
        let ghost a = self.tabs.spec_active() as int;
        match self.tabs.active_tab_mut() {
            Some(t) => {
                t.scroll_offset = v;
            },
            None => {},
        }
        proof {
            before.lemma_wf_update(&self.tabs, a, self.tabs.spec_tabs()[a]);
        }
    }

    /// Step back or forward in the active tab's history, as `stepped` says.
    #[verifier::rlimit(50)]
    fn step_history(&mut self, back: bool) -> (url: Option<String>)
        requires
            old(self).wf(),
        ensures
            final(self).wf(),
            (if back { old(self).active().spec_can_go_back() } else {
                old(self).active().spec_can_go_forward()
            }) ==> (stepped(*old(self), *final(self), back) && url is Some),
            !(if back { old(self).active().spec_can_go_back() } else {
                old(self).active().spec_can_go_forward()
            }) ==> (url is None && *final(self) == *old(self)),
    {
        proof {
            self.tabs.lemma_wf();
        }
        let can = match self.tabs.active_tab() {
            Some(t) => if back { t.can_go_back() } else { t.can_go_forward() },
            None => false,
        };
        if !can {
            return None;
        }
        let ghost before = self.tabs;
        let ghost a = self.tabs.spec_active() as int;
        let r = match self.tabs.active_tab_mut() {
            Some(t) => if back { t.go_back() } else { t.go_forward() },
            None => None,
        };
        proof {
            before.lemma_wf_update(&self.tabs, a, self.tabs.spec_tabs()[a]);
        }
        match r {
            Some(u) => {
                self.url_input = u.clone();
                let msg = if back { concat2("\u{2190} ", u.as_str()) } else { concat2("\u{2192} ", u.as_str()) };
                self.status_message = msg;
                Some(u)
            },
            None => None,
        }
    }

    /// Handle a key while the content pane has the focus, as `content_post` says.
    pub fn handle_content_keys(&mut self, key: KeyEvent) -> (e: Effect)
        requires
            old(self).wf(),
            room_to_scroll(*old(self)),
        ensures
            final(self).wf(),
            content_post(*old(self), *final(self), key, e),
    {
        if content_scroll_key_exec(key) {
            self.content_scroll(key)
        } else if content_view_key_exec(key) {
            self.content_view(key)
        } else {
            self.content_action(key)
        }
    }

    fn content_scroll(&mut self, key: KeyEvent) -> (e: Effect)
        requires
            old(self).wf(),
            room_to_scroll(*old(self)),
            content_scroll_key(key),
        ensures
            final(self).wf(),
            content_post(*old(self), *final(self), key, e),
    {
        proof {
            reveal(content_post);
        }
        proof {
            self.tabs.lemma_wf();
        }
        let scroll = self.scroll_offset();
        let page_size: usize = 30;
        let half_page: usize = 15;
        let code = key.code;
        let m = key.modifiers;
        if (code == KeyCode::Up && m == MOD_NONE) || (code == KeyCode::Char('k') && m == MOD_NONE) {
            self.set_scroll_offset(scroll.saturating_sub(1));
        } else if (code == KeyCode::Down && m == MOD_NONE) || (code == KeyCode::Char('j') && m == MOD_NONE) {
            self.set_scroll_offset(scroll + 1);
        } else if (code == KeyCode::Char('u') || code == KeyCode::Char('b')) && m == MOD_CONTROL {
            self.set_scroll_offset(scroll.saturating_sub(half_page));
        } else if (code == KeyCode::Char('d') || code == KeyCode::Char('f')) && m == MOD_CONTROL {
            self.set_scroll_offset(scroll + half_page);
        } else if code == KeyCode::PageUp {
            self.set_scroll_offset(scroll.saturating_sub(page_size));
        } else if code == KeyCode::PageDown || (code == KeyCode::Char(' ') && m == MOD_NONE) {
            self.set_scroll_offset(scroll + page_size);
        } else if code == KeyCode::Char('K') && (m == MOD_SHIFT || m == MOD_NONE) {
            self.set_scroll_offset(scroll.saturating_sub(5));
        } else if code == KeyCode::Char('J') && (m == MOD_SHIFT || m == MOD_NONE) {
            self.set_scroll_offset(scroll + 5);
        } else if code == KeyCode::Char('g') && m == MOD_NONE {
            self.set_scroll_offset(0);
        } else {
            let last = match self.current_page() {
                Some(p) => Some(p.content_lines.len().saturating_sub(1)),
                None => None,
            };
            match last {
                Some(v) => self.set_scroll_offset(v),
                None => {},
            }
        }
        Effect::Nothing
    }

    #[verifier::rlimit(50)]
    fn content_view(&mut self, key: KeyEvent) -> (e: Effect)
        requires
            old(self).wf(),
            content_view_key(key),
        ensures
            final(self).wf(),
            content_post(*old(self), *final(self), key, e),
    {
        proof {
            reveal(content_post);
        }
        let code = key.code;
        let m = key.modifiers;
        if code == KeyCode::Char('f') && m == MOD_NONE {
            self.format_text = !self.format_text;
            self.status_message = if self.format_text {
                owned("Text formatting ON")
            } else {
                owned("Text formatting OFF")
            };
        } else if code == KeyCode::Char('z') && m == MOD_NONE {
            self.zen_mode = !self.zen_mode;
            if self.zen_mode {
                self.focus = Focus::Content;
                self.chat_focused = false;
                self.status_message = owned("Zen mode ON (z to toggle)");
            } else {
                self.status_message = owned("Zen mode OFF");
            }
        } else if code == KeyCode::Char('t') && m == MOD_CONTROL {
            let name = self.theme_manager.cycle_next();
            self.status_message = concat3("Theme: ", name, " (Ctrl+T to cycle)");
        } else if code == KeyCode::Char('T') {
            let name = self.theme_manager.cycle_prev();
            self.status_message = concat3("Theme: ", name, " (T to cycle back)");
        } else {
            self.view_mode = match self.view_mode {
                ViewMode::Rendered => ViewMode::Raw,
                ViewMode::Raw => ViewMode::Rendered,
            };
            self.status_message = match self.view_mode {
                ViewMode::Rendered => owned("Viewing formatted content"),
                ViewMode::Raw => owned("Viewing raw page source"),
            };
            self.set_scroll_offset(0);
        }
        Effect::Nothing
    }

    #[verifier::rlimit(50)]
    fn content_action(&mut self, key: KeyEvent) -> (e: Effect)
        requires
            old(self).wf(),
            !content_scroll_key(key),
            !content_view_key(key),
        ensures
            final(self).wf(),
            content_post(*old(self), *final(self), key, e),
    {
        proof {
            reveal(content_post);
        }
        proof {
            self.tabs.lemma_wf();
        }
        let code = key.code;
        let m = key.modifiers;
        if code == KeyCode::Char('s') && m == MOD_CONTROL {
            if self.current_page().is_none() {
                self.status_message = owned("No page to scrape");
                Effect::Nothing
            } else {
                Effect::Scrape
            }
        } else if code == KeyCode::Char('s') && m == MOD_NONE {
            self.request_ai_summary()
        } else if code == KeyCode::Char('r') && m == MOD_NONE {
            let url = match self.tabs.active_tab() {
                Some(t) => t.url.clone(),
                None => String::new(),
            };
            if url.as_str().is_empty() {
                Effect::Nothing
            } else {
                self.url_input = url;
                self.begin_navigation(true)
            }
        } else if code == KeyCode::Char('o') && m == MOD_NONE {
            let url = match self.tabs.active_tab() {
                Some(t) => t.url.clone(),
                None => String::new(),
            };
            if url.as_str().is_empty() {
                Effect::Nothing
            } else {
                Effect::OpenExternal(url)
            }
        } else if code == KeyCode::Left || (code == KeyCode::Char('p') && m == MOD_NONE) || code
            == KeyCode::Char('H') || code == KeyCode::Right || (code == KeyCode::Char('n') && m
            == MOD_NONE) || code == KeyCode::Char('L') {
            self.content_history(key)
        } else if code == KeyCode::Char('2') || code == KeyCode::F(2) {
            self.focus = Focus::Sidebar;
            self.update_status();
            Effect::Nothing
        } else {
            self.follow_numbered_link(key)
        }
    }

    /// Step back or forward in the active tab's history and load the page there, as
    /// `content_post` says.
    #[verifier::rlimit(50)]
    fn content_history(&mut self, key: KeyEvent) -> (e: Effect)
        requires
            old(self).wf(),
            key.code == KeyCode::Left || is_key(key, 'p', 0) || is_char(key, 'H') || key.code
                == KeyCode::Right || is_key(key, 'n', 0) || is_char(key, 'L'),
        ensures
            final(self).wf(),
            content_post(*old(self), *final(self), key, e),
    {
        proof {
            reveal(content_post);
        }
        let code = key.code;
        let m = key.modifiers;
        if code == KeyCode::Left || (code == KeyCode::Char('p') && m == MOD_NONE) || code
            == KeyCode::Char('H') {
            let ghost o = *self;
            match self.step_history(true) {
                Some(_) => {
                    let ghost mid = *self;
                    let e = self.begin_navigation(false);
                    assert(stepped(o, mid, true) && mid.wf() && navigation(mid, *self, false, e));
                    e
                },
                None => {
                    self.status_message = owned("No previous page");
                    Effect::Nothing
                },
            }
        } else {
            let ghost o = *self;
            match self.step_history(false) {
                Some(_) => {
                    let ghost mid = *self;
                    let e = self.begin_navigation(false);
                    assert(stepped(o, mid, false) && mid.wf() && navigation(mid, *self, false, e));
                    e
                },
                None => {
                    self.status_message = owned("No next page");
                    Effect::Nothing
                },
            }
        }
    }

    /// Follow the link whose number was pressed, as `content_post` says; any other key
    /// left over does nothing.
    #[verifier::rlimit(50)]
    fn follow_numbered_link(&mut self, key: KeyEvent) -> (e: Effect)
        requires
            old(self).wf(),
            !content_scroll_key(key),
            !content_view_key(key),
            !is_key(key, 's', MOD_CONTROL),
            !is_key(key, 's', 0),
            !is_key(key, 'r', 0),
            !is_key(key, 'o', 0),
            !(key.code == KeyCode::Left || is_key(key, 'p', 0) || is_char(key, 'H')),
            !(key.code == KeyCode::Right || is_key(key, 'n', 0) || is_char(key, 'L')),
            !(is_char(key, '2') || key.code == KeyCode::F(2)),
        ensures
            final(self).wf(),
            content_post(*old(self), *final(self), key, e),
    {
        proof {
            reveal(content_post);
            self.tabs.lemma_wf();
        }
        match link_number(key) {
            Some(num) => {
                let i = num - 1;
                let url = match self.current_page() {
                    Some(p) => if i < p.links.len() {
                        Some(p.links[i].url.clone())
                    } else {
                        None
                    },
                    None => None,
                };
                match url {
                    Some(u) => {
                        self.url_input = u;
                        self.begin_navigation(true)
                    },
                    None => Effect::Nothing,
                }
            },
            None => Effect::Nothing,
        }
    }

    /// Ask for a summary of the current page, when a summarizer is configured.
    fn request_ai_summary(&mut self) -> (e: Effect)
        requires
            old(self).wf(),
        ensures
            final(self).wf(),
            content_post(*old(self), *final(self), KeyEvent { code: KeyCode::Char('s'), modifiers: 0 }, e),
    {
        proof {
            reveal(content_post);
        }
        if !self.ai_available {
            self.status_message = owned("AI not configured (set OPENROUTER_API_KEY)");
            return Effect::Nothing;
        }
        let summary = match self.current_page() {
            Some(page) => {
                let content = crate::text::join_strings(&page.content_lines, "\n");
                Some((page.title.clone(), page.url.clone(), content))
            },
            None => None,
        };
        match summary {
            None => {
                self.status_message = owned("No page to summarize");
                Effect::Nothing
            },
            Some((title, url, content)) => {
                self.mascot.set_state(CompanionState::Loading);
                self.status_message = owned("Summarizing page with AI...");
                Effect::Summarize { title, url, content }
            },
        }
    }
}


/// The active tab's selected link becomes `v`; nothing else changes.
pub open spec fn selected_to(o: App, n: App, v: usize) -> bool {
    &&& active_replaced(o.tabs, n.tabs, Tab { sidebar_selected: v, ..o.active() })
    &&& n == (App { tabs: n.tabs, ..o })
}

/// What a key does while the link sidebar has the focus: Up/k and Down/j move the
/// selection within the links, g and G jump to the first and last, Enter follows the
/// selected link, 1 or F1 goes back to the content.
#[verifier::opaque]
pub open spec fn sidebar_post(o: App, n: App, k: KeyEvent, e: Effect) -> bool {
    let sel = o.active().sidebar_selected;
    let page = o.active().page;
    if k.code == KeyCode::Up || is_char(k, 'k') {
        e is Nothing && if sel > 0 { selected_to(o, n, (sel - 1) as usize) } else { n == o }
    } else if k.code == KeyCode::Down || is_char(k, 'j') {
        e is Nothing && match page {
            Some(p) => if sel < sat_sub(p.links@.len() as int, 1) {
                selected_to(o, n, (sel + 1) as usize)
            } else {
                n == o
            },
            None => n == o,
        }
    } else if is_char(k, 'g') {
        e is Nothing && selected_to(o, n, 0)
    } else if is_char(k, 'G') {
        e is Nothing && match page {
            Some(p) => if p.links@.len() > 0 {
                selected_to(o, n, (p.links@.len() - 1) as usize)
            } else {
                n == o
            },
            None => n == o,
        }
    } else if k.code == KeyCode::Enter {
        match page {
            Some(p) => if sel < p.links@.len() {
                navigation(App { url_input: p.links@[sel as int].url, ..o }, n, true, e)
            } else {
                e is Nothing && n == o
            },
            None => e is Nothing && n == o,
        }
    } else if is_char(k, '1') || k.code == KeyCode::F(1) {
        e is Nothing && n == (App { focus: Focus::Content, status_message: n.status_message, ..o })
            && n.status_message@ == focus_status(Focus::Content)
    } else {
        e is Nothing && n == o
    }
}

/// What a key does in the URL bar: characters are typed, Backspace deletes, Enter
/// navigates and returns to the content, Esc returns to the content.
#[verifier::opaque]
pub open spec fn urlbar_post(o: App, n: App, k: KeyEvent, e: Effect) -> bool {
    match k.code {
        KeyCode::Char(c) => e is Nothing && n == (App { url_input: n.url_input, ..o })
            && n.url_input@ == o.url_input@.push(c),
        KeyCode::Backspace => e is Nothing && n == (App { url_input: n.url_input, ..o })
            && n.url_input@ == if o.url_input@.len() > 0 { o.url_input@.drop_last() } else { o.url_input@ },
        KeyCode::Enter => exists|mid: App| #[trigger] navigation(o, mid, true, e) && mid.wf()
            && n == (App { focus: Focus::Content, status_message: n.status_message, ..mid })
            && n.status_message@ == focus_status(Focus::Content),
        KeyCode::Esc => e is Nothing && n == (App { focus: Focus::Content, status_message: n.status_message, ..o })
            && n.status_message@ == focus_status(Focus::Content),
        _ => e is Nothing && n == o,
    }
}

/// What a key does on the tab bar: Left/h and Right/l switch tabs, Enter returns to the
/// content, x closes the active tab unless it is the last.
#[verifier::opaque]
pub open spec fn tabbar_post(o: App, n: App, k: KeyEvent, e: Effect) -> bool {
    &&& e is Nothing
    &&& if k.code == KeyCode::Left || is_char(k, 'h') {
        &&& n == (App { tabs: n.tabs, ..o })
        &&& n.tabs.spec_tabs() == o.tabs.spec_tabs()
        &&& n.tabs.spec_next_id() == o.tabs.spec_next_id()
        &&& n.tabs.spec_active() == crate::tabs::prev_index(o.tabs.spec_active(), o.tabs.spec_tabs().len())
    } else if k.code == KeyCode::Right || is_char(k, 'l') {
        &&& n == (App { tabs: n.tabs, ..o })
        &&& n.tabs.spec_tabs() == o.tabs.spec_tabs()
        &&& n.tabs.spec_next_id() == o.tabs.spec_next_id()
        &&& n.tabs.spec_active() == crate::tabs::next_index(o.tabs.spec_active(), o.tabs.spec_tabs().len())
    } else if k.code == KeyCode::Enter {
        n == (App { focus: Focus::Content, ..o })
    } else if is_char(k, 'x') && o.tabs.spec_tabs().len() > 1 {
        &&& n == (App { tabs: n.tabs, ..o })
        &&& closed_active(o.tabs, n.tabs)
    } else {
        n == o
    }
}

/// The active tab was closed.
pub open spec fn closed_active(o: TabManager, n: TabManager) -> bool {
    &&& n.spec_tabs() == o.spec_tabs().remove(o.spec_active() as int)
    &&& n.spec_active() == if o.spec_active() >= n.spec_tabs().len() {
        (n.spec_tabs().len() - 1) as nat
    } else {
        o.spec_active()
    }
}

/// Moving a selection up one, stopping at zero.
pub open spec fn up_one(sel: usize) -> usize {
    if sel > 0 { (sel - 1) as usize } else { sel }
}

/// Moving a selection down one within `len` items.
pub open spec fn down_one(sel: usize, len: nat) -> usize {
    if sel < sat_sub(len as int, 1) { (sel + 1) as usize } else { sel }
}

/// What a key does in the bookmarks panel: Esc, b or q close it, Up/k and Down/j move
/// the selection, Enter opens the selected bookmark, d or Delete removes it.
#[verifier::opaque]
pub open spec fn bookmarks_post(o: App, n: App, k: KeyEvent, e: Effect) -> bool {
    let sel = o.bookmarks_selected;
    let list = o.bookmarks_list@;
    if k.code == KeyCode::Esc || is_char(k, 'b') || is_char(k, 'q') {
        e is Nothing && n == (App { panel_mode: PanelMode::Closed, ..o })
    } else if k.code == KeyCode::Up || is_char(k, 'k') {
        e is Nothing && n == (App { bookmarks_selected: up_one(sel), ..o })
    } else if k.code == KeyCode::Down || is_char(k, 'j') {
        e is Nothing && n == (App { bookmarks_selected: down_one(sel, list.len()), ..o })
    } else if k.code == KeyCode::Enter {
        if sel < list.len() {
            navigation(App { url_input: list[sel as int].url, panel_mode: PanelMode::Closed, ..o }, n, true, e)
        } else {
            e is Nothing && n == o
        }
    } else if is_char(k, 'd') || k.code == KeyCode::Delete {
        if sel < list.len() && o.has_db {
            &&& e matches Effect::RemoveBookmark(u) && u@ == list[sel as int].url@
            &&& n == (App { bookmarks_selected: up_one(sel), status_message: n.status_message, ..o })
            &&& n.status_message@ == "Bookmark removed"@
        } else {
            e is Nothing && n == o
        }
    } else {
        e is Nothing && n == o
    }
}

/// What a key does in the history panel: Esc, H or q close it, Up/k and Down/j move the
/// selection, Enter opens the selected entry, Ctrl+C clears the history.
#[verifier::opaque]
pub open spec fn history_post(o: App, n: App, k: KeyEvent, e: Effect) -> bool {
    let sel = o.history_selected;
    let list = o.history_list@;
    if k.code == KeyCode::Esc || is_char(k, 'H') || is_char(k, 'q') {
        e is Nothing && n == (App { panel_mode: PanelMode::Closed, ..o })
    } else if k.code == KeyCode::Up || is_char(k, 'k') {
        e is Nothing && n == (App { history_selected: up_one(sel), ..o })
    } else if k.code == KeyCode::Down || is_char(k, 'j') {
        e is Nothing && n == (App { history_selected: down_one(sel, list.len()), ..o })
    } else if k.code == KeyCode::Enter {
        if sel < list.len() {
            navigation(App { url_input: list[sel as int].url, panel_mode: PanelMode::Closed, ..o }, n, true, e)
        } else {
            e is Nothing && n == o
        }
    } else if is_char(k, 'c') && has_control(k.modifiers) && o.has_db {
        e is ClearHistory && status_only(o, n, "History cleared"@)
    } else {
        e is Nothing && n == o
    }
}

/// What a key does in the settings panel: Esc or q close it.
#[verifier::opaque]
pub open spec fn settings_post(o: App, n: App, k: KeyEvent, e: Effect) -> bool {
    e is Nothing && if k.code == KeyCode::Esc || is_char(k, 'q') {
        n == (App { panel_mode: PanelMode::Closed, settings_editing_model: false, ..o })
    } else {
        n == o
    }
}

/// What a key does in the memory panel: Esc or q close it, r reloads the nodes.
#[verifier::opaque]
pub open spec fn memory_post(o: App, n: App, k: KeyEvent, e: Effect) -> bool {
    if k.code == KeyCode::Esc || is_char(k, 'q') {
        e is Nothing && n == (App { panel_mode: PanelMode::Closed, ..o })
    } else if is_char(k, 'r') {
        n == o && (e matches Effect::RefreshMemory { report } && report)
    } else {
        e is Nothing && n == o
    }
}

/// The status line of a research query that starts.
pub open spec fn research_status(q: Seq<char>) -> Seq<char> {
    "Researching: "@ + q + "..."@
}

/// What a key does in the research panel: Esc closes it; Up/k, Down/j (by three, when
/// there are results), PageUp and PageDown (by fifteen), Home/g and End/G scroll the
/// results; other characters and Backspace edit the query unless a query runs, and
/// Enter starts the query.
#[verifier::opaque]
pub open spec fn rag_post(o: App, n: App, k: KeyEvent, e: Effect) -> bool {
    let nonempty = o.rag_results@.len() > 0;
    if k.code == KeyCode::Esc {
        e is Nothing && n == (App { panel_mode: PanelMode::Closed, ..o })
    } else if k.code == KeyCode::Up || is_char(k, 'k') {
        e is Nothing && n == (App {
            rag_scroll: if nonempty { sat_sub(o.rag_scroll as int, 3) as usize } else { o.rag_scroll },
            ..o
        })
    } else if k.code == KeyCode::Down || is_char(k, 'j') {
        e is Nothing && n == (App {
            rag_scroll: if nonempty { sat_add(o.rag_scroll as int, 3) } else { o.rag_scroll },
            ..o
        })
    } else if k.code == KeyCode::PageUp {
        e is Nothing && n == (App { rag_scroll: sat_sub(o.rag_scroll as int, 15) as usize, ..o })
    } else if k.code == KeyCode::PageDown {
        e is Nothing && n == (App { rag_scroll: sat_add(o.rag_scroll as int, 15), ..o })
    } else if k.code == KeyCode::Home || is_char(k, 'g') {
        e is Nothing && n == (App { rag_scroll: 0, ..o })
    } else if k.code == KeyCode::End || is_char(k, 'G') {
        e is Nothing && n == (App { rag_scroll: sat_sub(o.rag_results@.len() as int, 5) as usize, ..o })
    } else if (k.code is Char) && !o.rag_loading {
        e is Nothing && n == (App { rag_query: n.rag_query, ..o }) && n.rag_query@ == o.rag_query@.push(
            k.code->Char_0,
        )
    } else if k.code == KeyCode::Backspace && !o.rag_loading {
        e is Nothing && n == (App { rag_query: n.rag_query, ..o }) && n.rag_query@ == if o.rag_query@.len() > 0 {
            o.rag_query@.drop_last()
        } else {
            o.rag_query@
        }
    } else if k.code == KeyCode::Enter && o.rag_query@.len() > 0 && !o.rag_loading {
        &&& e matches Effect::Research(q) && q@ == o.rag_query@
        &&& n == (App {
            status_message: n.status_message,
            rag_loading: true,
            rag_results: n.rag_results,
            rag_scroll: 0,
            mascot: n.mascot,
            ..o
        })
        &&& n.rag_results@.len() == 0
        &&& n.status_message@ == research_status(o.rag_query@)
        &&& n.mascot.spec_state() == CompanionState::Loading
        &&& n.mascot.spec_frame() == if o.mascot.spec_state() == CompanionState::Loading {
            o.mascot.spec_frame()
        } else {
            0
        }
    } else {
        e is Nothing && n == o
    }
}

/// Adding, capped at the largest `usize`.
pub open spec fn sat_add(a: int, b: int) -> usize {
    if a + b > usize::MAX { usize::MAX } else { (a + b) as usize }
}

impl App {
    /// Set the active tab's selected link.
    fn set_sidebar_selected(&mut self, v: usize)
        requires
            old(self).wf(),
        ensures
            final(self).wf(),
            selected_to(*old(self), *final(self), v),
    {
        proof {
            self.tabs.lemma_wf();
        }
        let ghost before = self.tabs;
        let ghost a = self.tabs.spec_active() as int;
        match self.tabs.active_tab_mut() {
            Some(t) => {
                t.sidebar_selected = v;
            },
            None => {},
        }
        proof {
            before.lemma_wf_update(&self.tabs, a, self.tabs.spec_tabs()[a]);
        }
    }

    /// Handle a key while the link sidebar has the focus, as `sidebar_post` says.
    #[verifier::rlimit(50)]
    pub fn handle_sidebar_keys(&mut self, key: KeyEvent) -> (e: Effect)
        requires
            old(self).wf(),
        ensures
            final(self).wf(),
            sidebar_post(*old(self), *final(self), key, e),
    {
        proof {
            reveal(sidebar_post);
        }
        proof {
            self.tabs.lemma_wf();
        }
        let selected = self.sidebar_selected();
        let code = key.code;
        if code == KeyCode::Up || code == KeyCode::Char('k') {
            if selected > 0 {
                self.set_sidebar_selected(selected - 1);
            }
            Effect::Nothing
        } else if code == KeyCode::Down || code == KeyCode::Char('j') {
            let n = match self.current_page() {
                Some(p) => Some(p.links.len()),
                None => None,
            };
            match n {
                Some(len) => {
                    if selected < len.saturating_sub(1) {
                        self.set_sidebar_selected(selected + 1);
                    }
                },
                None => {},
            }
            Effect::Nothing
        } else if code == KeyCode::Char('g') {
            self.set_sidebar_selected(0);
            Effect::Nothing
        } else if code == KeyCode::Char('G') {
            let n = match self.current_page() {
                Some(p) => p.links.len(),
                None => 0,
            };
            if n > 0 {
                self.set_sidebar_selected(n - 1);
            }
            Effect::Nothing
        } else if code == KeyCode::Enter {
            let url = match self.current_page() {
                Some(p) => if selected < p.links.len() {
                    Some(p.links[selected].url.clone())
                } else {
                    None
                },
                None => None,
            };
            match url {
                Some(u) => {
                    self.url_input = u;
                    self.begin_navigation(true)
                },
                None => Effect::Nothing,
            }
        } else if code == KeyCode::Char('1') || code == KeyCode::F(1) {
            self.focus = Focus::Content;
            self.update_status();
            Effect::Nothing
        } else {
            Effect::Nothing
        }
    }

    /// Handle a key in the URL bar, as `urlbar_post` says.
    #[verifier::rlimit(50)]
    pub fn handle_urlbar_keys(&mut self, key: KeyEvent) -> (e: Effect)
        requires
            old(self).wf(),
        ensures
            final(self).wf(),
            urlbar_post(*old(self), *final(self), key, e),
    {
        proof {
            reveal(urlbar_post);
        }
        match key.code {
            KeyCode::Char(c) => {
                push_char(&mut self.url_input, c);
                Effect::Nothing
            },
            KeyCode::Backspace => {
                pop_char(&mut self.url_input);
                Effect::Nothing
            },
            KeyCode::Enter => {
                let e = self.begin_navigation(true);
                let ghost mid = *self;
                self.focus = Focus::Content;
                self.update_status();
                assert(navigation(*old(self), mid, true, e) && mid.wf());
                e
            },
            KeyCode::Esc => {
                self.focus = Focus::Content;
                self.update_status();
                Effect::Nothing
            },
            _ => Effect::Nothing,
        }
    }

    /// Handle a key on the tab bar, as `tabbar_post` says.
    pub fn handle_tab_bar_keys(&mut self, key: KeyEvent) -> (e: Effect)
        requires
            old(self).wf(),
        ensures
            final(self).wf(),
            tabbar_post(*old(self), *final(self), key, e),
    {
        proof {
            reveal(tabbar_post);
        }
        let code = key.code;
        if code == KeyCode::Left || code == KeyCode::Char('h') {
            self.tabs.prev_tab();
        } else if code == KeyCode::Right || code == KeyCode::Char('l') {
            self.tabs.next_tab();
        } else if code == KeyCode::Enter {
            self.focus = Focus::Content;
        } else if code == KeyCode::Char('x') {
            if self.tabs.count() > 1 {
                self.tabs.close_current_tab();
            }
        }
        Effect::Nothing
    }

    /// Handle a key in the bookmarks panel, as `bookmarks_post` says.
    #[verifier::rlimit(50)]
    pub fn handle_bookmarks_keys(&mut self, key: KeyEvent) -> (e: Effect)
        requires
            old(self).wf(),
        ensures
            final(self).wf(),
            bookmarks_post(*old(self), *final(self), key, e),
    {
        proof {
            reveal(bookmarks_post);
        }
        let code = key.code;
        if code == KeyCode::Esc || code == KeyCode::Char('b') || code == KeyCode::Char('q') {
            self.panel_mode = PanelMode::Closed;
            Effect::Nothing
        } else if code == KeyCode::Up || code == KeyCode::Char('k') {
            if self.bookmarks_selected > 0 {
                self.bookmarks_selected = self.bookmarks_selected - 1;
            }
            Effect::Nothing
        } else if code == KeyCode::Down || code == KeyCode::Char('j') {
            if self.bookmarks_selected < self.bookmarks_list.len().saturating_sub(1) {
                self.bookmarks_selected = self.bookmarks_selected + 1;
            }
            Effect::Nothing
        } else if code == KeyCode::Enter {
            if self.bookmarks_selected < self.bookmarks_list.len() {
                self.url_input = self.bookmarks_list[self.bookmarks_selected].url.clone();
                self.panel_mode = PanelMode::Closed;
                self.begin_navigation(true)
            } else {
                Effect::Nothing
            }
        } else if code == KeyCode::Char('d') || code == KeyCode::Delete {
            if self.bookmarks_selected < self.bookmarks_list.len() && self.has_db {
                let url = self.bookmarks_list[self.bookmarks_selected].url.clone();
                if self.bookmarks_selected > 0 {
                    self.bookmarks_selected = self.bookmarks_selected - 1;
                }
                self.status_message = owned("Bookmark removed");
                Effect::RemoveBookmark(url)
            } else {
                Effect::Nothing
            }
        } else {
            Effect::Nothing
        }
    }

    /// Handle a key in the history panel, as `history_post` says.
    #[verifier::rlimit(50)]
    pub fn handle_history_keys(&mut self, key: KeyEvent) -> (e: Effect)
        requires
            old(self).wf(),
        ensures
            final(self).wf(),
            history_post(*old(self), *final(self), key, e),
    {
        proof {
            reveal(history_post);
        }
        let code = key.code;
        if code == KeyCode::Esc || code == KeyCode::Char('H') || code == KeyCode::Char('q') {
            self.panel_mode = PanelMode::Closed;
            Effect::Nothing
        } else if code == KeyCode::Up || code == KeyCode::Char('k') {
            if self.history_selected > 0 {
                self.history_selected = self.history_selected - 1;
            }
            Effect::Nothing
        } else if code == KeyCode::Down || code == KeyCode::Char('j') {
            if self.history_selected < self.history_list.len().saturating_sub(1) {
                self.history_selected = self.history_selected + 1;
            }
            Effect::Nothing
        } else if code == KeyCode::Enter {
            if self.history_selected < self.history_list.len() {
                self.url_input = self.history_list[self.history_selected].url.clone();
                self.panel_mode = PanelMode::Closed;
                self.begin_navigation(true)
            } else {
                Effect::Nothing
            }
        } else if code == KeyCode::Char('c') && (key.modifiers / 2) % 2 == 1 && self.has_db {
            self.status_message = owned("History cleared");
            Effect::ClearHistory
        } else {
            Effect::Nothing
        }
    }

    /// Handle a key in the settings panel, as `settings_post` says.
    pub fn handle_settings_keys(&mut self, key: KeyEvent) -> (e: Effect)
        requires
            old(self).wf(),
        ensures
            final(self).wf(),
            settings_post(*old(self), *final(self), key, e),
    {
        proof {
            reveal(settings_post);
        }
        if key.code == KeyCode::Esc || key.code == KeyCode::Char('q') {
            self.panel_mode = PanelMode::Closed;
            self.settings_editing_model = false;
        }
        Effect::Nothing
    }

    /// Handle a key in the memory panel, as `memory_post` says.
    pub fn handle_memory_keys(&mut self, key: KeyEvent) -> (e: Effect)
        requires
            old(self).wf(),
        ensures
            final(self).wf(),
            memory_post(*old(self), *final(self), key, e),
    {
        proof {
            reveal(memory_post);
        }
        if key.code == KeyCode::Esc || key.code == KeyCode::Char('q') {
            self.panel_mode = PanelMode::Closed;
            Effect::Nothing
        } else if key.code == KeyCode::Char('r') {
            Effect::RefreshMemory { report: true }
        } else {
            Effect::Nothing
        }
    }

    /// Handle a key in the research panel, as `rag_post` says.
    #[verifier::rlimit(50)]
    pub fn handle_rag_keys(&mut self, key: KeyEvent) -> (e: Effect)
        requires
            old(self).wf(),
        ensures
            final(self).wf(),
            rag_post(*old(self), *final(self), key, e),
    {
        proof {
            reveal(rag_post);
        }
        let code = key.code;
        if code == KeyCode::Esc {
            self.panel_mode = PanelMode::Closed;
            Effect::Nothing
        } else if code == KeyCode::Up || code == KeyCode::Char('k') {
            if self.rag_results.len() > 0 {
                self.rag_scroll = self.rag_scroll.saturating_sub(3);
            }
            Effect::Nothing
        } else if code == KeyCode::Down || code == KeyCode::Char('j') {
            if self.rag_results.len() > 0 {
                self.rag_scroll = self.rag_scroll.saturating_add(3);
            }
            Effect::Nothing
        } else if code == KeyCode::PageUp {
            self.rag_scroll = self.rag_scroll.saturating_sub(15);
            Effect::Nothing
        } else if code == KeyCode::PageDown {
            self.rag_scroll = self.rag_scroll.saturating_add(15);
            Effect::Nothing
        } else if code == KeyCode::Home || code == KeyCode::Char('g') {
            self.rag_scroll = 0;
            Effect::Nothing
        } else if code == KeyCode::End || code == KeyCode::Char('G') {
            self.rag_scroll = self.rag_results.len().saturating_sub(5);
            Effect::Nothing
        } else {
            match code {
                KeyCode::Char(c) => {
                    if !self.rag_loading {
                        push_char(&mut self.rag_query, c);
                    }
                    Effect::Nothing
                },
                KeyCode::Backspace => {
                    if !self.rag_loading {
                        pop_char(&mut self.rag_query);
                    }
                    Effect::Nothing
                },
                KeyCode::Enter => {
                    if !self.rag_query.as_str().is_empty() && !self.rag_loading {
                        let query = self.rag_query.clone();
                        self.status_message = concat3("Researching: ", query.as_str(), "...");
                        self.rag_loading = true;
                        self.rag_results = Vec::new();
                        self.rag_scroll = 0;
                        self.mascot.set_state(CompanionState::Loading);
                        Effect::Research(query)
                    } else {
                        Effect::Nothing
                    }
                },
                _ => Effect::Nothing,
            }
        }
    }
}


/// The context of a page handed to the assistant: title, URL, number of links and the
/// first fifteen content lines; nothing when those lines are blank.
pub open spec fn page_context(p: Page) -> Seq<char> {
    let preview = crate::text::join(views(crate::chat::first_n(p.content_lines@, 15)), "\n"@);
    if trim(preview).len() == 0 {
        Seq::empty()
    } else {
        "<current_page>\nTitle: "@ + p.title@ + "\nURL: "@ + p.url@ + "\nLinks: "@ + decimal(
            p.links@.len(),
        ) + "\n\n"@ + preview + "\n</current_page>"@
    }
}

/// The context of the active tab's page, if any.
pub open spec fn browser_context(a: App) -> Seq<char> {
    match a.active().page {
        Some(p) => page_context(p),
        None => Seq::empty(),
    }
}

/// What a key does while the chat has the focus: PageUp/PageDown scroll by five and
/// Up/Down by one (up adds), characters and Backspace edit the input, Enter sends it;
/// Enter on `/clear` wipes the conversation down to its system prompt instead.
#[verifier::opaque]
pub open spec fn chat_post(o: App, n: App, k: KeyEvent, e: Effect) -> bool {
    match k.code {
        KeyCode::PageUp => e is Nothing && n == (App { chat_scroll: (o.chat_scroll + 5) as usize, ..o }),
        KeyCode::PageDown => e is Nothing && n == (App { chat_scroll: sat_sub(o.chat_scroll as int, 5) as usize, ..o }),
        KeyCode::Up => e is Nothing && n == (App { chat_scroll: (o.chat_scroll + 1) as usize, ..o }),
        KeyCode::Down => e is Nothing && n == (App { chat_scroll: sat_sub(o.chat_scroll as int, 1) as usize, ..o }),
        KeyCode::Char(c) => e is Nothing && n == (App { chat_input: n.chat_input, ..o })
            && n.chat_input@ == o.chat_input@.push(c),
        KeyCode::Backspace => e is Nothing && n == (App { chat_input: n.chat_input, ..o })
            && n.chat_input@ == if o.chat_input@.len() > 0 { o.chat_input@.drop_last() } else { o.chat_input@ },
        KeyCode::Enter => if o.chat_input@.len() == 0 {
            e is Nothing && n == o
        } else if trim(o.chat_input@) == "/clear"@ {
            &&& e is Nothing
            &&& n.chat_input@.len() == 0
            &&& n.status_message@ == "Chat history cleared"@
            &&& match o.chat_session {
                Some(cs) => {
                    &&& n.chat_session matches Some(ns) && entries(ns.messages@) == seq![
                        (Role::System, crate::chat::system_prompt()),
                    ] && ns.model == cs.model && ns.available_models == cs.available_models
                    &&& n == (App {
                        chat_input: n.chat_input,
                        chat_scroll: 0,
                        chat_session: n.chat_session,
                        status_message: n.status_message,
                        ..o
                    })
                },
                None => n == (App {
                    chat_input: n.chat_input,
                    chat_scroll: 0,
                    status_message: n.status_message,
                    ..o
                }),
            }
        } else {
            &&& n.chat_input@.len() == 0
            &&& match o.chat_session {
                Some(cs) => {
                    &&& n.chat_session matches Some(ns) && entries(ns.messages@) == entries(cs.messages@).push(
                        (Role::User, o.chat_input@),
                    ) && ns.model == cs.model && ns.available_models == cs.available_models
                    &&& e matches Effect::SendChat { message, context } && message@ == o.chat_input@
                        && context@ == browser_context(o)
                    &&& n == (App {
                        chat_input: n.chat_input,
                        chat_scroll: 0,
                        chat_session: n.chat_session,
                        mascot: n.mascot,
                        status_message: n.status_message,
                        ..o
                    })
                    &&& n.mascot.spec_state() == CompanionState::Loading
                    &&& n.mascot.spec_frame() == if o.mascot.spec_state() == CompanionState::Loading {
                        o.mascot.spec_frame()
                    } else {
                        0
                    }
                    &&& n.status_message@ == "Querying RAG..."@
                },
                None => e is Nothing && n == (App { chat_input: n.chat_input, chat_scroll: 0, ..o }),
            }
        },
        _ => e is Nothing && n == o,
    }
}

/// Chat scrolling leaves room for the largest step.
pub open spec fn room_to_scroll_chat(a: App) -> bool {
    a.chat_scroll + 5 <= usize::MAX
}

impl App {
    /// The context of the active tab's page for the assistant, as `browser_context` says.
    pub fn get_browser_context(&self) -> (r: String)
        requires
            self.wf(),
        ensures
            r@ == browser_context(*self),
    {
        match self.current_page() {
            Some(page) => {
                let n = if page.content_lines.len() <= 15 { page.content_lines.len() } else { 15 };
                let mut first: Vec<String> = Vec::new();
                let mut i: usize = 0;
                while i < n
                    invariant
                        i <= n,
                        n == crate::chat::first_n(page.content_lines@, 15).len(),
                        first@ == crate::chat::first_n(page.content_lines@, 15).take(i as int),
                    decreases n - i,
                {
                    first.push(page.content_lines[i].clone());
                    proof {
                        assert(first@ =~= crate::chat::first_n(page.content_lines@, 15).take(i as int + 1));
                    }
                    i = i + 1;
                }
                assert(first@ =~= crate::chat::first_n(page.content_lines@, 15));
                let preview = crate::text::join_strings(&first, "\n");
                let t = trim_str(preview.as_str());
                if t.as_str().is_empty() {
                    String::new()
                } else {
                    let mut out = owned("<current_page>\nTitle: ");
                    out.append(page.title.as_str());
                    out.append("\nURL: ");
                    out.append(page.url.as_str());
                    out.append("\nLinks: ");
                    out.append(usize_to_string(page.links.len()).as_str());
                    out.append("\n\n");
                    out.append(preview.as_str());
                    out.append("\n</current_page>");
                    out
                }
            },
            None => String::new(),
        }
    }

    /// Handle a key while the chat has the focus, as `chat_post` says.
    #[verifier::rlimit(30)]
    pub fn handle_chat_keys(&mut self, key: KeyEvent) -> (e: Effect)
        requires
            old(self).wf(),
            room_to_scroll_chat(*old(self)),
        ensures
            final(self).wf(),
            chat_post(*old(self), *final(self), key, e),
    {
        proof {
            reveal(chat_post);
        }
        match key.code {
            KeyCode::PageUp => {
                self.chat_scroll = self.chat_scroll + 5;
                Effect::Nothing
            },
            KeyCode::PageDown => {
                self.chat_scroll = self.chat_scroll.saturating_sub(5);
                Effect::Nothing
            },
            KeyCode::Up => {
                self.chat_scroll = self.chat_scroll + 1;
                Effect::Nothing
            },
            KeyCode::Down => {
                self.chat_scroll = self.chat_scroll.saturating_sub(1);
                Effect::Nothing
            },
            KeyCode::Char(c) => {
                push_char(&mut self.chat_input, c);
                Effect::Nothing
            },
            KeyCode::Backspace => {
                pop_char(&mut self.chat_input);
                Effect::Nothing
            },
            KeyCode::Enter => self.chat_enter(key),
            _ => Effect::Nothing,
        }
    }

    /// Send the chat input, or wipe the conversation on `/clear`, as `chat_post` says.
    #[verifier::rlimit(50)]
    fn chat_enter(&mut self, key: KeyEvent) -> (e: Effect)
        requires
            old(self).wf(),
            key.code == KeyCode::Enter,
        ensures
            final(self).wf(),
            chat_post(*old(self), *final(self), key, e),
    {
        proof {
            reveal(chat_post);
        }
        if self.chat_input.as_str().is_empty() {
            return Effect::Nothing;
        }
        let typed = trim_str(self.chat_input.as_str());
        proof {
            reveal_strlit("/clear");
        }
        if crate::text::str_eq(typed.as_str(), "/clear") {
            self.chat_input = String::new();
            self.chat_scroll = 0;
            match self.chat_session.take() {
                Some(mut session) => {
                    session.clear();
                    self.chat_session = Some(session);
                },
                None => {},
            }
            self.status_message = owned("Chat history cleared");
            return Effect::Nothing;
        }
        let message = self.chat_input.clone();
        self.chat_input = String::new();
        self.chat_scroll = 0;
        let context = self.get_browser_context();
        match self.chat_session.take() {
            Some(mut session) => {
                session.add_user_message(message.clone());
                self.chat_session = Some(session);
                self.mascot.set_state(CompanionState::Loading);
                self.status_message = owned("Querying RAG...");
                Effect::SendChat { message, context }
            },
            None => Effect::Nothing,
        }
    }
}


/// The shortcuts that work in every focus.
#[derive(Debug, Clone, Copy, PartialEq, Eq, Structural)]
pub enum Command {
    Quit,
    Help,
    FocusNext,
    FocusPrevious,
    OpenUrlBar,
    NewTab,
    CloseTab,
    /// Go to the tab with this number (counted from one)
    GoToTab(usize),
    PrevTab,
    NextTab,
    OpenBookmarks,
    OpenHistory,
    ToggleBookmark,
    FocusChat,
    OpenSettings,
    OpenRag,
    OpenMemory,
    FocusLinks,
    FocusContent,
    /// A shortcut that does nothing here
    Consumed,
    /// Not a shortcut: the focused pane handles the key
    PassOn,
}

/// The shortcut a key stands for in a focus. Most letters are shortcuts only outside
/// the URL bar, where they are typed instead; H opens the history only outside the
/// content pane, where it steps back.
pub open spec fn command(focus: Focus, k: KeyEvent) -> Command {
    let not_url = focus != Focus::URLBar;
    if is_key(k, 'q', 0) || is_key(k, 'Q', 0) {
        if not_url { Command::Quit } else { Command::PassOn }
    } else if is_key(k, 'c', MOD_CONTROL) {
        Command::Quit
    } else if is_key(k, '?', 0) {
        Command::Help
    } else if plain_code(k, KeyCode::Tab) {
        Command::FocusNext
    } else if k.code == KeyCode::BackTab {
        Command::FocusPrevious
    } else if is_key(k, '/', 0) {
        if not_url { Command::OpenUrlBar } else { Command::PassOn }
    } else if is_key(k, 't', 0) && not_url {
        Command::NewTab
    } else if is_key(k, 'w', MOD_CONTROL) {
        Command::CloseTab
    } else if (k.code is Char) && k.modifiers == MOD_ALT && crate::text::is_ascii_digit(k.code->Char_0) {
        let d = (k.code->Char_0 as u32 - 48) as usize;
        if d > 0 { Command::GoToTab(d) } else { Command::Consumed }
    } else if is_key(k, '[', MOD_CONTROL) {
        Command::PrevTab
    } else if is_key(k, ']', MOD_CONTROL) {
        Command::NextTab
    } else if is_key(k, 'b', 0) && not_url {
        Command::OpenBookmarks
    } else if is_key(k, 'H', 0) && focus != Focus::Content {
        Command::OpenHistory
    } else if is_key(k, 'B', 0) {
        Command::ToggleBookmark
    } else if is_key(k, 'c', 0) && not_url {
        Command::FocusChat
    } else if is_key(k, ',', 0) {
        Command::OpenSettings
    } else if is_key(k, 'r', 0) && not_url {
        Command::OpenRag
    } else if is_key(k, 'm', 0) && not_url {
        Command::OpenMemory
    } else if is_key(k, '1', 0) && not_url {
        Command::FocusLinks
    } else if is_key(k, '2', 0) && not_url {
        Command::FocusContent
    } else if is_key(k, '3', 0) && not_url {
        Command::FocusChat
    } else {
        Command::PassOn
    }
}

/// The shortcut a key stands for, as `command` says.
pub fn command_for(focus: Focus, k: KeyEvent) -> (c: Command)
    ensures
        c == command(focus, k),
{
    let code = k.code;
    let m = k.modifiers;
    let not_url = focus != Focus::URLBar;
    if (code == KeyCode::Char('q') || code == KeyCode::Char('Q')) && m == MOD_NONE {
        if not_url { Command::Quit } else { Command::PassOn }
    } else if code == KeyCode::Char('c') && m == MOD_CONTROL {
        Command::Quit
    } else if code == KeyCode::Char('?') && m == MOD_NONE {
        Command::Help
    } else if code == KeyCode::Tab && m == MOD_NONE {
        Command::FocusNext
    } else if code == KeyCode::BackTab {
        Command::FocusPrevious
    } else if code == KeyCode::Char('/') && m == MOD_NONE {
        if not_url { Command::OpenUrlBar } else { Command::PassOn }
    } else if code == KeyCode::Char('t') && m == MOD_NONE && not_url {
        Command::NewTab
    } else if code == KeyCode::Char('w') && m == MOD_CONTROL {
        Command::CloseTab
    } else if alt_digit(k).is_some() {
        let d = match alt_digit(k) {
            Some(d) => d,
            None => 0,
        };
        if d > 0 { Command::GoToTab(d) } else { Command::Consumed }
    } else if code == KeyCode::Char('[') && m == MOD_CONTROL {
        Command::PrevTab
    } else if code == KeyCode::Char(']') && m == MOD_CONTROL {
        Command::NextTab
    } else if code == KeyCode::Char('b') && m == MOD_NONE && not_url {
        Command::OpenBookmarks
    } else if code == KeyCode::Char('H') && m == MOD_NONE && focus != Focus::Content {
        Command::OpenHistory
    } else if code == KeyCode::Char('B') && m == MOD_NONE {
        Command::ToggleBookmark
    } else if code == KeyCode::Char('c') && m == MOD_NONE && not_url {
        Command::FocusChat
    } else if code == KeyCode::Char(',') && m == MOD_NONE {
        Command::OpenSettings
    } else if code == KeyCode::Char('r') && m == MOD_NONE && not_url {
        Command::OpenRag
    } else if code == KeyCode::Char('m') && m == MOD_NONE && not_url {
        Command::OpenMemory
    } else if code == KeyCode::Char('1') && m == MOD_NONE && not_url {
        Command::FocusLinks
    } else if code == KeyCode::Char('2') && m == MOD_NONE && not_url {
        Command::FocusContent
    } else if code == KeyCode::Char('3') && m == MOD_NONE && not_url {
        Command::FocusChat
    } else {
        Command::PassOn
    }
}

/// The digit of an Alt+digit key.
fn alt_digit(k: KeyEvent) -> (d: Option<usize>)
    ensures
        match d {
            Some(v) => (k.code is Char) && k.modifiers == MOD_ALT && crate::text::is_ascii_digit(
                k.code->Char_0,
            ) && v == (k.code->Char_0 as u32 - 48) as usize,
            None => !((k.code is Char) && k.modifiers == MOD_ALT && crate::text::is_ascii_digit(
                k.code->Char_0,
            )),
        },
{
    match k.code {
        KeyCode::Char(c) => {
            if k.modifiers == MOD_ALT && c >= '0' && c <= '9' {
                let u: u32 = c as u32;
                Some((u - 48) as usize)
            } else {
                None
            }
        },
        _ => None,
    }
}

/// A new welcome tab was opened after the others and made active.
pub open spec fn new_tab_opened(o: TabManager, n: TabManager) -> bool {
    &&& n.spec_tabs().len() == o.spec_tabs().len() + 1
    &&& n.spec_tabs().take(o.spec_tabs().len() as int) == o.spec_tabs()
    &&& n.spec_active() == o.spec_tabs().len()
    &&& n.spec_next_id() == o.spec_next_id() + 1
    &&& n.spec_tabs().last().id == o.spec_next_id()
    &&& n.spec_tabs().last().history_view().len() == 0
    &&& !n.spec_tabs().last().loading
    &&& n.spec_tabs().last().url@ == "azul://home"@
}

/// `Tab <active>/<count>`, counting from one.
pub open spec fn tab_position_status(t: TabManager) -> Seq<char> {
    "Tab "@ + decimal(t.spec_active() + 1) + "/"@ + decimal(t.spec_tabs().len())
}

/// What a shortcut does.
#[verifier::opaque]
pub open spec fn command_post(o: App, n: App, c: Command, e: Effect) -> bool {
    match c {
        Command::Quit => e is Nothing && n == (App { should_quit: true, ..o }),
        Command::Help => e is Nothing && n == (App { panel_mode: PanelMode::Help, ..o }),
        Command::FocusNext => {
            let t = tab_stop_after(o.focus, o.chat_focused);
            e is Nothing && n == (App {
                focus: t.0,
                chat_focused: t.1,
                status_message: n.status_message,
                ..o
            }) && n.status_message@ == tab_stop_status(t.0, t.1)
        },
        Command::FocusPrevious => {
            let t = tab_stop_before(o.focus, o.chat_focused);
            e is Nothing && n == (App {
                focus: t.0,
                chat_focused: t.1,
                status_message: n.status_message,
                ..o
            }) && n.status_message@ == tab_stop_status(t.0, t.1)
        },
        Command::OpenUrlBar => e is Nothing && n == (App {
            focus: Focus::URLBar,
            url_input: n.url_input,
            status_message: n.status_message,
            ..o
        }) && n.url_input@.len() == 0 && n.status_message@ == focus_status(Focus::URLBar),
        Command::NewTab => e is Nothing && n == (App { tabs: n.tabs, status_message: n.status_message, ..o })
            && if o.tabs.spec_tabs().len() < 9 {
            new_tab_opened(o.tabs, n.tabs) && n.status_message@ == "New tab "@ + decimal(
                n.tabs.spec_tabs().len(),
            ) + " created"@
        } else {
            n.tabs == o.tabs && n.status_message@ == "Max tabs reached (9)"@
        },
        Command::CloseTab => e is Nothing && n == (App { tabs: n.tabs, status_message: n.status_message, ..o })
            && if o.tabs.spec_tabs().len() > 1 {
            closed_active(o.tabs, n.tabs) && n.status_message@ == "Tab closed"@
        } else {
            n.tabs == o.tabs && n.status_message@ == "Can't close last tab"@
        },
        Command::GoToTab(num) => {
            &&& e is Nothing
            &&& n == (App { tabs: n.tabs, status_message: n.status_message, ..o })
            &&& n.tabs.spec_tabs() == o.tabs.spec_tabs()
            &&& n.tabs.spec_active() == if 0 < num <= o.tabs.spec_tabs().len() {
                (num - 1) as nat
            } else {
                o.tabs.spec_active()
            }
            &&& n.status_message@ == "Switched to tab "@ + decimal(num as nat)
        },
        Command::PrevTab => {
            &&& e is Nothing
            &&& n == (App { tabs: n.tabs, status_message: n.status_message, ..o })
            &&& n.tabs.spec_tabs() == o.tabs.spec_tabs()
            &&& n.tabs.spec_active() == crate::tabs::prev_index(o.tabs.spec_active(), o.tabs.spec_tabs().len())
            &&& n.status_message@ == tab_position_status(n.tabs)
        },
        Command::NextTab => {
            &&& e is Nothing
            &&& n == (App { tabs: n.tabs, status_message: n.status_message, ..o })
            &&& n.tabs.spec_tabs() == o.tabs.spec_tabs()
            &&& n.tabs.spec_active() == crate::tabs::next_index(o.tabs.spec_active(), o.tabs.spec_tabs().len())
            &&& n.status_message@ == tab_position_status(n.tabs)
        },
        Command::OpenBookmarks => e is RefreshBookmarks && n == (App {
            panel_mode: PanelMode::Bookmarks,
            bookmarks_selected: 0,
            ..o
        }),
        Command::OpenHistory => e is RefreshHistory && n == (App {
            panel_mode: PanelMode::History,
            history_selected: 0,
            ..o
        }),
        Command::ToggleBookmark => if !o.has_db {
            e is Nothing && status_only(o, n, "Database not available"@)
        } else {
            match o.active().page {
                None => e is Nothing && status_only(o, n, "No page to bookmark"@),
                Some(p) => n == o && (e matches Effect::ToggleBookmark { url, title } && url@ == p.url@
                    && title@ == p.title@),
            }
        },
        Command::FocusChat => e is Nothing && n == (App {
            chat_focused: true,
            status_message: n.status_message,
            ..o
        }) && n.status_message@ == "Chat - type message, Esc to exit"@,
        Command::OpenSettings => e is Nothing && n == (App { panel_mode: PanelMode::Settings, ..o }),
        Command::OpenRag => e is Nothing && n == (App {
            panel_mode: PanelMode::Rag,
            status_message: n.status_message,
            ..o
        }) && n.status_message@ == "RAG Panel - Enter query, Esc to close"@,
        Command::OpenMemory => (e matches Effect::RefreshMemory { report } && !report) && n == (App {
            panel_mode: PanelMode::Memory,
            status_message: n.status_message,
            ..o
        }) && n.status_message@ == "Memory Panel - Viewing mem-layer graph"@,
        Command::FocusLinks => e is Nothing && n == (App {
            focus: Focus::Sidebar,
            chat_focused: false,
            status_message: n.status_message,
            ..o
        }) && n.status_message@ == "Links - j/k navigate, Enter follow"@,
        Command::FocusContent => e is Nothing && n == (App {
            focus: Focus::Content,
            chat_focused: false,
            status_message: n.status_message,
            ..o
        }) && n.status_message@ == "Content - j/k scroll, / search"@,
        Command::Consumed => e is Nothing && n == o,
        Command::PassOn => e is Nothing && n == o,
    }
}

/// Ctrl+] moves to the next tab and Ctrl+[ to the previous one, wrapping around at the
/// ends: after Ctrl+] the active tab is the one after the old one, after Ctrl+[ the old
/// one is the one after the new one, so each undoes the other. The tabs themselves stay
/// as they are and nothing is handed out.
pub proof fn law_bracket_keys_step_tabs(o: App, n: App, e: Effect, forward: bool)
    requires
        o.wf(),
        o.panel_mode == PanelMode::Closed,
        !o.chat_focused,
        key_post(
            o,
            n,
            KeyEvent { code: KeyCode::Char(if forward { ']' } else { '[' }), modifiers: MOD_CONTROL },
            e,
        ),
    ensures
        e is Nothing,
        n.tabs.spec_tabs() == o.tabs.spec_tabs(),
        forward ==> n.tabs.spec_active() as int == (o.tabs.spec_active() as int + 1) % (
        o.tabs.spec_tabs().len() as int),
        !forward ==> o.tabs.spec_active() as int == (n.tabs.spec_active() as int + 1) % (
        o.tabs.spec_tabs().len() as int),
{
    reveal(command_post);
    o.tabs.lemma_wf();
    let a: int = o.tabs.spec_active() as int;
    let len: int = o.tabs.spec_tabs().len() as int;
    if len > 1 {
        if a + 1 < len {
            assert((a + 1) % len == a + 1) by (nonlinear_arith)
                requires 0 <= a, a + 1 < len;
        } else {
            assert((a + 1) % len == 0) by (nonlinear_arith)
                requires a + 1 == len, len > 1;
        }
        if a == 0 {
            assert((len - 1 + 1) % len == 0) by (nonlinear_arith)
                requires len > 1;
        } else {
            assert((a - 1 + 1) % len == a) by (nonlinear_arith)
                requires 0 < a < len;
        }
    } else {
        assert(a == 0);
        assert((0int + 1) % 1int == 0);
    }
}

/// What a key does, wherever the browser is: an open panel takes every key (help closes
/// on any key); a focused chat takes every key but Tab and Shift+Tab (Esc leaves it);
/// then the shortcuts; then the focused pane.
pub open spec fn key_post(o: App, n: App, k: KeyEvent, e: Effect) -> bool {
    match o.panel_mode {
        PanelMode::Bookmarks => bookmarks_post(o, n, k, e),
        PanelMode::History => history_post(o, n, k, e),
        PanelMode::Help => e is Nothing && n == (App { panel_mode: PanelMode::Closed, ..o }),
        PanelMode::Settings => settings_post(o, n, k, e),
        PanelMode::Rag => rag_post(o, n, k, e),
        PanelMode::Memory => memory_post(o, n, k, e),
        _ => if o.chat_focused && k.code == KeyCode::Esc {
            e is Nothing && n == (App { chat_focused: false, status_message: n.status_message, ..o })
                && n.status_message@ == "Content mode - 'c' for chat, '/' for URL"@
        } else if o.chat_focused && !(k.code == KeyCode::Tab || k.code == KeyCode::BackTab) {
            chat_post(o, n, k, e)
        } else if command(o.focus, k) != Command::PassOn {
            command_post(o, n, command(o.focus, k), e)
        } else {
            match o.focus {
                Focus::Content => content_post(o, n, k, e),
                Focus::Sidebar => sidebar_post(o, n, k, e),
                Focus::URLBar => urlbar_post(o, n, k, e),
                Focus::TabBar => tabbar_post(o, n, k, e),
                _ => e is Nothing && n == o,
            }
        },
    }
}

/// Room for every step a key can take: scroll offsets below their largest step, and a
/// tab id left for a new tab.
pub open spec fn has_room_for_keys(a: App) -> bool {
    &&& room_to_scroll(a)
    &&& room_to_scroll_chat(a)
    &&& a.tabs.spec_next_id() < usize::MAX
}

impl App {
    /// Whether every step a key can take fits the machine's integers, as
    /// `has_room_for_keys` says.
    pub fn has_room(&self) -> (b: bool)
        requires
            self.wf(),
        ensures
            b == has_room_for_keys(*self),
    {
        let s = self.scroll_offset();
        s <= usize::MAX - 30 && self.chat_scroll <= usize::MAX - 5 && self.tabs.ids_left()
    }

    /// Carry out a shortcut, as `command_post` says.
    #[verifier::rlimit(60)]
    pub fn run_command(&mut self, c: Command) -> (e: Effect)
        requires
            old(self).wf(),
            old(self).tabs.spec_next_id() < usize::MAX,
        ensures
            final(self).wf(),
            command_post(*old(self), *final(self), c, e),
    {
        proof {
            reveal(command_post);
        }
        proof {
            self.tabs.lemma_wf();
        }
        match c {
            Command::Quit => {
                self.quit();
                Effect::Nothing
            },
            Command::Help => {
                self.panel_mode = PanelMode::Help;
                Effect::Nothing
            },
            Command::FocusNext => {
                self.focus_next();
                Effect::Nothing
            },
            Command::FocusPrevious => {
                self.focus_previous();
                Effect::Nothing
            },
            Command::OpenUrlBar => {
                self.focus = Focus::URLBar;
                self.url_input = String::new();
                self.update_status();
                Effect::Nothing
            },
            Command::NewTab | Command::CloseTab | Command::GoToTab(_) | Command::PrevTab
            | Command::NextTab => self.run_tab_command(c),
            Command::OpenBookmarks => {
                self.panel_mode = PanelMode::Bookmarks;
                self.bookmarks_selected = 0;
                Effect::RefreshBookmarks
            },
            Command::OpenHistory => {
                self.panel_mode = PanelMode::History;
                self.history_selected = 0;
                Effect::RefreshHistory
            },
            Command::ToggleBookmark => {
                if !self.has_db {
                    self.status_message = owned("Database not available");
                    return Effect::Nothing;
                }
                let found = match self.current_page() {
                    Some(p) => Some((p.url.clone(), p.title.clone())),
                    None => None,
                };
                match found {
                    Some((url, title)) => Effect::ToggleBookmark { url, title },
                    None => {
                        self.status_message = owned("No page to bookmark");
                        Effect::Nothing
                    },
                }
            },
            Command::FocusChat => {
                self.chat_focused = true;
                self.status_message = owned("Chat - type message, Esc to exit");
                Effect::Nothing
            },
            Command::OpenSettings => {
                self.panel_mode = PanelMode::Settings;
                Effect::Nothing
            },
            Command::OpenRag => {
                self.panel_mode = PanelMode::Rag;
                self.status_message = owned("RAG Panel - Enter query, Esc to close");
                Effect::Nothing
            },
            Command::OpenMemory => {
                self.panel_mode = PanelMode::Memory;
                self.status_message = owned("Memory Panel - Viewing mem-layer graph");
                Effect::RefreshMemory { report: false }
            },
            Command::FocusLinks => {
                self.focus = Focus::Sidebar;
                self.chat_focused = false;
                self.status_message = owned("Links - j/k navigate, Enter follow");
                Effect::Nothing
            },
            Command::FocusContent => {
                self.focus = Focus::Content;
                self.chat_focused = false;
                self.status_message = owned("Content - j/k scroll, / search");
                Effect::Nothing
            },
            Command::Consumed => Effect::Nothing,
            Command::PassOn => Effect::Nothing,
        }
    }

    /// Carry out a shortcut on the tabs, as `command_post` says.
    #[verifier::rlimit(40)]
    fn run_tab_command(&mut self, c: Command) -> (e: Effect)
        requires
            old(self).wf(),
            old(self).tabs.spec_next_id() < usize::MAX,
            c is NewTab || c is CloseTab || c is GoToTab || c is PrevTab || c is NextTab,
        ensures
            final(self).wf(),
            command_post(*old(self), *final(self), c, e),
    {
        proof {
            reveal(command_post);
        }
        proof {
            self.tabs.lemma_wf();
        }
        match c {
            Command::NewTab => {
                if self.tabs.new_tab(None).is_some() {
                    let n = self.tabs.count();
                    self.status_message = concat3("New tab ", usize_to_string(n).as_str(), " created");
                } else {
                    self.status_message = owned("Max tabs reached (9)");
                }
                Effect::Nothing
            },
            Command::CloseTab => {
                if self.tabs.count() > 1 {
                    self.tabs.close_current_tab();
                    self.status_message = owned("Tab closed");
                } else {
                    self.status_message = owned("Can't close last tab");
                }
                Effect::Nothing
            },
            Command::GoToTab(num) => {
                self.tabs.go_to_tab(num);
                self.status_message = concat2("Switched to tab ", usize_to_string(num).as_str());
                Effect::Nothing
            },
            Command::PrevTab => {
                self.tabs.prev_tab();
                self.status_message = self.tab_position();
                Effect::Nothing
            },
            Command::NextTab => {
                self.tabs.next_tab();
                self.status_message = self.tab_position();
                Effect::Nothing
            },
            _ => Effect::Nothing,
        }
    }

    fn tab_position(&self) -> (s: String)
        requires
            self.tabs.wf(),
        ensures
            s@ == tab_position_status(self.tabs),
    {
        proof {
            self.tabs.lemma_wf();
        }
        let mut s = owned("Tab ");
        s.append(usize_to_string(self.tabs.active_index() + 1).as_str());
        s.append("/");
        s.append(usize_to_string(self.tabs.count()).as_str());
        s
    }

    /// Handle a key press, as `key_post` says; the caller performs the effect returned.
    pub fn handle_key(&mut self, key: KeyEvent) -> (e: Effect)
        requires
            old(self).wf(),
            has_room_for_keys(*old(self)),
        ensures
            final(self).wf(),
            key_post(*old(self), *final(self), key, e),
    {
        match self.panel_mode {
            PanelMode::Bookmarks => return self.handle_bookmarks_keys(key),
            PanelMode::History => return self.handle_history_keys(key),
            PanelMode::Help => {
                self.panel_mode = PanelMode::Closed;
                return Effect::Nothing;
            },
            PanelMode::Settings => return self.handle_settings_keys(key),
            PanelMode::Rag => return self.handle_rag_keys(key),
            PanelMode::Memory => return self.handle_memory_keys(key),
            _ => {},
        }
        if self.chat_focused {
            if key.code == KeyCode::Esc {
                self.chat_focused = false;
                self.status_message = owned("Content mode - 'c' for chat, '/' for URL");
                return Effect::Nothing;
            }
            if !(key.code == KeyCode::Tab || key.code == KeyCode::BackTab) {
                return self.handle_chat_keys(key);
            }
        }
        let c = command_for(self.focus, key);
        if c != Command::PassOn {
            return self.run_command(c);
        }
        match self.focus {
            Focus::Content => self.handle_content_keys(key),
            Focus::Sidebar => self.handle_sidebar_keys(key),
            Focus::URLBar => self.handle_urlbar_keys(key),
            Focus::TabBar => self.handle_tab_bar_keys(key),
            _ => Effect::Nothing,
        }
    }
}


/// The indicator moved to state `st`: its frame restarts unless it was already there.
pub open spec fn mascot_set(o: Mascot, n: Mascot, st: CompanionState) -> bool {
    &&& n.spec_state() == st
    &&& n.spec_frame() == if o.spec_state() == st { o.spec_frame() } else { 0 }
}

/// `i` is the first tab with id `id`.
pub open spec fn first_with_id(ts: Seq<Tab>, id: usize, i: int) -> bool {
    &&& 0 <= i < ts.len()
    &&& ts[i].id == id
    &&& forall|j: int| 0 <= j < i ==> ts[j].id != id
}

/// No tab has id `id`.
pub open spec fn no_tab_with_id(ts: Seq<Tab>, id: usize) -> bool {
    forall|j: int| 0 <= j < ts.len() ==> ts[j].id != id
}

/// The tab at `i` alone changed into `t`.
pub open spec fn tab_replaced(o: TabManager, n: TabManager, i: int, t: Tab) -> bool {
    &&& n.spec_tabs() == o.spec_tabs().update(i, t)
    &&& n.spec_active() == o.spec_active()
    &&& n.spec_next_id() == o.spec_next_id()
    &&& n.spec_max_tabs() == o.spec_max_tabs()
}

/// `t1` is `t0` showing `page`.
pub open spec fn showing(t0: Tab, t1: Tab, page: Page) -> bool {
    &&& t1.title@ == page.title@
    &&& t1.url@ == page.url@
    &&& t1.page == Some(page)
    &&& !t1.loading
    &&& t1.error is None
    &&& t1.scroll_offset == 0
    &&& t1.sidebar_selected == 0
    &&& t1.id == t0.id
    &&& t1.render_mode == t0.render_mode
    &&& t1.history == t0.history
}

/// `t1` is `t0` showing the error `err`.
pub open spec fn failed(t0: Tab, t1: Tab, err: String) -> bool {
    t1 == (Tab { loading: false, error: Some(err), ..t0 })
}

/// The active tab's offset after an assistant's scroll.
pub open spec fn tool_scroll(cur: usize, direction: Seq<char>, amount: usize) -> usize {
    if direction == "up"@ {
        sat_sub(cur as int, amount as int) as usize
    } else if direction == "down"@ {
        (cur + amount) as usize
    } else if direction == "top"@ {
        0
    } else if direction == "bottom"@ {
        (usize::MAX / 2) as usize
    } else {
        cur
    }
}

/// What a message from background work does. A loaded page goes to the tab that asked
/// for it (and into the history database); an error is shown on that tab; summaries,
/// chat answers and research results land in their places; the assistant's tool
/// actions navigate, follow a link or scroll.
#[verifier::opaque]
pub open spec fn message_post(o: App, n: App, msg: AppMessage, e: Effect) -> bool {
    let ts = o.tabs.spec_tabs();
    match msg {
        AppMessage::PageLoaded(id, page) => if no_tab_with_id(ts, id) {
            e is Nothing && n == (App { ai_summary: None, ..o })
        } else {
            exists|i: int| #[trigger] first_with_id(ts, id, i) && {
                let t1 = n.tabs.spec_tabs()[i];
                &&& tab_replaced(o.tabs, n.tabs, i, t1)
                &&& showing(ts[i], t1, page)
                &&& mascot_set(o.mascot, n.mascot, CompanionState::Success)
                &&& n.status_message@ == "Loaded: "@ + page.url@
                &&& n == (App {
                    tabs: n.tabs,
                    mascot: n.mascot,
                    status_message: n.status_message,
                    ai_summary: None,
                    ..o
                })
                &&& if o.has_db {
                    e matches Effect::RecordVisit { url, title } && url@ == page.url@ && title@
                        == page.title@
                } else {
                    e is Nothing
                }
            }
        },
        AppMessage::LoadError(id, err) => e is Nothing && if no_tab_with_id(ts, id) {
            n == o
        } else {
            exists|i: int| #[trigger] first_with_id(ts, id, i) && {
                let t1 = n.tabs.spec_tabs()[i];
                &&& tab_replaced(o.tabs, n.tabs, i, t1)
                &&& failed(ts[i], t1, err)
                &&& mascot_set(o.mascot, n.mascot, CompanionState::Error)
                &&& n.status_message@ == "Error: "@ + err@
                &&& n == (App { tabs: n.tabs, mascot: n.mascot, status_message: n.status_message, ..o })
            }
        },
        AppMessage::AiSummary(summary) => {
            &&& e is Nothing
            &&& n == (App { ai_summary: Some(summary), mascot: n.mascot, status_message: n.status_message, ..o })
            &&& mascot_set(o.mascot, n.mascot, CompanionState::Success)
            &&& n.status_message@ == "AI summary ready"@
        },
        AppMessage::AiError(err) => {
            &&& e is Nothing
            &&& mascot_set(o.mascot, n.mascot, CompanionState::Error)
            &&& n.status_message@ == "AI error: "@ + err@
            &&& match o.chat_session {
                Some(cs) => {
                    &&& n.chat_session matches Some(ns) && entries(ns.messages@) == entries(cs.messages@).push(
                        (Role::Assistant, "[!] Error: "@ + err@),
                    ) && ns.model == cs.model && ns.available_models == cs.available_models
                    &&& n == (App {
                        mascot: n.mascot,
                        status_message: n.status_message,
                        chat_session: n.chat_session,
                        chat_scroll: 0,
                        ..o
                    })
                },
                None => n == (App { mascot: n.mascot, status_message: n.status_message, ..o }),
            }
        },
        AppMessage::ChatResponse(response) => e is Nothing && match o.chat_session {
            Some(cs) => {
                &&& n.chat_session matches Some(ns) && entries(ns.messages@) == entries(cs.messages@).push(
                    (Role::Assistant, response@),
                ) && ns.model == cs.model && ns.available_models == cs.available_models
                &&& mascot_set(o.mascot, n.mascot, CompanionState::Success)
                &&& n.status_message@ == "Response received"@
                &&& n == (App {
                    mascot: n.mascot,
                    status_message: n.status_message,
                    chat_session: n.chat_session,
                    chat_scroll: 0,
                    ..o
                })
            },
            None => n == o,
        },
        AppMessage::ToolAction(ToolAction::Navigate(url)) => exists|mid: App| #[trigger] navigation(
            App { url_input: url, ..o },
            mid,
            true,
            e,
        ) && mid.wf() && n == (App { status_message: n.status_message, ..mid })
            && n.status_message@ == "AI navigated to URL"@,
        AppMessage::ToolAction(ToolAction::FollowLink(idx)) => match o.active().page {
            Some(p) => if idx < p.links@.len() {
                exists|mid: App| #[trigger] navigation(App { url_input: p.links@[idx as int].url, ..o }, mid, true, e)
                    && mid.wf() && n == (App { status_message: n.status_message, ..mid })
                    && n.status_message@ == "AI followed link "@ + decimal((idx + 1) as nat)
            } else {
                e is Nothing && n == o
            },
            None => e is Nothing && n == o,
        },
        AppMessage::ToolAction(ToolAction::Scroll { direction, amount }) => {
            &&& e is Nothing
            &&& active_replaced(o.tabs, n.tabs, Tab {
                scroll_offset: tool_scroll(o.active().scroll_offset, direction@, amount),
                ..o.active()
            })
            &&& n == (App { tabs: n.tabs, status_message: n.status_message, ..o })
            &&& n.status_message@ == "AI scrolled "@ + direction@
        },
        AppMessage::RagResponse(results) => {
            &&& e is Nothing
            &&& n == (App {
                rag_loading: false,
                rag_results: results,
                rag_scroll: 0,
                mascot: n.mascot,
                status_message: n.status_message,
                ..o
            })
            &&& mascot_set(o.mascot, n.mascot, CompanionState::Success)
            &&& n.status_message@ == "RAG: "@ + decimal(results@.len()) + " results"@
        },
        AppMessage::RagError(err) => {
            &&& e is Nothing
            &&& n == (App {
                rag_loading: false,
                rag_results: n.rag_results,
                mascot: n.mascot,
                status_message: n.status_message,
                ..o
            })
            &&& views(n.rag_results@) == seq!["Error: "@ + err@]
            &&& mascot_set(o.mascot, n.mascot, CompanionState::Error)
            &&& n.status_message@ == "RAG error: "@ + err@
        },
    }
}

/// A message whose handling stays within the machine's integers: an assistant's scroll
/// down fits the offset.
pub open spec fn message_fits(a: App, msg: AppMessage) -> bool {
    match msg {
        AppMessage::ToolAction(ToolAction::Scroll { direction, amount }) => direction@ == "down"@
            ==> a.active().scroll_offset + amount <= usize::MAX,
        _ => true,
    }
}

impl App {
    /// The first tab with id `id`, if any.
    fn find_tab(&self, id: usize) -> (r: Option<usize>)
        ensures
            match r {
                Some(i) => first_with_id(self.tabs.spec_tabs(), id, i as int),
                None => no_tab_with_id(self.tabs.spec_tabs(), id),
            },
    {
        let n = self.tabs.count();
        let mut i: usize = 0;
        while i < n
            invariant
                i <= n,
                n == self.tabs.spec_tabs().len(),
                forall|j: int| 0 <= j < i ==> self.tabs.spec_tabs()[j].id != id,
            decreases n - i,
        {
            let found = match self.tabs.get_tab(i) {
                Some(t) => t.id == id,
                None => false,
            };
            if found {
                return Some(i);
            }
            i = i + 1;
        }
        None
    }

    /// Whether handling `msg` stays within the machine's integers, as `message_fits` says.
    pub fn fits_message(&self, msg: &AppMessage) -> (b: bool)
        requires
            self.wf(),
        ensures
            b == message_fits(*self, *msg),
    {
        match msg {
            AppMessage::ToolAction(ToolAction::Scroll { direction, amount }) => {
                proof {
                    reveal_strlit("down");
                }
                if crate::text::str_eq(direction.as_str(), "down") {
                    self.scroll_offset() <= usize::MAX - *amount
                } else {
                    true
                }
            },
            _ => true,
        }
    }

    /// Handle a message from background work, as `message_post` says; the caller
    /// performs the effect returned.
    pub fn handle_message(&mut self, msg: AppMessage) -> (e: Effect)
        requires
            old(self).wf(),
            message_fits(*old(self), msg),
        ensures
            final(self).wf(),
            message_post(*old(self), *final(self), msg, e),
    {
        match msg {
            AppMessage::PageLoaded(tab_id, page) => self.on_page_loaded(tab_id, page),
            AppMessage::LoadError(tab_id, err) => self.on_load_error(tab_id, err),
            AppMessage::ToolAction(action) => self.on_tool_action(action),
            other => self.on_reply(other),
        }
    }

    #[verifier::rlimit(50)]
    fn on_page_loaded(&mut self, tab_id: usize, page: Page) -> (e: Effect)
        requires
            old(self).wf(),
        ensures
            final(self).wf(),
            message_post(*old(self), *final(self), AppMessage::PageLoaded(tab_id, page), e),
    {
        proof {
            reveal(message_post);
            self.tabs.lemma_wf();
        }
        let ghost pg = page;
        let found = self.find_tab(tab_id);
        self.ai_summary = None;
        match found {
            Some(i) => {
                let effect = if self.has_db {
                    Effect::RecordVisit { url: page.url.clone(), title: page.title.clone() }
                } else {
                    Effect::Nothing
                };
                let msg_text = concat2("Loaded: ", page.url.as_str());
                let ghost before = self.tabs;
                match self.tabs.get_tab_mut(i) {
                    Some(t) => t.set_page(page),
                    None => {},
                }
                proof {
                    before.lemma_wf_update(&self.tabs, i as int, self.tabs.spec_tabs()[i as int]);
                }
                self.mascot.set_state(CompanionState::Success);
                self.status_message = msg_text;
                assert(first_with_id(old(self).tabs.spec_tabs(), tab_id, i as int));
                effect
            },
            None => Effect::Nothing,
        }
    }

    #[verifier::rlimit(50)]
    fn on_load_error(&mut self, tab_id: usize, err: String) -> (e: Effect)
        requires
            old(self).wf(),
        ensures
            final(self).wf(),
            message_post(*old(self), *final(self), AppMessage::LoadError(tab_id, err), e),
    {
        proof {
            reveal(message_post);
            self.tabs.lemma_wf();
        }
        match self.find_tab(tab_id) {
            Some(i) => {
                let msg_text = concat2("Error: ", err.as_str());
                let ghost before = self.tabs;
                match self.tabs.get_tab_mut(i) {
                    Some(t) => t.set_error(err),
                    None => {},
                }
                proof {
                    before.lemma_wf_update(&self.tabs, i as int, self.tabs.spec_tabs()[i as int]);
                }
                self.mascot.set_state(CompanionState::Error);
                self.status_message = msg_text;
                assert(first_with_id(old(self).tabs.spec_tabs(), tab_id, i as int));
            },
            None => {},
        }
        Effect::Nothing
    }

    fn on_tool_action(&mut self, action: ToolAction) -> (e: Effect)
        requires
            old(self).wf(),
            message_fits(*old(self), AppMessage::ToolAction(action)),
        ensures
            final(self).wf(),
            message_post(*old(self), *final(self), AppMessage::ToolAction(action), e),
    {
        match action {
            ToolAction::Navigate(url) => self.tool_navigate(url),
            ToolAction::FollowLink(idx) => self.tool_follow_link(idx),
            ToolAction::Scroll { direction, amount } => self.tool_scroll(direction, amount),
        }
    }

    fn tool_navigate(&mut self, url: String) -> (e: Effect)
        requires
            old(self).wf(),
        ensures
            final(self).wf(),
            message_post(*old(self), *final(self), AppMessage::ToolAction(ToolAction::Navigate(url)), e),
    {
        proof {
            reveal(message_post);
        }
        let ghost u = url;
        self.url_input = url;
        let e = self.begin_navigation(true);
        let ghost mid = *self;
        self.status_message = owned("AI navigated to URL");
        assert(mid.wf());
        assert(navigation(App { url_input: u, ..*old(self) }, mid, true, e));
        e
    }

    fn tool_follow_link(&mut self, idx: usize) -> (e: Effect)
        requires
            old(self).wf(),
        ensures
            final(self).wf(),
            message_post(*old(self), *final(self), AppMessage::ToolAction(ToolAction::FollowLink(idx)), e),
    {
        proof {
            reveal(message_post);
            self.tabs.lemma_wf();
        }
        let url = match self.current_page() {
            Some(p) => if idx < p.links.len() {
                Some(p.links[idx].url.clone())
            } else {
                None
            },
            None => None,
        };
        match url {
            Some(u) => {
                self.url_input = u;
                let e = self.begin_navigation(true);
                let ghost mid = *self;
                self.status_message = concat2("AI followed link ", usize_to_string(idx + 1).as_str());
                assert(mid.wf());
                e
            },
            None => Effect::Nothing,
        }
    }

    fn tool_scroll(&mut self, direction: String, amount: usize) -> (e: Effect)
        requires
            old(self).wf(),
            message_fits(*old(self), AppMessage::ToolAction(ToolAction::Scroll { direction, amount })),
        ensures
            final(self).wf(),
            message_post(
                *old(self),
                *final(self),
                AppMessage::ToolAction(ToolAction::Scroll { direction, amount }),
                e,
            ),
    {
        proof {
            reveal(message_post);
            self.tabs.lemma_wf();
        }
        let cur = self.scroll_offset();
        proof {
            reveal_strlit("up");
            reveal_strlit("down");
            reveal_strlit("top");
            reveal_strlit("bottom");
        }
        let d = direction.as_str();
        let v = if crate::text::str_eq(d, "up") {
            cur.saturating_sub(amount)
        } else if crate::text::str_eq(d, "down") {
            cur + amount
        } else if crate::text::str_eq(d, "top") {
            0
        } else if crate::text::str_eq(d, "bottom") {
            usize::MAX / 2
        } else {
            cur
        };
        self.set_scroll_offset(v);
        self.status_message = concat2("AI scrolled ", d);
        Effect::Nothing
    }

    fn on_reply(&mut self, msg: AppMessage) -> (e: Effect)
        requires
            old(self).wf(),
            !(msg is PageLoaded || msg is LoadError || msg is ToolAction),
        ensures
            final(self).wf(),
            message_post(*old(self), *final(self), msg, e),
    {
        if matches!(msg, AppMessage::RagResponse(_) | AppMessage::RagError(_)) {
            self.on_rag_reply(msg)
        } else {
            self.on_ai_reply(msg)
        }
    }

    #[verifier::rlimit(50)]
    fn on_ai_reply(&mut self, msg: AppMessage) -> (e: Effect)
        requires
            old(self).wf(),
            msg is AiSummary || msg is AiError || msg is ChatResponse,
        ensures
            final(self).wf(),
            message_post(*old(self), *final(self), msg, e),
    {
        proof {
            reveal(message_post);
        }
        match msg {
            AppMessage::AiSummary(summary) => {
                self.ai_summary = Some(summary);
                self.status_message = owned("AI summary ready");
                self.mascot.set_state(CompanionState::Success);
            },
            AppMessage::AiError(err) => {
                self.status_message = concat2("AI error: ", err.as_str());
                self.mascot.set_state(CompanionState::Error);
                match self.chat_session.take() {
                    Some(mut session) => {
                        session.add_assistant_message(concat2("[!] Error: ", err.as_str()));
                        self.chat_session = Some(session);
                        self.chat_scroll = 0;
                    },
                    None => {},
                }
            },
            AppMessage::ChatResponse(response) => {
                match self.chat_session.take() {
                    Some(mut session) => {
                        session.add_assistant_message(response);
                        self.chat_session = Some(session);
                        self.chat_scroll = 0;
                        self.mascot.set_state(CompanionState::Success);
                        self.status_message = owned("Response received");
                    },
                    None => {},
                }
            },
            _ => {},
        }
        Effect::Nothing
    }

    #[verifier::rlimit(50)]
    fn on_rag_reply(&mut self, msg: AppMessage) -> (e: Effect)
        requires
            old(self).wf(),
            msg is RagResponse || msg is RagError,
        ensures
            final(self).wf(),
            message_post(*old(self), *final(self), msg, e),
    {
        proof {
            reveal(message_post);
        }
        match msg {
            AppMessage::RagResponse(results) => {
                self.rag_loading = false;
                let n = results.len();
                self.rag_results = results;
                self.rag_scroll = 0;
                self.mascot.set_state(CompanionState::Success);
                self.status_message = concat3("RAG: ", usize_to_string(n).as_str(), " results");
            },
            AppMessage::RagError(err) => {
                self.rag_loading = false;
                let mut results: Vec<String> = Vec::new();
                results.push(concat2("Error: ", err.as_str()));
                proof {
                    assert(views(results@) =~= seq!["Error: "@ + err@]);
                }
                self.rag_results = results;
                self.mascot.set_state(CompanionState::Error);
                self.status_message = concat2("RAG error: ", err.as_str());
            },
            _ => {},
        }
        Effect::Nothing
    }
}


/// How toggling a bookmark went in the database.
#[derive(Debug, Clone, Copy, PartialEq, Eq, Structural)]
pub enum BookmarkOutcome {
    /// It was bookmarked and is removed
    Removed,
    /// It was not bookmarked and is added
    Added,
    /// The change itself failed
    Unchanged,
    /// Looking it up failed
    Failed,
}

impl App {
    /// Report how toggling a bookmark went.
    pub fn bookmark_toggled(&mut self, outcome: BookmarkOutcome)
        ensures
            match outcome {
                BookmarkOutcome::Removed => status_only(*old(self), *final(self), "Bookmark removed"@),
                BookmarkOutcome::Added => status_only(*old(self), *final(self), "Bookmarked!"@),
                BookmarkOutcome::Unchanged => *final(self) == *old(self),
                BookmarkOutcome::Failed => status_only(*old(self), *final(self), "Bookmark error"@),
            },
    {
        match outcome {
            BookmarkOutcome::Removed => self.status_message = owned("Bookmark removed"),
            BookmarkOutcome::Added => self.status_message = owned("Bookmarked!"),
            BookmarkOutcome::Unchanged => {},
            BookmarkOutcome::Failed => self.status_message = owned("Bookmark error"),
        }
    }

    /// Report a finished scrape: where it was saved, or why it failed.
    pub fn scrape_finished(&mut self, result: Result<String, String>)
        ensures
            match result {
                Ok(path) => status_only(*old(self), *final(self), "Scraped to "@ + path@),
                Err(err) => status_only(*old(self), *final(self), "Scrape error: "@ + err@),
            },
    {
        match result {
            Ok(path) => self.status_message = concat2("Scraped to ", path.as_str()),
            Err(err) => self.status_message = concat2("Scrape error: ", err.as_str()),
        }
    }

    /// Report the URL opened outside, or why opening failed.
    pub fn external_open_finished(&mut self, url: &str, error: Option<String>)
        ensures
            match error {
                None => status_only(*old(self), *final(self), "Opened in system viewer: "@ + url@),
                Some(err) => status_only(*old(self), *final(self), "Failed to open: "@ + err@),
            },
    {
        match error {
            None => self.status_message = concat2("Opened in system viewer: ", url),
            Some(err) => self.status_message = concat2("Failed to open: ", err.as_str()),
        }
    }

    /// Take the listed memory nodes: `None` when no memory client is available, else the
    /// listing's outcome. The nodes are kept on success and cleared otherwise; with
    /// `report`, the status line tells the outcome.
    pub fn memory_listed(&mut self, result: Option<Result<Vec<String>, String>>, report: bool)
        ensures
            final(self).memory_nodes@ == match result {
                Some(Ok(nodes)) => nodes@,
                _ => Seq::empty(),
            },
            *final(self) == (App {
                memory_nodes: final(self).memory_nodes,
                status_message: final(self).status_message,
                ..*old(self)
            }),
            !report ==> final(self).status_message == old(self).status_message,
            report ==> final(self).status_message@ == match result {
                Some(Ok(nodes)) => "Memory: "@ + decimal(nodes@.len()) + " nodes"@,
                Some(Err(err)) => "Memory error: "@ + err@,
                None => "mem-layer not available"@,
            },
    {
        let msg = match result {
            Some(Ok(nodes)) => {
                let m = concat3("Memory: ", usize_to_string(nodes.len()).as_str(), " nodes");
                self.memory_nodes = nodes;
                m
            },
            Some(Err(err)) => {
                self.memory_nodes = Vec::new();
                concat2("Memory error: ", err.as_str())
            },
            None => {
                self.memory_nodes = Vec::new();
                owned("mem-layer not available")
            },
        };
        if report {
            self.status_message = msg;
        }
    }
}

} // verus!
