//! Pane layout: sidebar, content and assistant columns, with a focus mode.
use vstd::prelude::*;
use crate::app::Focus;

verus! {

/// Columns between neighbouring panes.
pub const GAP_WIDTH: u16 = 1;
/// Narrowest content column the layout keeps when it can.
pub const MIN_CONTENT_WIDTH: u16 = 32;
/// Narrowest sidebar the layout keeps when it can.
pub const MIN_SIDEBAR_WIDTH: u16 = 18;
/// Narrowest assistant column the layout keeps when it can.
pub const MIN_ASSISTANT_WIDTH: u16 = 24;

/// A screen rectangle.
#[derive(Debug, Clone, Copy, PartialEq, Eq, Structural)]
pub struct Rect {
    pub x: u16,
    pub y: u16,
    pub width: u16,
    pub height: u16,
}

impl Rect {
    /// A rectangle from its corner and size.
    pub fn new(x: u16, y: u16, width: u16, height: u16) -> (r: Rect)
        ensures
            r == (Rect { x, y, width, height }),
    {
        Rect { x, y, width, height }
    }

    /// Panes laid out from this rectangle stay on the screen's coordinate range: its right
    /// edge does, and so do the two gap columns that even a narrower area lays out.
    pub open spec fn fits(self) -> bool {
        self.x + (if self.width >= 2 { self.width as int } else { 2 }) <= u16::MAX
    }
}

/// What the layout depends on besides the pane settings.
#[derive(Debug, Clone, Copy)]
pub struct PaneContext {
    pub focus: Focus,
    pub chat_focused: bool,
    pub hard_content: bool,
}

/// Where each pane goes; `None` for a hidden pane.
#[derive(Debug, Clone, Copy, PartialEq, Eq)]
pub struct PaneLayout {
    pub sidebar: Option<Rect>,
    pub content: Option<Rect>,
    pub assistant: Option<Rect>,
}

/// Pane settings.
#[derive(Debug, Clone)]
pub struct PaneManager {
    pub sidebar_width: u16,
    pub focus_mode: bool,
    pub chat_visible: bool,
    pub assistant_dismissed: bool,
}

pub open spec fn sat_sub(a: int, b: int) -> int {
    if a >= b { a - b } else { 0 }
}

/// Clamp a requested pane width so that `min_content` columns stay for the rest when
/// possible, the pane keeps at least one column, and at least `min_pane` when room allows.
pub open spec fn clamp_width(requested: int, available: int, min_content: int, min_pane: int) -> int {
    if available == 0 {
        0
    } else {
        let max_w = if sat_sub(available, min_content) >= 1 { sat_sub(available, min_content) } else { 1 };
        let min_w = if min_pane <= max_w { min_pane } else { max_w };
        if requested < min_w {
            min_w
        } else if requested > max_w {
            max_w
        } else {
            requested
        }
    }
}

/// The preferred assistant width: 28% of the area, rounded to the nearest column.
pub open spec fn assistant_share(width: int) -> int {
    (width * 28 + 50) / 100
}

pub open spec fn column(area: Rect, x: int, width: int) -> Rect {
    Rect { x: x as u16, y: area.y, width: width as u16, height: area.height }
}

/// Sidebar and content side by side.
pub open spec fn two_pane(area: Rect, sidebar_width: int) -> PaneLayout {
    let available = sat_sub(area.width as int, 1);
    let s = clamp_width(sidebar_width, available, 32, 18);
    PaneLayout {
        sidebar: Some(column(area, area.x as int, s)),
        content: Some(column(area, area.x + s + 1, sat_sub(area.width as int, s + 1))),
        assistant: None,
    }
}

/// Sidebar, content and assistant side by side.
pub open spec fn three_pane(area: Rect, sidebar_width: int) -> PaneLayout {
    let available = sat_sub(area.width as int, 2);
    let s = clamp_width(sidebar_width, available, 56, 18);
    let remaining = sat_sub(available, s);
    let a = clamp_width(assistant_share(area.width as int), remaining, 32, 24);
    let c = sat_sub(remaining, a);
    PaneLayout {
        sidebar: Some(column(area, area.x as int, s)),
        content: Some(column(area, area.x + s + 1, c)),
        assistant: Some(column(area, area.x + s + 1 + c + 1, a)),
    }
}

/// One pane over the whole area: the assistant when it is shown and has the focus,
/// else the sidebar when it has the focus, else the content.
pub open spec fn focused(area: Rect, ctx: PaneContext, assistant_visible: bool) -> PaneLayout {
    let show_assistant = assistant_visible && ctx.chat_focused;
    let show_sidebar = !show_assistant && ctx.focus == Focus::Sidebar;
    let show_content = !show_assistant && !show_sidebar;
    PaneLayout {
        sidebar: if show_sidebar { Some(area) } else { None },
        content: if show_content { Some(area) } else { None },
        assistant: if show_assistant { Some(area) } else { None },
    }
}

impl PaneManager {
    /// The assistant shows when asked for or focused, or on hard content unless dismissed.
    pub open spec fn spec_assistant_visible(&self, ctx: PaneContext) -> bool {
        self.chat_visible || ctx.chat_focused || (ctx.hard_content && !self.assistant_dismissed)
    }

    /// The layout for an area.
    pub open spec fn spec_layout(&self, area: Rect, ctx: PaneContext) -> PaneLayout {
        if self.focus_mode {
            focused(area, ctx, self.spec_assistant_visible(ctx))
        } else if self.spec_assistant_visible(ctx) {
            three_pane(area, self.sidebar_width as int)
        } else {
            two_pane(area, self.sidebar_width as int)
        }
    }

    /// Panes with the given sidebar width, no focus mode, assistant hidden.
    pub fn new(sidebar_width: u16) -> (p: PaneManager)
        ensures
            p.sidebar_width == sidebar_width,
            !p.focus_mode,
            !p.chat_visible,
            !p.assistant_dismissed,
    {
        PaneManager { sidebar_width, focus_mode: false, chat_visible: false, assistant_dismissed: false }
    }

    /// Whether the assistant column is shown.
    pub fn assistant_visible(&self, context: PaneContext) -> (b: bool)
        ensures
            b == self.spec_assistant_visible(context),
    {
        if self.chat_visible || context.chat_focused {
            return true;
        }
        context.hard_content && !self.assistant_dismissed
    }

    /// Show the assistant, undoing a dismissal.
    pub fn show_chat(&mut self)
        ensures
            *final(self) == (PaneManager {
                chat_visible: true,
                assistant_dismissed: false,
                ..*old(self)
            }),
    {
        self.chat_visible = true;
        self.assistant_dismissed = false;
    }

    /// Hide the assistant and keep it from showing by itself.
    pub fn hide_chat(&mut self)
        ensures
            *final(self) == (PaneManager {
                chat_visible: false,
                assistant_dismissed: true,
                ..*old(self)
            }),
    {
        self.chat_visible = false;
        self.assistant_dismissed = true;
    }

    /// Let the assistant show by itself again.
    pub fn clear_auto_dismiss(&mut self)
        ensures
            *final(self) == (PaneManager { assistant_dismissed: false, ..*old(self) }),
    {
        self.assistant_dismissed = false;
    }

    /// Switch focus mode on or off.
    pub fn toggle_focus_mode(&mut self)
        ensures
            *final(self) == (PaneManager { focus_mode: !old(self).focus_mode, ..*old(self) }),
    {
        self.focus_mode = !self.focus_mode;
    }

    /// Lay the panes out over `area`.
    pub fn layout(&self, area: Rect, context: PaneContext) -> (l: PaneLayout)
        requires
            area.fits(),
        ensures
            l == self.spec_layout(area, context),
    {
        let assistant_visible = self.assistant_visible(context);
        if self.focus_mode {
            return self.focused_layout(area, context, assistant_visible);
        }
        if assistant_visible {
            self.three_pane_layout(area)
        } else {
            self.two_pane_layout(area)
        }
    }

    fn focused_layout(&self, area: Rect, context: PaneContext, assistant_visible: bool) -> (l: PaneLayout)
        ensures
            l == focused(area, context, assistant_visible),
    {
        let show_assistant = assistant_visible && context.chat_focused;
        let show_sidebar = !show_assistant && context.focus == Focus::Sidebar;
        let show_content = !show_assistant && !show_sidebar;
        PaneLayout {
            sidebar: if show_sidebar { Some(area) } else { None },
            content: if show_content { Some(area) } else { None },
            assistant: if show_assistant { Some(area) } else { None },
        }
    }

    fn two_pane_layout(&self, area: Rect) -> (l: PaneLayout)
        requires
            area.fits(),
        ensures
            l == two_pane(area, self.sidebar_width as int),
    {
        let available = area.width.saturating_sub(GAP_WIDTH);
        let sidebar_width = clamp_sidebar_width(self.sidebar_width, available, MIN_CONTENT_WIDTH);
        let sidebar = Rect { x: area.x, y: area.y, width: sidebar_width, height: area.height };
        let content_x = area.x + sidebar_width + GAP_WIDTH;
        let content_width = area.width.saturating_sub(sidebar_width + GAP_WIDTH);
        let content = Rect { x: content_x, y: area.y, width: content_width, height: area.height };
        PaneLayout { sidebar: Some(sidebar), content: Some(content), assistant: None }
    }

    fn three_pane_layout(&self, area: Rect) -> (l: PaneLayout)
        requires
            area.fits(),
        ensures
            l == three_pane(area, self.sidebar_width as int),
    {
        let available = area.width.saturating_sub(GAP_WIDTH * 2);
        let sidebar_width = clamp_sidebar_width(
            self.sidebar_width,
            available,
            MIN_CONTENT_WIDTH + MIN_ASSISTANT_WIDTH,
        );
        let remaining = available.saturating_sub(sidebar_width);
        let preferred_assistant = assistant_preferred(area.width);
        let assistant_width = clamp_assistant_width(preferred_assistant, remaining, MIN_CONTENT_WIDTH);
        let content_width = remaining.saturating_sub(assistant_width);
        let sidebar = Rect { x: area.x, y: area.y, width: sidebar_width, height: area.height };
        let content_x = area.x + sidebar_width + GAP_WIDTH;
        let content = Rect { x: content_x, y: area.y, width: content_width, height: area.height };
        let assistant_x = content_x + content_width + GAP_WIDTH;
        let assistant = Rect { x: assistant_x, y: area.y, width: assistant_width, height: area.height };
        PaneLayout { sidebar: Some(sidebar), content: Some(content), assistant: Some(assistant) }
    }
}

/// 28% of a width, rounded to the nearest column.
fn assistant_preferred(width: u16) -> (w: u16)
    ensures
        w == assistant_share(width as int),
{
    let w32: u32 = width as u32;
    let r: u32 = (w32 * 28 + 50) / 100;
    r as u16
}

/// Sidebar width for the space available, leaving `min_content` columns when possible.
pub fn clamp_sidebar_width(requested: u16, available: u16, min_content: u16) -> (w: u16)
    ensures
        w == clamp_width(requested as int, available as int, min_content as int, 18),
        available > 0 ==> 1 <= w <= available,
{
    clamp_pane(requested, available, min_content, MIN_SIDEBAR_WIDTH)
}

/// Assistant width for the space available, leaving `min_content` columns when possible.
pub fn clamp_assistant_width(requested: u16, available: u16, min_content: u16) -> (w: u16)
    ensures
        w == clamp_width(requested as int, available as int, min_content as int, 24),
        available > 0 ==> 1 <= w <= available,
{
    clamp_pane(requested, available, min_content, MIN_ASSISTANT_WIDTH)
}

fn clamp_pane(requested: u16, available: u16, min_content: u16, min_pane: u16) -> (w: u16)
    requires
        min_pane >= 1,
    ensures
        w == clamp_width(requested as int, available as int, min_content as int, min_pane as int),
        available > 0 ==> 1 <= w <= available,
{
    if available == 0 {
        return 0;
    }
    let d = available.saturating_sub(min_content);
    let max_w = if d >= 1 { d } else { 1 };
    let min_w = if min_pane <= max_w { min_pane } else { max_w };
    if requested < min_w {
        min_w
    } else if requested > max_w {
        max_w
    } else {
        requested
    }
}

/// Every column of a laid-out area lies inside it, and neighbouring columns are one gap
/// apart: the sidebar starts at the area's left edge and each later pane starts one column
/// after the previous one ends.
pub proof fn law_panes_tile(pm: PaneManager, area: Rect, ctx: PaneContext)
    requires
        area.fits(),
        !pm.focus_mode,
        area.width >= 2,
    ensures
        ({
            let l = pm.spec_layout(area, ctx);
            &&& l.sidebar matches Some(s) && s.x == area.x
            &&& l.content matches Some(c) && l.sidebar matches Some(s) && c.x == s.x + s.width + 1
            &&& l.content matches Some(c) && c.x + c.width <= area.x + area.width
            &&& l.assistant matches Some(a) ==> (l.content matches Some(c) && a.x == c.x + c.width + 1
                && a.x + a.width <= area.x + area.width)
        }),
{
}

} // verus!

verus! {

/// Showing the assistant makes it visible whatever the context; hiding it keeps it hidden,
/// even beside content that would call it up by itself, unless the chat has the focus;
/// switching focus mode twice gives the panes back as they were.
pub proof fn law_show_hide_assistant(pm: PaneManager, ctx: PaneContext)
    ensures
        (PaneManager { chat_visible: true, assistant_dismissed: false, ..pm }).spec_assistant_visible(ctx),
        (PaneManager { chat_visible: false, assistant_dismissed: true, ..pm }).spec_assistant_visible(ctx)
            == ctx.chat_focused,
        (PaneManager { focus_mode: !(PaneManager { focus_mode: !pm.focus_mode, ..pm }).focus_mode,
            ..(PaneManager { focus_mode: !pm.focus_mode, ..pm }) }) == pm,
{
}

} // verus!
