use azul::app::Focus;
use azul::ui::panes::{PaneContext, PaneManager, Rect, GAP_WIDTH};

fn context() -> PaneContext {
    PaneContext {
        focus: Focus::Content,
        chat_focused: false,
        hard_content: false,
    }
}

#[test]
fn default_layout_is_two_pane() {
    let panes = PaneManager::new(26);
    let layout = panes.layout(Rect::new(0, 0, 120, 40), context());

    assert!(layout.assistant.is_none());
    assert_eq!(layout.sidebar.unwrap().width, 26);
    assert_eq!(layout.content.unwrap().width, 120 - 26 - GAP_WIDTH);
}

#[test]
fn focus_mode_shows_single_pane() {
    let mut panes = PaneManager::new(26);
    panes.focus_mode = true;

    let mut ctx = context();
    ctx.focus = Focus::Sidebar;
    let layout = panes.layout(Rect::new(0, 0, 120, 40), ctx);
    assert!(layout.content.is_none());
    assert!(layout.assistant.is_none());
    assert_eq!(layout.sidebar.unwrap().width, 120);
}

#[test]
fn assistant_auto_visibility_for_hard_content() {
    let panes = PaneManager::new(26);
    let mut ctx = context();
    ctx.hard_content = true;
    let layout = panes.layout(Rect::new(0, 0, 120, 40), ctx);
    assert!(layout.assistant.is_some());
}

#[test]
fn assistant_toggle_changes_visibility() {
    let mut panes = PaneManager::new(26);
    let ctx = context();
    assert!(!panes.assistant_visible(ctx));

    panes.show_chat();
    assert!(panes.assistant_visible(ctx));

    panes.hide_chat();
    assert!(!panes.assistant_visible(ctx));
}

#[test]
fn assistant_dismissed_blocks_auto_show() {
    let mut panes = PaneManager::new(26);
    panes.assistant_dismissed = true;

    let mut ctx = context();
    ctx.hard_content = true;
    assert!(!panes.assistant_visible(ctx));
}

#[test]
fn three_panes_tile_the_width() {
    let mut panes = PaneManager::new(26);
    panes.show_chat();
    let layout = panes.layout(Rect::new(0, 0, 120, 40), context());
    let s = layout.sidebar.unwrap();
    let c = layout.content.unwrap();
    let a = layout.assistant.unwrap();
    assert_eq!(s.x, 0);
    assert_eq!(s.x + s.width + GAP_WIDTH, c.x);
    assert_eq!(c.x + c.width + GAP_WIDTH, a.x);
    assert_eq!(a.x + a.width, 120);
}
