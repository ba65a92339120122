use azul::app::{App, Effect, Focus, KeyCode, KeyEvent, MOD_NONE, MOD_SHIFT};
use azul::chat::{ChatSession, Role};
use azul::config::Config;
use azul::search::{EngineType, QueryTarget};

fn fresh_app() -> App {
    App::new(Config::default_config(), false, false)
}

fn key(code: KeyCode) -> KeyEvent {
    KeyEvent { code, modifiers: MOD_NONE }
}

#[test]
fn tab_cycles_content_chat_url() {
    let mut app = fresh_app();
    assert_eq!(app.focus, Focus::Content);
    assert!(!app.chat_focused);

    app.handle_key(key(KeyCode::Tab));
    assert!(app.chat_focused);
    assert_eq!(app.focus, Focus::Content);

    app.handle_key(key(KeyCode::Tab));
    assert!(!app.chat_focused);
    assert_eq!(app.focus, Focus::URLBar);

    app.handle_key(key(KeyCode::Tab));
    assert!(!app.chat_focused);
    assert_eq!(app.focus, Focus::Content);
}

#[test]
fn shift_tab_cycles_backwards() {
    let mut app = fresh_app();
    let back = KeyEvent { code: KeyCode::BackTab, modifiers: MOD_SHIFT };

    app.handle_key(back);
    assert_eq!(app.focus, Focus::URLBar);
    assert!(!app.chat_focused);

    app.handle_key(back);
    assert_eq!(app.focus, Focus::Content);
    assert!(app.chat_focused);

    app.handle_key(back);
    assert_eq!(app.focus, Focus::Content);
    assert!(!app.chat_focused);
}

#[test]
fn digit_follows_link_by_number() {
    let mut app = fresh_app();
    let e = app.handle_key(key(KeyCode::Char('4')));
    match e {
        Effect::Load(load) => {
            assert_eq!(load.target, QueryTarget::Url("https://arxiv.org".to_string()));
        }
        _ => panic!("expected a load"),
    }
    let tab = app.tabs.active_tab().unwrap();
    assert_eq!(tab.url, "https://arxiv.org");
    assert!(tab.loading);
}

#[test]
fn digit_without_link_does_nothing() {
    let mut app = fresh_app();
    let e = app.handle_key(key(KeyCode::Char('9')));
    assert!(matches!(e, Effect::Nothing));
    assert_eq!(app.tabs.active_tab().unwrap().url, "azul://home");
    assert!(!app.tabs.active_tab().unwrap().loading);
}

#[test]
fn clear_command_wipes_chat_history() {
    let mut app = fresh_app();
    let mut session = ChatSession::new("model".to_string(), vec!["model".to_string()]);
    session.add_user_message("hello".to_string());
    session.add_assistant_message("hi".to_string());
    app.chat_session = Some(session);
    app.chat_focused = true;
    for c in "/clear".chars() {
        app.handle_key(key(KeyCode::Char(c)));
    }
    assert_eq!(app.chat_input, "/clear");
    let e = app.handle_key(key(KeyCode::Enter));
    assert!(matches!(e, Effect::Nothing));
    assert_eq!(app.chat_input, "");
    let s = app.chat_session.as_ref().unwrap();
    assert_eq!(s.messages.len(), 1);
    assert_eq!(s.messages[0].role, Role::System);
}

#[test]
fn chat_message_is_sent() {
    let mut app = fresh_app();
    app.chat_session = Some(ChatSession::new("model".to_string(), vec!["model".to_string()]));
    app.chat_focused = true;
    app.handle_key(key(KeyCode::Char('h')));
    let e = app.handle_key(key(KeyCode::Enter));
    assert!(matches!(e, Effect::SendChat { .. }));
    assert_eq!(app.chat_session.as_ref().unwrap().messages.len(), 2);
}

#[test]
fn quit_and_escape_from_url_bar() {
    let mut app = fresh_app();
    app.handle_key(key(KeyCode::Char('/')));
    assert_eq!(app.focus, Focus::URLBar);
    app.handle_key(key(KeyCode::Char('q')));
    assert_eq!(app.url_input, "q");
    assert!(!app.should_quit);
    app.handle_key(key(KeyCode::Esc));
    assert_eq!(app.focus, Focus::Content);
    assert_eq!(app.tabs.active_tab().unwrap().url, "azul://home");
    app.handle_key(key(KeyCode::Char('q')));
    assert!(app.should_quit);
}

#[test]
fn plain_query_goes_to_duckduckgo() {
    let mut app = fresh_app();
    app.url_input = "rust programming".to_string();
    let e = app.handle_key(key(KeyCode::Char('/')));
    assert!(matches!(e, Effect::Nothing));
    for c in "rust programming".chars() {
        app.handle_key(key(KeyCode::Char(c)));
    }
    match app.handle_key(key(KeyCode::Enter)) {
        Effect::Load(load) => assert_eq!(
            load.target,
            QueryTarget::Search { engine: EngineType::DuckDuckGo, query: "rust programming".to_string() }
        ),
        _ => panic!("expected a search"),
    }
}
