use azul::app::{App, KeyCode, KeyEvent, MOD_CONTROL};
use azul::assistant::{plan_tool_call, ToolContext, ToolPlan};
use azul::app::ToolAction;
use azul::config::Config;
use azul::fetch::{collect_links, Anchor};
use azul::search::{classify_query, EngineType, QueryTarget};
use azul::ui::markdown::parse_inline;

#[test]
fn link_shows_its_text_not_its_url() {
    let spans = parse_inline("See [Rust](https://rust-lang.org) now");
    let texts: Vec<&str> = spans.iter().map(|s| s.text.as_str()).collect();
    assert_eq!(texts, vec!["See ", "Rust", " now"]);
    assert!(spans[1].style.underlined);
    assert!(!spans[0].style.underlined);
}

#[test]
fn control_brackets_step_between_tabs() {
    let mut app = App::new(Config::default_config(), false, false);
    app.tabs.new_tab(None);
    app.tabs.new_tab(None);
    app.tabs.set_active(0);
    app.handle_key(KeyEvent { code: KeyCode::Char(']'), modifiers: MOD_CONTROL });
    assert_eq!(app.tabs.active_index(), 1);
    assert_eq!(app.status_message, "Tab 2/3");
    app.handle_key(KeyEvent { code: KeyCode::Char('['), modifiers: MOD_CONTROL });
    assert_eq!(app.tabs.active_index(), 0);
    app.handle_key(KeyEvent { code: KeyCode::Char('['), modifiers: MOD_CONTROL });
    assert_eq!(app.tabs.active_index(), 2);
    assert_eq!(app.status_message, "Tab 3/3");
}

#[test]
fn link_text_joins_all_text_pieces() {
    let anchors = vec![Anchor {
        href: "/docs".to_string(),
        texts: vec!["Read ".to_string(), "the docs".to_string()],
    }];
    let links = collect_links("https://example.com/", &anchors);
    assert_eq!(links.len(), 1);
    assert_eq!(links[0].text, "Read  the docs");
    assert_eq!(links[0].url, "https://example.com/docs");
}

#[test]
fn scroll_follows_the_requested_direction() {
    let ctx = ToolContext { title: String::new(), url: String::new(), content: String::new(), links: vec![] };
    match plan_tool_call("scroll", "{\"direction\":\"up\",\"amount\":10}", &ctx) {
        ToolPlan::Act(ToolAction::Scroll { direction, amount }, t) => {
            assert_eq!(direction, "up");
            assert_eq!(amount, 10);
            assert_eq!(t, "Scrolling up by 10 lines");
        }
        other => panic!("unexpected plan {:?}", other),
    }
    match plan_tool_call("scroll", "{}", &ctx) {
        ToolPlan::Act(ToolAction::Scroll { direction, amount }, _) => {
            assert_eq!(direction, "down");
            assert_eq!(amount, 5);
        }
        other => panic!("unexpected plan {:?}", other),
    }
}

#[test]
fn each_prefix_searches_its_engine() {
    assert_eq!(
        classify_query("p:cancer"),
        QueryTarget::Search { engine: EngineType::PubMed, query: "cancer".to_string() }
    );
    assert_eq!(
        classify_query("ol:dune"),
        QueryTarget::Search { engine: EngineType::OpenLibrary, query: "dune".to_string() }
    );
    assert_eq!(
        classify_query("g:rust"),
        QueryTarget::Search { engine: EngineType::DuckDuckGo, query: "rust".to_string() }
    );
}
