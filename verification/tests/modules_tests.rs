use azul::browser::{Link, Page};
use azul::chat::{BrowserContext, ChatMessage, ChatSession, ToolCall};
use azul::ui::chat_panel::{chat_lines, ChatColors};
use azul::ui::color::Color;
use azul::rag::{get_context, parse_failed, RagClient, RagResponse, RagSource};
use azul::ui::view::{summary_block, truncate_to_width};

#[test]
fn rag_query_body_is_compact_json() {
    let c = RagClient::new("http://localhost:8000".to_string(), true);
    assert_eq!(
        c.query_request("say \"hi\"", Some(3)),
        Ok("{\"query\":\"say \\\"hi\\\"\",\"top_k\":3,\"use_graph\":true}".to_string())
    );
    assert_eq!(c.query_url(), "http://localhost:8000/query");
    let d = RagClient::new("http://x".to_string(), false);
    assert_eq!(d.query_request("q", None), Err("RAG service is not available. Check home-rag at http://x".to_string()));
}

#[test]
fn rag_context_prefers_the_text_field() {
    let r = RagResponse {
        answer: String::new(),
        sources: vec![
            RagSource { content: "c1".to_string(), text: Some("t1".to_string()) },
            RagSource { content: "c2".to_string(), text: None },
        ],
        query: "q".to_string(),
        metadata: "null".to_string(),
    };
    assert_eq!(get_context(&r), vec!["t1".to_string(), "c2".to_string()]);
    assert_eq!(parse_failed("bad", &"x".repeat(400)).len(), "Failed to parse RAG response: bad. Response: ".len() + 300);
}

#[test]
fn browser_context_json_and_links() {
    let mut c = BrowserContext::new();
    assert_eq!(c.get_links_text(), "No page loaded");
    assert_eq!(c.to_json(), "{\n  \"current_page\": null,\n  \"bookmarks_count\": 0,\n  \"history_count\": 0\n}");
    c.current_page = Some(Page {
        url: "u".to_string(),
        title: "T \"q\"".to_string(),
        content_lines: vec!["a".to_string()],
        raw_content: String::new(),
        links: vec![Link { text: "L".to_string(), url: "v".to_string() }],
    });
    assert_eq!(c.get_links_text(), "1. L -> v");
    let j = c.to_json();
    let v: serde_json::Value = serde_json::from_str(&j).unwrap();
    assert_eq!(v["current_page"]["title"], "T \"q\"");
    assert_eq!(v["current_page"]["links_count"], 1);
}

#[test]
fn chat_session_starts_with_the_system_prompt() {
    let mut s = ChatSession::new("m".to_string(), vec![]);
    assert_eq!(s.messages.len(), 1);
    s.add_user_message("hi".to_string());
    s.clear();
    assert_eq!(s.messages.len(), 1);
}

#[test]
fn width_helpers_use_display_width() {
    assert_eq!(truncate_to_width("hello world", 8), "hello...");
    assert_eq!(truncate_to_width("日本語", 6), "日本語");
    assert_eq!(summary_block("aaa bbb", 3), vec!["# AI Summary", "", "aaa", "bbb", "", "---", ""]);
}

#[test]
fn chat_panel_lays_out_messages_by_role() {
    let colors = ChatColors { prefix: Color::Blue, text: Color::White, tool: Color::Yellow, tool_result: Color::Gray };
    let mut assistant = ChatMessage::new_assistant("Hello **there**".to_string());
    assistant.tool_calls = Some(vec![ToolCall { name: "navigate".to_string(), arguments: "{}".to_string() }]);
    let messages = vec![
        ChatMessage::new_system("system prompt".to_string()),
        ChatMessage::new_user("hi".to_string()),
        assistant,
    ];
    let lines = chat_lines(&messages, 40, 80, colors);
    let text: Vec<String> = lines.iter().map(|l| l.spans.iter().map(|s| s.text.as_str()).collect()).collect();
    assert_eq!(text[0], "› hi");
    assert_eq!(lines[0].spans[0].style.fg, Some(Color::Blue));
    assert_eq!(text[1], "  ⚙ navigate");
    assert!(text[2].starts_with("  "));
    assert!(text[2..].iter().any(|t| t.contains("Hello") && t.contains("there")));
    assert!(!text.iter().any(|t| t.contains("system prompt")));
}

#[test]
fn test_rag_client_creation() {
    let client = RagClient::new("http://localhost:8000".to_string(), false);
    assert_eq!(client.base_url(), "http://localhost:8000");
    assert!(!client.is_available());
    assert_eq!(client.health_url(), "http://localhost:8000/health");
}
