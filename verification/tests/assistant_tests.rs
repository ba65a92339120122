use azul::app::ToolAction;
use azul::assistant::{
    all_models_failed, brave_reply, enhance_last_question, get_browser_tools, is_rate_limit, plain_chat_step,
    plan_tool_call, rag_context, rag_tool_reply, read_chat_response, research_results, research_step,
    search_reply, tool_reply, web_context, web_search_reply, ApiChoice, BraveHit, ChatApiResponse, ModelOutcome,
    RagHit, ResearchStep, SearchCall, ToolContext, ToolPlan, WebHit,
};
use azul::chat::{ChatMessage, Role};
use azul::assistant::{extract_browser_context, OpenAIChatMessage};

fn ctx() -> ToolContext {
    ToolContext {
        title: "T".to_string(),
        url: "https://t.example".to_string(),
        content: String::new(),
        links: vec![("One".to_string(), "https://one.example".to_string())],
    }
}

#[test]
fn eight_tools_are_offered_in_order() {
    let tools = get_browser_tools();
    let names: Vec<&str> = tools.iter().map(|t| t.function.name.as_str()).collect();
    assert_eq!(
        names,
        vec!["exa_search", "brave_search", "rag_query", "navigate", "follow_link", "scroll", "get_page_content", "list_links"]
    );
    assert!(tools.iter().all(|t| t.tool_type == "function"));
    for t in tools.iter() {
        let v: serde_json::Value = serde_json::from_str(&t.function.parameters).unwrap();
        assert_eq!(v["type"], "object");
    }
}

#[test]
fn search_calls_take_their_arguments_from_json() {
    match plan_tool_call("exa_search", r#"{"query":"rust","num_results":50}"#, &ctx()) {
        ToolPlan::Search(SearchCall::Exa { query, num_results, use_autoprompt }) => {
            assert_eq!(query, "rust");
            assert_eq!(num_results, 10);
            assert!(use_autoprompt);
        }
        other => panic!("unexpected plan {:?}", other),
    }
    match plan_tool_call("brave_search", r#"{"query":"q","count":0}"#, &ctx()) {
        ToolPlan::Search(SearchCall::Brave { count, .. }) => assert_eq!(count, 1),
        other => panic!("unexpected plan {:?}", other),
    }
    match plan_tool_call("rag_query", "not json", &ctx()) {
        ToolPlan::Answer(t) => assert_eq!(t, "Error: Missing 'query' parameter"),
        other => panic!("unexpected plan {:?}", other),
    }
}

#[test]
fn browser_tools_act_or_answer() {
    match plan_tool_call("navigate", r#"{"url":"example.com"}"#, &ctx()) {
        ToolPlan::Act(ToolAction::Navigate(u), t) => {
            assert_eq!(u, "example.com");
            assert_eq!(t, "Navigating to: example.com");
        }
        other => panic!("unexpected plan {:?}", other),
    }
    match plan_tool_call("follow_link", r#"{"link_number":1}"#, &ctx()) {
        ToolPlan::Act(ToolAction::FollowLink(i), t) => {
            assert_eq!(i, 0);
            assert_eq!(t, "Following link 1");
        }
        other => panic!("unexpected plan {:?}", other),
    }
    match plan_tool_call("follow_link", r#"{"link_number":2}"#, &ctx()) {
        ToolPlan::Answer(t) => assert_eq!(t, "Error: Link 2 not found. Available links: 1-1"),
        other => panic!("unexpected plan {:?}", other),
    }
    match plan_tool_call("scroll", "{}", &ctx()) {
        ToolPlan::Act(ToolAction::Scroll { direction, amount }, t) => {
            assert_eq!(direction, "down");
            assert_eq!(amount, 5);
            assert_eq!(t, "Scrolling down by 5 lines");
        }
        other => panic!("unexpected plan {:?}", other),
    }
    match plan_tool_call("get_page_content", "{}", &ctx()) {
        ToolPlan::Answer(t) => assert_eq!(t, "No page currently loaded."),
        other => panic!("unexpected plan {:?}", other),
    }
    match plan_tool_call("list_links", "{}", &ctx()) {
        ToolPlan::Answer(t) => assert_eq!(t, "Links on page:\n1. One (https://one.example)"),
        other => panic!("unexpected plan {:?}", other),
    }
    match plan_tool_call("fly", "{}", &ctx()) {
        ToolPlan::Answer(t) => assert_eq!(t, "Unknown tool: fly"),
        other => panic!("unexpected plan {:?}", other),
    }
}

#[test]
fn search_errors_are_prefixed() {
    let call = SearchCall::Rag { query: "q".to_string(), top_k: 5 };
    assert_eq!(search_reply(&call, Err("down".to_string())), "RAG error: down");
    assert_eq!(search_reply(&call, Ok("fine".to_string())), "fine");
}

#[test]
fn tool_reply_lists_calls_results_and_answer() {
    let r = tool_reply(&vec!["navigate".to_string()], &vec!["Navigating to: x".to_string()], "Done");
    assert_eq!(r, "@ navigate\n  -> Navigating to: x\n\nDone");
    assert_eq!(tool_reply(&vec![], &vec![], ""), "");
}

#[test]
fn rate_limits_are_recognised() {
    assert!(is_rate_limit("API error (429): slow down"));
    assert!(is_rate_limit("Too Many Requests"));
    assert!(!is_rate_limit("invalid api key"));
    assert_eq!(all_models_failed(&vec!["m: e".to_string()]), "All models failed:\nm: e");
}

#[test]
fn plain_chat_steps() {
    assert_eq!(plain_chat_step("m", ModelOutcome::Reply(Some("hi".to_string())), String::new()), Ok("hi".to_string()));
    assert_eq!(plain_chat_step("m", ModelOutcome::Reply(None), "old".to_string()), Err("old".to_string()));
    assert_eq!(
        plain_chat_step("m", ModelOutcome::Refused { code: 429, status: "429 Too Many Requests".to_string(), body: String::new() }, String::new()),
        Err("Rate limited on m".to_string())
    );
    assert_eq!(
        plain_chat_step("m", ModelOutcome::Refused { code: 500, status: "500 Internal Server Error".to_string(), body: "x".to_string() }, String::new()),
        Err("500 Internal Server Error: x".to_string())
    );
}

#[test]
fn chat_responses_are_read() {
    match read_chat_response(None, Some(vec![ApiChoice { content: Some("hey".to_string()), tool_calls: None }])) {
        Ok(ChatApiResponse::Content(t)) => assert_eq!(t, "hey"),
        _ => panic!("expected content"),
    }
    assert!(matches!(read_chat_response(None, Some(vec![])), Err(e) if e == "No choices in API response"));
    assert!(matches!(read_chat_response(Some("x".to_string()), None), Err(e) if e == "API error: x"));
}

#[test]
fn question_gets_its_context() {
    let mut ms = vec![ChatMessage::new_user("why?".to_string())];
    enhance_last_question(&mut ms, "<current_page>p</current_page>", "RAG service unavailable", "web");
    assert_eq!(ms[0].content, "<current_page>p</current_page>\n\n<web_search>\nweb\n</web_search>\n\n**User Question:** why?");
    let mut ms = vec![ChatMessage::new_assistant("a".to_string())];
    enhance_last_question(&mut ms, "p", "r", "w");
    assert_eq!(ms[0].content, "a");
    assert_eq!(ms[0].role, Role::Assistant);
}

#[test]
fn research_without_sources_finishes() {
    match research_step("q", "", "No sources found in RAG.") {
        ResearchStep::Finished(v) => assert_eq!(v[0], "# No Results Found"),
        _ => panic!("expected the no-results lines"),
    }
    match research_step("q", "web", "") {
        ResearchStep::Synthesize(p) => assert!(p.contains("**User Question:** q\n\n**Sources:**\n## Web Search Results (Exa)\n\nweb\n\n\n\n**Instructions:**")),
        _ => panic!("expected a prompt"),
    }
    assert_eq!(
        research_results("q", "a\nb", "", None),
        vec!["# Search Results (LLM unavailable)", "", "## Web (Exa)", "a", "b", ""]
    );
    assert_eq!(research_results("q", "", "", Some("x\ny".to_string())), vec!["# Research: q", "", "x", "y"]);
}

#[test]
fn source_texts_are_formatted() {
    let hit = RagHit { content: Some("text".to_string()), doc_id: None, score: "0.50".to_string() };
    assert_eq!(
        rag_context(Some("ans".to_string()), Some(vec![hit.clone()])),
        "**RAG Answer:**\nans\n\n**Sources:**\n1. [unknown] (score: 0.50)\n   text\n\n"
    );
    assert_eq!(rag_context(None, None), "No sources found in RAG.");
    assert_eq!(rag_tool_reply(None, Some(vec![hit])), "## RAG Answer\n\nNo answer\n\n### Sources\n1. text\n");
    let w = WebHit { title: None, url: Some("u".to_string()), text: Some("t".repeat(400)), score: "1.00".to_string() };
    let c = web_context(Some(vec![w.clone()]));
    assert!(c.starts_with("**Web Search Results (Exa):**\n\n1. **No title**\n   u\n   "));
    assert_eq!(c.len(), "**Web Search Results (Exa):**\n\n1. **No title**\n   u\n   ".len() + 300 + 2);
    assert_eq!(web_search_reply("q", &vec![], 5), "No results found");
    assert!(web_search_reply("q", &vec![w], 5).starts_with("## Exa Search: q\n\n1. **No title** (score: 1.00)\n   u\n   "));
    let b = BraveHit { title: Some("B".to_string()), url: None, description: None };
    assert_eq!(brave_reply("q", &vec![b], 3), "## Search Results for: q\n\n1. **B**\n   \n   No description\n");
}

#[test]
fn browser_context_is_read_back_from_user_messages() {
    let msg = |role: &str, content: &str| OpenAIChatMessage {
        role: role.to_string(),
        content: Some(content.to_string()),
        tool_calls: None,
        tool_call_id: None,
    };
    let text = "[Browser Context]\nCurrent page: Rust Lang (https://rust-lang.org))\nContent preview:\na\nb";
    let ctx = extract_browser_context(&vec![msg("system", "[Browser Context]\nCurrent page: X (y)"), msg("user", text)]);
    assert_eq!(ctx.title, "Rust Lang");
    assert_eq!(ctx.url, "https://rust-lang.org");
    assert_eq!(ctx.content, "a\nb");
    assert!(ctx.links.is_empty());
    let none = extract_browser_context(&vec![msg("user", "Current page: T (u)")]);
    assert_eq!(none.title, "");
}

#[test]
fn every_offered_tool_is_carried_out() {
    for t in get_browser_tools() {
        match plan_tool_call(&t.function.name, "{}", &ctx()) {
            ToolPlan::Answer(a) => assert!(!a.starts_with("Unknown tool")),
            _ => {}
        }
    }
}

#[test]
fn required_parameters_are_schema_properties() {
    let tools = get_browser_tools();
    for t in tools.iter() {
        let v: serde_json::Value = serde_json::from_str(&t.function.parameters).unwrap();
        let props = v["properties"].as_object().unwrap();
        for r in v["required"].as_array().unwrap() {
            assert!(props.contains_key(r.as_str().unwrap()));
        }
    }
    assert_eq!(
        tools[4].function.parameters,
        r#"{"type":"object","properties":{"link_number":{"type":"integer","description":"Link number to follow (starting from 1)"}},"required":["link_number"]}"#
    );
    assert_eq!(tools[7].function.parameters, r#"{"type":"object","properties":{},"required":[]}"#);
}
