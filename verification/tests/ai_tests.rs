use azul::ai::{default_fallback_models, parse_key_points, summarize_search_prompts, truncate_content,
    read_completion, completion_failed, SearchResult};

#[test]
fn test_default_fallback_models() {
    let models = default_fallback_models();
    assert!(!models.is_empty());
    assert!(models.iter().all(|m| m.contains(":free")));
}

#[test]
fn key_points_lose_their_numbers() {
    let reply = "1. First point\n\n  2) Second point  \n10. Tenth\nplain";
    assert_eq!(
        parse_key_points(reply, 0),
        vec!["First point".to_string(), "Second point".to_string(), "10. Tenth".to_string(), "plain".to_string()]
    );
    assert_eq!(parse_key_points(reply, 1), vec!["First point".to_string()]);
}

#[test]
fn search_prompts_need_results() {
    assert_eq!(summarize_search_prompts("q", &vec![]), Err("No results to summarize".to_string()));
    let r = SearchResult {
        title: "T".to_string(),
        url: "u".to_string(),
        description: String::new(),
        source: "S".to_string(),
    };
    let (_, user) = summarize_search_prompts("q", &vec![r]).unwrap();
    assert_eq!(
        user,
        "Query: q\n\nSearch Results:\nResult 1:\nTitle: T\nSource: S\n\n\n\nProvide a brief summary of the key information from these results."
    );
}

#[test]
fn long_content_is_cut_at_4000_bytes() {
    let long = "x".repeat(5000);
    let t = truncate_content(&long);
    assert_eq!(t.len(), 4003);
    assert!(t.ends_with("..."));
    assert_eq!(truncate_content("short"), "short");
}

#[test]
fn completion_errors_are_reported() {
    assert_eq!(read_completion(Some("bad".to_string()), None), Err("API error: bad".to_string()));
    assert_eq!(read_completion(None, None), Err("No choices in response".to_string()));
    assert_eq!(read_completion(None, Some(vec![])), Err("Empty choices array".to_string()));
    assert_eq!(read_completion(None, Some(vec!["hi".to_string()])), Ok("hi".to_string()));
    assert_eq!(completion_failed(&vec!["a: x".to_string(), "b: y".to_string()]), "All models failed: a: x; b: y");
}
