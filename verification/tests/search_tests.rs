use azul::search::{classify_query, parse_query, EngineType, QueryTarget};

#[test]
fn test_parse_query_prefixes() {
    assert_eq!(
        parse_query("w:rust"),
        (Some(EngineType::Wikipedia), "rust".to_string())
    );
    assert_eq!(
        parse_query("a:neural networks"),
        (Some(EngineType::ArXiv), "neural networks".to_string())
    );
    assert_eq!(
        parse_query("no prefix"),
        (None, "no prefix".to_string())
    );
}

#[test]
fn test_engine_type_methods() {
    assert_eq!(EngineType::Wikipedia.name(), "Wikipedia");
    assert_eq!(EngineType::ArXiv.prefix(), "a:");
    assert_eq!(EngineType::from_prefix("w:"), Some(EngineType::Wikipedia));
}

#[test]
fn test_classify_query() {
    match classify_query("example.com") {
        QueryTarget::Url(url) => assert!(url.starts_with("https://example.com")),
        other => panic!("expected URL, got {:?}", other),
    }

    match classify_query("w:rust") {
        QueryTarget::Search { engine, query } => {
            assert_eq!(engine, EngineType::Wikipedia);
            assert_eq!(query, "rust");
        }
        other => panic!("expected Wikipedia search, got {:?}", other),
    }

    match classify_query("g:rust") {
        QueryTarget::Search { engine, .. } => {
            assert_eq!(engine, EngineType::DuckDuckGo, "Google should fall back to DuckDuckGo");
        }
        other => panic!("expected search, got {:?}", other),
    }
}

#[test]
fn plain_words_are_searched_on_duckduckgo() {
    assert_eq!(
        classify_query("  rust programming "),
        QueryTarget::Search { engine: EngineType::DuckDuckGo, query: "rust programming".to_string() }
    );
    assert_eq!(
        classify_query("https://example.com"),
        QueryTarget::Url("https://example.com".to_string())
    );
}

#[test]
fn every_prefix_selects_its_engine_again() {
    let all = [
        EngineType::DuckDuckGo,
        EngineType::Google,
        EngineType::Wikipedia,
        EngineType::ArXiv,
        EngineType::Scholar,
        EngineType::PubMed,
        EngineType::OpenLibrary,
        EngineType::Exa,
    ];
    for e in all.iter() {
        assert_eq!(EngineType::from_prefix(e.prefix()), Some(*e));
        assert_eq!(EngineType::from_prefix(&e.prefix().to_uppercase()), Some(*e));
    }
    assert_eq!(EngineType::from_prefix("exa:"), Some(EngineType::Exa));
    assert_eq!(EngineType::from_prefix("x:"), None);
}
