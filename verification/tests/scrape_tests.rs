use azul::browser::{Link, Page};
use azul::scrape::{scrape_page, slugify};

#[test]
fn test_slugify() {
    assert_eq!(slugify("Hello World!"), "hello-world");
    assert_eq!(slugify(""), "page");
}

#[test]
fn slugify_cuts_at_48_characters_and_drops_non_ascii() {
    let long = "a".repeat(60);
    assert_eq!(slugify(&long).len(), 48);
    assert_eq!(slugify("--Ünïcode--Title--"), "ncode-title");
}

#[test]
fn scrape_page_takes_headings_links_and_text() {
    let page = Page {
        url: "https://example.com".to_string(),
        title: "Example".to_string(),
        content_lines: vec!["one".to_string(), "two".to_string()],
        raw_content: "<h1> Big </h1><p>x</p><h2></h2><h3>Small <b>bold</b></h3>".to_string(),
        links: vec![Link { text: "Next".to_string(), url: "https://example.com/next".to_string() }],
    };
    let s = scrape_page(&page);
    assert_eq!(s.url, "https://example.com");
    assert_eq!(s.title, "Example");
    assert_eq!(s.headings, vec!["Big".to_string(), "Small  bold".to_string()]);
    assert_eq!(s.links.len(), 1);
    assert_eq!(s.links[0].url, "https://example.com/next");
    assert_eq!(s.content, "one\ntwo");
}

#[test]
fn scrape_names_are_file_safe() {
    for input in ["", "---", "Hello, World! ÄÖÜ", &"x-".repeat(40), "Q&A: tips / tricks"] {
        let s = slugify(input);
        assert!(!s.is_empty() && s.len() <= 48);
        assert!(!s.starts_with('-'));
        assert!(s.chars().all(|c| c.is_ascii_lowercase() || c.is_ascii_digit() || c == '-'));
    }
}
