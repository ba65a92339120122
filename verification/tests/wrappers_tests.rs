use azul::assistant::brave_search_url;
use azul::engines::{parse_scholar_html, wikipedia_results, WikiHit};
use azul::fetch::{content_type_of, document_page, fetch_url, sanitize_line};
use azul::ui::color::Color;
use azul::ui::markdown::{parse_ansi_line, StyledMarkdown};

#[test]
fn brave_url_encodes_the_query() {
    assert_eq!(
        brave_search_url("rust lang/€", 3),
        "https://api.search.brave.com/res/v1/web/search?q=rust%20lang%2F%E2%82%AC&count=3"
    );
}

#[test]
fn fetch_url_adds_the_scheme_and_checks_it() {
    assert_eq!(fetch_url("example.com/a"), Ok("https://example.com/a".to_string()));
    assert_eq!(fetch_url("http://x.org"), Ok("http://x.org".to_string()));
    assert_eq!(fetch_url("bad host name"), Err("Invalid URL".to_string()));
    assert_eq!(content_type_of(Some("Text/HTML; Charset=UTF-8")), "text/html; charset=utf-8");
    assert_eq!(content_type_of(None), "");
}

#[test]
fn documents_keep_title_text_and_resolved_links() {
    let html = "<html><head><title>  The Title </title></head><body><p>Hello world</p><a href=\"/next\">Next page</a><a href=\"#\">skip</a></body></html>";
    let page = document_page("https://example.com/dir/", "https://example.com/dir/".to_string(), html.to_string()).unwrap();
    assert_eq!(page.title, "The Title");
    assert!(page.content_lines.iter().any(|l| l.contains("Hello world")));
    assert_eq!(page.links.len(), 1);
    assert_eq!(page.links[0].text, "Next page");
    assert_eq!(page.links[0].url, "https://example.com/next");
}

#[test]
fn wikipedia_snippets_lose_their_tags() {
    let hits = vec![WikiHit { title: "Rust (language)".to_string(), pageid: 1, snippet: "<span class=\"searchmatch\">Rust</span> is a language".to_string() }];
    let r = wikipedia_results(Some(hits));
    assert_eq!(r[0].description, "Rust is a language");
    assert_eq!(r[0].url, "https://en.wikipedia.org/wiki/Rust_(language)");
}

#[test]
fn scholar_blocks_become_results() {
    let html = "<div class=\"gs_r gs_or gs_scl\"><h3 class=\"gs_rt\"><a href=\"https://paper.example\">A <b>Paper</b></a></h3><div class=\"gs_rs\">An abstract</div></div>";
    let r = parse_scholar_html(html);
    assert_eq!(r.len(), 1);
    assert_eq!(r[0].url, "https://paper.example");
    assert!(r[0].title.contains("Paper"));
    assert!(r[0].description.contains("abstract"));
}

#[test]
fn page_text_is_sanitized() {
    assert_eq!(sanitize_line("a\u{7}b é"), "a b é");
}

#[test]
fn markdown_headings_are_upper_case_and_ansi_colours_read() {
    let md = StyledMarkdown::new(40);
    let lines = md.render(&vec!["# title".to_string()]);
    assert!(lines.iter().any(|l| l.spans.iter().any(|s| s.text.contains("TITLE"))));
    let spans = parse_ansi_line("\u{1b}[31mred\u{1b}[0m plain");
    assert!(spans.iter().any(|s| s.text == "red" && s.style.fg == Some(Color::Red)));
}

#[test]
fn test_html_to_text() {
    let html = "<span class=\"highlight\">Rust</span> is a programming language";
    let hit = WikiHit { title: "Rust".to_string(), pageid: 1, snippet: html.to_string() };
    assert_eq!(wikipedia_results(Some(vec![hit]))[0].description, "Rust is a programming language");
}
