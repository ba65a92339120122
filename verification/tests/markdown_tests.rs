use azul::ui::markdown::StyledMarkdown;

#[test]
fn test_headers() {
    let md = StyledMarkdown::new(80);
    let lines = vec![
        "# Main Title".to_string(),
        "## Section".to_string(),
        "### Subsection".to_string(),
    ];
    let result = md.render(&lines);
    assert!(!result.is_empty());
}

#[test]
fn test_code_block() {
    let md = StyledMarkdown::new(80);
    let lines = vec![
        "```".to_string(),
        "let x = 1;".to_string(),
        "```".to_string(),
    ];
    let result = md.render(&lines);
    assert!(!result.is_empty());
}
