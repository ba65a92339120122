use azul::fetch::resolve_url;

#[test]
fn test_resolve_url() {
    let base = "https://example.com/path/page.html";

    assert_eq!(
        resolve_url(base, "https://other.com"),
        "https://other.com"
    );
    assert_eq!(resolve_url(base, "//cdn.example.com"), "https://cdn.example.com");
    assert_eq!(
        resolve_url(base, "/absolute/path"),
        "https://example.com/absolute/path"
    );
    assert_eq!(
        resolve_url(base, "relative.html"),
        "https://example.com/path/relative.html"
    );
}
