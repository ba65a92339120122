use azul::fixtures::{page_path, slug_for_url};

#[test]
fn slug_for_url_strips_http_and_trailing_slash() {
    let slug = slug_for_url("http://example.com/path/");
    assert_eq!(slug, "example_com_path");
}

#[test]
fn slug_for_url_keeps_no_scheme() {
    let slug = slug_for_url("example.com/path");
    assert_eq!(slug, "example_com_path");
}

#[test]
fn slug_for_url_lowers_and_strips_https() {
    assert_eq!(slug_for_url("  https://Fixture.Local/Article//  "), "fixture_local_article");
}

#[test]
fn page_path_joins_root_pages_and_slug() {
    assert_eq!(page_path("/tmp/fx", "https://fixture.local/article"), "/tmp/fx/pages/fixture_local_article.json");
    assert_eq!(page_path("/tmp/fx/", "a.b"), "/tmp/fx/pages/a_b.json");
}
