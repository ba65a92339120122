use azul::tabs::{Tab, TabManager};

#[test]
fn test_new_tab_manager() {
    let manager = TabManager::new();
    assert_eq!(manager.count(), 1);
    assert_eq!(manager.active_index(), 0);
}

#[test]
fn test_add_and_close_tabs() {
    let mut manager = TabManager::new();

    manager.new_tab(Some("https://example.com"));
    assert_eq!(manager.count(), 2);
    assert_eq!(manager.active_index(), 1);

    manager.close_current_tab();
    assert_eq!(manager.count(), 1);
    assert_eq!(manager.active_index(), 0);
}

#[test]
fn test_tab_navigation() {
    let mut manager = TabManager::new();
    manager.new_tab(None);
    manager.new_tab(None);

    assert_eq!(manager.count(), 3);
    assert_eq!(manager.active_index(), 2);

    manager.prev_tab();
    assert_eq!(manager.active_index(), 1);

    manager.next_tab();
    assert_eq!(manager.active_index(), 2);

    manager.go_to_tab(1);
    assert_eq!(manager.active_index(), 0);
}

#[test]
fn test_tab_history() {
    let mut tab = Tab::new(0);

    tab.navigate("https://example.com");
    tab.navigate("https://example.org");

    assert!(tab.can_go_back());
    assert!(!tab.can_go_forward());

    let url = tab.go_back();
    assert_eq!(url, Some("https://example.com".to_string()));
    assert!(tab.can_go_forward());

    let url = tab.go_forward();
    assert_eq!(url, Some("https://example.org".to_string()));
}

#[test]
fn back_then_forward_returns_to_the_same_page() {
    let mut tab = Tab::new(3);
    tab.navigate("https://a.example");
    tab.navigate("https://b.example");
    tab.navigate("https://c.example");
    assert_eq!(tab.go_back(), Some("https://b.example".to_string()));
    assert_eq!(tab.go_forward(), Some("https://c.example".to_string()));
    assert!(!tab.can_go_forward());
}

#[test]
fn visiting_after_going_back_drops_the_forward_pages() {
    let mut tab = Tab::new(1);
    tab.navigate("https://a.example");
    tab.navigate("https://b.example");
    tab.go_back();
    tab.navigate("https://c.example");
    assert!(!tab.can_go_forward());
    assert_eq!(tab.go_back(), Some("https://a.example".to_string()));
}

#[test]
fn next_then_previous_tab_comes_back() {
    let mut manager = TabManager::new();
    manager.new_tab(None);
    manager.new_tab(None);
    manager.go_to_tab(1);
    manager.next_tab();
    manager.prev_tab();
    assert_eq!(manager.active_index(), 0);
    manager.prev_tab();
    assert_eq!(manager.active_index(), 2);
}

#[test]
fn closing_the_last_tab_is_refused() {
    let mut manager = TabManager::new();
    assert!(!manager.close_current_tab());
    assert_eq!(manager.count(), 1);
}

#[test]
fn the_first_tab_shows_the_welcome_page_and_ids_stay_distinct() {
    let mut manager = TabManager::new();
    assert_eq!(manager.tabs()[0].url, "azul://home");
    assert!(!manager.is_full());
    for _ in 0..8 {
        assert!(manager.new_tab(None).is_some());
    }
    assert!(manager.is_full());
    assert_eq!(manager.new_tab(None), None);
    assert_eq!(manager.count(), 9);
    manager.close_tab(3);
    manager.new_tab(None);
    let ids: Vec<usize> = manager.tabs().iter().map(|t| t.id).collect();
    for w in ids.windows(2) {
        assert!(w[0] < w[1]);
    }
}
