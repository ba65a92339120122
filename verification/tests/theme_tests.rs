use azul::ui::theme::{ThemeColors, ThemeManager, ThemePreset};

#[test]
fn test_theme_cycling() {
    let mut tm = ThemeManager::new();
    assert_eq!(tm.preset(), ThemePreset::WarmPaperDark);

    tm.cycle_next();
    assert_eq!(tm.preset(), ThemePreset::WarmPaperLight);

    tm.cycle_prev();
    assert_eq!(tm.preset(), ThemePreset::WarmPaperDark);
}

#[test]
fn test_all_themes_have_colors() {
    for preset in ThemePreset::all().iter() {
        let colors = ThemeColors::from_preset(*preset);
        let _ = colors.primary;
        let _ = colors.text;
        let _ = colors.bg;
        let _ = colors.focus_ring;
    }
}

#[test]
fn test_warm_paper_dark_is_default() {
    let tm = ThemeManager::new();
    assert_eq!(tm.preset().name(), "Warm Paper Dark");
}

#[test]
fn cycling_through_every_preset_comes_back() {
    let mut tm = ThemeManager::new();
    let n = ThemePreset::all().len();
    for _ in 0..n {
        tm.cycle_next();
    }
    assert_eq!(tm.preset(), ThemePreset::WarmPaperDark);
    for p in ThemePreset::all().iter() {
        assert_eq!(p.next().prev(), *p);
    }
}
