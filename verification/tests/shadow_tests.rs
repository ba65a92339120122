use azul::ui::color::Color;
use azul::ui::neon::{color_at, NeonBorder};
use azul::ui::shadow::ShadowBorder;

#[test]
fn test_shadow_derive() {
    let border = ShadowBorder::new(Color::Rgb(100, 100, 100));
    let shadow = border.derive_shadow();
    assert!(matches!(shadow, Color::Rgb(60, 60, 60)));
}

#[test]
fn shadow_derive_truncates_like_the_float_product() {
    let border = ShadowBorder::new(Color::Rgb(255, 1, 7));
    assert_eq!(border.derive_shadow(), Color::Rgb(153, 0, 4));
    assert_eq!(ShadowBorder::new(Color::Red).derive_shadow(), Color::Rgb(10, 10, 12));
    assert_eq!(border.with_shadow(Color::Blue).derive_shadow(), Color::Blue);
}

#[test]
fn shadow_border_corners_and_edges() {
    let b = ShadowBorder::new(Color::Rgb(100, 100, 100));
    assert_eq!(b.cell(10, 5, 0, 0), Some(('╭', Color::Rgb(100, 100, 100))));
    assert_eq!(b.cell(10, 5, 9, 0), Some(('╮', Color::Rgb(14, 14, 16))));
    assert_eq!(b.cell(10, 5, 9, 4), Some(('╯', Color::Rgb(60, 60, 60))));
    assert_eq!(b.cell(10, 5, 4, 4), Some(('─', Color::Rgb(60, 60, 60))));
    assert_eq!(b.cell(10, 5, 4, 2), None);
    assert_eq!(b.rounded(false).cell(10, 5, 0, 4), Some(('└', Color::Rgb(14, 14, 16))));
    assert_eq!(b.cell(1, 5, 0, 0), None);
}

#[test]
fn neon_colors_run_round_the_border() {
    assert_eq!(color_at(0, 0), Color::Rgb(194, 154, 108));
    assert_eq!(color_at(3, 4), Color::Rgb(180, 140, 90));
    let n = NeonBorder { phase: 0 };
    assert_eq!(n.cell(4, 3, 3, 0), Some(('╮', Color::Rgb(160, 128, 80))));
    assert_eq!(n.cell(4, 3, 3, 1), Some(('│', Color::Rgb(140, 115, 75))));
    assert_eq!(n.cell(4, 3, 3, 2), Some(('╯', Color::Rgb(194, 154, 108))));
    assert_eq!(n.cell(4, 3, 0, 1), Some(('│', Color::Rgb(140, 115, 75))));
}
