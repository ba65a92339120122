//! A border whose colour runs round it in a golden glow, moved on by a phase.
use vstd::prelude::*;
use crate::ui::color::Color;

verus! {

/// The glow's colours, in order: warm gold, bright amber, deep gold, tan, bronze.
pub open spec fn neon_palette() -> Seq<Color> {
    seq![Color::Rgb(194, 154, 108), Color::Rgb(214, 168, 92), Color::Rgb(180, 140, 90),
        Color::Rgb(160, 128, 80), Color::Rgb(140, 115, 75)]
}

/// The glow's colours, in order.
pub fn neon_colors() -> (v: Vec<Color>)
    ensures
        v@ == neon_palette(),
{
    let mut v: Vec<Color> = Vec::new();
    v.push(Color::Rgb(194, 154, 108));
    v.push(Color::Rgb(214, 168, 92));
    v.push(Color::Rgb(180, 140, 90));
    v.push(Color::Rgb(160, 128, 80));
    v.push(Color::Rgb(140, 115, 75));
    assert(v@ =~= neon_palette());
    v
}

/// The colour `step` cells along the border at the given phase.
pub fn color_at(phase: usize, step: usize) -> (c: Color)
    requires
        phase + step <= usize::MAX,
    ensures
        c == neon_palette()[(phase + step) % 5],
{
    let palette = neon_colors();
    palette[(phase + step) % palette.len()]
}

/// A border coloured by the glow at `phase`.
#[derive(Debug, Clone, Copy)]
pub struct NeonBorder {
    pub phase: usize,
}

/// How many cells along the border, clockwise from the top-left corner, the cell at
/// column `dx` and row `dy` of a `w` by `h` border lies; `None` inside it.
pub open spec fn border_step(w: int, h: int, dx: int, dy: int) -> Option<int> {
    if w < 2 || h < 2 || dx < 0 || dy < 0 || dx >= w || dy >= h {
        None
    } else if dy == 0 {
        Some(dx)
    } else if dy == h - 1 {
        Some(w + (h - 2) + (w - 1 - dx))
    } else if dx == w - 1 {
        Some(w + dy - 1)
    } else if dx == 0 {
        Some(2 * w + (h - 2) + (h - 2 - dy))
    } else {
        None
    }
}

/// The glyph at column `dx` and row `dy` of a `w` by `h` border.
pub open spec fn neon_glyph(w: int, h: int, dx: int, dy: int) -> char {
    if dy == 0 {
        if dx == 0 { '╭' } else if dx == w - 1 { '╮' } else { '─' }
    } else if dy == h - 1 {
        if dx == 0 { '╰' } else if dx == w - 1 { '╯' } else { '─' }
    } else {
        '│'
    }
}

impl NeonBorder {
    /// What the border draws at column `dx` and row `dy` of an area `w` wide and `h` high:
    /// the glyph of that place and the glow's colour for its distance round the border.
    pub fn cell(&self, w: u16, h: u16, dx: u16, dy: u16) -> (r: Option<(char, Color)>)
        requires
            self.phase + 2 * w + 2 * h <= usize::MAX,
        ensures
            r == match border_step(w as int, h as int, dx as int, dy as int) {
                Some(s) => Some((neon_glyph(w as int, h as int, dx as int, dy as int), neon_palette()[(self.phase + s) % 5])),
                None => None,
            },
    {
        if w < 2 || h < 2 || dx >= w || dy >= h {
            return None;
        }
        let wu = w as usize;
        let hu = h as usize;
        let dxu = dx as usize;
        let dyu = dy as usize;
        let step: usize = if dy == 0 {
            dxu
        } else if dy == h - 1 {
            wu + (hu - 2) + (wu - 1 - dxu)
        } else if dx == w - 1 {
            wu + dyu - 1
        } else if dx == 0 {
            2 * wu + (hu - 2) + (hu - 2 - dyu)
        } else {
            return None;
        };
        let glyph = if dy == 0 {
            if dx == 0 { '╭' } else if dx == w - 1 { '╮' } else { '─' }
        } else if dy == h - 1 {
            if dx == 0 { '╰' } else if dx == w - 1 { '╯' } else { '─' }
        } else {
            '│'
        };
        Some((glyph, color_at(self.phase, step)))
    }
}

} // verus!
