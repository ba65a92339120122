//! A border that suggests depth: the top and left edges are lit, the bottom and right
//! edges lie in shadow, as if light came from the top left.
use vstd::prelude::*;
use crate::ui::color::Color;

verus! {

/// The deep shadow of the bottom and right edges (#0a0a0c).
pub fn shadow_dark() -> (c: Color)
    ensures
        c == Color::Rgb(10, 10, 12),
{
    Color::Rgb(10, 10, 12)
}

/// The medium shadow of the two corners where light turns to shadow (#0e0e10).
pub fn shadow_mid() -> (c: Color)
    ensures
        c == Color::Rgb(14, 14, 16),
{
    Color::Rgb(14, 14, 16)
}

/// A border whose top and left edges take `light_color` and whose bottom and right edges
/// take the shadow colour (derived from the light one where none is given).
#[derive(Debug, Clone, Copy)]
pub struct ShadowBorder {
    pub light_color: Color,
    pub shadow_color: Option<Color>,
    pub rounded: bool,
}

/// A channel darkened by 40%.
pub open spec fn darken(v: u8) -> u8 {
    ((v as int * 3) / 5) as u8
}

/// The shadow colour: the given one, else the light colour darkened by 40% where it is a
/// true colour, else the deep shadow.
pub open spec fn shadow_of(b: ShadowBorder) -> Color {
    match b.shadow_color {
        Some(s) => s,
        None => match b.light_color {
            Color::Rgb(r, g, bl) => Color::Rgb(darken(r), darken(g), darken(bl)),
            _ => Color::Rgb(10, 10, 12),
        },
    }
}

fn darken_channel(v: u8) -> (r: u8)
    ensures
        r == darken(v),
{
    let w: u16 = v as u16 * 3 / 5;
    w as u8
}

impl ShadowBorder {
    /// A rounded border with the given light colour and a derived shadow.
    pub fn new(light_color: Color) -> (b: ShadowBorder)
        ensures
            b.light_color == light_color,
            b.shadow_color is None,
            b.rounded,
    {
        ShadowBorder { light_color, shadow_color: None, rounded: true }
    }

    /// The same border with the given shadow colour.
    pub fn with_shadow(self, shadow: Color) -> (b: ShadowBorder)
        ensures
            b == (ShadowBorder { shadow_color: Some(shadow), ..self }),
    {
        ShadowBorder { shadow_color: Some(shadow), ..self }
    }

    /// The same border with rounded corners or not.
    pub fn rounded(self, rounded: bool) -> (b: ShadowBorder)
        ensures
            b == (ShadowBorder { rounded, ..self }),
    {
        ShadowBorder { rounded, ..self }
    }

    /// The colour of the shadowed edges.
    pub fn derive_shadow(&self) -> (c: Color)
        ensures
            c == shadow_of(*self),
    {
        match self.shadow_color {
            Some(s) => s,
            None => match self.light_color {
                Color::Rgb(r, g, b) => Color::Rgb(darken_channel(r), darken_channel(g), darken_channel(b)),
                _ => shadow_dark(),
            },
        }
    }
}

/// The glyph and colour at column `dx` and row `dy` of a `w` by `h` border, or `None`
/// inside it (and everywhere when it is narrower or lower than two cells).
pub open spec fn shadow_cell_at(b: ShadowBorder, w: int, h: int, dx: int, dy: int) -> Option<(char, Color)> {
    let light = b.light_color;
    let shadow = shadow_of(b);
    let mid = Color::Rgb(14, 14, 16);
    if w < 2 || h < 2 || dx < 0 || dy < 0 || dx >= w || dy >= h {
        None
    } else if dx == 0 && dy == 0 {
        Some((if b.rounded { '╭' } else { '┌' }, light))
    } else if dx == w - 1 && dy == 0 {
        Some((if b.rounded { '╮' } else { '┐' }, mid))
    } else if dx == 0 && dy == h - 1 {
        Some((if b.rounded { '╰' } else { '└' }, mid))
    } else if dx == w - 1 && dy == h - 1 {
        Some((if b.rounded { '╯' } else { '┘' }, shadow))
    } else if dy == 0 {
        Some(('─', light))
    } else if dy == h - 1 {
        Some(('─', shadow))
    } else if dx == 0 {
        Some(('│', light))
    } else if dx == w - 1 {
        Some(('│', shadow))
    } else {
        None
    }
}

impl ShadowBorder {
    /// What the border draws at column `dx` and row `dy` of an area `w` wide and `h` high:
    /// lit top and left edges, shadowed bottom and right edges, a lit top-left corner, the
    /// medium shadow at the top-right and bottom-left corners and the shadow at the
    /// bottom-right one.
    pub fn cell(&self, w: u16, h: u16, dx: u16, dy: u16) -> (r: Option<(char, Color)>)
        ensures
            r == shadow_cell_at(*self, w as int, h as int, dx as int, dy as int),
    {
        if w < 2 || h < 2 || dx >= w || dy >= h {
            return None;
        }
        let shadow = self.derive_shadow();
        if dx == 0 && dy == 0 {
            Some((if self.rounded { '╭' } else { '┌' }, self.light_color))
        } else if dx == w - 1 && dy == 0 {
            Some((if self.rounded { '╮' } else { '┐' }, shadow_mid()))
        } else if dx == 0 && dy == h - 1 {
            Some((if self.rounded { '╰' } else { '└' }, shadow_mid()))
        } else if dx == w - 1 && dy == h - 1 {
            Some((if self.rounded { '╯' } else { '┘' }, shadow))
        } else if dy == 0 {
            Some(('─', self.light_color))
        } else if dy == h - 1 {
            Some(('─', shadow))
        } else if dx == 0 {
            Some(('│', self.light_color))
        } else if dx == w - 1 {
            Some(('│', shadow))
        } else {
            None
        }
    }
}

} // verus!
