//! Colour themes: the presets, their palettes, and runtime switching.
use vstd::prelude::*;
use crate::ui::color::Color;

verus! {

/// Available theme presets, in cycling order.
#[derive(Debug, Clone, Copy, PartialEq, Eq, Structural)]
pub enum ThemePreset {
    WarmPaperDark,
    WarmPaperLight,
    AzulClassic,
    Monokai,
    Gruvbox,
    Nord,
    Dracula,
    Catppuccin,
}

/// Number of presets.
pub open spec fn preset_count() -> nat {
    8
}

/// Position of a preset in the cycling order.
pub open spec fn preset_index(p: ThemePreset) -> nat {
    match p {
        ThemePreset::WarmPaperDark => 0,
        ThemePreset::WarmPaperLight => 1,
        ThemePreset::AzulClassic => 2,
        ThemePreset::Monokai => 3,
        ThemePreset::Gruvbox => 4,
        ThemePreset::Nord => 5,
        ThemePreset::Dracula => 6,
        ThemePreset::Catppuccin => 7,
    }
}

/// The preset at a position of the cycling order (taken modulo the number of presets).
pub open spec fn preset_at(i: nat) -> ThemePreset {
    let k = i % preset_count();
    if k == 0 {
        ThemePreset::WarmPaperDark
    } else if k == 1 {
        ThemePreset::WarmPaperLight
    } else if k == 2 {
        ThemePreset::AzulClassic
    } else if k == 3 {
        ThemePreset::Monokai
    } else if k == 4 {
        ThemePreset::Gruvbox
    } else if k == 5 {
        ThemePreset::Nord
    } else if k == 6 {
        ThemePreset::Dracula
    } else {
        ThemePreset::Catppuccin
    }
}

/// The preset after `p`, wrapping around.
pub open spec fn preset_after(p: ThemePreset) -> ThemePreset {
    preset_at(preset_index(p) + 1)
}

/// The preset before `p`, wrapping around.
pub open spec fn preset_before(p: ThemePreset) -> ThemePreset {
    preset_at((preset_index(p) + preset_count() - 1) as nat)
}

/// Display name of a preset.
pub open spec fn preset_name(p: ThemePreset) -> Seq<char> {
    match p {
        ThemePreset::WarmPaperDark => "Warm Paper Dark"@,
        ThemePreset::WarmPaperLight => "Warm Paper Light"@,
        ThemePreset::AzulClassic => "Azul Classic"@,
        ThemePreset::Monokai => "Monokai"@,
        ThemePreset::Gruvbox => "Gruvbox"@,
        ThemePreset::Nord => "Nord"@,
        ThemePreset::Dracula => "Dracula"@,
        ThemePreset::Catppuccin => "Catppuccin"@,
    }
}

impl ThemePreset {
    /// Display name.
    pub fn name(&self) -> (s: &'static str)
        ensures
            s@ == preset_name(*self),
    {
        match self {
            ThemePreset::WarmPaperDark => "Warm Paper Dark",
            ThemePreset::WarmPaperLight => "Warm Paper Light",
            ThemePreset::AzulClassic => "Azul Classic",
            ThemePreset::Monokai => "Monokai",
            ThemePreset::Gruvbox => "Gruvbox",
            ThemePreset::Nord => "Nord",
            ThemePreset::Dracula => "Dracula",
            ThemePreset::Catppuccin => "Catppuccin",
        }
    }

    /// All presets in cycling order.
    pub fn all() -> (v: Vec<ThemePreset>)
        ensures
            v@.len() == preset_count(),
            forall|i: int| 0 <= i < v@.len() ==> v@[i] == preset_at(i as nat),
    {
        let mut v: Vec<ThemePreset> = Vec::new();
        v.push(ThemePreset::WarmPaperDark);
        v.push(ThemePreset::WarmPaperLight);
        v.push(ThemePreset::AzulClassic);
        v.push(ThemePreset::Monokai);
        v.push(ThemePreset::Gruvbox);
        v.push(ThemePreset::Nord);
        v.push(ThemePreset::Dracula);
        v.push(ThemePreset::Catppuccin);
        v
    }

    /// The next preset, wrapping around.
    pub fn next(&self) -> (p: ThemePreset)
        ensures
            p == preset_after(*self),
    {
        match self {
            ThemePreset::WarmPaperDark => ThemePreset::WarmPaperLight,
            ThemePreset::WarmPaperLight => ThemePreset::AzulClassic,
            ThemePreset::AzulClassic => ThemePreset::Monokai,
            ThemePreset::Monokai => ThemePreset::Gruvbox,
            ThemePreset::Gruvbox => ThemePreset::Nord,
            ThemePreset::Nord => ThemePreset::Dracula,
            ThemePreset::Dracula => ThemePreset::Catppuccin,
            ThemePreset::Catppuccin => ThemePreset::WarmPaperDark,
        }
    }

    /// The previous preset, wrapping around.
    pub fn prev(&self) -> (p: ThemePreset)
        ensures
            p == preset_before(*self),
    {
        match self {
            ThemePreset::WarmPaperDark => ThemePreset::Catppuccin,
            ThemePreset::WarmPaperLight => ThemePreset::WarmPaperDark,
            ThemePreset::AzulClassic => ThemePreset::WarmPaperLight,
            ThemePreset::Monokai => ThemePreset::AzulClassic,
            ThemePreset::Gruvbox => ThemePreset::Monokai,
            ThemePreset::Nord => ThemePreset::Gruvbox,
            ThemePreset::Dracula => ThemePreset::Nord,
            ThemePreset::Catppuccin => ThemePreset::Dracula,
        }
    }
}

/// `next` and `prev` undo each other, and going forward once per preset comes back.
pub proof fn law_preset_cycle(p: ThemePreset)
    ensures
        preset_before(preset_after(p)) == p,
        preset_after(preset_before(p)) == p,
        preset_at(preset_index(p)) == p,
        preset_index(p) < preset_count(),
{
}

/// Theme colour configuration.
#[derive(Debug, Clone, Copy, PartialEq, Eq, Structural)]
pub struct ThemeColors {
    pub primary: Color,
    pub primary_bright: Color,
    pub primary_dim: Color,
    pub secondary: Color,
    pub tertiary: Color,
    pub success: Color,
    pub warning: Color,
    pub error: Color,
    pub info: Color,
    pub text: Color,
    pub text_dim: Color,
    pub text_muted: Color,
    pub bg: Color,
    pub bg_secondary: Color,
    pub bg_highlight: Color,
    pub border: Color,
    pub border_active: Color,
    pub focus_ring: Color,
}

/// The warm paper dark palette: Rich charcoal base with warm tan accents.
pub open spec fn warm_paper_dark_palette() -> ThemeColors {
    ThemeColors {
        primary: Color::Rgb(159, 138, 96),
        primary_bright: Color::Rgb(194, 169, 118),
        primary_dim: Color::Rgb(128, 111, 77),
        secondary: Color::Rgb(168, 142, 122),
        tertiary: Color::Rgb(179, 161, 116),
        success: Color::Rgb(134, 156, 118),
        warning: Color::Rgb(199, 163, 104),
        error: Color::Rgb(186, 120, 110),
        info: Color::Rgb(138, 157, 168),
        text: Color::Rgb(240, 236, 224),
        text_dim: Color::Rgb(204, 198, 183),
        text_muted: Color::Rgb(145, 140, 130),
        bg: Color::Rgb(27, 27, 27),
        bg_secondary: Color::Rgb(30, 30, 30),
        bg_highlight: Color::Rgb(42, 40, 38),
        border: Color::Rgb(51, 49, 47),
        border_active: Color::Rgb(96, 88, 77),
        focus_ring: Color::Rgb(143, 124, 97),
    }
}

/// The warm paper light palette: Cream paper background with dark warm text.
pub open spec fn warm_paper_light_palette() -> ThemeColors {
    ThemeColors {
        primary: Color::Rgb(128, 107, 77),
        primary_bright: Color::Rgb(156, 132, 96),
        primary_dim: Color::Rgb(102, 85, 61),
        secondary: Color::Rgb(138, 112, 92),
        tertiary: Color::Rgb(143, 128, 89),
        success: Color::Rgb(92, 128, 82),
        warning: Color::Rgb(176, 137, 76),
        error: Color::Rgb(166, 89, 78),
        info: Color::Rgb(98, 122, 138),
        text: Color::Rgb(44, 40, 33),
        text_dim: Color::Rgb(86, 78, 67),
        text_muted: Color::Rgb(140, 131, 115),
        bg: Color::Rgb(251, 249, 244),
        bg_secondary: Color::Rgb(247, 244, 237),
        bg_highlight: Color::Rgb(240, 236, 227),
        border: Color::Rgb(223, 218, 207),
        border_active: Color::Rgb(194, 182, 158),
        focus_ring: Color::Rgb(77, 66, 51),
    }
}

/// The azul classic palette: The original Tokyo Night based palette.
pub open spec fn azul_classic_palette() -> ThemeColors {
    ThemeColors {
        primary: Color::Rgb(0, 191, 255),
        primary_bright: Color::Rgb(125, 207, 255),
        primary_dim: Color::Rgb(0, 140, 200),
        secondary: Color::Rgb(187, 154, 247),
        tertiary: Color::Rgb(255, 169, 0),
        success: Color::Rgb(158, 206, 106),
        warning: Color::Rgb(255, 169, 0),
        error: Color::Rgb(247, 118, 142),
        info: Color::Rgb(122, 162, 247),
        text: Color::Rgb(192, 202, 245),
        text_dim: Color::Rgb(165, 175, 215),
        text_muted: Color::Rgb(125, 137, 168),
        bg: Color::Rgb(26, 27, 38),
        bg_secondary: Color::Rgb(36, 40, 59),
        bg_highlight: Color::Rgb(41, 46, 66),
        border: Color::Rgb(122, 162, 247),
        border_active: Color::Rgb(0, 191, 255),
        focus_ring: Color::Rgb(122, 162, 247),
    }
}

/// The monokai palette: Monokai.
pub open spec fn monokai_palette() -> ThemeColors {
    ThemeColors {
        primary: Color::Rgb(102, 217, 239),
        primary_bright: Color::Rgb(166, 226, 46),
        primary_dim: Color::Rgb(82, 190, 200),
        secondary: Color::Rgb(174, 129, 255),
        tertiary: Color::Rgb(253, 151, 31),
        success: Color::Rgb(166, 226, 46),
        warning: Color::Rgb(253, 151, 31),
        error: Color::Rgb(249, 38, 114),
        info: Color::Rgb(102, 217, 239),
        text: Color::Rgb(248, 248, 242),
        text_dim: Color::Rgb(200, 200, 195),
        text_muted: Color::Rgb(117, 113, 94),
        bg: Color::Rgb(39, 40, 34),
        bg_secondary: Color::Rgb(49, 50, 44),
        bg_highlight: Color::Rgb(59, 60, 54),
        border: Color::Rgb(102, 217, 239),
        border_active: Color::Rgb(166, 226, 46),
        focus_ring: Color::Rgb(102, 217, 239),
    }
}

/// The gruvbox palette: Gruvbox dark.
pub open spec fn gruvbox_palette() -> ThemeColors {
    ThemeColors {
        primary: Color::Rgb(215, 153, 33),
        primary_bright: Color::Rgb(250, 189, 47),
        primary_dim: Color::Rgb(181, 118, 20),
        secondary: Color::Rgb(211, 134, 155),
        tertiary: Color::Rgb(254, 128, 25),
        success: Color::Rgb(152, 151, 26),
        warning: Color::Rgb(254, 128, 25),
        error: Color::Rgb(204, 36, 29),
        info: Color::Rgb(69, 133, 136),
        text: Color::Rgb(235, 219, 178),
        text_dim: Color::Rgb(213, 196, 161),
        text_muted: Color::Rgb(168, 153, 132),
        bg: Color::Rgb(40, 40, 40),
        bg_secondary: Color::Rgb(50, 48, 47),
        bg_highlight: Color::Rgb(60, 56, 54),
        border: Color::Rgb(215, 153, 33),
        border_active: Color::Rgb(250, 189, 47),
        focus_ring: Color::Rgb(215, 153, 33),
    }
}

/// The nord palette: Nord.
pub open spec fn nord_palette() -> ThemeColors {
    ThemeColors {
        primary: Color::Rgb(136, 192, 208),
        primary_bright: Color::Rgb(143, 188, 187),
        primary_dim: Color::Rgb(94, 129, 172),
        secondary: Color::Rgb(180, 142, 173),
        tertiary: Color::Rgb(208, 135, 112),
        success: Color::Rgb(163, 190, 140),
        warning: Color::Rgb(235, 203, 139),
        error: Color::Rgb(191, 97, 106),
        info: Color::Rgb(129, 161, 193),
        text: Color::Rgb(236, 239, 244),
        text_dim: Color::Rgb(216, 222, 233),
        text_muted: Color::Rgb(76, 86, 106),
        bg: Color::Rgb(46, 52, 64),
        bg_secondary: Color::Rgb(59, 66, 82),
        bg_highlight: Color::Rgb(67, 76, 94),
        border: Color::Rgb(136, 192, 208),
        border_active: Color::Rgb(143, 188, 187),
        focus_ring: Color::Rgb(136, 192, 208),
    }
}

/// The dracula palette: Dracula.
pub open spec fn dracula_palette() -> ThemeColors {
    ThemeColors {
        primary: Color::Rgb(189, 147, 249),
        primary_bright: Color::Rgb(255, 121, 198),
        primary_dim: Color::Rgb(139, 233, 253),
        secondary: Color::Rgb(255, 121, 198),
        tertiary: Color::Rgb(255, 184, 108),
        success: Color::Rgb(80, 250, 123),
        warning: Color::Rgb(241, 250, 140),
        error: Color::Rgb(255, 85, 85),
        info: Color::Rgb(139, 233, 253),
        text: Color::Rgb(248, 248, 242),
        text_dim: Color::Rgb(226, 226, 220),
        text_muted: Color::Rgb(98, 114, 164),
        bg: Color::Rgb(40, 42, 54),
        bg_secondary: Color::Rgb(68, 71, 90),
        bg_highlight: Color::Rgb(55, 58, 76),
        border: Color::Rgb(189, 147, 249),
        border_active: Color::Rgb(255, 121, 198),
        focus_ring: Color::Rgb(189, 147, 249),
    }
}

/// The catppuccin palette: Catppuccin Mocha.
pub open spec fn catppuccin_palette() -> ThemeColors {
    ThemeColors {
        primary: Color::Rgb(137, 180, 250),
        primary_bright: Color::Rgb(148, 226, 213),
        primary_dim: Color::Rgb(116, 199, 236),
        secondary: Color::Rgb(203, 166, 247),
        tertiary: Color::Rgb(250, 179, 135),
        success: Color::Rgb(166, 227, 161),
        warning: Color::Rgb(249, 226, 175),
        error: Color::Rgb(243, 139, 168),
        info: Color::Rgb(137, 220, 235),
        text: Color::Rgb(205, 214, 244),
        text_dim: Color::Rgb(186, 194, 222),
        text_muted: Color::Rgb(108, 112, 134),
        bg: Color::Rgb(30, 30, 46),
        bg_secondary: Color::Rgb(49, 50, 68),
        bg_highlight: Color::Rgb(69, 71, 90),
        border: Color::Rgb(137, 180, 250),
        border_active: Color::Rgb(203, 166, 247),
        focus_ring: Color::Rgb(137, 180, 250),
    }
}

/// The palette of a preset.
pub open spec fn preset_palette(p: ThemePreset) -> ThemeColors {
    match p {
        ThemePreset::WarmPaperDark => warm_paper_dark_palette(),
        ThemePreset::WarmPaperLight => warm_paper_light_palette(),
        ThemePreset::AzulClassic => azul_classic_palette(),
        ThemePreset::Monokai => monokai_palette(),
        ThemePreset::Gruvbox => gruvbox_palette(),
        ThemePreset::Nord => nord_palette(),
        ThemePreset::Dracula => dracula_palette(),
        ThemePreset::Catppuccin => catppuccin_palette(),
    }
}

impl ThemeColors {
    /// Colours for a preset.
    pub fn from_preset(preset: ThemePreset) -> (c: ThemeColors)
        ensures
            c == preset_palette(preset),
    {
        match preset {
            ThemePreset::WarmPaperDark => Self::warm_paper_dark(),
            ThemePreset::WarmPaperLight => Self::warm_paper_light(),
            ThemePreset::AzulClassic => Self::azul_classic(),
            ThemePreset::Monokai => Self::monokai(),
            ThemePreset::Gruvbox => Self::gruvbox(),
            ThemePreset::Nord => Self::nord(),
            ThemePreset::Dracula => Self::dracula(),
            ThemePreset::Catppuccin => Self::catppuccin(),
        }
    }

    fn warm_paper_dark() -> (c: ThemeColors)
        ensures
            c == warm_paper_dark_palette(),
    {
        ThemeColors {
            primary: Color::Rgb(159, 138, 96),
            primary_bright: Color::Rgb(194, 169, 118),
            primary_dim: Color::Rgb(128, 111, 77),
            secondary: Color::Rgb(168, 142, 122),
            tertiary: Color::Rgb(179, 161, 116),
            success: Color::Rgb(134, 156, 118),
            warning: Color::Rgb(199, 163, 104),
            error: Color::Rgb(186, 120, 110),
            info: Color::Rgb(138, 157, 168),
            text: Color::Rgb(240, 236, 224),
            text_dim: Color::Rgb(204, 198, 183),
            text_muted: Color::Rgb(145, 140, 130),
            bg: Color::Rgb(27, 27, 27),
            bg_secondary: Color::Rgb(30, 30, 30),
            bg_highlight: Color::Rgb(42, 40, 38),
            border: Color::Rgb(51, 49, 47),
            border_active: Color::Rgb(96, 88, 77),
            focus_ring: Color::Rgb(143, 124, 97),
        }
    }

    fn warm_paper_light() -> (c: ThemeColors)
        ensures
            c == warm_paper_light_palette(),
    {
        ThemeColors {
            primary: Color::Rgb(128, 107, 77),
            primary_bright: Color::Rgb(156, 132, 96),
            primary_dim: Color::Rgb(102, 85, 61),
            secondary: Color::Rgb(138, 112, 92),
            tertiary: Color::Rgb(143, 128, 89),
            success: Color::Rgb(92, 128, 82),
            warning: Color::Rgb(176, 137, 76),
            error: Color::Rgb(166, 89, 78),
            info: Color::Rgb(98, 122, 138),
            text: Color::Rgb(44, 40, 33),
            text_dim: Color::Rgb(86, 78, 67),
            text_muted: Color::Rgb(140, 131, 115),
            bg: Color::Rgb(251, 249, 244),
            bg_secondary: Color::Rgb(247, 244, 237),
            bg_highlight: Color::Rgb(240, 236, 227),
            border: Color::Rgb(223, 218, 207),
            border_active: Color::Rgb(194, 182, 158),
            focus_ring: Color::Rgb(77, 66, 51),
        }
    }

    fn azul_classic() -> (c: ThemeColors)
        ensures
            c == azul_classic_palette(),
    {
        ThemeColors {
            primary: Color::Rgb(0, 191, 255),
            primary_bright: Color::Rgb(125, 207, 255),
            primary_dim: Color::Rgb(0, 140, 200),
            secondary: Color::Rgb(187, 154, 247),
            tertiary: Color::Rgb(255, 169, 0),
            success: Color::Rgb(158, 206, 106),
            warning: Color::Rgb(255, 169, 0),
            error: Color::Rgb(247, 118, 142),
            info: Color::Rgb(122, 162, 247),
            text: Color::Rgb(192, 202, 245),
            text_dim: Color::Rgb(165, 175, 215),
            text_muted: Color::Rgb(125, 137, 168),
            bg: Color::Rgb(26, 27, 38),
            bg_secondary: Color::Rgb(36, 40, 59),
            bg_highlight: Color::Rgb(41, 46, 66),
            border: Color::Rgb(122, 162, 247),
            border_active: Color::Rgb(0, 191, 255),
            focus_ring: Color::Rgb(122, 162, 247),
        }
    }

    fn monokai() -> (c: ThemeColors)
        ensures
            c == monokai_palette(),
    {
        ThemeColors {
            primary: Color::Rgb(102, 217, 239),
            primary_bright: Color::Rgb(166, 226, 46),
            primary_dim: Color::Rgb(82, 190, 200),
            secondary: Color::Rgb(174, 129, 255),
            tertiary: Color::Rgb(253, 151, 31),
            success: Color::Rgb(166, 226, 46),
            warning: Color::Rgb(253, 151, 31),
            error: Color::Rgb(249, 38, 114),
            info: Color::Rgb(102, 217, 239),
            text: Color::Rgb(248, 248, 242),
            text_dim: Color::Rgb(200, 200, 195),
            text_muted: Color::Rgb(117, 113, 94),
            bg: Color::Rgb(39, 40, 34),
            bg_secondary: Color::Rgb(49, 50, 44),
            bg_highlight: Color::Rgb(59, 60, 54),
            border: Color::Rgb(102, 217, 239),
            border_active: Color::Rgb(166, 226, 46),
            focus_ring: Color::Rgb(102, 217, 239),
        }
    }

    fn gruvbox() -> (c: ThemeColors)
        ensures
            c == gruvbox_palette(),
    {
        ThemeColors {
            primary: Color::Rgb(215, 153, 33),
            primary_bright: Color::Rgb(250, 189, 47),
            primary_dim: Color::Rgb(181, 118, 20),
            secondary: Color::Rgb(211, 134, 155),
            tertiary: Color::Rgb(254, 128, 25),
            success: Color::Rgb(152, 151, 26),
            warning: Color::Rgb(254, 128, 25),
            error: Color::Rgb(204, 36, 29),
            info: Color::Rgb(69, 133, 136),
            text: Color::Rgb(235, 219, 178),
            text_dim: Color::Rgb(213, 196, 161),
            text_muted: Color::Rgb(168, 153, 132),
            bg: Color::Rgb(40, 40, 40),
            bg_secondary: Color::Rgb(50, 48, 47),
            bg_highlight: Color::Rgb(60, 56, 54),
            border: Color::Rgb(215, 153, 33),
            border_active: Color::Rgb(250, 189, 47),
            focus_ring: Color::Rgb(215, 153, 33),
        }
    }

    fn nord() -> (c: ThemeColors)
        ensures
            c == nord_palette(),
    {
        ThemeColors {
            primary: Color::Rgb(136, 192, 208),
            primary_bright: Color::Rgb(143, 188, 187),
            primary_dim: Color::Rgb(94, 129, 172),
            secondary: Color::Rgb(180, 142, 173),
            tertiary: Color::Rgb(208, 135, 112),
            success: Color::Rgb(163, 190, 140),
            warning: Color::Rgb(235, 203, 139),
            error: Color::Rgb(191, 97, 106),
            info: Color::Rgb(129, 161, 193),
            text: Color::Rgb(236, 239, 244),
            text_dim: Color::Rgb(216, 222, 233),
            text_muted: Color::Rgb(76, 86, 106),
            bg: Color::Rgb(46, 52, 64),
            bg_secondary: Color::Rgb(59, 66, 82),
            bg_highlight: Color::Rgb(67, 76, 94),
            border: Color::Rgb(136, 192, 208),
            border_active: Color::Rgb(143, 188, 187),
            focus_ring: Color::Rgb(136, 192, 208),
        }
    }

    fn dracula() -> (c: ThemeColors)
        ensures
            c == dracula_palette(),
    {
        ThemeColors {
            primary: Color::Rgb(189, 147, 249),
            primary_bright: Color::Rgb(255, 121, 198),
            primary_dim: Color::Rgb(139, 233, 253),
            secondary: Color::Rgb(255, 121, 198),
            tertiary: Color::Rgb(255, 184, 108),
            success: Color::Rgb(80, 250, 123),
            warning: Color::Rgb(241, 250, 140),
            error: Color::Rgb(255, 85, 85),
            info: Color::Rgb(139, 233, 253),
            text: Color::Rgb(248, 248, 242),
            text_dim: Color::Rgb(226, 226, 220),
            text_muted: Color::Rgb(98, 114, 164),
            bg: Color::Rgb(40, 42, 54),
            bg_secondary: Color::Rgb(68, 71, 90),
            bg_highlight: Color::Rgb(55, 58, 76),
            border: Color::Rgb(189, 147, 249),
            border_active: Color::Rgb(255, 121, 198),
            focus_ring: Color::Rgb(189, 147, 249),
        }
    }

    fn catppuccin() -> (c: ThemeColors)
        ensures
            c == catppuccin_palette(),
    {
        ThemeColors {
            primary: Color::Rgb(137, 180, 250),
            primary_bright: Color::Rgb(148, 226, 213),
            primary_dim: Color::Rgb(116, 199, 236),
            secondary: Color::Rgb(203, 166, 247),
            tertiary: Color::Rgb(250, 179, 135),
            success: Color::Rgb(166, 227, 161),
            warning: Color::Rgb(249, 226, 175),
            error: Color::Rgb(243, 139, 168),
            info: Color::Rgb(137, 220, 235),
            text: Color::Rgb(205, 214, 244),
            text_dim: Color::Rgb(186, 194, 222),
            text_muted: Color::Rgb(108, 112, 134),
            bg: Color::Rgb(30, 30, 46),
            bg_secondary: Color::Rgb(49, 50, 68),
            bg_highlight: Color::Rgb(69, 71, 90),
            border: Color::Rgb(137, 180, 250),
            border_active: Color::Rgb(203, 166, 247),
            focus_ring: Color::Rgb(137, 180, 250),
        }
    }

}

/// Runtime theme switching; the colours always belong to the current preset.
pub struct ThemeManager {
    current_preset: ThemePreset,
    colors: ThemeColors,
}

impl ThemeManager {
    #[verifier::type_invariant]
    spec fn palette_matches(self) -> bool {
        self.colors == preset_palette(self.current_preset)
    }

    /// The current preset.
    pub closed spec fn spec_preset(self) -> ThemePreset {
        self.current_preset
    }

    /// Start on Warm Paper Dark.
    pub fn new() -> (m: ThemeManager)
        ensures
            m.spec_preset() == ThemePreset::WarmPaperDark,
    {
        let preset = ThemePreset::WarmPaperDark;
        ThemeManager { current_preset: preset, colors: ThemeColors::from_preset(preset) }
    }

    /// Start on the given preset.
    pub fn with_preset(preset: ThemePreset) -> (m: ThemeManager)
        ensures
            m.spec_preset() == preset,
    {
        ThemeManager { current_preset: preset, colors: ThemeColors::from_preset(preset) }
    }

    /// The current preset.
    pub fn preset(&self) -> (p: ThemePreset)
        ensures
            p == self.spec_preset(),
    {
        self.current_preset
    }

    /// The current colours.
    pub fn colors(&self) -> (c: &ThemeColors)
        ensures
            *c == preset_palette(self.spec_preset()),
    {
        proof {
            use_type_invariant(self);
        }
        &self.colors
    }

    /// Switch to the next preset and return its name.
    pub fn cycle_next(&mut self) -> (name: &'static str)
        ensures
            final(self).spec_preset() == preset_after(old(self).spec_preset()),
            name@ == preset_name(final(self).spec_preset()),
    {
        let p = self.current_preset.next();
        self.set_theme(p);
        p.name()
    }

    /// Switch to the previous preset and return its name.
    pub fn cycle_prev(&mut self) -> (name: &'static str)
        ensures
            final(self).spec_preset() == preset_before(old(self).spec_preset()),
            name@ == preset_name(final(self).spec_preset()),
    {
        let p = self.current_preset.prev();
        self.set_theme(p);
        p.name()
    }

    /// Switch to a given preset.
    pub fn set_theme(&mut self, preset: ThemePreset)
        ensures
            final(self).spec_preset() == preset,
    {
        let colors = ThemeColors::from_preset(preset);
        *self = ThemeManager { current_preset: preset, colors };
    }

    /// Whether the current preset is the light one.
    pub fn is_light_mode(&self) -> (b: bool)
        ensures
            b == (self.spec_preset() == ThemePreset::WarmPaperLight),
    {
        match self.current_preset {
            ThemePreset::WarmPaperLight => true,
            _ => false,
        }
    }
}

impl Default for ThemeManager {
    fn default() -> (m: ThemeManager)
        ensures
            m.spec_preset() == ThemePreset::WarmPaperDark,
    {
        ThemeManager::new()
    }
}

} // verus!
