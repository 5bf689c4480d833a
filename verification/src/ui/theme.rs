//! Theme names and the colours each theme gives the palette.

use vstd::prelude::*;

verus! {

/// The themes a user can pick.
#[derive(Debug, Clone, Copy, PartialEq, Eq, Structural)]
pub enum ThemeName {
    Mist,
    Ink,
    Paper,
}

/// The name a theme is stored under in the config file.
pub open spec fn theme_text(theme: ThemeName) -> Seq<char> {
    match theme {
        ThemeName::Mist => "mist"@,
        ThemeName::Ink => "ink"@,
        ThemeName::Paper => "paper"@,
    }
}

impl Default for ThemeName {
    fn default() -> (r: Self)
        ensures
            r == ThemeName::Mist,
    {
        ThemeName::Mist
    }
}

impl ThemeName {
    pub fn as_str(self) -> (r: &'static str)
        ensures
            r@ == theme_text(self),
    {
        match self {
            ThemeName::Mist => "mist",
            ThemeName::Ink => "ink",
            ThemeName::Paper => "paper",
        }
    }
}

/// The terminal colours the palettes use.
#[derive(Debug, Clone, Copy, PartialEq, Eq, Structural)]
pub enum ThemeColor {
    White,
    Black,
    Gray,
    DarkGray,
    Yellow,
    Cyan,
    Blue,
    LightCyan,
    LightYellow,
    LightBlue,
    LightMagenta,
    LightGreen,
}

/// The colour of each part of a palette.
#[derive(Debug, Clone, Copy, PartialEq, Eq, Structural)]
pub struct PaletteColors {
    pub title_fg: ThemeColor,
    pub query_fg: ThemeColor,
    pub filter_fg: ThemeColor,
    pub muted_fg: ThemeColor,
    pub selected_fg: ThemeColor,
    pub selected_bg: ThemeColor,
}

/// The colours of each theme.
pub open spec fn theme_colors(theme: ThemeName) -> PaletteColors {
    match theme {
        ThemeName::Mist => PaletteColors {
            title_fg: ThemeColor::White,
            query_fg: ThemeColor::Yellow,
            filter_fg: ThemeColor::Cyan,
            muted_fg: ThemeColor::DarkGray,
            selected_fg: ThemeColor::Black,
            selected_bg: ThemeColor::Cyan,
        },
        ThemeName::Ink => PaletteColors {
            title_fg: ThemeColor::LightCyan,
            query_fg: ThemeColor::LightYellow,
            filter_fg: ThemeColor::LightBlue,
            muted_fg: ThemeColor::DarkGray,
            selected_fg: ThemeColor::White,
            selected_bg: ThemeColor::Blue,
        },
        ThemeName::Paper => PaletteColors {
            title_fg: ThemeColor::White,
            query_fg: ThemeColor::LightMagenta,
            filter_fg: ThemeColor::LightGreen,
            muted_fg: ThemeColor::Gray,
            selected_fg: ThemeColor::Black,
            selected_bg: ThemeColor::Yellow,
        },
    }
}

impl PaletteColors {
    pub fn for_theme(theme: ThemeName) -> (r: PaletteColors)
        ensures
            r == theme_colors(theme),
    {
        match theme {
            ThemeName::Mist => PaletteColors {
                title_fg: ThemeColor::White,
                query_fg: ThemeColor::Yellow,
                filter_fg: ThemeColor::Cyan,
                muted_fg: ThemeColor::DarkGray,
                selected_fg: ThemeColor::Black,
                selected_bg: ThemeColor::Cyan,
            },
            ThemeName::Ink => PaletteColors {
                title_fg: ThemeColor::LightCyan,
                query_fg: ThemeColor::LightYellow,
                filter_fg: ThemeColor::LightBlue,
                muted_fg: ThemeColor::DarkGray,
                selected_fg: ThemeColor::White,
                selected_bg: ThemeColor::Blue,
            },
            ThemeName::Paper => PaletteColors {
                title_fg: ThemeColor::White,
                query_fg: ThemeColor::LightMagenta,
                filter_fg: ThemeColor::LightGreen,
                muted_fg: ThemeColor::Gray,
                selected_fg: ThemeColor::Black,
                selected_bg: ThemeColor::Yellow,
            },
        }
    }
}

/// Each theme highlights the selected row in a colour of its own.
pub proof fn themes_have_distinct_selection(a: ThemeName, b: ThemeName)
    requires
        a != b,
    ensures
        theme_colors(a).selected_bg != theme_colors(b).selected_bg,
{
}

} // verus!
