//! Colors and the theme's named style slots.  The engine never interprets
//! colors; it only carries them into the rendered spans.

use vstd::prelude::*;

verus! {

/// A terminal color.  Mirrors the palette of common terminal backends.
#[derive(Debug, Clone, Copy, PartialEq, Eq, Structural)]
pub enum Color {
    Reset,
    Black,
    Red,
    Green,
    Yellow,
    Blue,
    Magenta,
    Cyan,
    Gray,
    DarkGray,
    LightRed,
    LightGreen,
    LightYellow,
    LightBlue,
    LightMagenta,
    LightCyan,
    White,
    Rgb(u8, u8, u8),
    Indexed(u8),
}

/// The named style slots the renderer draws with.
#[derive(Debug, Clone, Copy, PartialEq, Eq, Structural)]
pub struct ColorTheme {
    pub bg: Color,
    pub action_run_bg: Color,
    pub action_run_fg: Color,
    pub action_build_bg: Color,
    pub action_build_fg: Color,
    pub input_fg: Color,
    pub numbers_fg: Color,
    pub kind_fg: Color,
    pub name_fg: Color,
    pub name_match_fg: Color,
    pub path_fg: Color,
    pub features_fg: Color,
    pub selected_bg: Color,
}

impl Default for ColorTheme {
    fn default() -> (r: Self)
        ensures
            r == ColorTheme::standard(),
    {
        ColorTheme {
            bg: Color::Reset,
            action_run_bg: Color::Green,
            action_run_fg: Color::Black,
            action_build_bg: Color::Blue,
            action_build_fg: Color::Black,
            input_fg: Color::Reset,
            numbers_fg: Color::DarkGray,
            kind_fg: Color::Blue,
            name_fg: Color::White,
            name_match_fg: Color::Red,
            path_fg: Color::DarkGray,
            features_fg: Color::DarkGray,
            selected_bg: Color::Yellow,
        }
    }
}

impl ColorTheme {
    /// The default palette.
    pub open spec fn standard() -> ColorTheme {
        ColorTheme {
            bg: Color::Reset,
            action_run_bg: Color::Green,
            action_run_fg: Color::Black,
            action_build_bg: Color::Blue,
            action_build_fg: Color::Black,
            input_fg: Color::Reset,
            numbers_fg: Color::DarkGray,
            kind_fg: Color::Blue,
            name_fg: Color::White,
            name_match_fg: Color::Red,
            path_fg: Color::DarkGray,
            features_fg: Color::DarkGray,
            selected_bg: Color::Yellow,
        }
    }
}

} // verus!
