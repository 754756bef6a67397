//! Colour themes: which theme a name selects, and which colour each theme
//! gives to each role.
//!
//! The dark and the light theme take their colours from the Catppuccin
//! palettes Mocha and Latte; the basic theme uses the sixteen terminal
//! colours, and the plain theme none.

use crate::text::{lowercase, str_eq, to_lowercase};
use vstd::prelude::*;

verus! {

/// A colour theme.
#[derive(Debug, Clone, Copy, PartialEq, Eq, Structural)]
pub enum ThemeMode {
    Dark,
    Light,
    Basic,
    Plain,
}

/// One of the sixteen terminal colours that the basic theme uses.
#[derive(Debug, Clone, Copy, PartialEq, Eq, Structural)]
pub enum AnsiColor {
    Red,
    Green,
    Yellow,
    Magenta,
    Cyan,
    White,
    DarkGray,
    LightGray,
    LightYellow,
    LightBlue,
    LightMagenta,
}

/// A colour given by its red, green and blue parts.
#[derive(Debug, Clone, Copy, PartialEq, Eq, Structural)]
pub struct Rgb {
    pub r: u8,
    pub g: u8,
    pub b: u8,
}

/// How a piece of text is coloured.
#[derive(Debug, Clone, Copy, PartialEq, Eq, Structural)]
pub enum Paint {
    /// In the terminal's own colour.
    Plain,
    /// In one of the sixteen terminal colours.
    Ansi(AnsiColor),
    /// In a colour of a palette.
    Rgb(Rgb),
}

/// What a piece of text is: the role by which its colour is chosen.
#[derive(Debug, Clone, Copy, PartialEq, Eq, Structural)]
pub enum Swatch {
    Pink,
    Mauve,
    Teal,
    Peach,
    Green,
    Red,
    Yellow,
    Sapphire,
    Text,
    Subtext0,
    Subtext1,
    Overlay0,
    Surface0,
    Surface1,
}

/// The theme that a name in lowercase selects; an unknown name selects the
/// dark theme.
pub open spec fn mode_named(name: Seq<char>) -> ThemeMode {
    if name == "light"@ || name == "latte"@ {
        ThemeMode::Light
    } else if name == "basic"@ || name == "16"@ {
        ThemeMode::Basic
    } else if name == "plain"@ || name == "none"@ || name == "off"@ {
        ThemeMode::Plain
    } else {
        ThemeMode::Dark
    }
}

/// The name of a theme.
pub open spec fn mode_name(mode: ThemeMode) -> Seq<char> {
    match mode {
        ThemeMode::Light => "light"@,
        ThemeMode::Dark => "dark"@,
        ThemeMode::Basic => "basic"@,
        ThemeMode::Plain => "plain"@,
    }
}

/// The theme after a toggle: light after dark, dark after any other.
pub open spec fn toggled(mode: ThemeMode) -> ThemeMode {
    match mode {
        ThemeMode::Dark => ThemeMode::Light,
        _ => ThemeMode::Dark,
    }
}

/// The number that stands for a theme.
pub open spec fn mode_code(mode: ThemeMode) -> u8 {
    match mode {
        ThemeMode::Dark => 0,
        ThemeMode::Light => 1,
        ThemeMode::Basic => 2,
        ThemeMode::Plain => 3,
    }
}

/// A theme's name selects that theme.
pub proof fn law_mode_name_selects(mode: ThemeMode)
    ensures
        mode_named(mode_name(mode)) == mode,
{
    reveal_strlit("light");
    reveal_strlit("latte");
    reveal_strlit("dark");
    reveal_strlit("basic");
    reveal_strlit("16");
    reveal_strlit("plain");
    reveal_strlit("none");
    reveal_strlit("off");
    assert("dark"@[0] == 'd');
    assert("light"@[0] == 'l');
    assert("latte"@[0] == 'l');
    assert("basic"@[0] == 'b');
    assert("plain"@[0] == 'p');
    assert("none"@[0] == 'n');
    assert("off"@[0] == 'o');
    assert("16"@[0] == '1');
    assert("light"@[1] == 'i');
    assert("latte"@[1] == 'a');
}

/// Two toggles from the dark or the light theme lead back to it.
pub proof fn law_toggle_twice(mode: ThemeMode)
    requires
        mode == ThemeMode::Dark || mode == ThemeMode::Light,
    ensures
        toggled(toggled(mode)) == mode,
{
}

/// The Mocha palette.
pub open spec fn mocha(swatch: Swatch) -> Rgb {
    match swatch {
        Swatch::Pink => Rgb { r: 245, g: 194, b: 231 },
        Swatch::Mauve => Rgb { r: 203, g: 166, b: 247 },
        Swatch::Teal => Rgb { r: 148, g: 226, b: 213 },
        Swatch::Peach => Rgb { r: 250, g: 179, b: 135 },
        Swatch::Green => Rgb { r: 166, g: 227, b: 161 },
        Swatch::Red => Rgb { r: 243, g: 139, b: 168 },
        Swatch::Yellow => Rgb { r: 249, g: 226, b: 175 },
        Swatch::Sapphire => Rgb { r: 116, g: 199, b: 236 },
        Swatch::Text => Rgb { r: 205, g: 214, b: 244 },
        Swatch::Subtext0 => Rgb { r: 166, g: 173, b: 200 },
        Swatch::Subtext1 => Rgb { r: 186, g: 194, b: 222 },
        Swatch::Overlay0 => Rgb { r: 108, g: 112, b: 134 },
        Swatch::Surface0 => Rgb { r: 49, g: 50, b: 68 },
        Swatch::Surface1 => Rgb { r: 69, g: 71, b: 90 },
    }
}

/// The Latte palette.
pub open spec fn latte(swatch: Swatch) -> Rgb {
    match swatch {
        Swatch::Pink => Rgb { r: 234, g: 118, b: 203 },
        Swatch::Mauve => Rgb { r: 136, g: 57, b: 239 },
        Swatch::Teal => Rgb { r: 23, g: 146, b: 153 },
        Swatch::Peach => Rgb { r: 254, g: 100, b: 11 },
        Swatch::Green => Rgb { r: 64, g: 160, b: 43 },
        Swatch::Red => Rgb { r: 210, g: 15, b: 57 },
        Swatch::Yellow => Rgb { r: 223, g: 142, b: 29 },
        Swatch::Sapphire => Rgb { r: 32, g: 159, b: 181 },
        Swatch::Text => Rgb { r: 76, g: 79, b: 105 },
        Swatch::Subtext0 => Rgb { r: 108, g: 111, b: 133 },
        Swatch::Subtext1 => Rgb { r: 92, g: 95, b: 119 },
        Swatch::Overlay0 => Rgb { r: 156, g: 160, b: 176 },
        Swatch::Surface0 => Rgb { r: 204, g: 208, b: 218 },
        Swatch::Surface1 => Rgb { r: 188, g: 192, b: 204 },
    }
}

/// The terminal colours of the basic theme.
pub open spec fn basic(swatch: Swatch) -> AnsiColor {
    match swatch {
        Swatch::Pink => AnsiColor::LightMagenta,
        Swatch::Mauve => AnsiColor::Magenta,
        Swatch::Teal => AnsiColor::Cyan,
        Swatch::Peach => AnsiColor::Yellow,
        Swatch::Green => AnsiColor::Green,
        Swatch::Red => AnsiColor::Red,
        Swatch::Yellow => AnsiColor::LightYellow,
        Swatch::Sapphire => AnsiColor::LightBlue,
        Swatch::Text => AnsiColor::White,
        Swatch::Subtext0 => AnsiColor::LightGray,
        Swatch::Subtext1 => AnsiColor::LightGray,
        Swatch::Overlay0 => AnsiColor::DarkGray,
        Swatch::Surface0 => AnsiColor::DarkGray,
        Swatch::Surface1 => AnsiColor::DarkGray,
    }
}

/// The colour that a theme gives to a role.
pub open spec fn style_spec(mode: ThemeMode, swatch: Swatch) -> Paint {
    match mode {
        ThemeMode::Plain => Paint::Plain,
        ThemeMode::Basic => Paint::Ansi(basic(swatch)),
        ThemeMode::Light => Paint::Rgb(latte(swatch)),
        ThemeMode::Dark => Paint::Rgb(mocha(swatch)),
    }
}

/// The palette colour of a role: from Latte under the light theme, from
/// Mocha under every other.
pub open spec fn color_spec(mode: ThemeMode, swatch: Swatch) -> Rgb {
    match mode {
        ThemeMode::Light => latte(swatch),
        _ => mocha(swatch),
    }
}

fn mocha_color(swatch: Swatch) -> (c: Rgb)
    ensures
        c == mocha(swatch),
{
    match swatch {
        Swatch::Pink => Rgb { r: 245, g: 194, b: 231 },
        Swatch::Mauve => Rgb { r: 203, g: 166, b: 247 },
        Swatch::Teal => Rgb { r: 148, g: 226, b: 213 },
        Swatch::Peach => Rgb { r: 250, g: 179, b: 135 },
        Swatch::Green => Rgb { r: 166, g: 227, b: 161 },
        Swatch::Red => Rgb { r: 243, g: 139, b: 168 },
        Swatch::Yellow => Rgb { r: 249, g: 226, b: 175 },
        Swatch::Sapphire => Rgb { r: 116, g: 199, b: 236 },
        Swatch::Text => Rgb { r: 205, g: 214, b: 244 },
        Swatch::Subtext0 => Rgb { r: 166, g: 173, b: 200 },
        Swatch::Subtext1 => Rgb { r: 186, g: 194, b: 222 },
        Swatch::Overlay0 => Rgb { r: 108, g: 112, b: 134 },
        Swatch::Surface0 => Rgb { r: 49, g: 50, b: 68 },
        Swatch::Surface1 => Rgb { r: 69, g: 71, b: 90 },
    }
}

fn latte_color(swatch: Swatch) -> (c: Rgb)
    ensures
        c == latte(swatch),
{
    match swatch {
        Swatch::Pink => Rgb { r: 234, g: 118, b: 203 },
        Swatch::Mauve => Rgb { r: 136, g: 57, b: 239 },
        Swatch::Teal => Rgb { r: 23, g: 146, b: 153 },
        Swatch::Peach => Rgb { r: 254, g: 100, b: 11 },
        Swatch::Green => Rgb { r: 64, g: 160, b: 43 },
        Swatch::Red => Rgb { r: 210, g: 15, b: 57 },
        Swatch::Yellow => Rgb { r: 223, g: 142, b: 29 },
        Swatch::Sapphire => Rgb { r: 32, g: 159, b: 181 },
        Swatch::Text => Rgb { r: 76, g: 79, b: 105 },
        Swatch::Subtext0 => Rgb { r: 108, g: 111, b: 133 },
        Swatch::Subtext1 => Rgb { r: 92, g: 95, b: 119 },
        Swatch::Overlay0 => Rgb { r: 156, g: 160, b: 176 },
        Swatch::Surface0 => Rgb { r: 204, g: 208, b: 218 },
        Swatch::Surface1 => Rgb { r: 188, g: 192, b: 204 },
    }
}

fn basic_color(swatch: Swatch) -> (c: AnsiColor)
    ensures
        c == basic(swatch),
{
    match swatch {
        Swatch::Pink => AnsiColor::LightMagenta,
        Swatch::Mauve => AnsiColor::Magenta,
        Swatch::Teal => AnsiColor::Cyan,
        Swatch::Peach => AnsiColor::Yellow,
        Swatch::Green => AnsiColor::Green,
        Swatch::Red => AnsiColor::Red,
        Swatch::Yellow => AnsiColor::LightYellow,
        Swatch::Sapphire => AnsiColor::LightBlue,
        Swatch::Text => AnsiColor::White,
        Swatch::Subtext0 => AnsiColor::LightGray,
        Swatch::Subtext1 => AnsiColor::LightGray,
        Swatch::Overlay0 => AnsiColor::DarkGray,
        Swatch::Surface0 => AnsiColor::DarkGray,
        Swatch::Surface1 => AnsiColor::DarkGray,
    }
}

/// The colour that a theme gives to a role.
pub fn style(mode: ThemeMode, swatch: Swatch) -> (p: Paint)
    ensures
        p == style_spec(mode, swatch),
{
    match mode {
        ThemeMode::Plain => Paint::Plain,
        ThemeMode::Basic => Paint::Ansi(basic_color(swatch)),
        ThemeMode::Light => Paint::Rgb(latte_color(swatch)),
        ThemeMode::Dark => Paint::Rgb(mocha_color(swatch)),
    }
}

/// The palette colour of a role.
pub fn color(mode: ThemeMode, swatch: Swatch) -> (c: Rgb)
    ensures
        c == color_spec(mode, swatch),
{
    match mode {
        ThemeMode::Light => latte_color(swatch),
        _ => mocha_color(swatch),
    }
}

/// The theme that a name in lowercase selects.
pub fn mode_from_name(lowered: &str) -> (mode: ThemeMode)
    ensures
        mode == mode_named(lowered@),
{
    if str_eq(lowered, "light") || str_eq(lowered, "latte") {
        ThemeMode::Light
    } else if str_eq(lowered, "basic") || str_eq(lowered, "16") {
        ThemeMode::Basic
    } else if str_eq(lowered, "plain") || str_eq(lowered, "none") || str_eq(lowered, "off") {
        ThemeMode::Plain
    } else {
        ThemeMode::Dark
    }
}

/// Selects the theme that `name` names, whatever its case.
pub fn set_theme(mode: &mut ThemeMode, name: &str)
    ensures
        *final(mode) == mode_named(lowercase(name@)),
{
    let lowered = to_lowercase(name);
    *mode = mode_from_name(lowered.as_str());
}

/// The name of the theme.
pub fn current_theme(mode: ThemeMode) -> (name: &'static str)
    ensures
        name@ == mode_name(mode),
{
    match mode {
        ThemeMode::Light => "light",
        ThemeMode::Dark => "dark",
        ThemeMode::Basic => "basic",
        ThemeMode::Plain => "plain",
    }
}

/// Switches between the dark and the light theme; from any other theme,
/// to the dark one.
pub fn toggle_theme(mode: &mut ThemeMode)
    ensures
        *final(mode) == toggled(*old(mode)),
{
    *mode = match *mode {
        ThemeMode::Dark => ThemeMode::Light,
        _ => ThemeMode::Dark,
    };
}

/// Whether the theme is the light one.
pub fn is_light(mode: ThemeMode) -> (r: bool)
    ensures
        r == (mode == ThemeMode::Light),
{
    mode == ThemeMode::Light
}

/// The number that stands for the theme.
pub fn mode(theme: ThemeMode) -> (code: u8)
    ensures
        code == mode_code(theme),
{
    match theme {
        ThemeMode::Dark => 0,
        ThemeMode::Light => 1,
        ThemeMode::Basic => 2,
        ThemeMode::Plain => 3,
    }
}

/// The colour of the role `Pink` under the theme.
pub fn pink(mode: ThemeMode) -> (p: Paint)
    ensures
        p == style_spec(mode, Swatch::Pink),
{
    style(mode, Swatch::Pink)
}

/// The colour of the role `Mauve` under the theme.
pub fn mauve(mode: ThemeMode) -> (p: Paint)
    ensures
        p == style_spec(mode, Swatch::Mauve),
{
    style(mode, Swatch::Mauve)
}

/// The colour of the role `Teal` under the theme.
pub fn teal(mode: ThemeMode) -> (p: Paint)
    ensures
        p == style_spec(mode, Swatch::Teal),
{
    style(mode, Swatch::Teal)
}

/// The colour of the role `Peach` under the theme.
pub fn peach(mode: ThemeMode) -> (p: Paint)
    ensures
        p == style_spec(mode, Swatch::Peach),
{
    style(mode, Swatch::Peach)
}

/// The colour of the role `Green` under the theme.
pub fn green(mode: ThemeMode) -> (p: Paint)
    ensures
        p == style_spec(mode, Swatch::Green),
{
    style(mode, Swatch::Green)
}

/// The colour of the role `Red` under the theme.
pub fn red(mode: ThemeMode) -> (p: Paint)
    ensures
        p == style_spec(mode, Swatch::Red),
{
    style(mode, Swatch::Red)
}

/// The colour of the role `Yellow` under the theme.
pub fn yellow(mode: ThemeMode) -> (p: Paint)
    ensures
        p == style_spec(mode, Swatch::Yellow),
{
    style(mode, Swatch::Yellow)
}

/// The colour of the role `Sapphire` under the theme.
pub fn sapphire(mode: ThemeMode) -> (p: Paint)
    ensures
        p == style_spec(mode, Swatch::Sapphire),
{
    style(mode, Swatch::Sapphire)
}

/// The colour of the role `Text` under the theme.
pub fn text(mode: ThemeMode) -> (p: Paint)
    ensures
        p == style_spec(mode, Swatch::Text),
{
    style(mode, Swatch::Text)
}

/// The colour of the role `Subtext0` under the theme.
pub fn subtext0(mode: ThemeMode) -> (p: Paint)
    ensures
        p == style_spec(mode, Swatch::Subtext0),
{
    style(mode, Swatch::Subtext0)
}

/// The colour of the role `Subtext1` under the theme.
pub fn subtext1(mode: ThemeMode) -> (p: Paint)
    ensures
        p == style_spec(mode, Swatch::Subtext1),
{
    style(mode, Swatch::Subtext1)
}

/// The colour of the role `Overlay0` under the theme.
pub fn overlay0(mode: ThemeMode) -> (p: Paint)
    ensures
        p == style_spec(mode, Swatch::Overlay0),
{
    style(mode, Swatch::Overlay0)
}

/// The colour of the role `Surface0` under the theme.
pub fn surface0(mode: ThemeMode) -> (p: Paint)
    ensures
        p == style_spec(mode, Swatch::Surface0),
{
    style(mode, Swatch::Surface0)
}

/// The colour of the role `Surface1` under the theme.
pub fn surface1(mode: ThemeMode) -> (p: Paint)
    ensures
        p == style_spec(mode, Swatch::Surface1),
{
    style(mode, Swatch::Surface1)
}

/// The colour of an error.
pub fn error(mode: ThemeMode) -> (p: Paint)
    ensures
        p == style_spec(mode, Swatch::Red),
{
    red(mode)
}

/// The colour of a success.
pub fn success(mode: ThemeMode) -> (p: Paint)
    ensures
        p == style_spec(mode, Swatch::Green),
{
    green(mode)
}

/// The colour of a warning.
pub fn warning(mode: ThemeMode) -> (p: Paint)
    ensures
        p == style_spec(mode, Swatch::Yellow),
{
    yellow(mode)
}

/// The colour of highlighted text.
pub fn highlight(mode: ThemeMode) -> (p: Paint)
    ensures
        p == style_spec(mode, Swatch::Mauve),
{
    mauve(mode)
}

/// The colour of an accent.
pub fn accent(mode: ThemeMode) -> (p: Paint)
    ensures
        p == style_spec(mode, Swatch::Teal),
{
    teal(mode)
}

/// The colour of dimmed text.
pub fn dim(mode: ThemeMode) -> (p: Paint)
    ensures
        p == style_spec(mode, Swatch::Overlay0),
{
    overlay0(mode)
}

/// The palette colour of the role `Sapphire` under the theme.
pub fn color_sapphire(mode: ThemeMode) -> (c: Rgb)
    ensures
        c == color_spec(mode, Swatch::Sapphire),
{
    color(mode, Swatch::Sapphire)
}

/// The palette colour of the role `Teal` under the theme.
pub fn color_teal(mode: ThemeMode) -> (c: Rgb)
    ensures
        c == color_spec(mode, Swatch::Teal),
{
    color(mode, Swatch::Teal)
}

/// The palette colour of the role `Mauve` under the theme.
pub fn color_mauve(mode: ThemeMode) -> (c: Rgb)
    ensures
        c == color_spec(mode, Swatch::Mauve),
{
    color(mode, Swatch::Mauve)
}

/// The palette colour of the role `Peach` under the theme.
pub fn color_peach(mode: ThemeMode) -> (c: Rgb)
    ensures
        c == color_spec(mode, Swatch::Peach),
{
    color(mode, Swatch::Peach)
}

/// The palette colour of the role `Yellow` under the theme.
pub fn color_yellow(mode: ThemeMode) -> (c: Rgb)
    ensures
        c == color_spec(mode, Swatch::Yellow),
{
    color(mode, Swatch::Yellow)
}

/// The palette colour of the role `Text` under the theme.
pub fn color_text(mode: ThemeMode) -> (c: Rgb)
    ensures
        c == color_spec(mode, Swatch::Text),
{
    color(mode, Swatch::Text)
}

/// The palette colour of the role `Overlay0` under the theme.
pub fn color_overlay0(mode: ThemeMode) -> (c: Rgb)
    ensures
        c == color_spec(mode, Swatch::Overlay0),
{
    color(mode, Swatch::Overlay0)
}

/// The palette colour of the role `Surface0` under the theme.
pub fn color_surface0(mode: ThemeMode) -> (c: Rgb)
    ensures
        c == color_spec(mode, Swatch::Surface0),
{
    color(mode, Swatch::Surface0)
}

/// The tagline under the logo.
pub const TAGLINE: &'static str = "scaffolding for margot causal inference";

} // verus!
