use vstd::prelude::*;

use crate::app_type::AppType;

verus! {

/// A terminal color: the terminal's default, or a 24-bit color.
#[derive(Clone, Copy, Debug, PartialEq, Eq, Structural)]
pub enum Color {
    Reset,
    Rgb(u8, u8, u8),
}

/// The colors of the terminal interface.
#[derive(Clone, Copy, Debug, PartialEq, Eq, Structural)]
pub struct Theme {
    pub accent: Color,
    pub ok: Color,
    pub warn: Color,
    pub err: Color,
    pub dim: Color,
    /// Muted text and secondary information.
    pub comment: Color,
    /// Highlighted values.
    pub cyan: Color,
    /// Subtle background.
    pub surface: Color,
    pub no_color: bool,
}

/// `c`, or the terminal's default when colors are off.
pub open spec fn shade(no_color: bool, c: Color) -> Color {
    if no_color {
        Color::Reset
    } else {
        c
    }
}

/// The accent color of each application.
pub open spec fn accent_of(app: AppType) -> Color {
    match app {
        AppType::Codex => Color::Rgb(80, 250, 123),
        AppType::Claude => Color::Rgb(139, 233, 253),
        AppType::Gemini => Color::Rgb(255, 121, 198),
    }
}

pub open spec fn theme_spec(app: AppType, no_color: bool) -> Theme {
    Theme {
        accent: shade(no_color, accent_of(app)),
        ok: shade(no_color, Color::Rgb(80, 250, 123)),
        warn: shade(no_color, Color::Rgb(241, 250, 140)),
        err: shade(no_color, Color::Rgb(255, 85, 85)),
        dim: shade(no_color, Color::Rgb(98, 114, 164)),
        comment: shade(no_color, Color::Rgb(98, 114, 164)),
        cyan: shade(no_color, Color::Rgb(139, 233, 253)),
        surface: shade(no_color, Color::Rgb(68, 71, 90)),
        no_color,
    }
}

fn pick(no_color: bool, c: Color) -> (r: Color)
    ensures
        r == shade(no_color, c),
{
    if no_color {
        Color::Reset
    } else {
        c
    }
}

/// The theme for `app`; with `no_color` every color is the terminal's default.
pub fn theme_for(app: &AppType, no_color: bool) -> (r: Theme)
    ensures
        r == theme_spec(*app, no_color),
{
    let accent = match app {
        AppType::Codex => Color::Rgb(80, 250, 123),
        AppType::Claude => Color::Rgb(139, 233, 253),
        AppType::Gemini => Color::Rgb(255, 121, 198),
    };
    Theme {
        accent: pick(no_color, accent),
        ok: pick(no_color, Color::Rgb(80, 250, 123)),
        warn: pick(no_color, Color::Rgb(241, 250, 140)),
        err: pick(no_color, Color::Rgb(255, 85, 85)),
        dim: pick(no_color, Color::Rgb(98, 114, 164)),
        comment: pick(no_color, Color::Rgb(98, 114, 164)),
        cyan: pick(no_color, Color::Rgb(139, 233, 253)),
        surface: pick(no_color, Color::Rgb(68, 71, 90)),
        no_color,
    }
}

} // verus!
