//! Terminal colours: the xterm palette the renderer draws with.
use vstd::prelude::*;

use crate::types::Theme;

verus! {

/// A colour with 8-bit red, green, blue and alpha channels.
#[derive(Debug, Clone, Copy, PartialEq, Eq, Structural)]
pub struct Rgba {
    pub r: u8,
    pub g: u8,
    pub b: u8,
    pub a: u8,
}

/// An opaque colour.
pub open spec fn rgb(r: u8, g: u8, b: u8) -> Rgba {
    Rgba { r, g, b, a: 255 }
}

/// An opaque colour.
pub fn opaque(r: u8, g: u8, b: u8) -> (c: Rgba)
    ensures
        c == rgb(r, g, b),
{
    Rgba { r, g, b, a: 255 }
}

/// The named colours of a terminal.
#[derive(Debug, Clone, Copy, PartialEq, Eq, Structural)]
pub enum NamedColor {
    Black,
    Red,
    Green,
    Yellow,
    Blue,
    Magenta,
    Cyan,
    White,
    BrightBlack,
    BrightRed,
    BrightGreen,
    BrightYellow,
    BrightBlue,
    BrightMagenta,
    BrightCyan,
    BrightWhite,
    Foreground,
    Background,
    Cursor,
    DimBlack,
    DimRed,
    DimGreen,
    DimYellow,
    DimBlue,
    DimMagenta,
    DimCyan,
    DimWhite,
    BrightForeground,
    DimForeground,
}

/// A terminal cell colour: named, given as RGB, or a 256-colour index.
#[derive(Debug, Clone, Copy, PartialEq, Eq, Structural)]
pub enum TermColor {
    Named(NamedColor),
    Spec(u8, u8, u8),
    Indexed(u8),
}

/// The RGB value of a named colour (the Tango palette).
pub open spec fn named_rgb(c: NamedColor) -> Rgba {
    match c {
        NamedColor::Black => rgb(0, 0, 0),
        NamedColor::Red => rgb(204, 0, 0),
        NamedColor::Green => rgb(78, 154, 6),
        NamedColor::Yellow => rgb(196, 160, 0),
        NamedColor::Blue => rgb(52, 101, 164),
        NamedColor::Magenta => rgb(117, 80, 123),
        NamedColor::Cyan => rgb(6, 152, 154),
        NamedColor::White => rgb(211, 215, 207),
        NamedColor::BrightBlack => rgb(85, 87, 83),
        NamedColor::BrightRed => rgb(239, 41, 41),
        NamedColor::BrightGreen => rgb(138, 226, 52),
        NamedColor::BrightYellow => rgb(252, 233, 79),
        NamedColor::BrightBlue => rgb(114, 159, 207),
        NamedColor::BrightMagenta => rgb(173, 127, 168),
        NamedColor::BrightCyan => rgb(52, 226, 226),
        NamedColor::BrightWhite => rgb(238, 238, 236),
        NamedColor::Foreground => rgb(211, 215, 207),
        NamedColor::Background => rgb(30, 30, 30),
        _ => rgb(211, 215, 207),
    }
}

/// The named colour of the first sixteen palette indices.
pub open spec fn named_of_index(idx: u8) -> NamedColor
    recommends
        idx < 16,
{
    if idx == 0 {
        NamedColor::Black
    } else if idx == 1 {
        NamedColor::Red
    } else if idx == 2 {
        NamedColor::Green
    } else if idx == 3 {
        NamedColor::Yellow
    } else if idx == 4 {
        NamedColor::Blue
    } else if idx == 5 {
        NamedColor::Magenta
    } else if idx == 6 {
        NamedColor::Cyan
    } else if idx == 7 {
        NamedColor::White
    } else if idx == 8 {
        NamedColor::BrightBlack
    } else if idx == 9 {
        NamedColor::BrightRed
    } else if idx == 10 {
        NamedColor::BrightGreen
    } else if idx == 11 {
        NamedColor::BrightYellow
    } else if idx == 12 {
        NamedColor::BrightBlue
    } else if idx == 13 {
        NamedColor::BrightMagenta
    } else if idx == 14 {
        NamedColor::BrightCyan
    } else {
        NamedColor::BrightWhite
    }
}

/// The RGB value of a 256-colour palette index: the sixteen named
/// colours, a 6x6x6 cube in steps of 51, then 24 greys from 8 in steps of 10.
pub open spec fn indexed_rgb(idx: u8) -> Rgba {
    if idx < 16 {
        named_rgb(named_of_index(idx))
    } else if idx < 232 {
        let i = idx - 16;
        rgb(((i / 36) * 51) as u8, (((i % 36) / 6) * 51) as u8, ((i % 6) * 51) as u8)
    } else {
        let v = 8 + (idx - 232) * 10;
        rgb(v as u8, v as u8, v as u8)
    }
}

/// The RGB value of a cell colour.
pub open spec fn term_rgb(c: TermColor) -> Rgba {
    match c {
        TermColor::Named(n) => named_rgb(n),
        TermColor::Spec(r, g, b) => rgb(r, g, b),
        TermColor::Indexed(i) => indexed_rgb(i),
    }
}

/// The RGB value of a named colour.
pub fn named_to_rgb(color: NamedColor) -> (c: Rgba)
    ensures
        c == named_rgb(color),
{
    match color {
        NamedColor::Black => opaque(0, 0, 0),
        NamedColor::Red => opaque(204, 0, 0),
        NamedColor::Green => opaque(78, 154, 6),
        NamedColor::Yellow => opaque(196, 160, 0),
        NamedColor::Blue => opaque(52, 101, 164),
        NamedColor::Magenta => opaque(117, 80, 123),
        NamedColor::Cyan => opaque(6, 152, 154),
        NamedColor::White => opaque(211, 215, 207),
        NamedColor::BrightBlack => opaque(85, 87, 83),
        NamedColor::BrightRed => opaque(239, 41, 41),
        NamedColor::BrightGreen => opaque(138, 226, 52),
        NamedColor::BrightYellow => opaque(252, 233, 79),
        NamedColor::BrightBlue => opaque(114, 159, 207),
        NamedColor::BrightMagenta => opaque(173, 127, 168),
        NamedColor::BrightCyan => opaque(52, 226, 226),
        NamedColor::BrightWhite => opaque(238, 238, 236),
        NamedColor::Foreground => opaque(211, 215, 207),
        NamedColor::Background => opaque(30, 30, 30),
        _ => opaque(211, 215, 207),
    }
}

/// The RGB value of a 256-colour palette index.
pub fn indexed_to_rgb(idx: u8) -> (c: Rgba)
    ensures
        c == indexed_rgb(idx),
{
    if idx < 16 {
        let named = if idx == 0 {
            NamedColor::Black
        } else if idx == 1 {
            NamedColor::Red
        } else if idx == 2 {
            NamedColor::Green
        } else if idx == 3 {
            NamedColor::Yellow
        } else if idx == 4 {
            NamedColor::Blue
        } else if idx == 5 {
            NamedColor::Magenta
        } else if idx == 6 {
            NamedColor::Cyan
        } else if idx == 7 {
            NamedColor::White
        } else if idx == 8 {
            NamedColor::BrightBlack
        } else if idx == 9 {
            NamedColor::BrightRed
        } else if idx == 10 {
            NamedColor::BrightGreen
        } else if idx == 11 {
            NamedColor::BrightYellow
        } else if idx == 12 {
            NamedColor::BrightBlue
        } else if idx == 13 {
            NamedColor::BrightMagenta
        } else if idx == 14 {
            NamedColor::BrightCyan
        } else {
            NamedColor::BrightWhite
        };
        named_to_rgb(named)
    } else if idx < 232 {
        let i = idx - 16;
        let r = (i / 36) * 51;
        let g = ((i % 36) / 6) * 51;
        let b = (i % 6) * 51;
        opaque(r, g, b)
    } else {
        let v = 8 + (idx - 232) * 10;
        opaque(v, v, v)
    }
}

/// The RGB value of a cell colour.
pub fn resolve_color(color: TermColor) -> (c: Rgba)
    ensures
        c == term_rgb(color),
{
    match color {
        TermColor::Named(named) => named_to_rgb(named),
        TermColor::Spec(r, g, b) => opaque(r, g, b),
        TermColor::Indexed(idx) => indexed_to_rgb(idx),
    }
}

/// The colours of the user interface in a theme.
#[derive(Debug, Clone, Copy, PartialEq, Eq, Structural)]
pub struct ThemePalette {
    pub bg: Rgba,
    pub fg: Rgba,
    pub panel_bg: Rgba,
    pub tab_active: Rgba,
    pub tab_inactive: Rgba,
    pub accent: Rgba,
    pub border: Rgba,
}

/// The colours of the dark and the light theme.
pub open spec fn palette_of(theme: Theme) -> ThemePalette {
    match theme {
        Theme::Dark => ThemePalette {
            bg: rgb(30, 30, 30),
            fg: rgb(211, 215, 207),
            panel_bg: rgb(37, 37, 38),
            tab_active: rgb(45, 45, 48),
            tab_inactive: rgb(37, 37, 38),
            accent: rgb(66, 133, 244),
            border: rgb(60, 60, 60),
        },
        Theme::Light => ThemePalette {
            bg: rgb(255, 255, 255),
            fg: rgb(30, 30, 30),
            panel_bg: rgb(243, 243, 243),
            tab_active: rgb(255, 255, 255),
            tab_inactive: rgb(236, 236, 236),
            accent: rgb(66, 133, 244),
            border: rgb(200, 200, 200),
        },
    }
}

/// The colours of a theme.
pub fn theme_palette(theme: Theme) -> (p: ThemePalette)
    ensures
        p == palette_of(theme),
{
    match theme {
        Theme::Dark => ThemePalette {
            bg: opaque(30, 30, 30),
            fg: opaque(211, 215, 207),
            panel_bg: opaque(37, 37, 38),
            tab_active: opaque(45, 45, 48),
            tab_inactive: opaque(37, 37, 38),
            accent: opaque(66, 133, 244),
            border: opaque(60, 60, 60),
        },
        Theme::Light => ThemePalette {
            bg: opaque(255, 255, 255),
            fg: opaque(30, 30, 30),
            panel_bg: opaque(243, 243, 243),
            tab_active: opaque(255, 255, 255),
            tab_inactive: opaque(236, 236, 236),
            accent: opaque(66, 133, 244),
            border: opaque(200, 200, 200),
        },
    }
}

/// The named colours are the Tango palette: each named colour, and each of
/// the first sixteen palette indices (black, red, green, yellow, blue,
/// magenta, cyan, white, then their bright forms), is drawn in the RGB value
/// listed here; the default foreground and every other named colour are
/// light grey, the default background near black.
pub proof fn law_tango_palette()
    ensures
        term_rgb(TermColor::Named(NamedColor::Black)) == (Rgba { r: 0, g: 0, b: 0, a: 255 }),
        term_rgb(TermColor::Named(NamedColor::Red)) == (Rgba { r: 204, g: 0, b: 0, a: 255 }),
        term_rgb(TermColor::Named(NamedColor::Green)) == (Rgba { r: 78, g: 154, b: 6, a: 255 }),
        term_rgb(TermColor::Named(NamedColor::Yellow)) == (Rgba { r: 196, g: 160, b: 0, a: 255 }),
        term_rgb(TermColor::Named(NamedColor::Blue)) == (Rgba { r: 52, g: 101, b: 164, a: 255 }),
        term_rgb(TermColor::Named(NamedColor::Magenta)) == (Rgba { r: 117, g: 80, b: 123, a: 255 }),
        term_rgb(TermColor::Named(NamedColor::Cyan)) == (Rgba { r: 6, g: 152, b: 154, a: 255 }),
        term_rgb(TermColor::Named(NamedColor::White)) == (Rgba { r: 211, g: 215, b: 207, a: 255 }),
        term_rgb(TermColor::Named(NamedColor::BrightBlack)) == (Rgba { r: 85, g: 87, b: 83, a: 255 }),
        term_rgb(TermColor::Named(NamedColor::BrightRed)) == (Rgba { r: 239, g: 41, b: 41, a: 255 }),
        term_rgb(TermColor::Named(NamedColor::BrightGreen)) == (Rgba { r: 138, g: 226, b: 52, a: 255 }),
        term_rgb(TermColor::Named(NamedColor::BrightYellow)) == (Rgba { r: 252, g: 233, b: 79, a: 255 }),
        term_rgb(TermColor::Named(NamedColor::BrightBlue)) == (Rgba { r: 114, g: 159, b: 207, a: 255 }),
        term_rgb(TermColor::Named(NamedColor::BrightMagenta)) == (Rgba { r: 173, g: 127, b: 168, a: 255 }),
        term_rgb(TermColor::Named(NamedColor::BrightCyan)) == (Rgba { r: 52, g: 226, b: 226, a: 255 }),
        term_rgb(TermColor::Named(NamedColor::BrightWhite)) == (Rgba { r: 238, g: 238, b: 236, a: 255 }),
        term_rgb(TermColor::Named(NamedColor::Foreground)) == (Rgba { r: 211, g: 215, b: 207, a: 255 }),
        term_rgb(TermColor::Named(NamedColor::Background)) == (Rgba { r: 30, g: 30, b: 30, a: 255 }),
        term_rgb(TermColor::Named(NamedColor::Cursor)) == (Rgba { r: 211, g: 215, b: 207, a: 255 }),
        term_rgb(TermColor::Named(NamedColor::DimBlack)) == (Rgba { r: 211, g: 215, b: 207, a: 255 }),
        term_rgb(TermColor::Named(NamedColor::DimRed)) == (Rgba { r: 211, g: 215, b: 207, a: 255 }),
        term_rgb(TermColor::Named(NamedColor::DimGreen)) == (Rgba { r: 211, g: 215, b: 207, a: 255 }),
        term_rgb(TermColor::Named(NamedColor::DimYellow)) == (Rgba { r: 211, g: 215, b: 207, a: 255 }),
        term_rgb(TermColor::Named(NamedColor::DimBlue)) == (Rgba { r: 211, g: 215, b: 207, a: 255 }),
        term_rgb(TermColor::Named(NamedColor::DimMagenta)) == (Rgba { r: 211, g: 215, b: 207, a: 255 }),
        term_rgb(TermColor::Named(NamedColor::DimCyan)) == (Rgba { r: 211, g: 215, b: 207, a: 255 }),
        term_rgb(TermColor::Named(NamedColor::DimWhite)) == (Rgba { r: 211, g: 215, b: 207, a: 255 }),
        term_rgb(TermColor::Named(NamedColor::BrightForeground)) == (Rgba { r: 211, g: 215, b: 207, a: 255 }),
        term_rgb(TermColor::Named(NamedColor::DimForeground)) == (Rgba { r: 211, g: 215, b: 207, a: 255 }),
        term_rgb(TermColor::Indexed(0u8)) == (Rgba { r: 0, g: 0, b: 0, a: 255 }),
        term_rgb(TermColor::Indexed(1u8)) == (Rgba { r: 204, g: 0, b: 0, a: 255 }),
        term_rgb(TermColor::Indexed(2u8)) == (Rgba { r: 78, g: 154, b: 6, a: 255 }),
        term_rgb(TermColor::Indexed(3u8)) == (Rgba { r: 196, g: 160, b: 0, a: 255 }),
        term_rgb(TermColor::Indexed(4u8)) == (Rgba { r: 52, g: 101, b: 164, a: 255 }),
        term_rgb(TermColor::Indexed(5u8)) == (Rgba { r: 117, g: 80, b: 123, a: 255 }),
        term_rgb(TermColor::Indexed(6u8)) == (Rgba { r: 6, g: 152, b: 154, a: 255 }),
        term_rgb(TermColor::Indexed(7u8)) == (Rgba { r: 211, g: 215, b: 207, a: 255 }),
        term_rgb(TermColor::Indexed(8u8)) == (Rgba { r: 85, g: 87, b: 83, a: 255 }),
        term_rgb(TermColor::Indexed(9u8)) == (Rgba { r: 239, g: 41, b: 41, a: 255 }),
        term_rgb(TermColor::Indexed(10u8)) == (Rgba { r: 138, g: 226, b: 52, a: 255 }),
        term_rgb(TermColor::Indexed(11u8)) == (Rgba { r: 252, g: 233, b: 79, a: 255 }),
        term_rgb(TermColor::Indexed(12u8)) == (Rgba { r: 114, g: 159, b: 207, a: 255 }),
        term_rgb(TermColor::Indexed(13u8)) == (Rgba { r: 173, g: 127, b: 168, a: 255 }),
        term_rgb(TermColor::Indexed(14u8)) == (Rgba { r: 52, g: 226, b: 226, a: 255 }),
        term_rgb(TermColor::Indexed(15u8)) == (Rgba { r: 238, g: 238, b: 236, a: 255 }),
{
}

/// Every palette index past the named colours is a grey or a cube colour
/// whose channels are multiples of 51 or, for greys, equal.
pub proof fn law_palette_shape(idx: u8)
    ensures
        16 <= idx < 232 ==> indexed_rgb(idx).r % 51 == 0 && indexed_rgb(idx).g % 51 == 0
            && indexed_rgb(idx).b % 51 == 0,
        232 <= idx ==> indexed_rgb(idx).r == indexed_rgb(idx).g && indexed_rgb(idx).g
            == indexed_rgb(idx).b && indexed_rgb(idx).r <= 238,
        indexed_rgb(idx).a == 255,
{
    if 16 <= idx < 232 {
        let i = idx - 16;
        assert(i / 36 <= 5);
        assert((i % 36) / 6 <= 5);
        assert(i % 6 <= 5);
    }
}

} // verus!
