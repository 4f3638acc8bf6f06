//! Color resolution: palette lookups, the 256-color table and direct
//! RGB values.

use vstd::prelude::*;

verus! {

/// A resolved color as red, green and blue components.
#[derive(Clone, Copy, Debug, PartialEq, Eq, Structural)]
pub struct Rgb {
    pub r: u8,
    pub g: u8,
    pub b: u8,
}

/// The named colors an escape sequence can address.
#[derive(Clone, Copy, Debug, PartialEq, Eq, Structural)]
pub enum NamedColor {
    Foreground,
    Background,
    Black,
    Red,
    Green,
    Yellow,
    Blue,
    Magenta,
    Cyan,
    White,
    BrightBlack,
    BrightRed,
    BrightGreen,
    BrightYellow,
    BrightBlue,
    BrightMagenta,
    BrightCyan,
    BrightWhite,
    BrightForeground,
    DimForeground,
    DimBlack,
    DimRed,
    DimGreen,
    DimYellow,
    DimBlue,
    DimMagenta,
    DimCyan,
    DimWhite,
    /// The cursor color; the palette carries no entry for it, so it
    /// resolves to the background like every other unthemed name.
    Cursor,
}

/// A color address: direct RGB, an index into the 256-color table, or
/// a named color.
#[derive(Clone, Copy, Debug, PartialEq, Eq, Structural)]
pub enum Color {
    Rgb(Rgb),
    Indexed(u8),
    Named(NamedColor),
}

/// A malformed palette entry found while resolving a color.  The
/// palette is part of the configuration, so this is a programmer
/// error: callers are expected to fail fast on it.
#[derive(Clone, Copy, Debug, PartialEq, Eq, Structural)]
pub enum ThemeError {
    InvalidPaletteColor,
}

impl ThemeError {
    pub fn message(&self) -> (r: &'static str)
        ensures
            r@ == "invalid palette color: expected a 7-character #RRGGBB hex string"@,
    {
        "invalid palette color: expected a 7-character #RRGGBB hex string"
    }
}

/// The injectable 16-entry palette plus the named theme colors, each a
/// 7-character `#RRGGBB` hex string.
#[derive(Debug, Clone)]
pub struct ColorPalette {
    pub foreground: String,
    pub background: String,
    pub black: String,
    pub red: String,
    pub green: String,
    pub yellow: String,
    pub blue: String,
    pub magenta: String,
    pub cyan: String,
    pub white: String,
    pub bright_black: String,
    pub bright_red: String,
    pub bright_green: String,
    pub bright_yellow: String,
    pub bright_blue: String,
    pub bright_magenta: String,
    pub bright_cyan: String,
    pub bright_white: String,
    /// Unset bright foreground falls back to the foreground.
    pub bright_foreground: Option<String>,
    pub dim_foreground: String,
    pub dim_black: String,
    pub dim_red: String,
    pub dim_green: String,
    pub dim_yellow: String,
    pub dim_blue: String,
    pub dim_magenta: String,
    pub dim_cyan: String,
    pub dim_white: String,
}

impl Default for ColorPalette {
    fn default() -> (r: ColorPalette)
        ensures
            r.foreground@ == "#d8d8d8"@,
            r.background@ == "#181818"@,
            r.black@ == "#181818"@,
            r.red@ == "#ac4242"@,
            r.green@ == "#90a959"@,
            r.yellow@ == "#f4bf75"@,
            r.blue@ == "#6a9fb5"@,
            r.magenta@ == "#aa759f"@,
            r.cyan@ == "#75b5aa"@,
            r.white@ == "#d8d8d8"@,
            r.bright_black@ == "#6b6b6b"@,
            r.bright_red@ == "#c55555"@,
            r.bright_green@ == "#aac474"@,
            r.bright_yellow@ == "#feca88"@,
            r.bright_blue@ == "#82b8c8"@,
            r.bright_magenta@ == "#c28cb8"@,
            r.bright_cyan@ == "#93d3c3"@,
            r.bright_white@ == "#f8f8f8"@,
            r.bright_foreground is None,
            r.dim_foreground@ == "#828482"@,
            r.dim_black@ == "#0f0f0f"@,
            r.dim_red@ == "#712b2b"@,
            r.dim_green@ == "#5f6f3a"@,
            r.dim_yellow@ == "#a17e4d"@,
            r.dim_blue@ == "#456877"@,
            r.dim_magenta@ == "#704d68"@,
            r.dim_cyan@ == "#4d7770"@,
            r.dim_white@ == "#8e8e8e"@,
    {
        ColorPalette {
            foreground: String::from_str("#d8d8d8"),
            background: String::from_str("#181818"),
            black: String::from_str("#181818"),
            red: String::from_str("#ac4242"),
            green: String::from_str("#90a959"),
            yellow: String::from_str("#f4bf75"),
            blue: String::from_str("#6a9fb5"),
            magenta: String::from_str("#aa759f"),
            cyan: String::from_str("#75b5aa"),
            white: String::from_str("#d8d8d8"),
            bright_black: String::from_str("#6b6b6b"),
            bright_red: String::from_str("#c55555"),
            bright_green: String::from_str("#aac474"),
            bright_yellow: String::from_str("#feca88"),
            bright_blue: String::from_str("#82b8c8"),
            bright_magenta: String::from_str("#c28cb8"),
            bright_cyan: String::from_str("#93d3c3"),
            bright_white: String::from_str("#f8f8f8"),
            bright_foreground: None,
            dim_foreground: String::from_str("#828482"),
            dim_black: String::from_str("#0f0f0f"),
            dim_red: String::from_str("#712b2b"),
            dim_green: String::from_str("#5f6f3a"),
            dim_yellow: String::from_str("#a17e4d"),
            dim_blue: String::from_str("#456877"),
            dim_magenta: String::from_str("#704d68"),
            dim_cyan: String::from_str("#4d7770"),
            dim_white: String::from_str("#8e8e8e"),
        }
    }
}

/// The value of one hex digit, or `None` for any other character.
pub open spec fn spec_hex_digit(c: char) -> Option<u8> {
    let v = c as u32;
    if 0x30 <= v && v <= 0x39 {
        Some((v - 0x30) as u8)
    } else if 0x61 <= v && v <= 0x66 {
        Some((v - 0x61 + 10) as u8)
    } else if 0x41 <= v && v <= 0x46 {
        Some((v - 0x41 + 10) as u8)
    } else {
        None
    }
}

/// Two hex digits read as one byte.
pub open spec fn spec_hex_byte(hi: char, lo: char) -> Option<u8> {
    match (spec_hex_digit(hi), spec_hex_digit(lo)) {
        (Some(h), Some(l)) => Some((16 * h + l) as u8),
        _ => None,
    }
}

/// A 7-character `#RRGGBB` string parsed to its color, or `None` for
/// anything malformed.
pub open spec fn spec_parse_hex_color(s: Seq<char>) -> Option<Rgb> {
    if s.len() != 7 {
        None
    } else if s[0] != '#' {
        None
    } else {
        match (spec_hex_byte(s[1], s[2]), spec_hex_byte(s[3], s[4]), spec_hex_byte(s[5], s[6])) {
            (Some(r), Some(g), Some(b)) => Some(Rgb { r, g, b }),
            _ => None,
        }
    }
}

fn hex_digit(c: char) -> (r: Option<u8>)
    ensures
        r == spec_hex_digit(c),
{
    let v = c as u32;
    if 0x30 <= v && v <= 0x39 {
        Some((v - 0x30) as u8)
    } else if 0x61 <= v && v <= 0x66 {
        Some((v - 0x61 + 10) as u8)
    } else if 0x41 <= v && v <= 0x46 {
        Some((v - 0x41 + 10) as u8)
    } else {
        None
    }
}

/// Parse a `#RRGGBB` hex string.
pub fn hex_to_color(hex: &str) -> (r: Option<Rgb>)
    ensures
        r == spec_parse_hex_color(hex@),
{
    let n = hex.unicode_len();
    if n != 7 {
        return None;
    }
    if hex.get_char(0) != '#' {
        return None;
    }
    let h1 = hex_digit(hex.get_char(1));
    let h2 = hex_digit(hex.get_char(2));
    let h3 = hex_digit(hex.get_char(3));
    let h4 = hex_digit(hex.get_char(4));
    let h5 = hex_digit(hex.get_char(5));
    let h6 = hex_digit(hex.get_char(6));
    match (h1, h2, h3, h4, h5, h6) {
        (Some(a), Some(b), Some(c), Some(d), Some(e), Some(f)) => Some(
            Rgb { r: 16 * a + b, g: 16 * c + d, b: 16 * e + f },
        ),
        _ => None,
    }
}

/// One component of the 6x6x6 color cube: 0 stays 0, otherwise
/// `40 * component + 55`.
pub open spec fn spec_cube_component(c: int) -> u8 {
    if c == 0 {
        0u8
    } else {
        (40 * c + 55) as u8
    }
}

/// The fixed color of a 256-color table index at or above 16: the
/// 6x6x6 cube for 16 to 231, the 24-step grayscale ramp for 232 to
/// 255.
pub open spec fn spec_ansi256_color(index: u8) -> Rgb
    recommends
        index >= 16,
{
    if index <= 231 {
        let k = index - 16;
        Rgb {
            r: spec_cube_component(k / 36),
            g: spec_cube_component((k % 36) / 6),
            b: spec_cube_component(k % 6),
        }
    } else {
        let v = (10 * (index - 232) + 8) as u8;
        Rgb { r: v, g: v, b: v }
    }
}

/// Resolve a 256-color table index at or above 16.
pub fn ansi256_color(index: u8) -> (r: Rgb)
    requires
        index >= 16,
    ensures
        r == spec_ansi256_color(index),
{
    if index <= 231 {
        let k: u8 = index - 16;
        let rc: u8 = k / 36;
        let gc: u8 = (k % 36) / 6;
        let bc: u8 = k % 6;
        Rgb { r: cube_component(rc), g: cube_component(gc), b: cube_component(bc) }
    } else {
        let v: u8 = 10 * (index - 232) + 8;
        Rgb { r: v, g: v, b: v }
    }
}

fn cube_component(c: u8) -> (r: u8)
    requires
        c <= 5,
    ensures
        r == spec_cube_component(c as int),
{
    if c == 0 {
        0
    } else {
        40 * c + 55
    }
}

/// The palette hex string that a named color resolves through.
pub open spec fn spec_named_entry(palette: ColorPalette, name: NamedColor) -> Seq<char> {
    match name {
        NamedColor::Foreground => palette.foreground@,
        NamedColor::Background => palette.background@,
        NamedColor::Black => palette.black@,
        NamedColor::Red => palette.red@,
        NamedColor::Green => palette.green@,
        NamedColor::Yellow => palette.yellow@,
        NamedColor::Blue => palette.blue@,
        NamedColor::Magenta => palette.magenta@,
        NamedColor::Cyan => palette.cyan@,
        NamedColor::White => palette.white@,
        NamedColor::BrightBlack => palette.bright_black@,
        NamedColor::BrightRed => palette.bright_red@,
        NamedColor::BrightGreen => palette.bright_green@,
        NamedColor::BrightYellow => palette.bright_yellow@,
        NamedColor::BrightBlue => palette.bright_blue@,
        NamedColor::BrightMagenta => palette.bright_magenta@,
        NamedColor::BrightCyan => palette.bright_cyan@,
        NamedColor::BrightWhite => palette.bright_white@,
        NamedColor::BrightForeground => match palette.bright_foreground {
            Some(s) => s@,
            None => palette.foreground@,
        },
        NamedColor::DimForeground => palette.dim_foreground@,
        NamedColor::DimBlack => palette.dim_black@,
        NamedColor::DimRed => palette.dim_red@,
        NamedColor::DimGreen => palette.dim_green@,
        NamedColor::DimYellow => palette.dim_yellow@,
        NamedColor::DimBlue => palette.dim_blue@,
        NamedColor::DimMagenta => palette.dim_magenta@,
        NamedColor::DimCyan => palette.dim_cyan@,
        NamedColor::DimWhite => palette.dim_white@,
        NamedColor::Cursor => palette.background@,
    }
}

/// The palette hex string behind one of the first 16 table indices.
pub open spec fn spec_indexed_entry(palette: ColorPalette, index: u8) -> Seq<char>
    recommends
        index <= 15,
{
    match index {
        0u8 => palette.black@,
        1u8 => palette.red@,
        2u8 => palette.green@,
        3u8 => palette.yellow@,
        4u8 => palette.blue@,
        5u8 => palette.magenta@,
        6u8 => palette.cyan@,
        7u8 => palette.white@,
        8u8 => palette.bright_black@,
        9u8 => palette.bright_red@,
        10u8 => palette.bright_green@,
        11u8 => palette.bright_yellow@,
        12u8 => palette.bright_blue@,
        13u8 => palette.bright_magenta@,
        14u8 => palette.bright_cyan@,
        15u8 => palette.bright_white@,
        _ => palette.background@,
    }
}

/// The value a theme resolves a color address to: direct values pass
/// through, indices at or above 16 use the fixed table, everything
/// else parses the palette entry it names and fails on a malformed
/// entry.
pub open spec fn spec_get_color(palette: ColorPalette, c: Color) -> Result<Rgb, ThemeError> {
    match c {
        Color::Rgb(rgb) => Ok(rgb),
        Color::Indexed(index) => if index <= 15 {
            match spec_parse_hex_color(spec_indexed_entry(palette, index)) {
                Some(rgb) => Ok(rgb),
                None => Err(ThemeError::InvalidPaletteColor),
            }
        } else {
            Ok(spec_ansi256_color(index))
        },
        Color::Named(name) => match spec_parse_hex_color(spec_named_entry(palette, name)) {
            Some(rgb) => Ok(rgb),
            None => Err(ThemeError::InvalidPaletteColor),
        },
    }
}

/// A palette every color address resolves against without error:
/// each entry it can name parses as a `#RRGGBB` string.
pub open spec fn spec_palette_wf(palette: ColorPalette) -> bool {
    forall|c: Color| (#[trigger] spec_get_color(palette, c)) is Ok
}

/// Check a palette for malformed entries, so a caller can fail fast
/// before resolution starts.
#[verifier::rlimit(100)]
pub fn palette_ok(palette: &ColorPalette) -> (r: bool)
    ensures
        r == spec_palette_wf(*palette),
{
    let named = hex_to_color(palette.foreground.as_str()).is_some() && hex_to_color(
        palette.background.as_str(),
    ).is_some() && hex_to_color(palette.black.as_str()).is_some() && hex_to_color(
        palette.red.as_str(),
    ).is_some() && hex_to_color(palette.green.as_str()).is_some() && hex_to_color(
        palette.yellow.as_str(),
    ).is_some() && hex_to_color(palette.blue.as_str()).is_some() && hex_to_color(
        palette.magenta.as_str(),
    ).is_some() && hex_to_color(palette.cyan.as_str()).is_some() && hex_to_color(
        palette.white.as_str(),
    ).is_some() && hex_to_color(palette.bright_black.as_str()).is_some() && hex_to_color(
        palette.bright_red.as_str(),
    ).is_some() && hex_to_color(palette.bright_green.as_str()).is_some() && hex_to_color(
        palette.bright_yellow.as_str(),
    ).is_some() && hex_to_color(palette.bright_blue.as_str()).is_some() && hex_to_color(
        palette.bright_magenta.as_str(),
    ).is_some() && hex_to_color(palette.bright_cyan.as_str()).is_some() && hex_to_color(
        palette.bright_white.as_str(),
    ).is_some() && hex_to_color(palette.dim_foreground.as_str()).is_some() && hex_to_color(
        palette.dim_black.as_str(),
    ).is_some() && hex_to_color(palette.dim_red.as_str()).is_some() && hex_to_color(
        palette.dim_green.as_str(),
    ).is_some() && hex_to_color(palette.dim_yellow.as_str()).is_some() && hex_to_color(
        palette.dim_blue.as_str(),
    ).is_some() && hex_to_color(palette.dim_magenta.as_str()).is_some() && hex_to_color(
        palette.dim_cyan.as_str(),
    ).is_some() && hex_to_color(palette.dim_white.as_str()).is_some();
    let bright_fg = match &palette.bright_foreground {
        Some(s) => hex_to_color(s.as_str()).is_some(),
        None => true,
    };
    let r = named && bright_fg;
    proof {
        if r {
            assert forall|c: Color| (#[trigger] spec_get_color(*palette, c)) is Ok by {
                match c {
                    Color::Rgb(_) => {},
                    Color::Indexed(index) => {
                        if index <= 15 {
                            assert(spec_parse_hex_color(spec_indexed_entry(*palette, index))
                                is Some);
                        }
                    },
                    Color::Named(name) => {
                        assert(spec_parse_hex_color(spec_named_entry(*palette, name)) is Some);
                    },
                }
            }
        } else {
            assert(!spec_palette_wf(*palette)) by {
                if spec_palette_wf(*palette) {
                    assert(spec_get_color(*palette, Color::Named(NamedColor::Foreground)) is Ok);
                    assert(spec_get_color(*palette, Color::Named(NamedColor::Background)) is Ok);
                    assert(spec_get_color(*palette, Color::Named(NamedColor::Black)) is Ok);
                    assert(spec_get_color(*palette, Color::Named(NamedColor::Red)) is Ok);
                    assert(spec_get_color(*palette, Color::Named(NamedColor::Green)) is Ok);
                    assert(spec_get_color(*palette, Color::Named(NamedColor::Yellow)) is Ok);
                    assert(spec_get_color(*palette, Color::Named(NamedColor::Blue)) is Ok);
                    assert(spec_get_color(*palette, Color::Named(NamedColor::Magenta)) is Ok);
                    assert(spec_get_color(*palette, Color::Named(NamedColor::Cyan)) is Ok);
                    assert(spec_get_color(*palette, Color::Named(NamedColor::White)) is Ok);
                    assert(spec_get_color(*palette, Color::Named(NamedColor::BrightBlack)) is Ok);
                    assert(spec_get_color(*palette, Color::Named(NamedColor::BrightRed)) is Ok);
                    assert(spec_get_color(*palette, Color::Named(NamedColor::BrightGreen)) is Ok);
                    assert(spec_get_color(*palette, Color::Named(NamedColor::BrightYellow)) is Ok);
                    assert(spec_get_color(*palette, Color::Named(NamedColor::BrightBlue)) is Ok);
                    assert(spec_get_color(*palette, Color::Named(NamedColor::BrightMagenta))
                        is Ok);
                    assert(spec_get_color(*palette, Color::Named(NamedColor::BrightCyan)) is Ok);
                    assert(spec_get_color(*palette, Color::Named(NamedColor::BrightWhite)) is Ok);
                    assert(spec_get_color(*palette, Color::Named(NamedColor::BrightForeground))
                        is Ok);
                    assert(spec_get_color(*palette, Color::Named(NamedColor::DimForeground))
                        is Ok);
                    assert(spec_get_color(*palette, Color::Named(NamedColor::DimBlack)) is Ok);
                    assert(spec_get_color(*palette, Color::Named(NamedColor::DimRed)) is Ok);
                    assert(spec_get_color(*palette, Color::Named(NamedColor::DimGreen)) is Ok);
                    assert(spec_get_color(*palette, Color::Named(NamedColor::DimYellow)) is Ok);
                    assert(spec_get_color(*palette, Color::Named(NamedColor::DimBlue)) is Ok);
                    assert(spec_get_color(*palette, Color::Named(NamedColor::DimMagenta)) is Ok);
                    assert(spec_get_color(*palette, Color::Named(NamedColor::DimCyan)) is Ok);
                    assert(spec_get_color(*palette, Color::Named(NamedColor::DimWhite)) is Ok);
                }
            }
        }
    }
    r
}

/// A theme: the palette colors resolve through.
#[derive(Debug, Clone)]
pub struct TerminalTheme {
    pub palette: Box<ColorPalette>,
}

impl TerminalTheme {
    pub fn new(palette: Box<ColorPalette>) -> (r: TerminalTheme)
        ensures
            r.palette == palette,
    {
        TerminalTheme { palette }
    }

    /// Resolve a color address against this theme.  A malformed
    /// palette entry is reported as an error, never silently replaced
    /// by a default.
    pub fn get_color(&self, c: Color) -> (r: Result<Rgb, ThemeError>)
        ensures
            r == spec_get_color(*self.palette, c),
    {
        match c {
            Color::Rgb(rgb) => Ok(rgb),
            Color::Indexed(index) => {
                if index <= 15 {
                    let entry = self.indexed_entry(index);
                    match hex_to_color(entry.as_str()) {
                        Some(rgb) => Ok(rgb),
                        None => Err(ThemeError::InvalidPaletteColor),
                    }
                } else {
                    Ok(ansi256_color(index))
                }
            },
            Color::Named(name) => {
                let entry = self.named_entry(name);
                match hex_to_color(entry.as_str()) {
                    Some(rgb) => Ok(rgb),
                    None => Err(ThemeError::InvalidPaletteColor),
                }
            },
        }
    }

    fn indexed_entry(&self, index: u8) -> (r: &String)
        requires
            index <= 15,
        ensures
            r@ == spec_indexed_entry(*self.palette, index),
    {
        match index {
            0 => &self.palette.black,
            1 => &self.palette.red,
            2 => &self.palette.green,
            3 => &self.palette.yellow,
            4 => &self.palette.blue,
            5 => &self.palette.magenta,
            6 => &self.palette.cyan,
            7 => &self.palette.white,
            8 => &self.palette.bright_black,
            9 => &self.palette.bright_red,
            10 => &self.palette.bright_green,
            11 => &self.palette.bright_yellow,
            12 => &self.palette.bright_blue,
            13 => &self.palette.bright_magenta,
            14 => &self.palette.bright_cyan,
            _ => &self.palette.bright_white,
        }
    }

    fn named_entry(&self, name: NamedColor) -> (r: &String)
        ensures
            r@ == spec_named_entry(*self.palette, name),
    {
        match name {
            NamedColor::Foreground => &self.palette.foreground,
            NamedColor::Background => &self.palette.background,
            NamedColor::Black => &self.palette.black,
            NamedColor::Red => &self.palette.red,
            NamedColor::Green => &self.palette.green,
            NamedColor::Yellow => &self.palette.yellow,
            NamedColor::Blue => &self.palette.blue,
            NamedColor::Magenta => &self.palette.magenta,
            NamedColor::Cyan => &self.palette.cyan,
            NamedColor::White => &self.palette.white,
            NamedColor::BrightBlack => &self.palette.bright_black,
            NamedColor::BrightRed => &self.palette.bright_red,
            NamedColor::BrightGreen => &self.palette.bright_green,
            NamedColor::BrightYellow => &self.palette.bright_yellow,
            NamedColor::BrightBlue => &self.palette.bright_blue,
            NamedColor::BrightMagenta => &self.palette.bright_magenta,
            NamedColor::BrightCyan => &self.palette.bright_cyan,
            NamedColor::BrightWhite => &self.palette.bright_white,
            NamedColor::BrightForeground => match &self.palette.bright_foreground {
                Some(color) => color,
                None => &self.palette.foreground,
            },
            NamedColor::DimForeground => &self.palette.dim_foreground,
            NamedColor::DimBlack => &self.palette.dim_black,
            NamedColor::DimRed => &self.palette.dim_red,
            NamedColor::DimGreen => &self.palette.dim_green,
            NamedColor::DimYellow => &self.palette.dim_yellow,
            NamedColor::DimBlue => &self.palette.dim_blue,
            NamedColor::DimMagenta => &self.palette.dim_magenta,
            NamedColor::DimCyan => &self.palette.dim_cyan,
            NamedColor::DimWhite => &self.palette.dim_white,
            NamedColor::Cursor => &self.palette.background,
        }
    }
}

impl Default for TerminalTheme {
    fn default() -> (r: TerminalTheme)
        ensures
            r.palette.bright_foreground is None,
    {
        TerminalTheme { palette: Box::new(ColorPalette::default()) }
    }
}

} // verus!
