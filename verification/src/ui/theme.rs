//! The colors the interface is drawn with: the theme settings' `#rrggbb`
//! texts resolved to colors, with fixed fallbacks.
use vstd::prelude::*;

use crate::config::settings::ThemeSettings;
use crate::text::str_chars;

verus! {

/// A terminal color: one of the named ones, or red, green and blue components.
#[derive(Debug, Clone, Copy, PartialEq, Eq, Structural)]
pub enum Color {
    Reset,
    Black,
    White,
    DarkGray,
    LightBlue,
    Magenta,
    Green,
    Yellow,
    Red,
    Rgb(u8, u8, u8),
}

/// The value of a hexadecimal digit, either case.
pub open spec fn hex_value(c: char) -> Option<nat> {
    if '0' <= c && c <= '9' {
        Some((c as nat - '0' as nat) as nat)
    } else if 'a' <= c && c <= 'f' {
        Some((c as nat - 'a' as nat + 10) as nat)
    } else if 'A' <= c && c <= 'F' {
        Some((c as nat - 'A' as nat + 10) as nat)
    } else {
        None
    }
}

/// The byte that two characters denote in base 16, as `u8::from_str_radix`
/// reads them: two digits, or a `+` sign before one digit.
pub open spec fn byte_of(a: char, b: char) -> Option<u8> {
    match (hex_value(a), hex_value(b)) {
        (Some(x), Some(y)) => Some((16 * x + y) as u8),
        (None, Some(y)) => if a == '+' {
            Some(y as u8)
        } else {
            None
        },
        _ => None,
    }
}

/// The color that `#rrggbb` (the `#` is optional) denotes, if any.
pub open spec fn parse_hex_spec(s: Seq<char>) -> Option<Color> {
    let h = if s.len() > 0 && s[0] == '#' {
        s.drop_first()
    } else {
        s
    };
    if h.len() != 6 {
        None
    } else {
        match (byte_of(h[0], h[1]), byte_of(h[2], h[3]), byte_of(h[4], h[5])) {
            (Some(r), Some(g), Some(b)) => Some(Color::Rgb(r, g, b)),
            _ => None,
        }
    }
}

fn hex_value_exec(c: char) -> (r: Option<u8>)
    ensures
        match hex_value(c) {
            Some(v) => r == Some(v as u8) && v < 16,
            None => r is None,
        },
{
    if '0' <= c && c <= '9' {
        Some((c as u32 - '0' as u32) as u8)
    } else if 'a' <= c && c <= 'f' {
        Some((c as u32 - 'a' as u32 + 10) as u8)
    } else if 'A' <= c && c <= 'F' {
        Some((c as u32 - 'A' as u32 + 10) as u8)
    } else {
        None
    }
}

fn byte_of_exec(a: char, b: char) -> (r: Option<u8>)
    ensures
        r == byte_of(a, b),
{
    match (hex_value_exec(a), hex_value_exec(b)) {
        (Some(x), Some(y)) => Some(16 * x + y),
        (None, Some(y)) => if a == '+' {
            Some(y)
        } else {
            None
        },
        _ => None,
    }
}

/// Parses a `#rrggbb` color (the `#` is optional). Text that is not six
/// hexadecimal pairs gives `None`.
pub fn parse_hex_color(hex: &str) -> (r: Option<Color>)
    ensures
        r == parse_hex_spec(hex@),
{
    let s = str_chars(hex);
    let start: usize = if s.len() > 0 && s[0] == '#' {
        1
    } else {
        0
    };
    if s.len() - start != 6 {
        return None;
    }
    let ghost h = if s@.len() > 0 && s@[0] == '#' {
        s@.drop_first()
    } else {
        s@
    };
    assert(forall|k: int| 0 <= k < 6 ==> h[k] == s@[start + k]);
    let r = byte_of_exec(s[start], s[start + 1]);
    let g = byte_of_exec(s[start + 2], s[start + 3]);
    let b = byte_of_exec(s[start + 4], s[start + 5]);
    match (r, g, b) {
        (Some(r), Some(g), Some(b)) => Some(Color::Rgb(r, g, b)),
        _ => None,
    }
}

/// The colors of `colors` that parse, in order; the others are skipped.
pub open spec fn parsed_colors(colors: Seq<String>) -> Seq<Color>
    decreases colors.len(),
{
    if colors.len() == 0 {
        Seq::empty()
    } else {
        let rest = parsed_colors(colors.drop_last());
        match parse_hex_spec(colors.last()@) {
            Some(c) => rest.push(c),
            None => rest,
        }
    }
}

/// The visualizer gradient: the colors that parse, in order.
pub fn visualizer_palette(colors: &[String]) -> (r: Vec<Color>)
    ensures
        r@ == parsed_colors(colors@),
{
    let mut r: Vec<Color> = Vec::new();
    let mut i: usize = 0;
    while i < colors.len()
        invariant
            i <= colors@.len(),
            r@ == parsed_colors(colors@.take(i as int)),
        decreases colors@.len() - i,
    {
        assert(colors@.take(i + 1).drop_last() =~= colors@.take(i as int));
        if let Some(c) = parse_hex_color(colors[i].as_str()) {
            r.push(c);
        }
        i += 1;
    }
    assert(colors@.take(colors@.len() as int) =~= colors@);
    r
}

/// Resolved theme colors for rendering.
#[derive(Debug, Clone)]
pub struct Theme {
    pub primary: Color,
    pub secondary: Color,
    pub bg: Color,
    pub fg: Color,
    pub fg_dim: Color,
    pub highlight_bg: Color,
    pub highlight_fg: Color,
    pub border: Color,
    pub border_focused: Color,
    pub progress_bar: Color,
    pub visualizer_colors: Vec<Color>,
}

/// The color `#rrggbb` text denotes, or `fallback` when it does not parse.
pub open spec fn color_or(s: Seq<char>, fallback: Color) -> Color {
    match parse_hex_spec(s) {
        Some(c) => c,
        None => fallback,
    }
}

/// The fixed colors every theme shares.
pub open spec fn fixed_colors(t: Theme) -> bool {
    &&& t.bg == Color::Reset
    &&& t.fg == Color::White
    &&& t.fg_dim == Color::DarkGray
    &&& t.highlight_fg == Color::Black
    &&& t.border == Color::DarkGray
}

fn color_or_exec(s: &str, fallback: Color) -> (r: Color)
    ensures
        r == color_or(s@, fallback),
{
    match parse_hex_color(s) {
        Some(c) => c,
        None => fallback,
    }
}

impl Theme {
    /// The theme of `settings`: the primary color (light blue where it does
    /// not parse) also marks highlights, focused borders and the progress
    /// bar; the secondary color falls back to magenta; the visualizer uses
    /// the colors that parse.
    pub fn from_settings(settings: &ThemeSettings) -> (r: Self)
        ensures
            fixed_colors(r),
            r.primary == color_or(settings.primary@, Color::LightBlue),
            r.secondary == color_or(settings.secondary@, Color::Magenta),
            r.highlight_bg == r.primary,
            r.border_focused == r.primary,
            r.progress_bar == r.primary,
            r.visualizer_colors@ == parsed_colors(settings.visualizer_colors@),
    {
        let primary = color_or_exec(settings.primary.as_str(), Color::LightBlue);
        Theme {
            primary,
            secondary: color_or_exec(settings.secondary.as_str(), Color::Magenta),
            bg: Color::Reset,
            fg: Color::White,
            fg_dim: Color::DarkGray,
            highlight_bg: primary,
            highlight_fg: Color::Black,
            border: Color::DarkGray,
            border_focused: primary,
            progress_bar: primary,
            visualizer_colors: visualizer_palette(&settings.visualizer_colors),
        }
    }
}

impl Default for Theme {
    /// The theme with every fallback color: light blue, magenta, and a
    /// green, yellow, red visualizer gradient.
    fn default() -> (r: Self)
        ensures
            fixed_colors(r),
            r.primary == Color::LightBlue,
            r.secondary == Color::Magenta,
            r.highlight_bg == Color::LightBlue,
            r.border_focused == Color::LightBlue,
            r.progress_bar == Color::LightBlue,
            r.visualizer_colors@ == seq![Color::Green, Color::Yellow, Color::Red],
    {
        let mut colors: Vec<Color> = Vec::new();
        colors.push(Color::Green);
        colors.push(Color::Yellow);
        colors.push(Color::Red);
        assert(colors@ =~= seq![Color::Green, Color::Yellow, Color::Red]);
        Theme {
            primary: Color::LightBlue,
            secondary: Color::Magenta,
            bg: Color::Reset,
            fg: Color::White,
            fg_dim: Color::DarkGray,
            highlight_bg: Color::LightBlue,
            highlight_fg: Color::Black,
            border: Color::DarkGray,
            border_focused: Color::LightBlue,
            progress_bar: Color::LightBlue,
            visualizer_colors: colors,
        }
    }
}

} // verus!
