//! Colors: the three-variant color model, palette choice, gradient drift and
//! per-channel darkening, and parsing of `#RGB` / `#RRGGBB` hex strings.
//!
//! Channels are 8-bit values in `[0, 255]`. The darkening and gradient
//! factors are given in thousandths (a factor of `1000` means `1.0`), so all
//! transforms stay in integer arithmetic.

use vstd::prelude::*;

verus! {

/// A true-color value: one byte per channel.
#[derive(Copy, Clone, Debug, PartialEq, Eq, Structural)]
pub struct Rgb {
    pub r: u8,
    pub g: u8,
    pub b: u8,
}

/// A cell or piece color: unset (the terminal's default), one of the 16
/// terminal palette entries, or a true color.
#[derive(Copy, Clone, Debug, PartialEq, Eq, Structural)]
pub enum Color {
    Unset,
    PaletteIndex(u8),
    TrueColor(Rgb),
}

/// Whether a piece's true-color value is currently drifting lighter or
/// darker over successive ticks.
#[derive(Copy, Clone, Debug, PartialEq, Eq, Structural)]
pub enum GradientDir {
    Up,
    Down,
}

/// Set of colors used for coloring each pipe: none at all, the 16 colors
/// predefined by the terminal, or true color.
#[derive(Copy, Clone, Debug, PartialEq, Eq, Structural)]
pub enum ColorPalette {
    NoColor,
    BaseColors,
    Rgb,
}

impl Default for GradientDir {
    fn default() -> (d: Self)
        ensures
            d is Up,
    {
        GradientDir::Up
    }
}

impl Default for ColorPalette {
    fn default() -> (p: Self)
        ensures
            p is BaseColors,
    {
        ColorPalette::BaseColors
    }
}

/// One channel darkened by `factor_mille` thousandths, stopped at `floor`:
/// the scaled value, raised back to `floor` where it fell below it.
pub open spec fn darken_channel_spec(ch: int, factor_mille: int, floor: int) -> int {
    let scaled = (ch * factor_mille) / 1000;
    if scaled < floor {
        floor
    } else {
        scaled
    }
}

/// Darkening of a whole color: each channel of a true color is darkened
/// toward the matching channel of `floor`; palette and unset colors are left
/// unmodified, since darkening is defined only in true-color space.
pub open spec fn darken_color_spec(c: Color, factor_mille: int, floor: Rgb) -> Color {
    match c {
        Color::TrueColor(t) => Color::TrueColor(
            Rgb {
                r: darken_channel_spec(t.r as int, factor_mille, floor.r as int) as u8,
                g: darken_channel_spec(t.g as int, factor_mille, floor.g as int) as u8,
                b: darken_channel_spec(t.b as int, factor_mille, floor.b as int) as u8,
            },
        ),
        _ => c,
    }
}

pub fn darken_channel(ch: u8, factor_mille: u32, floor: u8) -> (r: u8)
    requires
        factor_mille <= 1000,
    ensures
        r == darken_channel_spec(ch as int, factor_mille as int, floor as int),
{
    proof {
        assert((ch as int) * (factor_mille as int) <= 255 * 1000) by (nonlinear_arith)
            requires
                ch <= 255,
                factor_mille <= 1000,
        ;
    }
    let scaled: u32 = (ch as u32) * factor_mille / 1000;
    if scaled < floor as u32 {
        floor
    } else {
        scaled as u8
    }
}

pub fn darken_color(c: Color, factor_mille: u32, floor: Rgb) -> (r: Color)
    requires
        factor_mille <= 1000,
    ensures
        r == darken_color_spec(c, factor_mille as int, floor),
{
    match c {
        Color::TrueColor(t) => Color::TrueColor(
            Rgb {
                r: darken_channel(t.r, factor_mille, floor.r),
                g: darken_channel(t.g, factor_mille, floor.g),
                b: darken_channel(t.b, factor_mille, floor.b),
            },
        ),
        _ => c,
    }
}

/// Darkening converges to the floor and never passes it: the result stays at
/// or above `floor`; a channel at or above the floor never rises, and while
/// it is strictly above the floor a factor below one strictly lowers it; a
/// channel at or below the floor is brought exactly to it.
pub proof fn lemma_darken_channel_approaches_floor(ch: int, factor_mille: int, floor: int)
    requires
        0 <= ch <= 255,
        0 <= factor_mille <= 1000,
        0 <= floor <= 255,
    ensures
        darken_channel_spec(ch, factor_mille, floor) >= floor,
        ch >= floor ==> darken_channel_spec(ch, factor_mille, floor) <= ch,
        ch > floor && factor_mille < 1000 ==> darken_channel_spec(ch, factor_mille, floor) < ch,
        ch <= floor ==> darken_channel_spec(ch, factor_mille, floor) == floor,
{
    let scaled = (ch * factor_mille) / 1000;
    assert(ch * factor_mille <= ch * 1000) by (nonlinear_arith)
        requires
            0 <= ch,
            factor_mille <= 1000,
    ;
    assert(0 <= ch * factor_mille) by (nonlinear_arith)
        requires
            0 <= ch,
            0 <= factor_mille,
    ;
    vstd::arithmetic::div_mod::lemma_div_is_ordered(ch * factor_mille, ch * 1000, 1000);
    assert(ch * 1000 / 1000 == ch) by (nonlinear_arith);
    vstd::arithmetic::div_mod::lemma_div_is_ordered(0, ch * factor_mille, 1000);
    if ch > floor && factor_mille < 1000 {
        assert(ch * factor_mille <= ch * 1000 - ch) by (nonlinear_arith)
            requires
                0 <= ch,
                factor_mille <= 999,
        ;
        vstd::arithmetic::div_mod::lemma_div_is_ordered(ch * factor_mille, ch * 1000 - ch, 1000);
        assert((ch * 1000 - ch) / 1000 < ch) by (nonlinear_arith)
            requires
                ch >= 1,
        ;
    }
    if ch <= floor {
        assert(scaled <= ch);
    }
}

/// One channel moved one gradient step: up saturates at 255, down at 0.
pub open spec fn gradient_channel_spec(ch: int, dir: GradientDir, step: int) -> int {
    match dir {
        GradientDir::Up => if ch + step > 255 {
            255
        } else {
            ch + step
        },
        GradientDir::Down => if ch - step < 0 {
            0
        } else {
            ch - step
        },
    }
}

/// Gradient drift of a color: every channel of a true color moves one step
/// in the gradient direction; palette and unset colors are passed through
/// unchanged.
pub open spec fn gradient_color_spec(c: Color, dir: GradientDir, step: int) -> Color {
    match c {
        Color::TrueColor(t) => Color::TrueColor(
            Rgb {
                r: gradient_channel_spec(t.r as int, dir, step) as u8,
                g: gradient_channel_spec(t.g as int, dir, step) as u8,
                b: gradient_channel_spec(t.b as int, dir, step) as u8,
            },
        ),
        _ => c,
    }
}

fn gradient_channel(ch: u8, dir: GradientDir, step: u8) -> (r: u8)
    ensures
        r == gradient_channel_spec(ch as int, dir, step as int),
{
    match dir {
        GradientDir::Up => ch.saturating_add(step),
        GradientDir::Down => ch.saturating_sub(step),
    }
}

pub fn gradient_color(c: Color, dir: GradientDir, step: u8) -> (r: Color)
    ensures
        r == gradient_color_spec(c, dir, step as int),
{
    match c {
        Color::TrueColor(t) => Color::TrueColor(
            Rgb {
                r: gradient_channel(t.r, dir, step),
                g: gradient_channel(t.g, dir, step),
                b: gradient_channel(t.b, dir, step),
            },
        ),
        _ => c,
    }
}

/// Whether `c` is one of the characters `0-9`, `a-f` or `A-F`.
pub open spec fn is_hex_digit(c: char) -> bool {
    let u = c as u32;
    (('0' as u32) <= u && u <= ('9' as u32)) || (('a' as u32) <= u && u <= ('f' as u32)) || ((
    'A' as u32) <= u && u <= ('F' as u32))
}

/// The numeric value of a hex digit character.
pub open spec fn hex_digit_value(c: char) -> int {
    let u = c as u32;
    if ('0' as u32) <= u && u <= ('9' as u32) {
        u - ('0' as u32)
    } else if ('a' as u32) <= u && u <= ('f' as u32) {
        u - ('a' as u32) + 10
    } else {
        u - ('A' as u32) + 10
    }
}

/// What parsing a hex color string yields: `#RRGGBB` gives the three pairs
/// read as hex; the shorthand `#RGB` doubles each digit (`#abc` is
/// `#aabbcc`); every other string is rejected.
pub open spec fn parse_hex_rgb(s: Seq<char>) -> Option<Rgb> {
    if s.len() == 7 && s[0] == '#' && is_hex_digit(s[1]) && is_hex_digit(s[2]) && is_hex_digit(
        s[3],
    ) && is_hex_digit(s[4]) && is_hex_digit(s[5]) && is_hex_digit(s[6]) {
        Some(
            Rgb {
                r: (16 * hex_digit_value(s[1]) + hex_digit_value(s[2])) as u8,
                g: (16 * hex_digit_value(s[3]) + hex_digit_value(s[4])) as u8,
                b: (16 * hex_digit_value(s[5]) + hex_digit_value(s[6])) as u8,
            },
        )
    } else if s.len() == 4 && s[0] == '#' && is_hex_digit(s[1]) && is_hex_digit(s[2])
        && is_hex_digit(s[3]) {
        Some(
            Rgb {
                r: (17 * hex_digit_value(s[1])) as u8,
                g: (17 * hex_digit_value(s[2])) as u8,
                b: (17 * hex_digit_value(s[3])) as u8,
            },
        )
    } else {
        None
    }
}

/// The numeric value of one hex digit character, where it is one.
fn hex_digit_of(c: char) -> (r: Option<u8>)
    ensures
        r is Some <==> is_hex_digit(c),
        r matches Some(v) ==> v == hex_digit_value(c) && v < 16,
{
    let u = c as u32;
    if ('0' as u32) <= u && u <= ('9' as u32) {
        Some((u - ('0' as u32)) as u8)
    } else if ('a' as u32) <= u && u <= ('f' as u32) {
        Some((u - ('a' as u32) + 10) as u8)
    } else if ('A' as u32) <= u && u <= ('F' as u32) {
        Some((u - ('A' as u32) + 10) as u8)
    } else {
        None
    }
}

/// Parse a hex color string: a leading `#` followed by exactly six hex
/// digits, or the three-digit shorthand, case-insensitively; anything else
/// is rejected.
pub fn parse_hex_color(s: &str) -> (r: Option<Rgb>)
    ensures
        r == parse_hex_rgb(s@),
{
    let n = s.unicode_len();
    if n == 7 {
        if s.get_char(0) != '#' {
            return None;
        }
        let d1 = match hex_digit_of(s.get_char(1)) {
            Some(v) => v,
            None => {
                return None;
            },
        };
        let d2 = match hex_digit_of(s.get_char(2)) {
            Some(v) => v,
            None => {
                return None;
            },
        };
        let d3 = match hex_digit_of(s.get_char(3)) {
            Some(v) => v,
            None => {
                return None;
            },
        };
        let d4 = match hex_digit_of(s.get_char(4)) {
            Some(v) => v,
            None => {
                return None;
            },
        };
        let d5 = match hex_digit_of(s.get_char(5)) {
            Some(v) => v,
            None => {
                return None;
            },
        };
        let d6 = match hex_digit_of(s.get_char(6)) {
            Some(v) => v,
            None => {
                return None;
            },
        };
        Some(Rgb { r: 16 * d1 + d2, g: 16 * d3 + d4, b: 16 * d5 + d6 })
    } else if n == 4 {
        if s.get_char(0) != '#' {
            return None;
        }
        let d1 = match hex_digit_of(s.get_char(1)) {
            Some(v) => v,
            None => {
                return None;
            },
        };
        let d2 = match hex_digit_of(s.get_char(2)) {
            Some(v) => v,
            None => {
                return None;
            },
        };
        let d3 = match hex_digit_of(s.get_char(3)) {
            Some(v) => v,
            None => {
                return None;
            },
        };
        Some(Rgb { r: 17 * d1, g: 17 * d2, b: 17 * d3 })
    } else {
        None
    }
}

/// The lowercase hex character of a digit value.
pub open spec fn hex_char_seq(d: int) -> Seq<char> {
    if d == 0 {
        "0"@
    } else if d == 1 {
        "1"@
    } else if d == 2 {
        "2"@
    } else if d == 3 {
        "3"@
    } else if d == 4 {
        "4"@
    } else if d == 5 {
        "5"@
    } else if d == 6 {
        "6"@
    } else if d == 7 {
        "7"@
    } else if d == 8 {
        "8"@
    } else if d == 9 {
        "9"@
    } else if d == 10 {
        "a"@
    } else if d == 11 {
        "b"@
    } else if d == 12 {
        "c"@
    } else if d == 13 {
        "d"@
    } else if d == 14 {
        "e"@
    } else {
        "f"@
    }
}

fn hex_digit_str(d: u8) -> (r: &'static str)
    requires
        d < 16,
    ensures
        r@ == hex_char_seq(d as int),
{
    if d == 0 {
        "0"
    } else if d == 1 {
        "1"
    } else if d == 2 {
        "2"
    } else if d == 3 {
        "3"
    } else if d == 4 {
        "4"
    } else if d == 5 {
        "5"
    } else if d == 6 {
        "6"
    } else if d == 7 {
        "7"
    } else if d == 8 {
        "8"
    } else if d == 9 {
        "9"
    } else if d == 10 {
        "a"
    } else if d == 11 {
        "b"
    } else if d == 12 {
        "c"
    } else if d == 13 {
        "d"
    } else if d == 14 {
        "e"
    } else {
        "f"
    }
}

/// The `#rrggbb` rendering of a true color.
pub open spec fn rgb_string_view(c: Rgb) -> Seq<char> {
    "#"@ + hex_char_seq(c.r as int / 16) + hex_char_seq(c.r as int % 16) + hex_char_seq(
        c.g as int / 16,
    ) + hex_char_seq(c.g as int % 16) + hex_char_seq(c.b as int / 16) + hex_char_seq(
        c.b as int % 16,
    )
}

/// Render a true color as a `#rrggbb` string.
pub fn rgb_string(c: Rgb) -> (s: String)
    ensures
        s@ == rgb_string_view(c),
{
    let s = String::from_str("#");
    let s = s.concat(hex_digit_str(c.r / 16));
    let s = s.concat(hex_digit_str(c.r % 16));
    let s = s.concat(hex_digit_str(c.g / 16));
    let s = s.concat(hex_digit_str(c.g % 16));
    let s = s.concat(hex_digit_str(c.b / 16));
    s.concat(hex_digit_str(c.b % 16))
}

/// The name of one of the 16 terminal palette entries.
pub open spec fn palette_name_view(i: int) -> Seq<char> {
    if i == 0 {
        "BLACK"@
    } else if i == 1 {
        "RED"@
    } else if i == 2 {
        "GREEN"@
    } else if i == 3 {
        "YELLOW"@
    } else if i == 4 {
        "BLUE"@
    } else if i == 5 {
        "MAGENTA"@
    } else if i == 6 {
        "CYAN"@
    } else if i == 7 {
        "WHITE"@
    } else if i == 8 {
        "BRIGHT BLACK"@
    } else if i == 9 {
        "BRIGHT RED"@
    } else if i == 10 {
        "BRIGHT GREEN"@
    } else if i == 11 {
        "BRIGHT YELLOW"@
    } else if i == 12 {
        "BRIGHT BLUE"@
    } else if i == 13 {
        "BRIGHT MAGENTA"@
    } else if i == 14 {
        "BRIGHT CYAN"@
    } else {
        "BRIGHT GRAY"@
    }
}

fn palette_name(i: u8) -> (r: &'static str)
    requires
        i < 16,
    ensures
        r@ == palette_name_view(i as int),
{
    if i == 0 {
        "BLACK"
    } else if i == 1 {
        "RED"
    } else if i == 2 {
        "GREEN"
    } else if i == 3 {
        "YELLOW"
    } else if i == 4 {
        "BLUE"
    } else if i == 5 {
        "MAGENTA"
    } else if i == 6 {
        "CYAN"
    } else if i == 7 {
        "WHITE"
    } else if i == 8 {
        "BRIGHT BLACK"
    } else if i == 9 {
        "BRIGHT RED"
    } else if i == 10 {
        "BRIGHT GREEN"
    } else if i == 11 {
        "BRIGHT YELLOW"
    } else if i == 12 {
        "BRIGHT BLUE"
    } else if i == 13 {
        "BRIGHT MAGENTA"
    } else if i == 14 {
        "BRIGHT CYAN"
    } else {
        "BRIGHT GRAY"
    }
}

/// How a possibly missing piece color reads in the statistics overlay.
pub open spec fn color_desc_view(c: Option<Color>) -> Seq<char> {
    match c {
        None => "DEFAULT"@,
        Some(Color::Unset) => "DEFAULT"@,
        Some(Color::PaletteIndex(i)) => palette_name_view(i as int),
        Some(Color::TrueColor(t)) => rgb_string_view(t),
    }
}

/// Describe a possibly missing piece color for the statistics overlay.
pub fn color_desc(c: Option<Color>) -> (s: String)
    requires
        c matches Some(Color::PaletteIndex(i)) ==> i < 16,
    ensures
        s@ == color_desc_view(c),
{
    match c {
        None => String::from_str("DEFAULT"),
        Some(Color::Unset) => String::from_str("DEFAULT"),
        Some(Color::PaletteIndex(i)) => String::from_str(palette_name(i)),
        Some(Color::TrueColor(t)) => rgb_string(t),
    }
}

} // verus!
