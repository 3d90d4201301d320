//! Colour tokens and their resolution against a palette.

use vstd::prelude::*;
use vstd::std_specs::cmp::PartialEqSpecImpl;
use vstd::utf8::is_ascii_chars;

verus! {

/// A colour with opacity, eight bits per channel.
#[derive(Clone, Copy, Debug, PartialEq, Eq, Structural)]
pub struct Rgba {
    pub red: u8,
    pub green: u8,
    pub blue: u8,
    pub alpha: u8,
}

/// An opaque colour, eight bits per channel.
#[derive(Clone, Copy, Debug, PartialEq, Eq, Structural)]
pub struct Rgb {
    pub red: u8,
    pub green: u8,
    pub blue: u8,
}

/// A colour as a chart description names it: an entry of the palette, or a
/// literal written in hexadecimal.
///
/// Two tokens are equal where they name the same entry or hold the same text.
#[derive(Clone, Debug)]
#[allow(non_camel_case_types)]
pub enum Color {
    gray_1,
    gray_2,
    neutral_0,
    neutral_1,
    neutral_2,
    neutral_3,
    neutral_4,
    neutral_5,
    neutral_6,
    neutral_7,
    neutral_8,
    neutral_9,
    neutral_10,
    bright_green,
    bright_red,
    bright_orange,
    ext_warm_grey,
    ext_orange,
    ext_yellow,
    ext_blue,
    ext_purple,
    ext_pink,
    ext_indigo,
    accent_blue,
    accent_red,
    accent_green,
    accent_warm_grey,
    accent_orange,
    accent_yellow,
    accent_purple,
    accent_pink,
    accent_indigo,
    rgb(String),
}

impl PartialEq for Color {
    fn eq(&self, other: &Color) -> (same: bool) {
        match (self, other) {
            (Color::gray_1, Color::gray_1) => true,
            (Color::gray_2, Color::gray_2) => true,
            (Color::neutral_0, Color::neutral_0) => true,
            (Color::neutral_1, Color::neutral_1) => true,
            (Color::neutral_2, Color::neutral_2) => true,
            (Color::neutral_3, Color::neutral_3) => true,
            (Color::neutral_4, Color::neutral_4) => true,
            (Color::neutral_5, Color::neutral_5) => true,
            (Color::neutral_6, Color::neutral_6) => true,
            (Color::neutral_7, Color::neutral_7) => true,
            (Color::neutral_8, Color::neutral_8) => true,
            (Color::neutral_9, Color::neutral_9) => true,
            (Color::neutral_10, Color::neutral_10) => true,
            (Color::bright_green, Color::bright_green) => true,
            (Color::bright_red, Color::bright_red) => true,
            (Color::bright_orange, Color::bright_orange) => true,
            (Color::ext_warm_grey, Color::ext_warm_grey) => true,
            (Color::ext_orange, Color::ext_orange) => true,
            (Color::ext_yellow, Color::ext_yellow) => true,
            (Color::ext_blue, Color::ext_blue) => true,
            (Color::ext_purple, Color::ext_purple) => true,
            (Color::ext_pink, Color::ext_pink) => true,
            (Color::ext_indigo, Color::ext_indigo) => true,
            (Color::accent_blue, Color::accent_blue) => true,
            (Color::accent_red, Color::accent_red) => true,
            (Color::accent_green, Color::accent_green) => true,
            (Color::accent_warm_grey, Color::accent_warm_grey) => true,
            (Color::accent_orange, Color::accent_orange) => true,
            (Color::accent_yellow, Color::accent_yellow) => true,
            (Color::accent_purple, Color::accent_purple) => true,
            (Color::accent_pink, Color::accent_pink) => true,
            (Color::accent_indigo, Color::accent_indigo) => true,
            (Color::rgb(text), Color::rgb(other_text)) => text.eq(other_text),
            _ => false,
        }
    }
}

impl Eq for Color {

}

impl Color {
    /// Whether two tokens name the same entry or hold the same text.
    pub open spec fn same_as(&self, other: &Color) -> bool {
        match (*self, *other) {
            (Color::rgb(text), Color::rgb(other_text)) => text@ == other_text@,
            (Color::rgb(_), _) => false,
            (_, Color::rgb(_)) => false,
            _ => *self == *other,
        }
    }
}

impl PartialEqSpecImpl for Color {
    open spec fn obeys_eq_spec() -> bool {
        true
    }

    open spec fn eq_spec(&self, other: &Color) -> bool {
        self.same_as(other)
    }
}

/// The colours of the active theme: one per named token, and the accent
/// colour that stands in for a literal that cannot be read.
#[derive(Clone, Copy, Debug, PartialEq, Eq)]
pub struct Palette {
    pub accent: Rgba,
    pub gray_1: Rgba,
    pub gray_2: Rgba,
    pub neutral_0: Rgba,
    pub neutral_1: Rgba,
    pub neutral_2: Rgba,
    pub neutral_3: Rgba,
    pub neutral_4: Rgba,
    pub neutral_5: Rgba,
    pub neutral_6: Rgba,
    pub neutral_7: Rgba,
    pub neutral_8: Rgba,
    pub neutral_9: Rgba,
    pub neutral_10: Rgba,
    pub bright_green: Rgba,
    pub bright_red: Rgba,
    pub bright_orange: Rgba,
    pub ext_warm_grey: Rgba,
    pub ext_orange: Rgba,
    pub ext_yellow: Rgba,
    pub ext_blue: Rgba,
    pub ext_purple: Rgba,
    pub ext_pink: Rgba,
    pub ext_indigo: Rgba,
    pub accent_blue: Rgba,
    pub accent_red: Rgba,
    pub accent_green: Rgba,
    pub accent_warm_grey: Rgba,
    pub accent_orange: Rgba,
    pub accent_yellow: Rgba,
    pub accent_purple: Rgba,
    pub accent_pink: Rgba,
    pub accent_indigo: Rgba,
}

/// The value of one hexadecimal digit, in either case.
pub open spec fn hex_digit(c: char) -> Option<u8> {
    if '0' <= c <= '9' {
        Some((c as u32 - '0' as u32) as u8)
    } else if 'a' <= c <= 'f' {
        Some((c as u32 - 'a' as u32 + 10) as u8)
    } else if 'A' <= c <= 'F' {
        Some((c as u32 - 'A' as u32 + 10) as u8)
    } else {
        None
    }
}

/// A channel written as one digit: the digit repeated, so `f` reads as 255.
pub open spec fn hex_short_channel(c: char) -> Option<u8> {
    match hex_digit(c) {
        Some(digit) => Some((17 * digit) as u8),
        None => None,
    }
}

/// A channel written as two characters: two digits, or a plus sign and one digit.
pub open spec fn hex_long_channel(high: char, low: char) -> Option<u8> {
    match hex_digit(low) {
        Some(ones) => match hex_digit(high) {
            Some(sixteens) => Some((16 * sixteens + ones) as u8),
            None => if high == '+' {
                Some(ones)
            } else {
                None
            },
        },
        None => None,
    }
}

/// The text without one leading `#`, if it has one.
pub open spec fn hex_body(text: Seq<char>) -> Seq<char> {
    if text.len() > 0 && text[0] == '#' {
        text.drop_first()
    } else {
        text
    }
}

/// The colour that a hexadecimal literal denotes: four channels of one
/// character each, or of two characters each, in the order red, green, blue,
/// alpha, after an optional `#`. Any other text denotes none.
pub open spec fn parse_hex_rgba(text: Seq<char>) -> Option<Rgba> {
    let body = hex_body(text);
    if body.len() == 4 {
        match (
            hex_short_channel(body[0]),
            hex_short_channel(body[1]),
            hex_short_channel(body[2]),
            hex_short_channel(body[3]),
        ) {
            (Some(red), Some(green), Some(blue), Some(alpha)) => Some(
                Rgba { red, green, blue, alpha },
            ),
            _ => None,
        }
    } else if body.len() == 8 {
        match (
            hex_long_channel(body[0], body[1]),
            hex_long_channel(body[2], body[3]),
            hex_long_channel(body[4], body[5]),
            hex_long_channel(body[6], body[7]),
        ) {
            (Some(red), Some(green), Some(blue), Some(alpha)) => Some(
                Rgba { red, green, blue, alpha },
            ),
            _ => None,
        }
    } else {
        None
    }
}

/// The colour that `token` stands for under `palette`: the palette's entry of
/// that name, or what the literal denotes, or the accent colour where the
/// literal denotes none.
pub open spec fn resolved(token: Color, palette: Palette) -> Rgba {
    match token {
        Color::gray_1 => palette.gray_1,
        Color::gray_2 => palette.gray_2,
        Color::neutral_0 => palette.neutral_0,
        Color::neutral_1 => palette.neutral_1,
        Color::neutral_2 => palette.neutral_2,
        Color::neutral_3 => palette.neutral_3,
        Color::neutral_4 => palette.neutral_4,
        Color::neutral_5 => palette.neutral_5,
        Color::neutral_6 => palette.neutral_6,
        Color::neutral_7 => palette.neutral_7,
        Color::neutral_8 => palette.neutral_8,
        Color::neutral_9 => palette.neutral_9,
        Color::neutral_10 => palette.neutral_10,
        Color::bright_green => palette.bright_green,
        Color::bright_red => palette.bright_red,
        Color::bright_orange => palette.bright_orange,
        Color::ext_warm_grey => palette.ext_warm_grey,
        Color::ext_orange => palette.ext_orange,
        Color::ext_yellow => palette.ext_yellow,
        Color::ext_blue => palette.ext_blue,
        Color::ext_purple => palette.ext_purple,
        Color::ext_pink => palette.ext_pink,
        Color::ext_indigo => palette.ext_indigo,
        Color::accent_blue => palette.accent_blue,
        Color::accent_red => palette.accent_red,
        Color::accent_green => palette.accent_green,
        Color::accent_warm_grey => palette.accent_warm_grey,
        Color::accent_orange => palette.accent_orange,
        Color::accent_yellow => palette.accent_yellow,
        Color::accent_purple => palette.accent_purple,
        Color::accent_pink => palette.accent_pink,
        Color::accent_indigo => palette.accent_indigo,
        Color::rgb(text) => match parse_hex_rgba(text@) {
            Some(color) => color,
            None => palette.accent,
        },
    }
}

/// A text with a character outside ASCII denotes no colour.
pub proof fn lemma_literal_is_ascii(text: Seq<char>)
    requires
        parse_hex_rgba(text).is_some(),
    ensures
        is_ascii_chars(text),
{
    let body = hex_body(text);
    assert forall|i: int| 0 <= i < text.len() implies '\0' <= #[trigger] text[i] <= '\u{7f}' by {
        if body.len() != text.len() {
            if i > 0 {
                assert(text[i] == body[i - 1]);
            }
        } else {
            assert(text[i] == body[i]);
        }
        if body.len() == 4 {
            assert(hex_short_channel(body[0]).is_some());
            assert(hex_short_channel(body[1]).is_some());
            assert(hex_short_channel(body[2]).is_some());
            assert(hex_short_channel(body[3]).is_some());
        } else {
            assert(hex_long_channel(body[0], body[1]).is_some());
            assert(hex_long_channel(body[2], body[3]).is_some());
            assert(hex_long_channel(body[4], body[5]).is_some());
            assert(hex_long_channel(body[6], body[7]).is_some());
        }
    }
}

/// Reads an ASCII text as a colour with palette's `FromStr` for
/// `Rgba<Srgb, u8>`; Verus takes the contract on trust.
///
/// That function drops one leading `#` and cuts the rest at byte offsets. A
/// rest of four bytes gives four channels of one byte, each read by
/// `u8::from_str_radix` with radix 16 and multiplied by 17. A rest of eight
/// bytes gives four channels of two bytes, each read in the same way, which
/// accepts a plus sign in place of the first digit. Any other length, and any
/// channel that `from_str_radix` refuses, is an error, returned here as `None`.
/// A cut inside a character would panic; that the text is ASCII rules it out.
#[verifier::external_body]
fn palette_hex(text: &str) -> (color: Option<Rgba>)
    requires
        is_ascii_chars(text@),
    ensures
        color == parse_hex_rgba(text@),
{
    match text.parse::<palette::Srgba<u8>>() {
        Ok(parsed) => Some(
            Rgba { red: parsed.red, green: parsed.green, blue: parsed.blue, alpha: parsed.alpha },
        ),
        Err(_) => None,
    }
}

/// The colour that a literal denotes, if it denotes one.
pub fn literal_rgba(text: &str) -> (color: Option<Rgba>)
    ensures
        color == parse_hex_rgba(text@),
{
    if text.is_ascii() {
        palette_hex(text)
    } else {
        proof {
            if parse_hex_rgba(text@).is_some() {
                lemma_literal_is_ascii(text@);
            }
        }
        None
    }
}

/// Drops the opacity of a colour.
pub fn color_to_rgb(color: Rgba) -> (rgb: Rgb)
    ensures
        rgb == (Rgb { red: color.red, green: color.green, blue: color.blue }),
{
    Rgb { red: color.red, green: color.green, blue: color.blue }
}

impl Palette {
    /// A palette in which every entry, the accent included, is `color`.
    pub fn uniform(color: Rgba) -> (palette: Palette)
        ensures
            palette.accent == color,
            forall|token: Color| resolved(token, palette) == match token {
                Color::rgb(text) => match parse_hex_rgba(text@) {
                    Some(literal) => literal,
                    None => color,
                },
                _ => color,
            },
    {
        Palette {
            accent: color,
            gray_1: color,
            gray_2: color,
            neutral_0: color,
            neutral_1: color,
            neutral_2: color,
            neutral_3: color,
            neutral_4: color,
            neutral_5: color,
            neutral_6: color,
            neutral_7: color,
            neutral_8: color,
            neutral_9: color,
            neutral_10: color,
            bright_green: color,
            bright_red: color,
            bright_orange: color,
            ext_warm_grey: color,
            ext_orange: color,
            ext_yellow: color,
            ext_blue: color,
            ext_purple: color,
            ext_pink: color,
            ext_indigo: color,
            accent_blue: color,
            accent_red: color,
            accent_green: color,
            accent_warm_grey: color,
            accent_orange: color,
            accent_yellow: color,
            accent_purple: color,
            accent_pink: color,
            accent_indigo: color,
        }
    }
}

impl Color {
    /// The colour, with opacity, that the token stands for under `palette`.
    /// A literal that cannot be read resolves to the accent colour.
    pub fn as_srgba(&self, palette: &Palette) -> (color: Rgba)
        ensures
            color == resolved(*self, *palette),
    {
        match self {
            Color::gray_1 => palette.gray_1,
            Color::gray_2 => palette.gray_2,
            Color::neutral_0 => palette.neutral_0,
            Color::neutral_1 => palette.neutral_1,
            Color::neutral_2 => palette.neutral_2,
            Color::neutral_3 => palette.neutral_3,
            Color::neutral_4 => palette.neutral_4,
            Color::neutral_5 => palette.neutral_5,
            Color::neutral_6 => palette.neutral_6,
            Color::neutral_7 => palette.neutral_7,
            Color::neutral_8 => palette.neutral_8,
            Color::neutral_9 => palette.neutral_9,
            Color::neutral_10 => palette.neutral_10,
            Color::bright_green => palette.bright_green,
            Color::bright_red => palette.bright_red,
            Color::bright_orange => palette.bright_orange,
            Color::ext_warm_grey => palette.ext_warm_grey,
            Color::ext_orange => palette.ext_orange,
            Color::ext_yellow => palette.ext_yellow,
            Color::ext_blue => palette.ext_blue,
            Color::ext_purple => palette.ext_purple,
            Color::ext_pink => palette.ext_pink,
            Color::ext_indigo => palette.ext_indigo,
            Color::accent_blue => palette.accent_blue,
            Color::accent_red => palette.accent_red,
            Color::accent_green => palette.accent_green,
            Color::accent_warm_grey => palette.accent_warm_grey,
            Color::accent_orange => palette.accent_orange,
            Color::accent_yellow => palette.accent_yellow,
            Color::accent_purple => palette.accent_purple,
            Color::accent_pink => palette.accent_pink,
            Color::accent_indigo => palette.accent_indigo,
            Color::rgb(text) => match literal_rgba(text.as_str()) {
                Some(color) => color,
                None => palette.accent,
            },
        }
    }

    /// The opaque colour that the token stands for under `palette`.
    pub fn as_rgb_color(&self, palette: &Palette) -> (rgb: Rgb)
        ensures
            rgb == (Rgb {
                red: resolved(*self, *palette).red,
                green: resolved(*self, *palette).green,
                blue: resolved(*self, *palette).blue,
            }),
    {
        color_to_rgb(self.as_srgba(palette))
    }
}

} // verus!
