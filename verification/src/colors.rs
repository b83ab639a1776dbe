//! The palette of block colors and their terminal escape sequences.

use vstd::prelude::*;

verus! {

/// The six colors a tetromino can have.
#[derive(Debug, Copy, Clone, PartialEq, Eq, Structural)]
pub enum TetrominoColor {
    Red,
    Magenta,
    Blue,
    Yellow,
    Green,
    Cyan,
}

/// Number of colors in the palette.
pub const COLOR_COUNT: u32 = 6;

/// Trusted: `termion::color::Red::fg_str`, the foreground escape sequence of
/// palette entry 1.
#[verifier::external_body]
fn red_fg() -> (r: &'static str)
    ensures
        r@ == "\x1B[38;5;1m"@,
{
    termion::color::Red.fg_str()
}

/// Trusted: `termion::color::Magenta::fg_str`, the foreground escape sequence
/// of palette entry 5.
#[verifier::external_body]
fn magenta_fg() -> (r: &'static str)
    ensures
        r@ == "\x1B[38;5;5m"@,
{
    termion::color::Magenta.fg_str()
}

/// Trusted: `termion::color::LightBlue::fg_str`, the foreground escape
/// sequence of palette entry 12.
#[verifier::external_body]
fn light_blue_fg() -> (r: &'static str)
    ensures
        r@ == "\x1B[38;5;12m"@,
{
    termion::color::LightBlue.fg_str()
}

/// Trusted: `termion::color::Yellow::fg_str`, the foreground escape sequence
/// of palette entry 3.
#[verifier::external_body]
fn yellow_fg() -> (r: &'static str)
    ensures
        r@ == "\x1B[38;5;3m"@,
{
    termion::color::Yellow.fg_str()
}

/// Trusted: `termion::color::Green::fg_str`, the foreground escape sequence
/// of palette entry 2.
#[verifier::external_body]
fn green_fg() -> (r: &'static str)
    ensures
        r@ == "\x1B[38;5;2m"@,
{
    termion::color::Green.fg_str()
}

/// Trusted: `termion::color::Cyan::fg_str`, the foreground escape sequence of
/// palette entry 6.
#[verifier::external_body]
fn cyan_fg() -> (r: &'static str)
    ensures
        r@ == "\x1B[38;5;6m"@,
{
    termion::color::Cyan.fg_str()
}

impl TetrominoColor {
    /// The color chosen by a draw: draws `0` to `4` pick the first five
    /// colors in order, every other draw picks cyan.
    pub open spec fn spec_from_draw(draw: u32) -> TetrominoColor {
        if draw == 0 {
            TetrominoColor::Red
        } else if draw == 1 {
            TetrominoColor::Magenta
        } else if draw == 2 {
            TetrominoColor::Blue
        } else if draw == 3 {
            TetrominoColor::Yellow
        } else if draw == 4 {
            TetrominoColor::Green
        } else {
            TetrominoColor::Cyan
        }
    }

    /// The escape sequence that switches the terminal foreground to this
    /// color. Blue is drawn in the bright variant.
    pub open spec fn escape(self) -> Seq<char> {
        match self {
            TetrominoColor::Red => "\x1B[38;5;1m"@,
            TetrominoColor::Magenta => "\x1B[38;5;5m"@,
            TetrominoColor::Blue => "\x1B[38;5;12m"@,
            TetrominoColor::Yellow => "\x1B[38;5;3m"@,
            TetrominoColor::Green => "\x1B[38;5;2m"@,
            TetrominoColor::Cyan => "\x1B[38;5;6m"@,
        }
    }

    /// Maps a draw to a color of the palette.
    pub fn from_draw(draw: u32) -> (c: TetrominoColor)
        ensures
            c == Self::spec_from_draw(draw),
    {
        match draw {
            0 => TetrominoColor::Red,
            1 => TetrominoColor::Magenta,
            2 => TetrominoColor::Blue,
            3 => TetrominoColor::Yellow,
            4 => TetrominoColor::Green,
            _ => TetrominoColor::Cyan,
        }
    }

    /// The terminal escape sequence for this color.
    pub fn as_terminal_color(&self) -> (r: &'static str)
        ensures
            r@ == self.escape(),
    {
        match self {
            TetrominoColor::Red => red_fg(),
            TetrominoColor::Magenta => magenta_fg(),
            TetrominoColor::Blue => light_blue_fg(),
            TetrominoColor::Yellow => yellow_fg(),
            TetrominoColor::Green => green_fg(),
            TetrominoColor::Cyan => cyan_fg(),
        }
    }
}

} // verus!
