//! The sixteen-entry palette and the packed attribute byte of a cell.

use vstd::prelude::*;

verus! {

/// One of the sixteen fixed palette entries.
#[derive(Debug, Clone, Copy, PartialEq, Eq, Structural)]
pub enum Color {
    Black,
    Blue,
    Green,
    Cyan,
    Red,
    Meganta,
    Brown,
    LightGray,
    DarkGray,
    LightBlue,
    LightGreen,
    LightCyan,
    LightRed,
    Pink,
    Yellow,
    White,
}

impl Color {
    /// The 4-bit hardware code of the palette entry.
    pub open spec fn spec_code(self) -> u8 {
        match self {
            Color::Black => 0,
            Color::Blue => 1,
            Color::Green => 2,
            Color::Cyan => 3,
            Color::Red => 4,
            Color::Meganta => 5,
            Color::Brown => 6,
            Color::LightGray => 7,
            Color::DarkGray => 8,
            Color::LightBlue => 9,
            Color::LightGreen => 10,
            Color::LightCyan => 11,
            Color::LightRed => 12,
            Color::Pink => 13,
            Color::Yellow => 14,
            Color::White => 15,
        }
    }

    /// The 4-bit hardware code of the palette entry.
    pub fn code(self) -> (r: u8)
        ensures
            r == self.spec_code(),
            r < 16,
    {
        match self {
            Color::Black => 0,
            Color::Blue => 1,
            Color::Green => 2,
            Color::Cyan => 3,
            Color::Red => 4,
            Color::Meganta => 5,
            Color::Brown => 6,
            Color::LightGray => 7,
            Color::DarkGray => 8,
            Color::LightBlue => 9,
            Color::LightGreen => 10,
            Color::LightCyan => 11,
            Color::LightRed => 12,
            Color::Pink => 13,
            Color::Yellow => 14,
            Color::White => 15,
        }
    }
}

/// A foreground and a background color packed into one attribute byte:
/// the foreground in bits 0-3, the background in bits 4-7.
#[derive(Debug, Clone, Copy, PartialEq, Eq, Structural)]
pub struct ColorCode(u8);

impl View for ColorCode {
    type V = u8;

    /// The attribute byte as the hardware reads it.
    closed spec fn view(&self) -> u8 {
        self.0
    }
}

/// The attribute byte for a pair of colors.
pub open spec fn color_byte(foreground: Color, background: Color) -> u8 {
    (background.spec_code() * 16 + foreground.spec_code()) as u8
}

impl ColorCode {
    /// Packs `foreground` into the low nibble and `background` into the high one.
    pub fn new(foreground: Color, background: Color) -> (r: ColorCode)
        ensures
            r@ == color_byte(foreground, background),
            r@ % 16 == foreground.spec_code(),
            r@ / 16 == background.spec_code(),
    {
        let f = foreground.code();
        let b = background.code();
        ColorCode(b * 16 + f)
    }

    /// The code that holds the attribute byte `byte` as it stands, as read
    /// back from a stored cell.
    pub(crate) fn from_byte(byte: u8) -> (r: ColorCode)
        ensures
            r@ == byte,
    {
        ColorCode(byte)
    }

    /// The attribute byte.
    pub fn byte(&self) -> (r: u8)
        ensures
            r == self@,
    {
        self.0
    }
}

} // verus!
