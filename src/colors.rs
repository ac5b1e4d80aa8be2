//! The sixteen colours of VGA text mode and the attribute byte that pairs a
//! foreground with a background.
use vstd::prelude::*;

verus! {

/// A VGA text-mode colour.
#[derive(Debug, Clone, Copy, PartialEq, Eq, Structural)]
pub enum Color {
    Black,
    Blue,
    Green,
    Cyan,
    Red,
    Magenta,
    Brown,
    LightGray,
    DarkGray,
    LightBlue,
    LightGreen,
    LightCyan,
    LightRed,
    Pink,
    Yellow,
    White,
}

/// The hardware number of each colour, in declaration order.
pub open spec fn color_number(c: Color) -> u8 {
    match c {
        Color::Black => 0,
        Color::Blue => 1,
        Color::Green => 2,
        Color::Cyan => 3,
        Color::Red => 4,
        Color::Magenta => 5,
        Color::Brown => 6,
        Color::LightGray => 7,
        Color::DarkGray => 8,
        Color::LightBlue => 9,
        Color::LightGreen => 10,
        Color::LightCyan => 11,
        Color::LightRed => 12,
        Color::Pink => 13,
        Color::Yellow => 14,
        Color::White => 15,
    }
}

impl Color {
    /// The hardware number of the colour, 0 to 15.
    pub fn number(self) -> (r: u8)
        ensures
            r == color_number(self),
            r < 16,
    {
        match self {
            Color::Black => 0,
            Color::Blue => 1,
            Color::Green => 2,
            Color::Cyan => 3,
            Color::Red => 4,
            Color::Magenta => 5,
            Color::Brown => 6,
            Color::LightGray => 7,
            Color::DarkGray => 8,
            Color::LightBlue => 9,
            Color::LightGreen => 10,
            Color::LightCyan => 11,
            Color::LightRed => 12,
            Color::Pink => 13,
            Color::Yellow => 14,
            Color::White => 15,
        }
    }
}

/// A VGA attribute byte: background in the high nibble, foreground in the
/// low one.
#[derive(Debug, Clone, Copy, PartialEq, Eq, Structural)]
pub struct ColorCode(u8);

impl View for ColorCode {
    type V = u8;

    closed spec fn view(&self) -> u8 {
        self.0
    }
}

impl ColorCode {
    /// `foreground` on `background`.
    pub fn new(foreground: Color, background: Color) -> (r: ColorCode)
        ensures
            r@ == (color_number(background) << 4u8) | color_number(foreground),
            r@ >> 4u8 == color_number(background),
            r@ & 15u8 == color_number(foreground),
    {
        let b = background.number();
        let f = foreground.number();
        assert(((b << 4u8) | f) >> 4u8 == b && ((b << 4u8) | f) & 15u8 == f) by (bit_vector)
            requires
                b < 16,
                f < 16,
        ;
        ColorCode((b << 4) | f)
    }

    /// Sets the bits of `background` in the high nibble. The bits already
    /// there are kept, so the result is the old background or-ed with the new.
    pub fn set_background(&mut self, background: Color)
        ensures
            final(self)@ == old(self)@ | (color_number(background) << 4u8),
    {
        self.0 = self.0 | (background.number() << 4);
    }

    /// Replaces the foreground, keeping the background.
    pub fn set_foreground(&mut self, foreground: Color)
        ensures
            final(self)@ == color_number(foreground) | (old(self)@ & 0xF0u8),
            final(self)@ >> 4u8 == old(self)@ >> 4u8,
            final(self)@ & 15u8 == color_number(foreground),
    {
        let f = foreground.number();
        let old_code = self.0;
        assert((f | (old_code & 0xF0u8)) >> 4u8 == old_code >> 4u8 && (f | (old_code & 0xF0u8)) & 15u8
            == f) by (bit_vector)
            requires
                f < 16,
        ;
        self.0 = f | (self.0 & 0xF0);
    }

    /// The attribute byte.
    pub fn value(&self) -> (r: u8)
        ensures
            r == self@,
    {
        self.0
    }
}

impl ColorCode {
    /// The attribute byte held in the low byte of `code`.
    pub fn from_code(code: u64) -> (r: ColorCode)
        ensures
            r@ == code as u8,
    {
        ColorCode(code as u8)
    }
}

impl From<u64> for ColorCode {
    /// The low byte of `code`.
    fn from(code: u64) -> (r: ColorCode) {
        ColorCode::from_code(code)
    }
}

impl vstd::std_specs::convert::FromSpecImpl<u64> for ColorCode {
    open spec fn obeys_from_spec() -> bool {
        true
    }

    closed spec fn from_spec(code: u64) -> ColorCode {
        ColorCode(code as u8)
    }
}

} // verus!
