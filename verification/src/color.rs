use vstd::prelude::*;

verus! {

/// An 8x8 one-bit tile: eight rows of pattern bits followed by eight rows of
/// mask bits, in the layout the display driver reads.
pub type LCDPattern = [u8; 16];

/// The driver's named solid colors.
#[derive(Clone, Copy, Debug, PartialEq, Eq, Structural)]
pub enum LCDSolidColor {
    Black,
    White,
    Clear,
    XorColor,
}

impl LCDSolidColor {
    /// The integer the driver uses for this color.
    pub open spec fn code_spec(self) -> i32 {
        match self {
            LCDSolidColor::Black => 0,
            LCDSolidColor::White => 1,
            LCDSolidColor::Clear => 2,
            LCDSolidColor::XorColor => 3,
        }
    }

    /// Encodes the color as the driver's integer enumerant.
    pub fn code(self) -> (r: i32)
        ensures
            r == self.code_spec(),
    {
        match self {
            LCDSolidColor::Black => 0,
            LCDSolidColor::White => 1,
            LCDSolidColor::Clear => 2,
            LCDSolidColor::XorColor => 3,
        }
    }
}

/// A fill color: either a named solid color or a literal tiling pattern.
/// The raw machine-word encoding the driver wants (enumerant or pattern
/// address) is produced only at the native call site, never stored here.
#[derive(Clone, Copy, Debug, PartialEq, Eq)]
pub enum LCDColor {
    Solid(LCDSolidColor),
    Pattern(LCDPattern),
}

/// How source pixels combine with destination pixels while drawing.
#[derive(Clone, Copy, Debug, PartialEq, Eq, Structural)]
pub enum LCDBitmapDrawMode {
    Copy,
    WhiteTransparent,
    BlackTransparent,
    FillWhite,
    FillBlack,
    DrawXor,
    DrawNxor,
    Inverted,
}

impl LCDBitmapDrawMode {
    /// The integer the driver uses for this draw mode.
    pub open spec fn code_spec(self) -> i32 {
        match self {
            LCDBitmapDrawMode::Copy => 0,
            LCDBitmapDrawMode::WhiteTransparent => 1,
            LCDBitmapDrawMode::BlackTransparent => 2,
            LCDBitmapDrawMode::FillWhite => 3,
            LCDBitmapDrawMode::FillBlack => 4,
            LCDBitmapDrawMode::DrawXor => 5,
            LCDBitmapDrawMode::DrawNxor => 6,
            LCDBitmapDrawMode::Inverted => 7,
        }
    }

    /// Encodes the draw mode as the driver's integer enumerant.
    pub fn code(self) -> (r: i32)
        ensures
            r == self.code_spec(),
    {
        match self {
            LCDBitmapDrawMode::Copy => 0,
            LCDBitmapDrawMode::WhiteTransparent => 1,
            LCDBitmapDrawMode::BlackTransparent => 2,
            LCDBitmapDrawMode::FillWhite => 3,
            LCDBitmapDrawMode::FillBlack => 4,
            LCDBitmapDrawMode::DrawXor => 5,
            LCDBitmapDrawMode::DrawNxor => 6,
            LCDBitmapDrawMode::Inverted => 7,
        }
    }
}

/// A mirror transform applied to a bitmap while drawing.
#[derive(Clone, Copy, Debug, PartialEq, Eq, Structural)]
pub enum LCDBitmapFlip {
    Unflipped,
    FlippedX,
    FlippedY,
    FlippedXy,
}

impl LCDBitmapFlip {
    /// The integer the driver uses for this flip transform.
    pub open spec fn code_spec(self) -> i32 {
        match self {
            LCDBitmapFlip::Unflipped => 0,
            LCDBitmapFlip::FlippedX => 1,
            LCDBitmapFlip::FlippedY => 2,
            LCDBitmapFlip::FlippedXy => 3,
        }
    }

    /// Encodes the flip transform as the driver's integer enumerant.
    pub fn code(self) -> (r: i32)
        ensures
            r == self.code_spec(),
    {
        match self {
            LCDBitmapFlip::Unflipped => 0,
            LCDBitmapFlip::FlippedX => 1,
            LCDBitmapFlip::FlippedY => 2,
            LCDBitmapFlip::FlippedXy => 3,
        }
    }
}

/// How the ends of a drawn line are shaped.
#[derive(Clone, Copy, Debug, PartialEq, Eq, Structural)]
pub enum LCDLineCapStyle {
    Butt,
    Square,
    Round,
}

impl LCDLineCapStyle {
    /// The integer the driver uses for this cap style.
    pub open spec fn code_spec(self) -> i32 {
        match self {
            LCDLineCapStyle::Butt => 0,
            LCDLineCapStyle::Square => 1,
            LCDLineCapStyle::Round => 2,
        }
    }

    /// Encodes the cap style as the driver's integer enumerant.
    pub fn code(self) -> (r: i32)
        ensures
            r == self.code_spec(),
    {
        match self {
            LCDLineCapStyle::Butt => 0,
            LCDLineCapStyle::Square => 1,
            LCDLineCapStyle::Round => 2,
        }
    }
}

/// The text encodings the driver's text calls accept.
#[derive(Clone, Copy, Debug, PartialEq, Eq, Structural)]
pub enum PDStringEncoding {
    Ascii,
    Utf8,
    Utf16Le,
}

impl PDStringEncoding {
    /// The integer the driver uses for this encoding.
    pub open spec fn code_spec(self) -> i32 {
        match self {
            PDStringEncoding::Ascii => 0,
            PDStringEncoding::Utf8 => 1,
            PDStringEncoding::Utf16Le => 2,
        }
    }

    /// Encodes the encoding tag as the driver's integer enumerant.
    pub fn code(self) -> (r: i32)
        ensures
            r == self.code_spec(),
    {
        match self {
            PDStringEncoding::Ascii => 0,
            PDStringEncoding::Utf8 => 1,
            PDStringEncoding::Utf16Le => 2,
        }
    }
}

} // verus!
