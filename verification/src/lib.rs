use vstd::prelude::*;

pub mod cache;
pub mod color;
pub mod cpath;
pub mod driver;
pub mod error;
pub mod font;
pub mod geometry;
pub mod graphics;
pub mod table;

verus! {

/// Number of bytes in one row of the 1-bit-per-pixel frame buffer.
pub const LCD_ROWSIZE: u32 = 52;

/// Number of pixel rows on the display panel.
pub const LCD_ROWS: u32 = 240;

/// Number of pixel columns on the display panel.
pub const LCD_COLUMNS: u32 = 400;

/// Size in bytes of the whole frame buffer: one packed row per display row.
pub fn frame_buffer_len() -> (r: usize)
    ensures
        r == LCD_ROWSIZE * LCD_ROWS,
{
    (LCD_ROWSIZE * LCD_ROWS) as usize
}

} // verus!
