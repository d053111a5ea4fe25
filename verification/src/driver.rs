use vstd::prelude::*;

use crate::color::{LCDBitmapDrawMode, LCDBitmapFlip, LCDColor, LCDLineCapStyle, LCDPattern,
    LCDSolidColor};
use crate::error::GraphicsError;
use crate::geometry::LCDRect;

verus! {

/// One slot of the fixed native function table, named so failures can say
/// which native operation they came from.
#[derive(Clone, Copy, Debug, PartialEq, Eq, Structural)]
pub enum DriverOp {
    GetBitmapData,
    DrawBitmap,
    DrawScaledBitmap,
    TileBitmap,
    ClearBitmap,
    CopyBitmap,
    TransformedBitmap,
    SetColorToPattern,
    LoadIntoBitmap,
    CheckMaskCollision,
    FreeBitmap,
    GetFontGlyph,
    GetFontKerning,
    GetTableBitmap,
    LoadIntoBitmapTable,
    NewBitmapTable,
    LoadBitmapTable,
    FreeBitmapTable,
    GetFrame,
    GetDisplayFrame,
    GetDebugImage,
    GetFrameBufferBitmap,
    SetBackgroundColor,
    MarkUpdatedRows,
    Display,
    SetDrawOffset,
    NewBitmap,
    LoadBitmap,
    Clear,
    DrawLine,
    FillTriangle,
    DrawRect,
    FillRect,
    DrawEllipse,
    FillEllipse,
    LoadFont,
    DrawText,
    GetTextWidth,
}

/// A fully marshalled native call, ready for an unverified executor to pass
/// to the driver's function table. Bitmap, table and font arguments are the
/// raw native handle values (0 stands for "none" where a target or stencil is
/// optional); paths and text are nul-terminated byte strings; angles and
/// scale factors travel as the raw 32 bits of the driver's floating-point
/// arguments, which this layer never computes on.
#[derive(Clone, Debug, PartialEq)]
pub enum DriverCall {
    GetBitmapData { bitmap: usize },
    DrawBitmap {
        bitmap: usize,
        target: usize,
        stencil: usize,
        x: i32,
        y: i32,
        mode: LCDBitmapDrawMode,
        flip: LCDBitmapFlip,
        clip: LCDRect,
    },
    DrawScaledBitmap {
        bitmap: usize,
        target: usize,
        stencil: usize,
        x: i32,
        y: i32,
        xscale_bits: u32,
        yscale_bits: u32,
        mode: LCDBitmapDrawMode,
        clip: LCDRect,
    },
    TileBitmap {
        bitmap: usize,
        target: usize,
        stencil: usize,
        x: i32,
        y: i32,
        width: i32,
        height: i32,
        mode: LCDBitmapDrawMode,
        flip: LCDBitmapFlip,
        clip: LCDRect,
    },
    ClearBitmap { bitmap: usize, color: LCDColor },
    CopyBitmap { bitmap: usize },
    TransformedBitmap {
        bitmap: usize,
        rotation_bits: u32,
        xscale_bits: u32,
        yscale_bits: u32,
    },
    SetColorToPattern { bitmap: usize, x: i32, y: i32 },
    LoadIntoBitmap { path: Vec<u8>, bitmap: usize },
    CheckMaskCollision {
        bitmap1: usize,
        x1: i32,
        y1: i32,
        flip1: LCDBitmapFlip,
        bitmap2: usize,
        x2: i32,
        y2: i32,
        flip2: LCDBitmapFlip,
        rect: LCDRect,
    },
    FreeBitmap { bitmap: usize },
    GetFontGlyph { font: usize, c: u16 },
    GetFontKerning { font: usize, c1: u16, c2: u16 },
    GetTableBitmap { table: usize, index: i32 },
    LoadIntoBitmapTable { path: Vec<u8>, table: usize },
    NewBitmapTable { count: i32, width: i32, height: i32 },
    LoadBitmapTable { path: Vec<u8> },
    FreeBitmapTable { table: usize },
    GetFrame,
    GetDisplayFrame,
    GetDebugImage,
    GetFrameBufferBitmap,
    SetBackgroundColor { color: LCDSolidColor },
    MarkUpdatedRows { start: i32, end: i32 },
    Display,
    SetDrawOffset { dx: i32, dy: i32 },
    NewBitmap { width: i32, height: i32, color: LCDColor },
    LoadBitmap { path: Vec<u8> },
    Clear { color: LCDColor },
    DrawLine {
        target: usize,
        stencil: usize,
        x1: i32,
        y1: i32,
        x2: i32,
        y2: i32,
        width: i32,
        color: LCDColor,
        end_cap_style: LCDLineCapStyle,
        clip: LCDRect,
    },
    FillTriangle {
        target: usize,
        stencil: usize,
        x1: i32,
        y1: i32,
        x2: i32,
        y2: i32,
        x3: i32,
        y3: i32,
        color: LCDColor,
        clip: LCDRect,
    },
    DrawRect {
        target: usize,
        stencil: usize,
        x: i32,
        y: i32,
        width: i32,
        height: i32,
        color: LCDColor,
        clip: LCDRect,
    },
    FillRect {
        target: usize,
        stencil: usize,
        x: i32,
        y: i32,
        width: i32,
        height: i32,
        color: LCDColor,
        clip: LCDRect,
    },
    DrawEllipse {
        target: usize,
        stencil: usize,
        x: i32,
        y: i32,
        width: i32,
        height: i32,
        line_width: i32,
        start_angle_bits: u32,
        end_angle_bits: u32,
        color: LCDColor,
        clip: LCDRect,
    },
    FillEllipse {
        target: usize,
        stencil: usize,
        x: i32,
        y: i32,
        width: i32,
        height: i32,
        start_angle_bits: u32,
        end_angle_bits: u32,
        color: LCDColor,
        clip: LCDRect,
    },
    LoadFont { path: Vec<u8> },
    DrawText {
        font: usize,
        target: usize,
        stencil: usize,
        text: Vec<u8>,
        len: usize,
        x: i32,
        y: i32,
        mode: LCDBitmapDrawMode,
        tracking: i32,
        clip: LCDRect,
    },
    GetTextWidth { font: usize, text: Vec<u8>, len: usize, tracking: i32 },
}

/// A copy of the process-wide handle to the driver's function table. The
/// value 0 stands for "never initialized"; every operation checks it before
/// building a native call.
#[derive(Clone, Copy, Debug, PartialEq, Eq, Structural)]
pub struct DriverHandle {
    pub table: usize,
}

impl DriverHandle {
    /// Wraps the raw function-table address handed over by the hosting runtime.
    pub fn new(table: usize) -> (h: DriverHandle)
        ensures
            h.table == table,
    {
        DriverHandle { table }
    }

    /// A non-null table was installed.
    pub open spec fn is_initialized(self) -> bool {
        self.table != 0
    }
}

/// Classifies what a native decode call handed back: a non-null handle is
/// success whatever the message slot holds; a null handle with a message is a
/// reported decode failure; a null handle without one is the silent fault,
/// kept distinct so it cannot be masked.
pub fn interpret_decode(handle: usize, err: Option<String>) -> (r: Result<usize, GraphicsError>)
    ensures
        handle != 0 ==> r == Ok::<usize, GraphicsError>(handle),
        handle == 0 ==> (match err {
            Option::Some(m) => r == Err::<usize, GraphicsError>(
                GraphicsError::ResourceDecodeFailed(m),
            ),
            Option::None => r == Err::<usize, GraphicsError>(
                GraphicsError::ResourceDecodeFailedSilently,
            ),
        }),
{
    if handle != 0 {
        Ok(handle)
    } else {
        match err {
            Option::Some(m) => Err(GraphicsError::ResourceDecodeFailed(m)),
            Option::None => Err(GraphicsError::ResourceDecodeFailedSilently),
        }
    }
}

/// Outcome of a decode that refills an existing resource in place: the same
/// classification as `interpret_decode`, with the handle discarded on success.
pub fn complete_load_into(handle: usize, err: Option<String>) -> (r: Result<(), GraphicsError>)
    ensures
        handle != 0 ==> r == Ok::<(), GraphicsError>(()),
        handle == 0 ==> (match err {
            Option::Some(m) => r == Err::<(), GraphicsError>(
                GraphicsError::ResourceDecodeFailed(m),
            ),
            Option::None => r == Err::<(), GraphicsError>(
                GraphicsError::ResourceDecodeFailedSilently,
            ),
        }),
{
    match interpret_decode(handle, err) {
        Ok(_) => Ok(()),
        Err(e) => Err(e),
    }
}

/// Outcome of a native call that returns nothing: `ok` is whether the call
/// could be made at all.
pub fn complete_unit(op: DriverOp, ok: bool) -> (r: Result<(), GraphicsError>)
    ensures
        ok ==> r == Ok::<(), GraphicsError>(()),
        !ok ==> r == Err::<(), GraphicsError>(GraphicsError::DriverCallFailed(op)),
{
    if ok {
        Ok(())
    } else {
        Err(GraphicsError::DriverCallFailed(op))
    }
}

/// Outcome of a native call that returns one integer (a rendered width, a
/// kerning adjustment).
pub fn complete_int(op: DriverOp, ok: bool, value: i32) -> (r: Result<i32, GraphicsError>)
    ensures
        ok ==> r == Ok::<i32, GraphicsError>(value),
        !ok ==> r == Err::<i32, GraphicsError>(GraphicsError::DriverCallFailed(op)),
{
    if ok {
        Ok(value)
    } else {
        Err(GraphicsError::DriverCallFailed(op))
    }
}

/// Outcome of a mask-collision query: the driver reports how many opaque
/// pixels overlap, and any overlap at all counts as a collision.
pub fn complete_check_mask_collision(pixels_covered: i32) -> (r: bool)
    ensures
        r == (pixels_covered != 0),
{
    pixels_covered != 0
}

/// Outcome of a query that turned a bitmap region into a tiling pattern.
pub fn complete_into_color(op: DriverOp, ok: bool, pattern: LCDPattern) -> (r: Result<
    LCDColor,
    GraphicsError,
>)
    ensures
        ok ==> r == Ok::<LCDColor, GraphicsError>(LCDColor::Pattern(pattern)),
        !ok ==> r == Err::<LCDColor, GraphicsError>(GraphicsError::DriverCallFailed(op)),
{
    if ok {
        Ok(LCDColor::Pattern(pattern))
    } else {
        Err(GraphicsError::DriverCallFailed(op))
    }
}

} // verus!
