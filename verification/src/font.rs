use vstd::prelude::*;

use crate::driver::DriverCall;
use crate::error::GraphicsError;
use crate::graphics::Graphics;

verus! {

/// A handle to one native font resource. It is not reference counted, and no
/// free call is ever built for it: dropping a `Font` leaks the native
/// resource on purpose, because the driver may keep reading the font after
/// any one handle to it goes away.
#[derive(Debug, PartialEq, Eq)]
pub struct Font {
    handle: usize,
}

impl Font {
    /// The raw native font handle.
    pub closed spec fn handle_spec(self) -> usize {
        self.handle
    }

    /// The raw native font handle.
    pub fn handle(&self) -> (r: usize)
        ensures
            r == self.handle_spec(),
    {
        self.handle
    }

    /// Every `Font` value carries a non-null native handle.
    pub open spec fn wf(self) -> bool {
        self.handle_spec() != 0
    }

    /// Wraps a native font handle. A null handle is rejected here, before it
    /// could ever reach a native call; this constructor performs none itself.
    pub fn new(handle: usize) -> (r: Result<Font, GraphicsError>)
        ensures
            handle == 0 ==> r == Err::<Font, GraphicsError>(GraphicsError::InvalidHandle),
            handle != 0 ==> (r matches Ok(f) && f.handle_spec() == handle),
    {
        if handle == 0 {
            Err(GraphicsError::InvalidHandle)
        } else {
            Ok(Font { handle })
        }
    }

    /// Builds the native fetch of one glyph's bitmap and horizontal advance
    /// for a UTF-16 code unit.
    pub fn get_glyph(&self, g: &Graphics, c: u16) -> (r: Result<DriverCall, GraphicsError>)
        requires
            self.wf(),
        ensures
            !g.initialized() ==> r == Err::<DriverCall, GraphicsError>(
                GraphicsError::NotInitialized,
            ),
            g.initialized() ==> r == Ok::<DriverCall, GraphicsError>(
                DriverCall::GetFontGlyph { font: self.handle_spec(), c },
            ),
    {
        if g.get_ptr() == 0 {
            return Err(GraphicsError::NotInitialized);
        }
        Ok(DriverCall::GetFontGlyph { font: self.handle, c })
    }

    /// Builds the native query for the signed kerning adjustment between two
    /// adjacent glyphs.
    pub fn get_kerning(&self, g: &Graphics, c1: u16, c2: u16) -> (r: Result<
        DriverCall,
        GraphicsError,
    >)
        requires
            self.wf(),
        ensures
            !g.initialized() ==> r == Err::<DriverCall, GraphicsError>(
                GraphicsError::NotInitialized,
            ),
            g.initialized() ==> r == Ok::<DriverCall, GraphicsError>(
                DriverCall::GetFontKerning { font: self.handle_spec(), c1, c2 },
            ),
    {
        if g.get_ptr() == 0 {
            return Err(GraphicsError::NotInitialized);
        }
        Ok(DriverCall::GetFontKerning { font: self.handle, c1, c2 })
    }
}

} // verus!
