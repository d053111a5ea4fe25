use vstd::prelude::*;

verus! {

/// An integer pixel position on the display.
#[derive(Clone, Copy, Debug, PartialEq, Eq, Structural)]
pub struct ScreenPoint {
    pub x: i32,
    pub y: i32,
}

/// An integer width/height pair.
#[derive(Clone, Copy, Debug, PartialEq, Eq, Structural)]
pub struct ScreenSize {
    pub width: i32,
    pub height: i32,
}

/// An integer displacement, used for the global draw offset.
#[derive(Clone, Copy, Debug, PartialEq, Eq, Structural)]
pub struct ScreenVector {
    pub x: i32,
    pub y: i32,
}

/// An axis-aligned rectangle given by its top-left corner and its size.
#[derive(Clone, Copy, Debug, PartialEq, Eq, Structural)]
pub struct ScreenRect {
    pub origin: ScreenPoint,
    pub size: ScreenSize,
}

/// The edge-based rectangle representation the display driver expects:
/// `left`/`top` are inclusive origin edges, `right`/`bottom` are origin plus extent.
#[derive(Clone, Copy, Debug, PartialEq, Eq, Structural)]
pub struct LCDRect {
    pub left: i32,
    pub right: i32,
    pub top: i32,
    pub bottom: i32,
}

impl ScreenRect {
    /// Both derived edges of the rectangle stay within the driver's 32-bit range.
    pub open spec fn edges_in_range(self) -> bool {
        &&& i32::MIN <= self.origin.x + self.size.width <= i32::MAX
        &&& i32::MIN <= self.origin.y + self.size.height <= i32::MAX
    }

    /// Converts an origin/size rectangle into the driver's edge form.
    pub fn to_lcd_rect(self) -> (r: LCDRect)
        requires
            self.edges_in_range(),
        ensures
            r.left == self.origin.x,
            r.right == self.origin.x + self.size.width,
            r.top == self.origin.y,
            r.bottom == self.origin.y + self.size.height,
    {
        LCDRect {
            left: self.origin.x,
            right: self.origin.x + self.size.width,
            top: self.origin.y,
            bottom: self.origin.y + self.size.height,
        }
    }
}

} // verus!
