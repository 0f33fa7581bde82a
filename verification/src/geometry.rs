//! Points and rectangles in the shared desktop coordinate space.
//!
//! Every output, overlay surface and selection lives in one global
//! coordinate space; pointer events arrive surface-local and are offset
//! by the owning surface's region origin before they are stored anywhere.

use vstd::prelude::*;

verus! {

/// A coordinate in the global desktop coordinate space (or, before
/// conversion, in a surface's local space).
#[derive(Clone, Copy, Debug, PartialEq, Eq, Structural)]
pub struct Pos {
    pub x: i32,
    pub y: i32,
}

impl Pos {
    pub fn new(x: i32, y: i32) -> (p: Pos)
        ensures
            p.x == x,
            p.y == y,
    {
        Pos { x, y }
    }
}

/// An axis-aligned rectangle: origin in global coordinates, extent in
/// pixels. Zero-width and zero-height rectangles are valid values.
#[derive(Clone, Copy, Debug, PartialEq, Eq, Structural)]
pub struct Region {
    pub x: i32,
    pub y: i32,
    pub width: u32,
    pub height: u32,
}

impl Region {
    /// The whole rectangle, right and bottom edges included as bounds,
    /// fits inside the signed 32-bit coordinate space.
    pub open spec fn wf(self) -> bool {
        &&& self.x + self.width <= i32::MAX
        &&& self.y + self.height <= i32::MAX
    }

    /// Does global point `p` lie inside the half-open pixel span of
    /// this rectangle?
    pub open spec fn covers(self, p: Pos) -> bool {
        &&& self.x <= p.x < self.x + self.width
        &&& self.y <= p.y < self.y + self.height
    }

    pub fn new(x: i32, y: i32, width: u32, height: u32) -> (r: Region)
        requires
            x + width <= i32::MAX,
            y + height <= i32::MAX,
        ensures
            r == (Region { x, y, width, height }),
            r.wf(),
    {
        Region { x, y, width, height }
    }
}

/// Offset a surface-local position by the surface's global origin, the
/// one conversion every stored position goes through.
pub fn to_global(local: Pos, origin: Pos) -> (g: Pos)
    requires
        i32::MIN <= local.x + origin.x <= i32::MAX,
        i32::MIN <= local.y + origin.y <= i32::MAX,
    ensures
        g.x == local.x + origin.x,
        g.y == local.y + origin.y,
{
    Pos { x: local.x + origin.x, y: local.y + origin.y }
}

} // verus!
