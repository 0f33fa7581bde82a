//! Display outputs: logical geometry in the global desktop space.
//!
//! Enumeration happens once, before any surface exists. An output that
//! advertises no usable logical position or size is fatal: without it
//! no global coordinate space can be built.

use vstd::prelude::*;

use crate::error::SelectError;
use crate::geometry::{Pos, Region};

verus! {

/// One connected display output, read-only after enumeration.
#[derive(Debug)]
pub struct Output {
    pub name: String,
    pub origin: Pos,
    pub size: (u32, u32),
}

/// The advertised geometry is usable: both parts present, the size
/// non-negative, and the covered rectangle inside the coordinate space.
pub open spec fn geometry_usable(
    position: Option<(i32, i32)>,
    size: Option<(i32, i32)>,
) -> bool {
    match (position, size) {
        (Some(p), Some(s)) => {
            &&& s.0 >= 0
            &&& s.1 >= 0
            &&& p.0 + s.0 <= i32::MAX
            &&& p.1 + s.1 <= i32::MAX
        },
        _ => false,
    }
}

impl Output {
    /// The full-screen rectangle an overlay surface for this output covers.
    pub open spec fn spec_region(self) -> Region {
        Region { x: self.origin.x, y: self.origin.y, width: self.size.0, height: self.size.1 }
    }

    /// Validate one advertisement from the compositor. Succeeds exactly
    /// when the geometry is usable; otherwise the run is over before
    /// any surface is shown.
    pub fn from_advertisement(
        name: String,
        position: Option<(i32, i32)>,
        size: Option<(i32, i32)>,
    ) -> (r: Result<Output, SelectError>)
        ensures
            r is Ok <==> geometry_usable(position, size),
            r matches Ok(o) ==> {
                &&& o.name@ == name@
                &&& position matches Some(p) && o.origin == (Pos { x: p.0, y: p.1 })
                &&& size matches Some(s) && o.size.0 == s.0 && o.size.1 == s.1
                &&& o.spec_region().wf()
            },
            r matches Err(e) ==> e == SelectError::GeometryMissing,
    {
        match (position, size) {
            (Some((px, py)), Some((sw, sh))) => {
                if sw >= 0 && sh >= 0 && px <= i32::MAX - sw && py <= i32::MAX - sh {
                    Ok(Output {
                        name,
                        origin: Pos { x: px, y: py },
                        size: (sw as u32, sh as u32),
                    })
                } else {
                    Err(SelectError::GeometryMissing)
                }
            }
            _ => Err(SelectError::GeometryMissing),
        }
    }

    pub fn region(&self) -> (r: Region)
        ensures
            r == self.spec_region(),
    {
        Region {
            x: self.origin.x,
            y: self.origin.y,
            width: self.size.0,
            height: self.size.1,
        }
    }
}

} // verus!
