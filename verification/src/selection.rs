//! The selection rectangle: an anchor and a cursor in global
//! coordinates, live while the primary button is held.
//!
//! `begin` pins the anchor, `update` moves the cursor while the drag is
//! live, `end` freezes the final rectangle. The resolved rectangle is
//! the axis-aligned bounding box of the two points; zero-area
//! rectangles are valid results.

use vstd::prelude::*;

use crate::geometry::{Pos, Region};

verus! {

/// `data` holds the anchor and cursor once a drag has begun; `on` is
/// true exactly while the drag is live (button held).
#[derive(Clone, Copy, Debug)]
pub struct Selection {
    pub data: Option<(Pos, Pos)>,
    pub on: bool,
}

/// The field a fresh anchor or cursor pairs with when none was stored.
pub open spec fn origin_pos() -> Pos {
    Pos { x: 0, y: 0 }
}

impl Selection {
    pub open spec fn spec_from(self) -> Option<Pos> {
        match self.data {
            Some(d) => Some(d.0),
            None => None,
        }
    }

    pub open spec fn spec_to(self) -> Option<Pos> {
        match self.data {
            Some(d) => Some(d.1),
            None => None,
        }
    }

    pub open spec fn after_set_from(self, from: Pos) -> Selection {
        match self.data {
            Some(d) => Selection { data: Some((from, d.1)), ..self },
            None => Selection { data: Some((from, origin_pos())), ..self },
        }
    }

    pub open spec fn after_set_to(self, to: Pos) -> Selection {
        match self.data {
            Some(d) => Selection { data: Some((d.0, to)), ..self },
            None => Selection { data: Some((origin_pos(), to)), ..self },
        }
    }

    pub open spec fn after_reset(self) -> Selection {
        Selection { data: None, on: false }
    }

    pub open spec fn after_begin(self, pos: Pos) -> Selection {
        Selection { data: Some((pos, pos)), on: true }
    }

    pub open spec fn after_update(self, pos: Pos) -> Selection {
        if self.on {
            self.after_set_to(pos)
        } else {
            self
        }
    }

    pub open spec fn after_end(self, pos: Pos) -> Selection {
        if self.on {
            Selection { on: false, ..self.after_set_to(pos) }
        } else {
            self
        }
    }

    /// The resolved rectangle: bounding box of anchor and cursor.
    pub open spec fn spec_region(self) -> Option<Region> {
        match self.data {
            Some(d) => Some(rect_between(d.0, d.1)),
            None => None,
        }
    }

    pub fn new() -> (s: Selection)
        ensures
            s.data is None,
            !s.on,
    {
        Selection { data: None, on: false }
    }

    pub fn from(&self) -> (r: Option<Pos>)
        ensures
            r == self.spec_from(),
    {
        match self.data {
            Some(d) => Some(d.0),
            None => None,
        }
    }

    pub fn to(&self) -> (r: Option<Pos>)
        ensures
            r == self.spec_to(),
    {
        match self.data {
            Some(d) => Some(d.1),
            None => None,
        }
    }

    pub fn set_from(&mut self, from: Pos)
        ensures
            *final(self) == old(self).after_set_from(from),
    {
        match self.data {
            Some(d) => {
                self.data = Some((from, d.1));
            }
            None => {
                self.data = Some((from, Pos { x: 0, y: 0 }));
            }
        }
    }

    pub fn set_to(&mut self, to: Pos)
        ensures
            *final(self) == old(self).after_set_to(to),
    {
        match self.data {
            Some(d) => {
                self.data = Some((d.0, to));
            }
            None => {
                self.data = Some((Pos { x: 0, y: 0 }, to));
            }
        }
    }

    pub fn has_value(&self) -> (r: bool)
        ensures
            r == (self.data is Some),
    {
        self.data.is_some()
    }

    pub fn reset(&mut self)
        ensures
            *final(self) == old(self).after_reset(),
    {
        self.on = false;
        self.data = None;
    }

    /// Start a drag anchored at `pos`, discarding any prior selection.
    pub fn begin(&mut self, pos: Pos)
        ensures
            *final(self) == old(self).after_begin(pos),
    {
        self.reset();
        self.on = true;
        self.set_from(pos);
        self.set_to(pos);
    }

    /// Move the cursor; a no-op unless the drag is live.
    pub fn update(&mut self, pos: Pos)
        ensures
            *final(self) == old(self).after_update(pos),
    {
        if self.on {
            self.set_to(pos);
        }
    }

    /// Finish the drag at `pos`; a no-op unless the drag is live.
    pub fn end(&mut self, pos: Pos)
        ensures
            *final(self) == old(self).after_end(pos),
    {
        if self.on {
            self.on = false;
            self.set_to(pos);
        }
    }

    /// The resolved rectangle, if a drag ever began: its origin is the
    /// componentwise minimum of the two points and its size the
    /// componentwise absolute difference.
    pub fn to_region(&self) -> (r: Option<Region>)
        ensures
            r == self.spec_region(),
            r matches Some(reg) ==> reg.wf(),
    {
        match self.data {
            Some((f, t)) => {
                let x: i32 = if f.x <= t.x { f.x } else { t.x };
                let y: i32 = if f.y <= t.y { f.y } else { t.y };
                let dx: i64 = f.x as i64 - t.x as i64;
                let dy: i64 = f.y as i64 - t.y as i64;
                let w: u32 = if dx >= 0 { dx as u32 } else { (-dx) as u32 };
                let h: u32 = if dy >= 0 { dy as u32 } else { (-dy) as u32 };
                Some(Region { x, y, width: w, height: h })
            }
            None => None,
        }
    }
}

/// The axis-aligned bounding box of two points: origin at the
/// componentwise minimum, size the componentwise absolute difference.
pub open spec fn rect_between(a: Pos, b: Pos) -> Region {
    Region {
        x: if a.x <= b.x { a.x } else { b.x },
        y: if a.y <= b.y { a.y } else { b.y },
        width: (if a.x >= b.x { a.x - b.x } else { b.x - a.x }) as u32,
        height: (if a.y >= b.y { a.y - b.y } else { b.y - a.y }) as u32,
    }
}

/// A drag from anchor `a` to cursor `b`, whatever the order of the
/// coordinates, resolves to the rectangle whose origin is
/// `(min(a.x, b.x), min(a.y, b.y))` and whose size is
/// `(|a.x - b.x|, |a.y - b.y|)`.
pub proof fn lemma_drag_resolves_to_bounding_box(s: Selection, a: Pos, b: Pos)
    ensures
        s.after_begin(a).after_end(b).spec_region() matches Some(r)
            && r.x == if a.x <= b.x { a.x } else { b.x }
            && r.y == if a.y <= b.y { a.y } else { b.y }
            && r.width == if a.x >= b.x { a.x - b.x } else { b.x - a.x }
            && r.height == if a.y >= b.y { a.y - b.y } else { b.y - a.y },
{
}

/// Between two draws only the most recent cursor position matters:
/// updating twice in a row leaves the selection exactly as one update
/// with the last position would.
pub proof fn lemma_update_last_wins(s: Selection, p: Pos, q: Pos)
    ensures
        s.after_update(p).after_update(q) == s.after_update(q),
{
}

} // verus!
