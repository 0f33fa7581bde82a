//! The overlay surfaces: one per output, each a protocol handle paired
//! with its region in global space and its own frame-pacing state.
//!
//! Input and frame callbacks only carry a surface handle; the store
//! maps the handle back to the record. Handles are unique, so the
//! match, where one exists, is the record.

use vstd::prelude::*;

use crate::geometry::Region;

verus! {

/// One live overlay surface: the protocol handle it answers to, the
/// output rectangle it covers, and when its last draw started.
#[derive(Clone, Copy, Debug)]
pub struct SurfaceEntry {
    pub handle: u64,
    pub region: Region,
    pub last_draw_ms: u64,
}

/// All overlay surfaces of the session, indexed densely; events name a
/// surface by handle and are resolved to an index here.
pub struct SurfaceStore {
    pub entries: Vec<SurfaceEntry>,
}

impl SurfaceStore {
    /// Handles are unique and every region fits the coordinate space.
    pub open spec fn wf(self) -> bool {
        &&& forall|i: int, j: int|
            0 <= i < j < self.entries.len() ==> self.entries[i].handle != self.entries[j].handle
        &&& forall|i: int| 0 <= i < self.entries.len() ==> (#[trigger] self.entries[i]).region.wf()
    }

    pub open spec fn contains_handle(self, handle: u64) -> bool {
        exists|i: int| 0 <= i < self.entries.len() && (#[trigger] self.entries[i]).handle == handle
    }

    pub fn new() -> (s: SurfaceStore)
        ensures
            s.entries@.len() == 0,
            s.wf(),
    {
        SurfaceStore { entries: Vec::new() }
    }

    pub fn len(&self) -> (n: usize)
        ensures
            n == self.entries@.len(),
    {
        self.entries.len()
    }

    /// Record a freshly created surface. Pacing starts from zero, so
    /// the first draw is never delayed.
    pub fn add(&mut self, handle: u64, region: Region)
        requires
            old(self).wf(),
            !old(self).contains_handle(handle),
            region.wf(),
        ensures
            final(self).entries@ == old(self).entries@.push(
                SurfaceEntry { handle, region, last_draw_ms: 0 },
            ),
            final(self).wf(),
    {
        self.entries.push(SurfaceEntry { handle, region, last_draw_ms: 0 });
    }

    /// Resolve a handle to its index; `None` when this session never
    /// created such a surface.
    pub fn find(&self, handle: u64) -> (r: Option<usize>)
        ensures
            r matches Some(i) ==> i < self.entries@.len() && self.entries@[i as int].handle
                == handle,
            r is None <==> !self.contains_handle(handle),
    {
        let n: usize = self.entries.len();
        let mut i: usize = 0;
        while i < n
            invariant
                i <= n,
                n == self.entries@.len(),
                forall|j: int| 0 <= j < i ==> (#[trigger] self.entries@[j]).handle != handle,
            decreases n - i,
        {
            if self.entries[i].handle == handle {
                return Some(i);
            }
            i += 1;
        }
        None
    }

    /// The region of the surface with this handle, for callers that
    /// must pre-check coordinate bounds before feeding an event in.
    pub fn region_of(&self, handle: u64) -> (r: Option<Region>)
        ensures
            r matches Some(reg) ==> exists|i: int|
                0 <= i < self.entries@.len() && (#[trigger] self.entries@[i]).handle == handle
                    && self.entries@[i].region == reg,
            r is None <==> !self.contains_handle(handle),
    {
        match self.find(handle) {
            Some(i) => Some(self.entries[i].region),
            None => None,
        }
    }
}

} // verus!
