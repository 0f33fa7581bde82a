//! The session: every dispatched event, as a tagged union, runs
//! through one handler that mutates the state and answers with the
//! action the caller must perform.
//!
//! The caller owns the event loop and the clock; it feeds events in —
//! pointer and key input, configure events, frame-done callbacks with a
//! millisecond timestamp — and acts on the answer: draw a surface after
//! a pacing delay, or treat an unknown surface as fatal.

use vstd::prelude::*;

use crate::error::SelectError;
use crate::geometry::{Pos, Region, to_global};
use crate::surface::{SurfaceEntry, SurfaceStore};
use crate::tracker::{PointerKind, Tracker};

verus! {

/// The target redraw interval: one frame of a 60 Hz pace, in
/// milliseconds, rounded down.
pub const FRAME_INTERVAL_MS: u64 = 16;

/// How long a draw must wait so that it starts no earlier than one
/// frame interval after the previous draw started. A clock that has
/// not advanced past the previous start waits a full interval.
pub open spec fn spec_pace_delay(last_ms: u64, now_ms: u64) -> u64 {
    if now_ms >= last_ms {
        if now_ms - last_ms < FRAME_INTERVAL_MS {
            (FRAME_INTERVAL_MS - (now_ms - last_ms)) as u64
        } else {
            0u64
        }
    } else {
        FRAME_INTERVAL_MS
    }
}

pub fn pace_delay(last_ms: u64, now_ms: u64) -> (d: u64)
    ensures
        d == spec_pace_delay(last_ms, now_ms),
        d <= FRAME_INTERVAL_MS,
{
    if now_ms >= last_ms {
        let elapsed: u64 = now_ms - last_ms;
        if elapsed < FRAME_INTERVAL_MS {
            FRAME_INTERVAL_MS - elapsed
        } else {
            0
        }
    } else {
        FRAME_INTERVAL_MS
    }
}

/// Two frame-done callbacks for one surface closer together than the
/// frame interval: the pacing delay pushes the second draw's start to
/// exactly one interval after the first draw's start — never earlier.
pub proof fn lemma_frame_pacing(last_ms: u64, now_ms: u64)
    requires
        last_ms <= now_ms,
        now_ms < last_ms + FRAME_INTERVAL_MS,
    ensures
        now_ms + spec_pace_delay(last_ms, now_ms) == last_ms + FRAME_INTERVAL_MS,
{
}

/// One dispatched event of the loop, already stripped to plain values:
/// a surface is its protocol handle, a pointer position is
/// surface-local, a timestamp is milliseconds of a monotonic clock.
#[derive(Clone, Copy, Debug, PartialEq, Eq, Structural)]
pub enum Event {
    Pointer { surface: u64, local: Pos, kind: PointerKind },
    /// The cancel key was pressed.
    CancelKey,
    /// The compositor finished presenting `surface`'s previous buffer.
    FrameDone { surface: u64, now_ms: u64 },
    /// The compositor configured `surface`; it wants its first draw.
    Configure { surface: u64, now_ms: u64 },
}

/// What the event loop must do after one event is handled.
#[derive(Clone, Copy, Debug, PartialEq, Eq, Structural)]
pub enum Action {
    Nothing,
    /// Sleep `delay_ms`, then compose and upload surface `index`.
    Draw { index: usize, delay_ms: u64 },
    /// A pointer event named a surface this session never created:
    /// a contract violation, fatal to the run.
    UnknownSurface,
}

/// The whole mutable state of a selection session: the surfaces and
/// the input tracker. One exists per run; the event loop owns it.
pub struct Session {
    pub surfaces: SurfaceStore,
    pub tracker: Tracker,
}

impl Session {
    /// The bounds an event must satisfy before it is handled: a
    /// pointer position must stay inside the coordinate space once
    /// offset by its surface's origin, and a timestamp must leave room
    /// for one frame interval.
    pub open spec fn event_ok(self, ev: Event) -> bool {
        match ev {
            Event::Pointer { surface, local, kind } => forall|j: int|
                0 <= j < self.surfaces.entries.len()
                    && (#[trigger] self.surfaces.entries[j]).handle == surface ==> {
                    &&& i32::MIN <= local.x + self.surfaces.entries[j].region.x <= i32::MAX
                    &&& i32::MIN <= local.y + self.surfaces.entries[j].region.y <= i32::MAX
                },
            Event::FrameDone { surface, now_ms } => now_ms + FRAME_INTERVAL_MS <= u64::MAX,
            Event::Configure { surface, now_ms } => true,
            Event::CancelKey => true,
        }
    }

    pub fn new() -> (s: Session)
        ensures
            s.surfaces.entries@.len() == 0,
            s.surfaces.wf(),
            !s.tracker.exit,
            s.tracker.pos_pressed is None,
            s.tracker.selection.data is None,
            !s.tracker.selection.on,
    {
        Session { surfaces: SurfaceStore::new(), tracker: Tracker::new() }
    }

    /// Handle one dispatched event.
    ///
    /// A pointer event is offset into global coordinates by the named
    /// surface's origin and fed to the tracker; for a surface this
    /// session never created it changes nothing and answers
    /// `UnknownSurface`. A frame-done callback folds the latest cursor
    /// position into the selection, then schedules the paced redraw of
    /// its surface and records the new draw start. A configure event
    /// schedules the first, unpaced draw. The cancel key makes the
    /// tracker exit.
    pub fn handle(&mut self, ev: Event) -> (a: Action)
        requires
            old(self).surfaces.wf(),
            old(self).event_ok(ev),
        ensures
            final(self).surfaces.wf(),
            ev matches Event::CancelKey ==> {
                &&& final(self).tracker == old(self).tracker.after_cancel()
                &&& final(self).surfaces.entries@ == old(self).surfaces.entries@
                &&& a == Action::Nothing
            },
            ev matches Event::Pointer { surface, local, kind } ==> {
                &&& final(self).surfaces.entries@ == old(self).surfaces.entries@
                &&& (old(self).surfaces.contains_handle(surface) ==> a == Action::Nothing)
                &&& (!old(self).surfaces.contains_handle(surface) ==> a
                    == Action::UnknownSurface && final(self).tracker == old(self).tracker)
                &&& forall|j: int|
                    0 <= j < old(self).surfaces.entries.len()
                        && (#[trigger] old(self).surfaces.entries[j]).handle == surface
                        ==> final(self).tracker == old(self).tracker.after_pointer(
                        Pos {
                            x: (local.x + old(self).surfaces.entries[j].region.x) as i32,
                            y: (local.y + old(self).surfaces.entries[j].region.y) as i32,
                        },
                        kind,
                    )
            },
            ev matches Event::FrameDone { surface, now_ms } ==> {
                &&& final(self).tracker == old(self).tracker.after_frame_update()
                &&& (!old(self).surfaces.contains_handle(surface) ==> a == Action::Nothing
                    && final(self).surfaces.entries@ == old(self).surfaces.entries@)
                &&& forall|j: int|
                    0 <= j < old(self).surfaces.entries.len()
                        && (#[trigger] old(self).surfaces.entries[j]).handle == surface ==> {
                        let last = old(self).surfaces.entries[j].last_draw_ms;
                        &&& a == (Action::Draw {
                            index: j as usize,
                            delay_ms: spec_pace_delay(last, now_ms),
                        })
                        &&& final(self).surfaces.entries@ == old(self).surfaces.entries@.update(
                            j,
                            SurfaceEntry {
                                last_draw_ms: (now_ms + spec_pace_delay(last, now_ms)) as u64,
                                ..old(self).surfaces.entries[j]
                            },
                        )
                    }
            },
            ev matches Event::Configure { surface, now_ms } ==> {
                &&& final(self).tracker == old(self).tracker
                &&& (!old(self).surfaces.contains_handle(surface) ==> a == Action::Nothing
                    && final(self).surfaces.entries@ == old(self).surfaces.entries@)
                &&& forall|j: int|
                    0 <= j < old(self).surfaces.entries.len()
                        && (#[trigger] old(self).surfaces.entries[j]).handle == surface ==> {
                        &&& a == (Action::Draw { index: j as usize, delay_ms: 0u64 })
                        &&& final(self).surfaces.entries@ == old(self).surfaces.entries@.update(
                            j,
                            SurfaceEntry {
                                last_draw_ms: now_ms,
                                ..old(self).surfaces.entries[j]
                            },
                        )
                    }
            },
    {
        match ev {
            Event::CancelKey => {
                self.tracker.cancel();
                Action::Nothing
            }
            Event::Pointer { surface, local, kind } => {
                match self.surfaces.find(surface) {
                    Some(i) => {
                        let region = self.surfaces.entries[i].region;
                        let global = to_global(local, Pos { x: region.x, y: region.y });
                        self.tracker.pointer(global, kind);
                        Action::Nothing
                    }
                    None => Action::UnknownSurface,
                }
            }
            Event::FrameDone { surface, now_ms } => {
                self.tracker.frame_update();
                match self.surfaces.find(surface) {
                    Some(i) => {
                        let entry = self.surfaces.entries[i];
                        let delay: u64 = pace_delay(entry.last_draw_ms, now_ms);
                        let start: u64 = now_ms + delay;
                        self.surfaces.entries[i] = SurfaceEntry { last_draw_ms: start, ..entry };
                        Action::Draw { index: i, delay_ms: delay }
                    }
                    None => Action::Nothing,
                }
            }
            Event::Configure { surface, now_ms } => {
                match self.surfaces.find(surface) {
                    Some(i) => {
                        let entry = self.surfaces.entries[i];
                        self.surfaces.entries[i] = SurfaceEntry { last_draw_ms: now_ms, ..entry };
                        Action::Draw { index: i, delay_ms: 0 }
                    }
                    None => Action::Nothing,
                }
            }
        }
    }

    /// The outcome once the tracker's exit flag is set.
    pub fn finish(&self) -> (r: Result<Region, SelectError>)
        ensures
            r matches Ok(reg) ==> self.tracker.selection.spec_region() == Some(reg) && reg.wf(),
            r matches Err(e) ==> e == SelectError::NoSelection
                && self.tracker.selection.data is None,
            r is Ok <==> self.tracker.selection.data is Some,
    {
        self.tracker.finish()
    }
}

} // verus!
