//! The input tracker: raw pointer and keyboard events, already offset
//! into global coordinates, drive the selection state machine.
//!
//! A press stores the down-position; a drag is recognized only once the
//! pointer has moved away from it, and is anchored retroactively at the
//! press point. A release with the primary button always terminates the
//! session, whether or not a drag ever began; so does the cancel key.

use vstd::prelude::*;

use crate::error::SelectError;
use crate::geometry::{Pos, Region};
use crate::selection::Selection;

verus! {

/// The primary (left) pointer button code of the input event protocol.
pub const BTN_LEFT: u32 = 0x110;

/// Does a button report include the primary button?
pub open spec fn is_primary(button: u32) -> bool {
    button & BTN_LEFT > 0
}

/// One pointer event, as the windowing layer delivers it.
#[derive(Clone, Copy, Debug, PartialEq, Eq, Structural)]
pub enum PointerKind {
    Enter,
    Leave,
    Motion,
    Press { button: u32 },
    Release { button: u32 },
    Axis,
}

/// Live input state: the raw down-position is kept apart from the
/// selection so that a press-and-release on one pixel never begins a
/// drag, yet the release still ends the session.
#[derive(Clone, Copy, Debug)]
pub struct Tracker {
    pub exit: bool,
    pub pos_pressed: Option<Pos>,
    pub pos_current: Pos,
    pub selection: Selection,
}

impl Tracker {
    /// The tracker after one pointer event at global position `pos`.
    pub open spec fn after_pointer(self, pos: Pos, kind: PointerKind) -> Tracker {
        let moved = Tracker { pos_current: pos, ..self };
        let armed = match moved.pos_pressed {
            Some(pressed) => if pos != pressed && !moved.selection.on {
                Tracker { selection: moved.selection.after_begin(pressed), ..moved }
            } else {
                moved
            },
            None => moved,
        };
        match kind {
            PointerKind::Press { button } => if is_primary(button) {
                Tracker { pos_pressed: Some(pos), ..armed }
            } else {
                armed
            },
            PointerKind::Release { button } => if is_primary(button) {
                Tracker {
                    pos_pressed: None,
                    selection: armed.selection.after_end(pos),
                    exit: true,
                    ..armed
                }
            } else {
                armed
            },
            _ => armed,
        }
    }

    /// The tracker after the cancel key: the loop must wind down, the
    /// selection stays whatever it last was.
    pub open spec fn after_cancel(self) -> Tracker {
        Tracker { exit: true, ..self }
    }

    /// The tracker after a frame tick applies the latest cursor
    /// position into the selection, exactly once per frame.
    pub open spec fn after_frame_update(self) -> Tracker {
        Tracker { selection: self.selection.after_update(self.pos_current), ..self }
    }

    pub fn new() -> (t: Tracker)
        ensures
            !t.exit,
            t.pos_pressed is None,
            t.pos_current == (Pos { x: 0, y: 0 }),
            t.selection.data is None,
            !t.selection.on,
    {
        Tracker {
            exit: false,
            pos_pressed: None,
            pos_current: Pos { x: 0, y: 0 },
            selection: Selection::new(),
        }
    }

    /// Consume one pointer event whose position is already global.
    pub fn pointer(&mut self, pos: Pos, kind: PointerKind)
        ensures
            *final(self) == old(self).after_pointer(pos, kind),
    {
        self.pos_current = pos;

        if let Some(pressed) = self.pos_pressed {
            if !(pos == pressed) && !self.selection.on {
                self.selection.begin(pressed);
            }
        }

        match kind {
            PointerKind::Press { button } => {
                if button & BTN_LEFT > 0 {
                    self.pos_pressed = Some(pos);
                }
            }
            PointerKind::Release { button } => {
                if button & BTN_LEFT > 0 {
                    self.pos_pressed = None;
                    self.selection.end(pos);
                    self.exit = true;
                }
            }
            _ => {}
        }
    }

    /// Consume a cancel key press.
    pub fn cancel(&mut self)
        ensures
            *final(self) == old(self).after_cancel(),
    {
        self.exit = true;
    }

    /// On a frame tick, fold the most recent cursor position into the
    /// selection, so the drawn rectangle reflects input once per frame.
    pub fn frame_update(&mut self)
        ensures
            *final(self) == old(self).after_frame_update(),
    {
        let pos = self.pos_current;
        self.selection.update(pos);
    }

    /// The session's outcome once the loop has exited: the resolved
    /// rectangle, or `NoSelection` when no drag ever began.
    pub fn finish(&self) -> (r: Result<Region, SelectError>)
        ensures
            r matches Ok(reg) ==> self.selection.spec_region() == Some(reg) && reg.wf(),
            r matches Err(e) ==> e == SelectError::NoSelection && self.selection.data is None,
            r is Ok <==> self.selection.data is Some,
    {
        match self.selection.to_region() {
            Some(reg) => Ok(reg),
            None => Err(SelectError::NoSelection),
        }
    }
}

/// A press at `p` followed directly by a release at `p` — no motion in
/// between — never enters a drag: the exit flag is set and the session
/// holds no selection rectangle.
pub proof fn lemma_press_release_same_point(t: Tracker, p: Pos, button: u32)
    requires
        t.pos_pressed is None,
        t.selection.data is None,
        !t.selection.on,
        is_primary(button),
    ensures
        ({
            let pressed = t.after_pointer(p, PointerKind::Press { button });
            let released = pressed.after_pointer(p, PointerKind::Release { button });
            &&& !pressed.selection.on
            &&& released.exit
            &&& released.selection.data is None
            &&& released.selection.spec_region() is None
        }),
{
}

/// The cancel key while idle — no press ever happened — terminates the
/// loop and yields no rectangle, never one with an undefined anchor.
pub proof fn lemma_cancel_while_idle(t: Tracker)
    requires
        t.selection.data is None,
    ensures
        t.after_cancel().exit,
        t.after_cancel().selection.spec_region() is None,
{
}

} // verus!
