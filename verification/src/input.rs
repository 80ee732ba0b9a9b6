//! Input decisions: the key-binding table and the pointer-event dispatch
//! that drives the painted-cell state.

use vstd::prelude::*;

use crate::cells::Cell;
use crate::cells::PaintSurface;

verus! {

/// How a key event was produced; only an initial press is acted on.
#[derive(Clone, Copy, PartialEq, Eq, Structural, Debug)]
pub enum KeyPressKind {
    Press,
    Repeat,
    Release,
}

/// The key that was hit, reduced to what the bindings distinguish.
#[derive(Clone, Copy, PartialEq, Eq, Structural, Debug)]
pub enum KeyInput {
    Character(char),
    Escape,
    OtherKey,
}

/// What the control loop is asked to do in response to a key event.
#[derive(Clone, Copy, PartialEq, Eq, Structural, Debug)]
pub enum KeyAction {
    RequestExit,
    SaveRaster,
    ClearAll,
    NoAction,
}

/// The key bindings: `q` or `Esc` exit, `s` exports, `c` clears; anything
/// else — and any repeat or release — does nothing.
pub open spec fn key_action_spec(kind: KeyPressKind, code: KeyInput) -> KeyAction {
    if !(kind is Press) {
        KeyAction::NoAction
    } else {
        match code {
            KeyInput::Character(ch) => {
                if ch == 'q' {
                    KeyAction::RequestExit
                } else if ch == 's' {
                    KeyAction::SaveRaster
                } else if ch == 'c' {
                    KeyAction::ClearAll
                } else {
                    KeyAction::NoAction
                }
            },
            KeyInput::Escape => KeyAction::RequestExit,
            KeyInput::OtherKey => KeyAction::NoAction,
        }
    }
}

/// Decide what a key event asks for, per the binding table.
pub fn key_action(kind: KeyPressKind, code: KeyInput) -> (r: KeyAction)
    ensures
        r == key_action_spec(kind, code),
{
    if !matches!(kind, KeyPressKind::Press) {
        return KeyAction::NoAction;
    }
    match code {
        KeyInput::Character(ch) => {
            if ch == 'q' {
                KeyAction::RequestExit
            } else if ch == 's' {
                KeyAction::SaveRaster
            } else if ch == 'c' {
                KeyAction::ClearAll
            } else {
                KeyAction::NoAction
            }
        },
        KeyInput::Escape => KeyAction::RequestExit,
        KeyInput::OtherKey => KeyAction::NoAction,
    }
}

/// Which pointer button an event reports.
#[derive(Clone, Copy, PartialEq, Eq, Structural, Debug)]
pub enum PointerButton {
    Primary,
    Secondary,
}

/// The kind of pointer event: a press, a release, or a drag sample.
#[derive(Clone, Copy, PartialEq, Eq, Structural, Debug)]
pub enum PointerKind {
    ButtonDown,
    ButtonUp,
    DragMove,
}

/// One pointer event: a button, what happened to it, and the cell under the
/// cursor.
#[derive(Clone, Copy, PartialEq, Eq, Structural, Debug)]
pub struct PointerEvent {
    pub button: PointerButton,
    pub kind: PointerKind,
    pub at: Cell,
}

impl PaintSurface {
    /// Apply one pointer event, per the mouse bindings: primary down/up
    /// toggles drawing mode, a primary drag paints, a secondary drag
    /// erases, and every other event leaves the surface untouched.
    pub fn on_pointer_event(&mut self, ev: PointerEvent)
        requires
            old(self).wf(),
        ensures
            final(self).wf(),
            ev.kind is ButtonDown && ev.button is Primary ==> final(self).drawing()
                && final(self).cells_seq() == old(self).cells_seq(),
            ev.kind is ButtonUp && ev.button is Primary ==> !final(self).drawing()
                && final(self).cells_seq() == old(self).cells_seq(),
            ev.kind is DragMove && ev.button is Primary ==> final(self).cell_set()
                == old(self).cell_set().insert(ev.at)
                && final(self).drawing() == old(self).drawing(),
            ev.kind is DragMove && ev.button is Secondary ==> final(self).cell_set()
                == old(self).cell_set().remove(ev.at)
                && final(self).drawing() == old(self).drawing(),
            !(ev.kind is DragMove) && ev.button is Secondary ==> *final(self) == *old(self),
    {
        match (ev.kind, ev.button) {
            (PointerKind::ButtonDown, PointerButton::Primary) => self.on_pointer_down(ev.at),
            (PointerKind::ButtonUp, PointerButton::Primary) => self.on_pointer_up(),
            (PointerKind::DragMove, PointerButton::Primary) => self.on_drag_paint(ev.at),
            (PointerKind::DragMove, PointerButton::Secondary) => self.on_drag_erase(ev.at),
            _ => {},
        }
    }
}

} // verus!
