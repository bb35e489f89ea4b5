//! Input events delivered by the OS-wide hook, and the stop-gesture policy.

use vstd::prelude::*;

verus! {

/// Recording mode selected before a session starts; a pure selector passed
/// through to the capture invocation, with no effect on stop-trigger logic.
#[derive(Clone, Copy)]
pub enum RecordMode {
    Area,
    Screen,
    Window,
}

/// A pointer button, as far as the stop-gesture policy distinguishes them.
#[derive(Clone, Copy)]
pub enum PointerButton {
    Left,
    Right,
    Other,
}

/// A keyboard key, as far as the stop-gesture policy distinguishes them.
#[derive(Clone, Copy)]
pub enum KeyCode {
    Return,
    Other,
}

/// One event from the global input stream: a button press, a key press, or
/// any other kind of event (releases, pointer motion, wheel, ...).
#[derive(Clone, Copy)]
pub enum InputEvent {
    ButtonPress(PointerButton),
    KeyPress(KeyCode),
    Other,
}

/// The fixed stop-gesture policy: a left pointer-button press or a
/// Return/Enter key press ends the session; everything else is a no-op.
pub open spec fn is_stop_gesture(event: InputEvent) -> bool {
    ||| event matches InputEvent::ButtonPress(PointerButton::Left)
    ||| event matches InputEvent::KeyPress(KeyCode::Return)
}

/// Decide whether a single event qualifies as a stop gesture.
pub fn is_stop_event(event: &InputEvent) -> (stop: bool)
    ensures
        stop == is_stop_gesture(*event),
{
    match event {
        InputEvent::ButtonPress(PointerButton::Left) => true,
        InputEvent::KeyPress(KeyCode::Return) => true,
        _ => false,
    }
}

} // verus!
