//! The typed events handed to a callback, decoded from raw input messages.

use vstd::prelude::*;

use crate::keyboard::{is_key_code, key_event_of, translate_keyboard, KeyEvent};
use crate::mouse::{is_mouse_code, mouse_event_of, translate_mouse, MouseEvent};

verus! {

/// What a callback's result says about a close request.
pub trait IntoEventResult: Sized {
    /// Whether this result lets the window close.
    spec fn permits_close(&self) -> bool;

    fn into_event_result(self) -> (r: bool)
        ensures
            r == self.permits_close(),
    ;
}

impl IntoEventResult for () {
    /// A callback that returns nothing always lets the window close.
    open spec fn permits_close(&self) -> bool {
        true
    }

    fn into_event_result(self) -> (r: bool) {
        true
    }
}

impl IntoEventResult for bool {
    open spec fn permits_close(&self) -> bool {
        *self
    }

    fn into_event_result(self) -> (r: bool) {
        self
    }
}

#[derive(Debug, Clone, Copy, PartialEq, Eq, Structural)]
pub struct PaintEvent {
    pub handle: isize,
}

#[derive(Debug, Clone, Copy, PartialEq, Eq, Structural)]
pub enum Event {
    Close,
    Repaint,
    Keyboard(KeyEvent),
    Mouse(MouseEvent),
}

/// A value that can stand as an event.
pub trait IntoEvent {
    fn into_event(self) -> Event;
}

/// Keyboard and mouse messages.
pub open spec fn is_input_code(m: u32) -> bool {
    is_key_code(m) || is_mouse_code(m)
}

/// The event of an input message.
pub open spec fn event_of(code: u32, wparam: usize, lparam: isize) -> Event
    recommends
        is_input_code(code),
{
    if is_key_code(code) {
        Event::Keyboard(key_event_of(code, wparam, lparam))
    } else {
        Event::Mouse(mouse_event_of(code, wparam, lparam))
    }
}

pub fn input_message(message: u32) -> (r: bool)
    ensures
        r == is_input_code(message),
{
    KeyEvent::message(message) || MouseEvent::message(message)
}

/// Translates an input message into an event. Only codes that
/// `input_message` accepts may be passed.
pub fn translate_event(code: u32, wparam: usize, lparam: isize) -> (r: Event)
    requires
        is_input_code(code),
    ensures
        r == event_of(code, wparam, lparam),
{
    if KeyEvent::message(code) {
        Event::Keyboard(translate_keyboard(code, wparam, lparam))
    } else {
        Event::Mouse(translate_mouse(code, wparam, lparam))
    }
}

} // verus!
