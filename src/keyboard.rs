//! Keyboard events, decoded from raw key messages.

use vstd::prelude::*;

use crate::message::{WM_KEYDOWN, WM_KEYUP, WM_SYSKEYDOWN, WM_SYSKEYUP};

verus! {

/// A virtual-key code, as the platform reports it in the first machine word
/// of a key message.
#[derive(Debug, Clone, Copy, PartialEq, Eq, Structural, Hash)]
pub struct KeyCode(pub usize);

#[derive(Debug, Clone, Copy, PartialEq, Eq, Structural)]
pub enum KeyEvent {
    /// The first transition of a key to pressed.
    KeyDown(KeyCode),
    /// A repeat while the key stays pressed.
    KeyHold(KeyCode),
    KeyUp(KeyCode),
}

pub open spec fn is_key_down_code(m: u32) -> bool {
    m == WM_KEYDOWN || m == WM_SYSKEYDOWN
}

pub open spec fn is_key_up_code(m: u32) -> bool {
    m == WM_KEYUP || m == WM_SYSKEYUP
}

pub open spec fn is_key_code(m: u32) -> bool {
    is_key_down_code(m) || is_key_up_code(m)
}

/// Bit 30 of the second machine word: the key was already down before this
/// message.
pub open spec fn was_down(lparam: isize) -> bool {
    (lparam as usize / 0x4000_0000) % 2 == 1
}

/// The key event of a key message.
pub open spec fn key_event_of(code: u32, wparam: usize, lparam: isize) -> KeyEvent
    recommends
        is_key_code(code),
{
    if is_key_down_code(code) {
        if was_down(lparam) {
            KeyEvent::KeyHold(KeyCode(wparam))
        } else {
            KeyEvent::KeyDown(KeyCode(wparam))
        }
    } else {
        KeyEvent::KeyUp(KeyCode(wparam))
    }
}

impl KeyEvent {
    /// Whether a message code is one of the key messages.
    pub fn message(m: u32) -> (r: bool)
        ensures
            r == is_key_code(m),
    {
        m == WM_KEYDOWN || m == WM_SYSKEYDOWN || m == WM_KEYUP || m == WM_SYSKEYUP
    }
}

fn previous_state_set(lparam: isize) -> (r: bool)
    ensures
        r == was_down(lparam),
{
    let word = lparam as usize;
    let bit: usize = word & 0x4000_0000;
    assert((bit == 0) == ((word / 0x4000_0000) % 2 != 1)) by (bit_vector)
        requires
            bit == word & 0x4000_0000,
    ;
    bit != 0
}

/// Translates a key message into a key event: a key-down message whose
/// previous-state bit is set is a repeat.
pub fn translate_keyboard(code: u32, wparam: usize, lparam: isize) -> (r: KeyEvent)
    requires
        is_key_code(code),
    ensures
        r == key_event_of(code, wparam, lparam),
{
    if code == WM_KEYDOWN || code == WM_SYSKEYDOWN {
        if previous_state_set(lparam) {
            KeyEvent::KeyHold(KeyCode(wparam))
        } else {
            KeyEvent::KeyDown(KeyCode(wparam))
        }
    } else {
        KeyEvent::KeyUp(KeyCode(wparam))
    }
}

/// A key-down message without the previous-state bit is a press, the same
/// key with it is a repeat, and never the other way round; a key-up message
/// is a release either way.
pub proof fn lemma_press_then_hold(code: u32, wparam: usize, first: isize, second: isize)
    requires
        is_key_code(code),
        !was_down(first),
        was_down(second),
    ensures
        is_key_down_code(code) ==> key_event_of(code, wparam, first) == KeyEvent::KeyDown(
            KeyCode(wparam),
        ) && key_event_of(code, wparam, second) == KeyEvent::KeyHold(KeyCode(wparam)),
        is_key_up_code(code) ==> key_event_of(code, wparam, first) == KeyEvent::KeyUp(
            KeyCode(wparam),
        ) && key_event_of(code, wparam, second) == KeyEvent::KeyUp(KeyCode(wparam)),
        !(key_event_of(code, wparam, first) is KeyHold),
        !(key_event_of(code, wparam, second) is KeyDown),
{
}

} // verus!
