//! Mouse events, decoded from raw mouse messages.

use vstd::prelude::*;

use crate::message::{
    get_wheel_delta_wparam, high_word, hiword, loword, low_word, notches, upper_bits, wheel_notches,
    WM_CAPTURECHANGED, WM_LBUTTONDBLCLK, WM_LBUTTONDOWN, WM_LBUTTONUP, WM_MBUTTONDBLCLK,
    WM_MBUTTONDOWN, WM_MBUTTONUP, WM_MOUSEHOVER, WM_MOUSEHWHEEL, WM_MOUSELEAVE, WM_MOUSEMOVE,
    WM_MOUSEWHEEL, WM_RBUTTONDBLCLK, WM_RBUTTONDOWN, WM_RBUTTONUP, WM_XBUTTONDBLCLK, WM_XBUTTONDOWN,
    WM_XBUTTONUP,
};

verus! {

/// A mouse button or a modifier key, as reported in the button mask of a
/// mouse message.
#[derive(Debug, Clone, Copy, PartialEq, Eq, Structural, PartialOrd, Ord, Hash)]
pub enum MouseButton {
    Left,
    Right,
    Shift,
    Control,
    Middle,
    X1,
    X2,
}

#[derive(Debug, Clone, Copy, PartialEq, Eq, Structural)]
pub enum MouseEventType {
    Ignore,
    Down(MouseButton),
    Up(MouseButton),
    Double(MouseButton),
    Move,
    Hover,
    Scroll(i16),
    HScroll(i16),
}

#[derive(Debug, Clone, Copy, PartialEq, Eq, Structural)]
pub struct MouseEvent {
    pub x: u16,
    pub y: u16,
    pub etype: MouseEventType,
}

/// The flag of a button in the platform's button mask.
pub open spec fn button_flag(b: MouseButton) -> usize {
    match b {
        MouseButton::Control => 0x08,
        MouseButton::Shift => 0x04,
        MouseButton::Left => 0x01,
        MouseButton::Right => 0x02,
        MouseButton::Middle => 0x10,
        MouseButton::X1 => 0x20,
        MouseButton::X2 => 0x40,
    }
}

pub open spec fn has_flag(mask: usize, flag: usize) -> bool {
    mask & flag == flag
}

pub open spec fn when_set(mask: usize, b: MouseButton) -> Seq<MouseButton> {
    if has_flag(mask, button_flag(b)) {
        seq![b]
    } else {
        seq![]
    }
}

/// The buttons held in a mask, in the order Left, Right, Middle, X1, X2,
/// Control, Shift.
pub open spec fn buttons_in(mask: usize) -> Seq<MouseButton> {
    when_set(mask, MouseButton::Left) + when_set(mask, MouseButton::Right) + when_set(
        mask,
        MouseButton::Middle,
    ) + when_set(mask, MouseButton::X1) + when_set(mask, MouseButton::X2) + when_set(
        mask,
        MouseButton::Control,
    ) + when_set(mask, MouseButton::Shift)
}

/// The extra button named by the high word of an X-button message: 1 is
/// X1, anything else X2.
pub open spec fn x_button_of(wparam: usize) -> MouseButton {
    if upper_bits(wparam) == 1 {
        MouseButton::X1
    } else {
        MouseButton::X2
    }
}

pub open spec fn is_mouse_code(m: u32) -> bool {
    m == WM_LBUTTONDBLCLK || m == WM_LBUTTONDOWN || m == WM_LBUTTONUP || m == WM_MBUTTONDBLCLK
        || m == WM_MBUTTONDOWN || m == WM_MBUTTONUP || m == WM_RBUTTONDBLCLK || m
        == WM_RBUTTONDOWN || m == WM_RBUTTONUP || m == WM_XBUTTONDBLCLK || m == WM_XBUTTONDOWN
        || m == WM_XBUTTONUP || m == WM_MOUSEMOVE || m == WM_MOUSEWHEEL || m == WM_MOUSEHOVER
        || m == WM_MOUSELEAVE || m == WM_MOUSEHWHEEL || m == WM_CAPTURECHANGED
}

/// What a mouse message reports, from its code and first machine word.
/// Codes without a meaning of their own (leaving, capture changes) are
/// `Ignore`.
pub open spec fn mouse_kind(code: u32, wparam: usize) -> MouseEventType {
    if code == WM_LBUTTONDBLCLK {
        MouseEventType::Double(MouseButton::Left)
    } else if code == WM_MBUTTONDBLCLK {
        MouseEventType::Double(MouseButton::Middle)
    } else if code == WM_RBUTTONDBLCLK {
        MouseEventType::Double(MouseButton::Right)
    } else if code == WM_XBUTTONDBLCLK {
        MouseEventType::Double(x_button_of(wparam))
    } else if code == WM_LBUTTONDOWN {
        MouseEventType::Down(MouseButton::Left)
    } else if code == WM_MBUTTONDOWN {
        MouseEventType::Down(MouseButton::Middle)
    } else if code == WM_RBUTTONDOWN {
        MouseEventType::Down(MouseButton::Right)
    } else if code == WM_XBUTTONDOWN {
        MouseEventType::Down(x_button_of(wparam))
    } else if code == WM_LBUTTONUP {
        MouseEventType::Up(MouseButton::Left)
    } else if code == WM_MBUTTONUP {
        MouseEventType::Up(MouseButton::Middle)
    } else if code == WM_RBUTTONUP {
        MouseEventType::Up(MouseButton::Right)
    } else if code == WM_XBUTTONUP {
        MouseEventType::Up(x_button_of(wparam))
    } else if code == WM_MOUSEWHEEL {
        MouseEventType::Scroll(notches(high_word(wparam) as i16) as i16)
    } else if code == WM_MOUSEHWHEEL {
        MouseEventType::HScroll(notches(high_word(wparam) as i16) as i16)
    } else if code == WM_MOUSEMOVE {
        MouseEventType::Move
    } else if code == WM_MOUSEHOVER {
        MouseEventType::Hover
    } else {
        MouseEventType::Ignore
    }
}

/// The mouse event of a message: position from the second machine word,
/// kind from the code and the first.
pub open spec fn mouse_event_of(code: u32, wparam: usize, lparam: isize) -> MouseEvent {
    MouseEvent {
        x: low_word(lparam as usize),
        y: high_word(lparam as usize),
        etype: mouse_kind(code, wparam),
    }
}

impl MouseEvent {
    /// Whether a message code is one of the mouse messages.
    pub fn message(m: u32) -> (r: bool)
        ensures
            r == is_mouse_code(m),
    {
        m == WM_LBUTTONDBLCLK || m == WM_LBUTTONDOWN || m == WM_LBUTTONUP || m == WM_MBUTTONDBLCLK
            || m == WM_MBUTTONDOWN || m == WM_MBUTTONUP || m == WM_RBUTTONDBLCLK || m
            == WM_RBUTTONDOWN || m == WM_RBUTTONUP || m == WM_XBUTTONDBLCLK || m == WM_XBUTTONDOWN
            || m == WM_XBUTTONUP || m == WM_MOUSEMOVE || m == WM_MOUSEWHEEL || m == WM_MOUSEHOVER
            || m == WM_MOUSELEAVE || m == WM_MOUSEHWHEEL || m == WM_CAPTURECHANGED
    }
}

impl MouseEventType {
    pub fn from_message(code: u32, wparam: usize) -> (r: MouseEventType)
        ensures
            r == mouse_kind(code, wparam),
    {
        if code == WM_LBUTTONDBLCLK {
            MouseEventType::Double(MouseButton::Left)
        } else if code == WM_MBUTTONDBLCLK {
            MouseEventType::Double(MouseButton::Middle)
        } else if code == WM_RBUTTONDBLCLK {
            MouseEventType::Double(MouseButton::Right)
        } else if code == WM_XBUTTONDBLCLK {
            MouseEventType::Double(MouseButton::xbutton(wparam))
        } else if code == WM_LBUTTONDOWN {
            MouseEventType::Down(MouseButton::Left)
        } else if code == WM_MBUTTONDOWN {
            MouseEventType::Down(MouseButton::Middle)
        } else if code == WM_RBUTTONDOWN {
            MouseEventType::Down(MouseButton::Right)
        } else if code == WM_XBUTTONDOWN {
            MouseEventType::Down(MouseButton::xbutton(wparam))
        } else if code == WM_LBUTTONUP {
            MouseEventType::Up(MouseButton::Left)
        } else if code == WM_MBUTTONUP {
            MouseEventType::Up(MouseButton::Middle)
        } else if code == WM_RBUTTONUP {
            MouseEventType::Up(MouseButton::Right)
        } else if code == WM_XBUTTONUP {
            MouseEventType::Up(MouseButton::xbutton(wparam))
        } else if code == WM_MOUSEWHEEL {
            MouseEventType::Scroll(wheel_notches(get_wheel_delta_wparam(wparam)))
        } else if code == WM_MOUSEHWHEEL {
            MouseEventType::HScroll(wheel_notches(get_wheel_delta_wparam(wparam)))
        } else if code == WM_MOUSEMOVE {
            MouseEventType::Move
        } else if code == WM_MOUSEHOVER {
            MouseEventType::Hover
        } else {
            MouseEventType::Ignore
        }
    }
}

/// Translates a mouse message into a mouse event.
pub fn translate_mouse(code: u32, wparam: usize, lparam: isize) -> (r: MouseEvent)
    ensures
        r == mouse_event_of(code, wparam, lparam),
{
    let word = lparam as usize;
    MouseEvent { x: loword(word), y: hiword(word), etype: MouseEventType::from_message(code, wparam) }
}

/// The button that a mouse event reports, if any.
pub open spec fn button_of(t: MouseEventType) -> Option<MouseButton> {
    match t {
        MouseEventType::Down(b) => Some(b),
        MouseEventType::Up(b) => Some(b),
        MouseEventType::Double(b) => Some(b),
        _ => None,
    }
}

pub open spec fn is_x_button_code(m: u32) -> bool {
    m == WM_XBUTTONDOWN || m == WM_XBUTTONUP || m == WM_XBUTTONDBLCLK
}

/// On an X-button message, 1 in bits 16 and up of the first machine word
/// names X1 and 2 names X2.
pub proof fn lemma_x_button_choice(code: u32, wparam: usize, lparam: isize)
    requires
        is_x_button_code(code),
    ensures
        upper_bits(wparam) == 1 ==> button_of(mouse_event_of(code, wparam, lparam).etype) == Some(
            MouseButton::X1,
        ),
        upper_bits(wparam) == 2 ==> button_of(mouse_event_of(code, wparam, lparam).etype) == Some(
            MouseButton::X2,
        ),
{
}

fn push_if_set(buttons: &mut Vec<MouseButton>, mask: usize, b: MouseButton)
    ensures
        final(buttons)@ == old(buttons)@ + when_set(mask, b),
{
    let flag = b.flag();
    if mask & flag == flag {
        buttons.push(b);
        assert(final(buttons)@ =~= old(buttons)@ + seq![b]);
    } else {
        assert(old(buttons)@ =~= old(buttons)@ + Seq::<MouseButton>::empty());
    }
}

impl MouseButton {
    /// The buttons whose flags are set in a button mask, in the order Left,
    /// Right, Middle, X1, X2, Control, Shift.
    pub fn buttons_down(v: usize) -> (buttons: Vec<MouseButton>)
        ensures
            buttons@ == buttons_in(v),
    {
        let mut buttons: Vec<MouseButton> = Vec::new();
        push_if_set(&mut buttons, v, MouseButton::Left);
        push_if_set(&mut buttons, v, MouseButton::Right);
        push_if_set(&mut buttons, v, MouseButton::Middle);
        push_if_set(&mut buttons, v, MouseButton::X1);
        push_if_set(&mut buttons, v, MouseButton::X2);
        push_if_set(&mut buttons, v, MouseButton::Control);
        push_if_set(&mut buttons, v, MouseButton::Shift);
        assert(buttons@ =~= buttons_in(v));
        buttons
    }

    /// The extra button that an X-button message names in the high word of
    /// its first machine word.
    pub fn xbutton(v: usize) -> (r: MouseButton)
        ensures
            r == x_button_of(v),
    {
        let hi = v >> 16;
        assert(hi == v / 0x10000) by (bit_vector)
            requires
                hi == v >> 16,
        ;
        if hi == 1 {
            MouseButton::X1
        } else {
            MouseButton::X2
        }
    }

    /// The flag of this button in the platform's button mask.
    pub fn flag(self) -> (r: usize)
        ensures
            r == button_flag(self),
    {
        match self {
            MouseButton::Control => 0x08,
            MouseButton::Shift => 0x04,
            MouseButton::Left => 0x01,
            MouseButton::Right => 0x02,
            MouseButton::Middle => 0x10,
            MouseButton::X1 => 0x20,
            MouseButton::X2 => 0x40,
        }
    }
}

} // verus!
