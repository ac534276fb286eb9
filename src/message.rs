//! Raw platform message codes and the helpers that split a machine word.

use vstd::prelude::*;

verus! {

pub const WM_CREATE: u32 = 0x0001;

pub const WM_DESTROY: u32 = 0x0002;

pub const WM_PAINT: u32 = 0x000F;

pub const WM_CLOSE: u32 = 0x0010;

pub const WM_ERASEBKGND: u32 = 0x0014;

pub const WM_KEYDOWN: u32 = 0x0100;

pub const WM_KEYUP: u32 = 0x0101;

pub const WM_SYSKEYDOWN: u32 = 0x0104;

pub const WM_SYSKEYUP: u32 = 0x0105;

pub const WM_MOUSEMOVE: u32 = 0x0200;

pub const WM_LBUTTONDOWN: u32 = 0x0201;

pub const WM_LBUTTONUP: u32 = 0x0202;

pub const WM_LBUTTONDBLCLK: u32 = 0x0203;

pub const WM_RBUTTONDOWN: u32 = 0x0204;

pub const WM_RBUTTONUP: u32 = 0x0205;

pub const WM_RBUTTONDBLCLK: u32 = 0x0206;

pub const WM_MBUTTONDOWN: u32 = 0x0207;

pub const WM_MBUTTONUP: u32 = 0x0208;

pub const WM_MBUTTONDBLCLK: u32 = 0x0209;

pub const WM_MOUSEWHEEL: u32 = 0x020A;

pub const WM_XBUTTONDOWN: u32 = 0x020B;

pub const WM_XBUTTONUP: u32 = 0x020C;

pub const WM_XBUTTONDBLCLK: u32 = 0x020D;

pub const WM_MOUSEHWHEEL: u32 = 0x020E;

/// Sent to the window losing the mouse capture; the platform also reports
/// it among mouse messages.
pub const WM_CAPTURECHANGED: u32 = 0x0215;

pub const WM_MOUSEHOVER: u32 = 0x02A1;

pub const WM_MOUSELEAVE: u32 = 0x02A3;

/// Private thread message, posted to the loop thread itself (not to a
/// window) when the system's color scheme changed; the first machine word
/// holds the id of the subscribed window.
pub const WM_SCHEME_CHANGED: u32 = 0x8001;

/// One detent of a mouse wheel, in the units of a wheel message.
pub const WHEEL_DELTA: i16 = 120;

/// The low 16 bits of a machine word.
pub open spec fn low_word(v: usize) -> u16 {
    (v % 0x10000) as u16
}

/// Bits 16 to 31 of a machine word.
pub open spec fn high_word(v: usize) -> u16 {
    ((v / 0x10000) % 0x10000) as u16
}

/// Bits 16 and up of a machine word.
pub open spec fn upper_bits(v: usize) -> int {
    v as int / 0x10000
}

pub fn loword(v: usize) -> (r: u16)
    ensures
        r == low_word(v),
{
    let m: usize = v & 0xFFFF;
    assert(m == v % 0x10000) by (bit_vector)
        requires
            m == v & 0xFFFF,
    ;
    m as u16
}

pub fn hiword(v: usize) -> (r: u16)
    ensures
        r == high_word(v),
{
    let m: usize = (v >> 16) & 0xFFFF;
    assert(m == (v / 0x10000) % 0x10000) by (bit_vector)
        requires
            m == (v >> 16) & 0xFFFF,
    ;
    m as u16
}

/// The signed wheel distance held in the high word of a wheel message's
/// first machine word.
pub fn get_wheel_delta_wparam(v: usize) -> (r: i16)
    ensures
        r == high_word(v) as i16,
{
    hiword(v) as i16
}

/// Whole notches in a wheel distance, rounded toward zero.
pub open spec fn notches(delta: i16) -> int {
    if delta >= 0 {
        (delta as int) / (WHEEL_DELTA as int)
    } else {
        -((-(delta as int)) / (WHEEL_DELTA as int))
    }
}

pub fn wheel_notches(delta: i16) -> (r: i16)
    ensures
        r == notches(delta),
{
    if delta >= 0 {
        delta / WHEEL_DELTA
    } else {
        let m: i32 = -(delta as i32);
        let q: i32 = m / 120;
        (-q) as i16
    }
}

} // verus!
