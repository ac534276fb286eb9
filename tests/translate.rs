use storytree_native::event::{input_message, translate_event, Event};
use storytree_native::keyboard::{translate_keyboard, KeyCode, KeyEvent};
use storytree_native::message::{
    get_wheel_delta_wparam, hiword, loword, wheel_notches, WM_CAPTURECHANGED, WM_CLOSE, WM_KEYDOWN,
    WM_KEYUP, WM_LBUTTONDOWN, WM_MBUTTONDBLCLK, WM_MOUSEHWHEEL, WM_MOUSELEAVE, WM_MOUSEMOVE,
    WM_MOUSEWHEEL, WM_PAINT, WM_RBUTTONUP, WM_SYSKEYDOWN, WM_SYSKEYUP, WM_XBUTTONDBLCLK,
    WM_XBUTTONDOWN, WM_XBUTTONUP,
};
use storytree_native::mouse::{translate_mouse, MouseButton, MouseEvent, MouseEventType};

const PREVIOUS_STATE: isize = 1 << 30;

#[test]
fn key_down_then_hold() {
    for code in [WM_KEYDOWN, WM_SYSKEYDOWN] {
        let first = translate_keyboard(code, 0x41, 0x001E_0001);
        let second = translate_keyboard(code, 0x41, 0x001E_0001 | PREVIOUS_STATE);
        assert_eq!(first, KeyEvent::KeyDown(KeyCode(0x41)));
        assert_eq!(second, KeyEvent::KeyHold(KeyCode(0x41)));
    }
}

#[test]
fn key_up_ignores_previous_state() {
    for code in [WM_KEYUP, WM_SYSKEYUP] {
        assert_eq!(translate_keyboard(code, 0x1B, 0), KeyEvent::KeyUp(KeyCode(0x1B)));
        assert_eq!(
            translate_keyboard(code, 0x1B, PREVIOUS_STATE | (1 << 31)),
            KeyEvent::KeyUp(KeyCode(0x1B))
        );
    }
}

#[test]
fn key_messages_are_recognised() {
    assert!(KeyEvent::message(WM_KEYDOWN));
    assert!(KeyEvent::message(WM_SYSKEYUP));
    assert!(!KeyEvent::message(WM_MOUSEMOVE));
    assert!(!KeyEvent::message(WM_CLOSE));
}

#[test]
fn x_button_from_high_word() {
    for code in [WM_XBUTTONDOWN, WM_XBUTTONUP, WM_XBUTTONDBLCLK] {
        let one = translate_mouse(code, 1 << 16, 0);
        let two = translate_mouse(code, 2 << 16, 0);
        let button = |t: MouseEventType| match t {
            MouseEventType::Down(b) | MouseEventType::Up(b) | MouseEventType::Double(b) => b,
            other => panic!("no button in {:?}", other),
        };
        assert_eq!(button(one.etype), MouseButton::X1);
        assert_eq!(button(two.etype), MouseButton::X2);
    }
    assert_eq!(MouseButton::xbutton(0x0001_0020), MouseButton::X1);
    assert_eq!(MouseButton::xbutton(0x0002_0040), MouseButton::X2);
    assert_eq!(MouseButton::xbutton(0), MouseButton::X2);
}

#[test]
fn buttons_down_in_fixed_order() {
    assert_eq!(
        MouseButton::buttons_down(0x01 | 0x10),
        vec![MouseButton::Left, MouseButton::Middle]
    );
    assert_eq!(MouseButton::buttons_down(0), Vec::<MouseButton>::new());
    assert_eq!(
        MouseButton::buttons_down(0x7F),
        vec![
            MouseButton::Left,
            MouseButton::Right,
            MouseButton::Middle,
            MouseButton::X1,
            MouseButton::X2,
            MouseButton::Control,
            MouseButton::Shift,
        ]
    );
    assert_eq!(
        MouseButton::buttons_down(0x04 | 0x08 | 0x02),
        vec![MouseButton::Right, MouseButton::Control, MouseButton::Shift]
    );
}

#[test]
fn mouse_position_from_second_word() {
    let e = translate_mouse(WM_LBUTTONDOWN, 0x0001, 0x0064_00C8);
    assert_eq!(
        e,
        MouseEvent { x: 200, y: 100, etype: MouseEventType::Down(MouseButton::Left) }
    );
    let e = translate_mouse(WM_MOUSEMOVE, 0, 0xFFFF_FFFF);
    assert_eq!(e, MouseEvent { x: 0xFFFF, y: 0xFFFF, etype: MouseEventType::Move });
    assert_eq!(loword(0x1234_5678), 0x5678);
    assert_eq!(hiword(0x1234_5678), 0x1234);
}

#[test]
fn mouse_kinds() {
    assert_eq!(
        translate_mouse(WM_MBUTTONDBLCLK, 0, 0).etype,
        MouseEventType::Double(MouseButton::Middle)
    );
    assert_eq!(translate_mouse(WM_RBUTTONUP, 0, 0).etype, MouseEventType::Up(MouseButton::Right));
    assert_eq!(translate_mouse(WM_CAPTURECHANGED, 0, 0).etype, MouseEventType::Ignore);
    assert_eq!(WM_CAPTURECHANGED, 533);
    assert_eq!(translate_mouse(WM_MOUSELEAVE, 0, 0).etype, MouseEventType::Ignore);
}

#[test]
fn wheel_notches_round_toward_zero() {
    let up = (120usize) << 16;
    let down = ((-240i16) as u16 as usize) << 16;
    let small = ((-60i16) as u16 as usize) << 16;
    assert_eq!(translate_mouse(WM_MOUSEWHEEL, up, 0).etype, MouseEventType::Scroll(1));
    assert_eq!(translate_mouse(WM_MOUSEWHEEL, down, 0).etype, MouseEventType::Scroll(-2));
    assert_eq!(translate_mouse(WM_MOUSEHWHEEL, small, 0).etype, MouseEventType::HScroll(0));
    assert_eq!(get_wheel_delta_wparam(down), -240);
    assert_eq!(wheel_notches(-359), -2);
    assert_eq!(wheel_notches(359), 2);
}

#[test]
fn events_from_input_messages() {
    assert!(input_message(WM_KEYDOWN));
    assert!(input_message(WM_MOUSEWHEEL));
    assert!(!input_message(WM_PAINT));
    assert!(!input_message(WM_CLOSE));
    assert_eq!(
        translate_event(WM_KEYUP, 0x20, 0),
        Event::Keyboard(KeyEvent::KeyUp(KeyCode(0x20)))
    );
    assert_eq!(
        translate_event(WM_MOUSEMOVE, 0, 0x0002_0003),
        Event::Mouse(MouseEvent { x: 3, y: 2, etype: MouseEventType::Move })
    );
}

#[test]
fn mouse_messages_are_recognised() {
    assert!(MouseEvent::message(WM_MOUSEMOVE));
    assert!(MouseEvent::message(533));
    assert!(!MouseEvent::message(WM_KEYDOWN));
    assert!(MouseButton::Middle.flag() == 0x10);
}

#[test]
fn button_order_follows_flags() {
    let mut all = vec![
        MouseButton::X2,
        MouseButton::Middle,
        MouseButton::Left,
        MouseButton::Control,
        MouseButton::X1,
        MouseButton::Shift,
        MouseButton::Right,
    ];
    all.sort();
    let flags: Vec<usize> = all.iter().map(|b| b.flag()).collect();
    assert_eq!(flags, vec![0x01, 0x02, 0x04, 0x08, 0x10, 0x20, 0x40]);
}
