use std::cell::Cell;
use std::rc::Rc;

use storytree_native::dispatch::{repaint_pass, route, scheme_change, Action, Handler};
use storytree_native::event::{Event, IntoEventResult};
use storytree_native::keyboard::{KeyCode, KeyEvent};
use storytree_native::message::{
    WM_CLOSE, WM_CREATE, WM_DESTROY, WM_ERASEBKGND, WM_KEYDOWN, WM_PAINT, WM_SCHEME_CHANGED,
};
use storytree_native::state::State;

fn calls_back(a: &Action) -> bool {
    matches!(a, Action::Input(_) | Action::Close | Action::Paint)
}

#[test]
fn messages_are_routed() {
    assert_eq!(
        route(WM_KEYDOWN, 0x41, 0),
        Action::Input(Event::Keyboard(KeyEvent::KeyDown(KeyCode(0x41))))
    );
    assert_eq!(route(WM_CLOSE, 0, 0), Action::Close);
    assert_eq!(route(WM_PAINT, 0, 0), Action::Paint);
    assert_eq!(route(WM_CREATE, 0, 0), Action::Create);
    assert_eq!(route(WM_DESTROY, 0, 0), Action::Destroyed);
    assert_eq!(route(WM_ERASEBKGND, 0, 0), Action::EraseBackground);
    assert_eq!(route(0x0005, 0, 0), Action::Default);
}

#[test]
fn close_refused_by_false() {
    let mut h = Handler::new();
    h.set_handler(|_id: isize, e: Event, _s: ()| e != Event::Close);
    assert!(!h.close(7, ()));
}

#[test]
fn close_always_allowed_by_unit() {
    let seen = Rc::new(Cell::new(0));
    let counter = seen.clone();
    let mut h = Handler::new();
    h.set_handler(move |id: isize, e: Event, _s: ()| {
        assert_eq!(id, 9);
        assert_eq!(e, Event::Close);
        counter.set(counter.get() + 1);
    });
    assert!(h.close(9, ()));
    assert_eq!(seen.get(), 1);
}

#[test]
fn result_conversion() {
    assert!(().into_event_result());
    assert!(true.into_event_result());
    assert!(!false.into_event_result());
}

fn add_id(id: isize, _e: Event, s: u32) -> u32 {
    id as u32 + s
}

fn double(_id: isize, _e: Event, s: u32) -> u32 {
    s * 2
}

#[test]
fn handler_is_replaced_and_passes_results_back() {
    let mut h: Handler<fn(isize, Event, u32) -> u32> = Handler::new();
    assert_eq!(h.handle(1, Event::Repaint, 0u32), None);
    h.set_handler(add_id);
    assert_eq!(h.handle(2, Event::Repaint, 40u32), Some(42));
    h.set_handler(double);
    assert_eq!(h.handle(2, Event::Repaint, 40u32), Some(80));
}

#[test]
fn close_without_handler_destroys() {
    let h: Handler<fn(isize, Event, ()) -> bool> = Handler::new();
    assert!(h.close(3, ()));
}

#[test]
fn repaint_pass_skips_callback() {
    let pass = repaint_pass();
    assert_eq!(pass, vec![Action::EraseBackground, Action::Default]);
    assert!(pass.iter().all(|a| !calls_back(a)));
}

#[test]
fn state_is_shared_between_clones() {
    let state = State::new(1u32);
    let other = state.clone();
    *other.as_mut().unwrap() += 4;
    assert_eq!(*state.as_ref().unwrap(), 5);
}

#[test]
fn state_refuses_reentrant_access() {
    let state = State::new(String::from("a"));
    let writing = state.as_mut().unwrap();
    assert!(state.as_ref().is_none());
    assert!(state.as_mut().is_none());
    drop(writing);
    let reading = state.as_ref().unwrap();
    assert!(state.as_ref().is_some());
    assert!(state.as_mut().is_none());
    assert_eq!(*reading, "a");
}

#[test]
fn default_state_is_unit() {
    let state: State<()> = State::default();
    assert_eq!(*state.as_ref().unwrap(), ());
}

#[test]
fn other_messages_get_default_processing() {
    for code in [0x0003u32, 0x0005, 0x0100 + 2, 0x8000, 0x8001, 0xC000] {
        assert_eq!(route(code, 7, 9), Action::Default);
    }
}

#[test]
fn scheme_change_only_from_its_thread_message() {
    assert_eq!(scheme_change(WM_SCHEME_CHANGED, 42), Some(42));
    assert_eq!(scheme_change(WM_SCHEME_CHANGED, usize::MAX), Some(-1));
    assert_eq!(scheme_change(WM_PAINT, 42), None);
}
