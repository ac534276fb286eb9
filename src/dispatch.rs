//! What the message loop does with each message, and the thread's single
//! callback slot.

use vstd::prelude::*;

use crate::event::{event_of, input_message, is_input_code, translate_event, Event, IntoEventResult};
use crate::message::{WM_CLOSE, WM_CREATE, WM_DESTROY, WM_ERASEBKGND, WM_PAINT, WM_SCHEME_CHANGED};

verus! {

/// The handling that one message gets from the window procedure.
#[derive(Debug, Clone, Copy, PartialEq, Eq, Structural)]
pub enum Action {
    /// Default processing first, then the callback with this event; the
    /// callback's result is ignored.
    Input(Event),
    /// The callback with `Event::Close`; the window is destroyed only when
    /// its result permits it.
    Close,
    /// Default processing first, then the callback with `Event::Repaint`.
    Paint,
    /// The window was created: keep its id in the window's user data.
    Create,
    /// The window is gone: drop its record, and end the loop when it was the
    /// last one.
    Destroyed,
    /// Fill the background with the color of the window's theme, without the
    /// callback.
    EraseBackground,
    /// Default processing only.
    Default,
}

/// Whether an action hands something to the user's callback.
pub open spec fn calls_back(a: Action) -> bool {
    match a {
        Action::Input(_) | Action::Close | Action::Paint => true,
        _ => false,
    }
}

/// The action for a message.
pub open spec fn action_of(message: u32, wparam: usize, lparam: isize) -> Action {
    if is_input_code(message) {
        Action::Input(event_of(message, wparam, lparam))
    } else if message == WM_CLOSE {
        Action::Close
    } else if message == WM_PAINT {
        Action::Paint
    } else if message == WM_CREATE {
        Action::Create
    } else if message == WM_DESTROY {
        Action::Destroyed
    } else if message == WM_ERASEBKGND {
        Action::EraseBackground
    } else {
        Action::Default
    }
}

/// Decides how a message is handled. Input messages are decoded here, so
/// the decoders only ever see codes that they recognise.
pub fn route(message: u32, wparam: usize, lparam: isize) -> (r: Action)
    ensures
        r == action_of(message, wparam, lparam),
{
    if input_message(message) {
        Action::Input(translate_event(message, wparam, lparam))
    } else if message == WM_CLOSE {
        Action::Close
    } else if message == WM_PAINT {
        Action::Paint
    } else if message == WM_CREATE {
        Action::Create
    } else if message == WM_DESTROY {
        Action::Destroyed
    } else if message == WM_ERASEBKGND {
        Action::EraseBackground
    } else {
        Action::Default
    }
}

/// Every message other than input, close, paint, create, destroy and
/// background erase gets default processing only, untouched.
pub proof fn lemma_other_messages_default(message: u32, wparam: usize, lparam: isize)
    requires
        !is_input_code(message),
        message != WM_CLOSE,
        message != WM_PAINT,
        message != WM_CREATE,
        message != WM_DESTROY,
        message != WM_ERASEBKGND,
    ensures
        action_of(message, wparam, lparam) == Action::Default,
{
}

/// The window named by a message sent to the loop thread itself, when that
/// message reports a change of the system's color scheme.
pub open spec fn scheme_change_of(message: u32, wparam: usize) -> Option<isize> {
    if message == WM_SCHEME_CHANGED {
        Some(wparam as isize)
    } else {
        None
    }
}

/// Reads a thread message (one that names no window): the window whose
/// color-scheme subscription fired, or `None` for any other message. Window
/// messages never come here, so none of them is taken for a notification.
pub fn scheme_change(message: u32, wparam: usize) -> (r: Option<isize>)
    ensures
        r == scheme_change_of(message, wparam),
{
    if message == WM_SCHEME_CHANGED {
        Some(wparam as isize)
    } else {
        None
    }
}

/// The pass that repaints a window after the system's color scheme changed:
/// one background fill, then default paint processing, and no callback.
pub open spec fn repaint_pass_spec() -> Seq<Action> {
    seq![Action::EraseBackground, Action::Default]
}

pub fn repaint_pass() -> (r: Vec<Action>)
    ensures
        r@ == repaint_pass_spec(),
{
    let mut r: Vec<Action> = Vec::new();
    r.push(Action::EraseBackground);
    r.push(Action::Default);
    assert(r@ =~= repaint_pass_spec());
    r
}

/// The repaint pass leaves the user's callback out.
pub proof fn lemma_repaint_pass_is_internal()
    ensures
        repaint_pass_spec().len() == 2,
        repaint_pass_spec()[0] == Action::EraseBackground,
        forall|i: int| 0 <= i < repaint_pass_spec().len() ==> !calls_back(repaint_pass_spec()[i]),
{
}

/// Whether a callback's result, if there was a callback, lets a window
/// close. Without a callback nothing objects.
pub open spec fn permits<R: IntoEventResult>(result: Option<R>) -> bool {
    match result {
        None => true,
        Some(r) => r.permits_close(),
    }
}

/// A callback that returns `false` on a close request keeps the window; one
/// that returns `()` always lets it close.
pub proof fn lemma_close_permission()
    ensures
        !permits(Some(false)),
        permits(Some(true)),
        permits(Some(())),
{
}

/// The callback slot of the thread that runs the message loop. Setting a
/// callback replaces the one before.
pub struct Handler<F> {
    handler: Option<F>,
}

impl<F> Handler<F> {
    /// The registered callback.
    pub closed spec fn callback(&self) -> Option<F> {
        self.handler
    }

    pub fn new() -> (r: Self)
        ensures
            r.callback() is None,
    {
        Handler { handler: None }
    }

    pub fn set_handler(&mut self, handler: F)
        ensures
            final(self).callback() == Some(handler),
    {
        self.handler = Some(handler);
    }

    /// Calls the registered callback, if there is one, and hands back its
    /// result.
    pub fn handle<S, R>(&self, id: isize, event: Event, state: S) -> (r: Option<R>) where
        F: Fn(isize, Event, S) -> R,

        requires
            self.callback() is Some ==> self.callback()->0.requires((id, event, state)),
        ensures
            self.callback() is None ==> r is None,
            self.callback() is Some ==> r is Some && self.callback()->0.ensures(
                (id, event, state),
                r->0,
            ),
    {
        match &self.handler {
            Some(handler) => Some(handler(id, event, state)),
            None => None,
        }
    }

    /// Asks the callback whether window `id` may close: the result is
    /// whether to destroy it.
    pub fn close<S, R: IntoEventResult>(&self, id: isize, state: S) -> (destroy: bool) where
        F: Fn(isize, Event, S) -> R,

        requires
            self.callback() is Some ==> self.callback()->0.requires((id, Event::Close, state)),
        ensures
            self.callback() is None ==> destroy,
            self.callback() is Some ==> exists|out: R|
                self.callback()->0.ensures((id, Event::Close, state), out) && destroy
                    == permits(Some(out)),
    {
        let result = self.handle(id, Event::Close, state);
        match result {
            Some(out) => {
                let ghost witness = out;
                let permitted = out.into_event_result();
                assert(self.callback()->0.ensures((id, Event::Close, state), witness));
                assert(permitted == permits(Some(witness)));
                permitted
            },
            None => true,
        }
    }
}

} // verus!
