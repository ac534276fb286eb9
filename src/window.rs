//! Window options, the builder that makes them, and the record that the
//! library keeps of each live window: its fullscreen and theme state.

use vstd::prelude::*;
use vstd::string::{StrSliceExecFns, StringExecFns};

use crate::style::{Background, Theme};

verus! {

/// How a window is made.
#[derive(Debug, Clone)]
pub struct WindowOptions {
    pub title: String,
    /// An `.ico` file for the window's icon.
    pub icon: Option<String>,
    pub theme: Theme,
    pub background: Background,
    /// Show the window as soon as it is made.
    pub show: bool,
}

impl Default for WindowOptions {
    fn default() -> (r: WindowOptions)
        ensures
            r.title@ == Seq::<char>::empty(),
            r.icon is None,
            r.theme == Theme::Light,
            r.background == (Background { light: 0xFFFFFF, dark: 0x000000 }),
            !r.show,
    {
        WindowOptions {
            title: String::new(),
            icon: None,
            theme: Theme::default(),
            background: Background::default(),
            show: false,
        }
    }
}

/// A path that names an `.ico` file.
pub open spec fn ico_path(s: Seq<char>) -> bool {
    s.len() >= 4 && s.subrange(s.len() - 4, s.len() as int) == seq!['.', 'i', 'c', 'o']
}

pub fn is_ico_path(path: &str) -> (r: bool)
    ensures
        r == ico_path(path@),
{
    let n = path.unicode_len();
    if n < 4 {
        return false;
    }
    let ok = path.get_char(n - 4) == '.' && path.get_char(n - 3) == 'i' && path.get_char(n - 2)
        == 'c' && path.get_char(n - 1) == 'o';
    proof {
        let tail = path@.subrange(n - 4, n as int);
        if ok {
            assert(tail =~= seq!['.', 'i', 'c', 'o']);
        } else {
            assert(tail[0] != '.' || tail[1] != 'i' || tail[2] != 'c' || tail[3] != 'o');
        }
    }
    ok
}

/// Collects the options of a window.
#[derive(Debug, Clone)]
pub struct Builder {
    options: WindowOptions,
}

impl Builder {
    /// The options collected so far.
    pub closed spec fn spec_options(&self) -> WindowOptions {
        self.options
    }

    pub fn new() -> (r: Builder)
        ensures
            r.spec_options().title@ == Seq::<char>::empty(),
            r.spec_options().icon is None,
            r.spec_options().theme == Theme::Light,
            r.spec_options().background == (Background { light: 0xFFFFFF, dark: 0x000000 }),
            !r.spec_options().show,
    {
        Builder { options: WindowOptions::default() }
    }

    pub fn title(self, title: &str) -> (r: Builder)
        ensures
            r.spec_options() == (WindowOptions { title: r.spec_options().title, ..self.spec_options() }),
            r.spec_options().title@ == title@,
    {
        let mut b = self;
        b.options.title = title.to_owned();
        b
    }

    pub fn theme(self, theme: Theme) -> (r: Builder)
        ensures
            r.spec_options() == (WindowOptions { theme, ..self.spec_options() }),
    {
        let mut b = self;
        b.options.theme = theme;
        b
    }

    pub fn background(self, background: Background) -> (r: Builder)
        ensures
            r.spec_options() == (WindowOptions { background, ..self.spec_options() }),
    {
        let mut b = self;
        b.options.background = background;
        b
    }

    /// Sets the icon file; it must be an `.ico` file.
    pub fn icon(self, icon: &str) -> (r: Builder)
        requires
            ico_path(icon@),
        ensures
            r.spec_options() == (WindowOptions { icon: r.spec_options().icon, ..self.spec_options() }),
            r.spec_options().icon is Some,
            r.spec_options().icon->0@ == icon@,
    {
        let mut b = self;
        b.options.icon = Some(icon.to_owned());
        b
    }

    /// The record of a new window with these options, not yet shown.
    pub fn create(self) -> (r: Window)
        ensures
            r.new_with(self.spec_options()),
    {
        Window::new(self.options)
    }

    /// The record of a new window with these options, to be shown once made.
    pub fn show(self) -> (r: Window)
        ensures
            r.new_with(WindowOptions { show: true, ..self.spec_options() }),
    {
        let mut b = self;
        b.options.show = true;
        Window::new(b.options)
    }
}

/// A window's placement as the platform reports it, kept to restore the
/// window after fullscreen.
#[derive(Debug, Clone, Copy, PartialEq, Eq, Structural)]
pub struct Placement {
    pub flags: u32,
    pub show_cmd: u32,
    pub min_x: i32,
    pub min_y: i32,
    pub max_x: i32,
    pub max_y: i32,
    pub normal: Rect,
}

#[derive(Debug, Clone, Copy, PartialEq, Eq, Structural)]
pub struct Rect {
    pub left: i32,
    pub top: i32,
    pub right: i32,
    pub bottom: i32,
}

/// What the platform reported when a window was about to go fullscreen: its
/// placement and the bounds of its monitor.
#[derive(Debug, Clone, Copy, PartialEq, Eq, Structural)]
pub struct Capture {
    pub placement: Placement,
    pub monitor: Rect,
}

/// What the platform is asked to do on a fullscreen toggle.
#[derive(Debug, Clone, Copy, PartialEq, Eq, Structural)]
pub enum FullscreenAction {
    /// Drop the window frame and cover the monitor.
    Enter { x: i32, y: i32, width: i64, height: i64 },
    /// Put the frame back and restore this placement.
    Leave(Placement),
    /// Nothing: the window's state could not be read, so it stays as it is.
    Stay,
}

/// The saved placement and the action after a fullscreen toggle. A saved
/// placement means the window is fullscreen.
pub open spec fn fullscreen_next(saved: Option<Placement>, capture: Option<Capture>) -> (
    Option<Placement>,
    FullscreenAction,
) {
    match saved {
        Some(p) => (None, FullscreenAction::Leave(p)),
        None => match capture {
            Some(c) => (
                Some(c.placement),
                FullscreenAction::Enter {
                    x: c.monitor.left,
                    y: c.monitor.top,
                    width: (c.monitor.right - c.monitor.left) as i64,
                    height: (c.monitor.bottom - c.monitor.top) as i64,
                },
            ),
            None => (None, FullscreenAction::Stay),
        },
    }
}

/// What the platform is asked to do when a window's theme changes.
#[derive(Debug, Clone, Copy, PartialEq, Eq, Structural)]
pub struct ThemeChange {
    /// The color-scheme subscription to cancel.
    pub cancel: Option<i64>,
    /// Subscribe to color-scheme changes for this window.
    pub subscribe: bool,
    /// The dark-mode attribute to set: `None` means the system's scheme.
    pub dark: Option<bool>,
}

/// The subscription kept and the change asked for when a window whose
/// subscription is `cookie` switches to `theme`. Leaving `Auto` cancels the
/// subscription; `Auto` subscribes unless it already is.
pub open spec fn theme_next(theme: Theme, cookie: Option<i64>) -> (Option<i64>, ThemeChange) {
    match theme {
        Theme::Light => (None, ThemeChange { cancel: cookie, subscribe: false, dark: Some(false) }),
        Theme::Dark => (None, ThemeChange { cancel: cookie, subscribe: false, dark: Some(true) }),
        Theme::Auto => (cookie, ThemeChange { cancel: None, subscribe: cookie is None, dark: None }),
    }
}

/// The frame styles of an ordinary top-level window.
pub const WS_OVERLAPPEDWINDOW: u32 = 0x00CF_0000;

/// The style flag of a maximized window.
pub const WS_MAXIMIZE: u32 = 0x0100_0000;

/// Whether a window style marks the window maximized.
pub fn is_maxamized(style: u32) -> (r: bool)
    ensures
        r == (style & WS_MAXIMIZE != 0),
{
    style & WS_MAXIMIZE != 0
}

/// The style of a window with its frame put back (`framed`) or taken off
/// for fullscreen; the other style bits are kept.
pub fn frame_style(style: u32, framed: bool) -> (r: u32)
    ensures
        framed ==> r == style | WS_OVERLAPPEDWINDOW,
        !framed ==> r == style & !WS_OVERLAPPEDWINDOW,
{
    if framed {
        style | WS_OVERLAPPEDWINDOW
    } else {
        style & !WS_OVERLAPPEDWINDOW
    }
}

/// Relies on uuid's `Uuid::new_v4` and its `Display`: a random identifier
/// written as 36 characters, hyphens at 8, 13, 18 and 23.
#[verifier::external_body]
fn random_identifier() -> (r: String)
    ensures
        r@.len() == 36,
        r@[8] == '-' && r@[13] == '-' && r@[18] == '-' && r@[23] == '-',
{
    uuid::Uuid::new_v4().to_string()
}

/// The record of one window.
#[derive(Debug)]
pub struct Window {
    handle: isize,
    class: String,
    instance: isize,
    options: WindowOptions,
    prev_style: Option<Placement>,
    theme_cookie: Option<i64>,
}

pub open spec fn class_prefix() -> Seq<char> {
    seq![
        'W', 'i', 'n', 'd', 'o', 'w', '-', 'S', 't', 'o', 'r', 'y', 'T', 'r', 'e', 'e', '-',
    ]
}

/// Two records of the same window: same id, class name and module.
pub open spec fn same_identity(a: Window, b: Window) -> bool {
    &&& a.id() == b.id()
    &&& a.class_name() == b.class_name()
    &&& a.module() == b.module()
}

impl Window {
    /// The platform handle, the window's id.
    pub closed spec fn id(&self) -> isize {
        self.handle
    }

    /// The name of the window class registered for this window alone.
    pub closed spec fn class_name(&self) -> Seq<char> {
        self.class@
    }

    pub closed spec fn module(&self) -> isize {
        self.instance
    }

    pub closed spec fn spec_options(&self) -> WindowOptions {
        self.options
    }

    /// The placement saved on entering fullscreen; present exactly while the
    /// window is fullscreen.
    pub closed spec fn saved(&self) -> Option<Placement> {
        self.prev_style
    }

    /// The live color-scheme subscription of the window.
    pub closed spec fn subscription(&self) -> Option<i64> {
        self.theme_cookie
    }

    /// A fresh record: no handle yet, a class name of its own, not
    /// fullscreen, no subscription.
    pub open spec fn new_with(&self, options: WindowOptions) -> bool {
        &&& self.id() == 0
        &&& self.module() == 0
        &&& self.spec_options() == options
        &&& self.saved() is None
        &&& self.subscription() is None
        &&& self.class_name().len() == class_prefix().len() + 36
        &&& self.class_name().subrange(0, class_prefix().len() as int) == class_prefix()
    }

    /// The record with the saved placement that a fullscreen toggle leaves.
    pub closed spec fn toggled(self, capture: Option<Capture>) -> Window {
        Window { prev_style: fullscreen_next(self.prev_style, capture).0, ..self }
    }

    /// The record after a theme switch.
    pub closed spec fn themed(self, theme: Theme) -> Window {
        Window {
            options: WindowOptions { theme, ..self.options },
            theme_cookie: theme_next(theme, self.theme_cookie).0,
            ..self
        }
    }

    pub closed spec fn with_handle(self, handle: isize) -> Window {
        Window { handle, ..self }
    }

    pub closed spec fn with_instance(self, instance: isize) -> Window {
        Window { instance, ..self }
    }

    /// The record with a new subscription.
    pub closed spec fn subscribed(self, token: i64) -> Window {
        Window { theme_cookie: Some(token), ..self }
    }

    pub fn new(options: WindowOptions) -> (r: Window)
        ensures
            r.new_with(options),
    {
        let mut class = "Window-StoryTree-".to_owned();
        let id = random_identifier();
        class.append(id.as_str());
        proof {
            reveal_strlit("Window-StoryTree-");
            assert(class@.subrange(0, class_prefix().len() as int) =~= class_prefix());
        }
        Window {
            handle: 0,
            class,
            instance: 0,
            options,
            prev_style: None,
            theme_cookie: None,
        }
    }

    pub fn options(&self) -> (r: &WindowOptions)
        ensures
            *r == self.spec_options(),
    {
        &self.options
    }

    pub fn set_handle(&mut self, handle: isize)
        ensures
            *final(self) == old(self).with_handle(handle),
            final(self).id() == handle,
            final(self).class_name() == old(self).class_name(),
            final(self).module() == old(self).module(),
            final(self).spec_options() == old(self).spec_options(),
            final(self).saved() == old(self).saved(),
            final(self).subscription() == old(self).subscription(),
    {
        self.handle = handle;
    }

    pub fn set_instance(&mut self, instance: isize)
        ensures
            *final(self) == old(self).with_instance(instance),
            final(self).module() == instance,
            final(self).id() == old(self).id(),
            final(self).class_name() == old(self).class_name(),
            final(self).spec_options() == old(self).spec_options(),
            final(self).saved() == old(self).saved(),
            final(self).subscription() == old(self).subscription(),
    {
        self.instance = instance;
    }

    pub fn handle(&self) -> (r: isize)
        ensures
            r == self.id(),
    {
        self.handle
    }

    pub fn class(&self) -> (r: &str)
        ensures
            r@ == self.class_name(),
    {
        self.class.as_str()
    }

    pub fn instance(&self) -> (r: isize)
        ensures
            r == self.module(),
    {
        self.instance
    }

    pub fn theme(&self) -> (r: Theme)
        ensures
            r == self.spec_options().theme,
    {
        self.options.theme
    }

    pub fn is_subscribed(&self) -> (r: bool)
        ensures
            r == self.subscription() is Some,
    {
        self.theme_cookie.is_some()
    }

    /// Whether two records were made for windows of the same class name.
    pub fn same_class(&self, other: &Window) -> (r: bool)
        ensures
            r == (self.class_name() == other.class_name()),
    {
        self.class == other.class
    }

    pub fn is_fullscreen(&self) -> (r: bool)
        ensures
            r == self.saved() is Some,
    {
        self.prev_style.is_some()
    }

    /// Toggles fullscreen. A fullscreen window goes back to the placement
    /// saved when it entered; any other window enters fullscreen over the
    /// monitor in `capture`, saving the placement there, or stays as it is
    /// when the platform could not report them (`capture` is `None`).
    pub fn fullscreen(&mut self, capture: Option<Capture>) -> (r: FullscreenAction)
        ensures
            *final(self) == old(self).toggled(capture),
            same_identity(*final(self), *old(self)),
            final(self).spec_options() == old(self).spec_options(),
            final(self).subscription() == old(self).subscription(),
            final(self).saved() == fullscreen_next(old(self).saved(), capture).0,
            r == fullscreen_next(old(self).saved(), capture).1,
    {
        match self.prev_style {
            Some(p) => {
                self.prev_style = None;
                FullscreenAction::Leave(p)
            },
            None => match capture {
                Some(c) => {
                    self.prev_style = Some(c.placement);
                    FullscreenAction::Enter {
                        x: c.monitor.left,
                        y: c.monitor.top,
                        width: c.monitor.right as i64 - c.monitor.left as i64,
                        height: c.monitor.bottom as i64 - c.monitor.top as i64,
                    }
                },
                None => FullscreenAction::Stay,
            },
        }
    }

    /// Switches the window's theme and says what the platform must do:
    /// set the dark-mode attribute, and cancel or take out a subscription.
    pub fn set_theme(&mut self, theme: Theme) -> (r: ThemeChange)
        ensures
            *final(self) == old(self).themed(theme),
            same_identity(*final(self), *old(self)),
            final(self).spec_options() == (WindowOptions { theme, ..old(self).spec_options() }),
            final(self).spec_options().theme == theme,
            final(self).saved() == old(self).saved(),
            final(self).subscription() == theme_next(theme, old(self).subscription()).0,
            r == theme_next(theme, old(self).subscription()).1,
    {
        self.options.theme = theme;
        match theme {
            Theme::Light => {
                let cancel = self.theme_cookie;
                self.theme_cookie = None;
                ThemeChange { cancel, subscribe: false, dark: Some(false) }
            },
            Theme::Dark => {
                let cancel = self.theme_cookie;
                self.theme_cookie = None;
                ThemeChange { cancel, subscribe: false, dark: Some(true) }
            },
            Theme::Auto => ThemeChange {
                cancel: None,
                subscribe: self.theme_cookie.is_none(),
                dark: None,
            },
        }
    }

    /// Records the subscription taken out for this window.
    pub fn set_subscription(&mut self, token: i64)
        ensures
            *final(self) == old(self).subscribed(token),
            same_identity(*final(self), *old(self)),
            final(self).spec_options() == old(self).spec_options(),
            final(self).saved() == old(self).saved(),
            final(self).subscription() == Some(token),
    {
        self.theme_cookie = Some(token);
    }
}

/// What each change of a record keeps and what it sets.
pub proof fn lemma_record_updates(
    w: Window,
    capture: Option<Capture>,
    theme: Theme,
    token: i64,
    handle: isize,
    instance: isize,
)
    ensures
        same_identity(w.toggled(capture), w),
        w.toggled(capture).saved() == fullscreen_next(w.saved(), capture).0,
        w.toggled(capture).spec_options() == w.spec_options(),
        w.toggled(capture).subscription() == w.subscription(),
        same_identity(w.themed(theme), w),
        w.themed(theme).spec_options() == (WindowOptions { theme, ..w.spec_options() }),
        w.themed(theme).saved() == w.saved(),
        w.themed(theme).subscription() == theme_next(theme, w.subscription()).0,
        same_identity(w.subscribed(token), w),
        w.subscribed(token).spec_options() == w.spec_options(),
        w.subscribed(token).saved() == w.saved(),
        w.subscribed(token).subscription() == Some(token),
        w.with_handle(handle).id() == handle,
        w.with_handle(handle).class_name() == w.class_name(),
        w.with_handle(handle).module() == w.module(),
        w.with_handle(handle).spec_options() == w.spec_options(),
        w.with_handle(handle).saved() == w.saved(),
        w.with_handle(handle).subscription() == w.subscription(),
        w.with_instance(instance).module() == instance,
        w.with_instance(instance).id() == w.id(),
        w.with_instance(instance).class_name() == w.class_name(),
        w.with_instance(instance).spec_options() == w.spec_options(),
        w.with_instance(instance).saved() == w.saved(),
        w.with_instance(instance).subscription() == w.subscription(),
{
}

/// Toggling fullscreen twice brings a window back: the first toggle saves
/// the captured placement, the second restores exactly that placement and
/// leaves the record as it was.
pub proof fn lemma_toggle_twice_restores(w: Window, capture: Capture, later: Option<Capture>)
    requires
        w.saved() is None,
    ensures
        w.toggled(Some(capture)).saved() == Some(capture.placement),
        fullscreen_next(w.toggled(Some(capture)).saved(), later).1 == FullscreenAction::Leave(
            capture.placement,
        ),
        w.toggled(Some(capture)).toggled(later) == w,
{
}

/// A window made with the dark theme reports it; switched to `Auto` it
/// subscribes, and switched on to `Light` it cancels that very subscription
/// and keeps none.
pub proof fn lemma_theme_round_trip(w: Window, token: i64)
    requires
        w.spec_options().theme == Theme::Dark,
        w.subscription() is None,
    ensures
        w.themed(Theme::Auto).spec_options().theme == Theme::Auto,
        theme_next(Theme::Auto, w.subscription()).1.subscribe,
        theme_next(Theme::Light, w.themed(Theme::Auto).subscribed(token).subscription()).1.cancel
            == Some(token),
        w.themed(Theme::Auto).subscribed(token).themed(Theme::Light).subscription() is None,
        w.themed(Theme::Auto).subscribed(token).themed(Theme::Light).spec_options().theme
            == Theme::Light,
{
}

/// A window switched to `Light` or `Dark` hands back whatever subscription
/// it held for cancelling and holds none, so no later color-scheme change
/// reaches it.
pub proof fn lemma_leaving_auto_unsubscribes(w: Window, theme: Theme)
    requires
        theme != Theme::Auto,
    ensures
        theme_next(theme, w.subscription()).1.cancel == w.subscription(),
        !theme_next(theme, w.subscription()).1.subscribe,
        w.themed(theme).subscription() is None,
{
}

} // verus!
