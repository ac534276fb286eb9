//! The records of the live windows of the thread that runs the message loop.

use vstd::prelude::*;

use crate::style::{Background, Theme};
use crate::window::{
    fullscreen_next, lemma_toggle_twice_restores, same_identity, theme_next,
    Capture, FullscreenAction, ThemeChange, Window, WindowOptions,
};

verus! {

/// Whether a window with this id is among the records.
pub open spec fn tracks(ws: Seq<Window>, id: isize) -> bool {
    exists|i: int| 0 <= i < ws.len() && #[trigger] ws[i].id() == id
}

/// Whether a record was made with this class name.
pub open spec fn class_taken(ws: Seq<Window>, class: Seq<char>) -> bool {
    exists|i: int| 0 <= i < ws.len() && #[trigger] ws[i].class_name() == class
}

/// No two records share an id.
pub open spec fn distinct_ids(ws: Seq<Window>) -> bool {
    forall|i: int, j: int| 0 <= i < j < ws.len() ==> #[trigger] ws[i].id() != #[trigger] ws[j].id()
}

/// No two records share a window class name.
pub open spec fn distinct_classes(ws: Seq<Window>) -> bool {
    forall|i: int, j: int|
        0 <= i < j < ws.len() ==> #[trigger] ws[i].class_name() != #[trigger] ws[j].class_name()
}

/// What a fullscreen toggle of window `id` did to the records, with `r`
/// its result: `None` when there is no such window, else the window's
/// record toggled (see `Window::fullscreen`) and nothing else changed.
pub open spec fn toggled_at(
    before: Seq<Window>,
    after: Seq<Window>,
    id: isize,
    capture: Option<Capture>,
    r: Option<FullscreenAction>,
) -> bool {
    match r {
        None => !tracks(before, id) && after == before,
        Some(action) => exists|i: int|
            0 <= i < before.len() && before[i].id() == id && after == before.update(
                i,
                before[i].toggled(capture),
            ) && after[i].id() == id && after[i].saved() == fullscreen_next(
                before[i].saved(),
                capture,
            ).0 && after[i].spec_options() == before[i].spec_options() && after[i].subscription()
                == before[i].subscription() && action == fullscreen_next(before[i].saved(), capture).1,
    }
}

/// The records, one per window id and per window class.
pub struct Registry {
    windows: Vec<Window>,
}

impl Registry {
    pub closed spec fn records(&self) -> Seq<Window> {
        self.windows@
    }

    pub open spec fn wf(&self) -> bool {
        distinct_ids(self.records()) && distinct_classes(self.records())
    }

    pub fn new() -> (r: Registry)
        ensures
            r.wf(),
            r.records() == Seq::<Window>::empty(),
    {
        Registry { windows: Vec::new() }
    }

    pub fn len(&self) -> (r: usize)
        ensures
            r == self.records().len(),
    {
        self.windows.len()
    }

    /// The position of the record of window `id`.
    pub fn find(&self, id: isize) -> (r: Option<usize>)
        ensures
            match r {
                Some(i) => i < self.records().len() && self.records()[i as int].id() == id,
                None => !tracks(self.records(), id),
            },
    {
        let mut i: usize = 0;
        while i < self.windows.len()
            invariant
                i <= self.windows@.len(),
                forall|k: int| 0 <= k < i ==> self.windows@[k].id() != id,
            decreases self.windows@.len() - i,
        {
            if self.windows[i].handle() == id {
                return Some(i);
            }
            i += 1;
        }
        None
    }

    /// Whether a record has the class name of `window`.
    fn has_class_of(&self, window: &Window) -> (r: bool)
        ensures
            r == class_taken(self.records(), window.class_name()),
    {
        let mut i: usize = 0;
        while i < self.windows.len()
            invariant
                i <= self.windows@.len(),
                forall|k: int| 0 <= k < i ==> self.windows@[k].class_name() != window.class_name(),
            decreases self.windows@.len() - i,
        {
            if self.windows[i].same_class(window) {
                return true;
            }
            i += 1;
        }
        false
    }

    pub fn get(&self, id: isize) -> (r: Option<&Window>)
        ensures
            match r {
                Some(w) => tracks(self.records(), id) && w.id() == id && exists|i: int|
                    0 <= i < self.records().len() && self.records()[i] == *w,
                None => !tracks(self.records(), id),
            },
    {
        match self.find(id) {
            Some(i) => Some(&self.windows[i]),
            None => None,
        }
    }

    /// Adds the record of a window that was just made. It is refused, and
    /// the records kept as they are, when a record already has its id or its
    /// class name.
    pub fn insert(&mut self, window: Window) -> (added: bool)
        requires
            old(self).wf(),
        ensures
            final(self).wf(),
            added == (!tracks(old(self).records(), window.id()) && !class_taken(
                old(self).records(),
                window.class_name(),
            )),
            added ==> final(self).records() == old(self).records().push(window),
            !added ==> final(self).records() == old(self).records(),
    {
        let id = window.handle();
        if self.find(id).is_some() || self.has_class_of(&window) {
            return false;
        }
        self.windows.push(window);
        proof {
            let o = old(self).records();
            let n = self.records();
            assert forall|i: int, j: int| 0 <= i < j < n.len() implies #[trigger] n[i].id()
                != #[trigger] n[j].id() && n[i].class_name() != n[j].class_name() by {
                assert(n[i] == o[i]);
                if j < o.len() {
                    assert(n[j] == o[j]);
                }
            }
        }
        true
    }

    /// Drops the record of window `id`, if there is one.
    pub fn close(&mut self, id: isize) -> (removed: bool)
        requires
            old(self).wf(),
        ensures
            final(self).wf(),
            removed == tracks(old(self).records(), id),
            !tracks(final(self).records(), id),
            removed ==> exists|i: int|
                0 <= i < old(self).records().len() && old(self).records()[i].id() == id
                    && final(self).records() == old(self).records().remove(i),
            !removed ==> final(self).records() == old(self).records(),
    {
        match self.find(id) {
            Some(i) => {
                self.windows.remove(i);
                proof {
                    let o = old(self).records();
                    let n = self.records();
                    assert(n == o.remove(i as int));
                    assert forall|a: int, b: int| 0 <= a < b < n.len() implies #[trigger] n[a].id()
                        != #[trigger] n[b].id() && n[a].class_name() != n[b].class_name() by {
                        let oa = if a < i { a } else { a + 1 };
                        let ob = if b < i { b } else { b + 1 };
                        assert(n[a] == o[oa]);
                        assert(n[b] == o[ob]);
                    }
                    assert forall|k: int| 0 <= k < n.len() implies #[trigger] n[k].id() != id by {
                        let ok = if k < i { k } else { k + 1 };
                        assert(n[k] == o[ok]);
                    }
                }
                true
            },
            None => false,
        }
    }

    /// The platform destroyed window `id`: its record goes, and the message
    /// loop ends when no window is left.
    pub fn on_destroyed(&mut self, id: isize) -> (quit: bool)
        requires
            old(self).wf(),
        ensures
            final(self).wf(),
            !tracks(final(self).records(), id),
            tracks(old(self).records(), id) ==> exists|i: int|
                0 <= i < old(self).records().len() && old(self).records()[i].id() == id
                    && final(self).records() == old(self).records().remove(i),
            !tracks(old(self).records(), id) ==> final(self).records() == old(self).records(),
            quit == (final(self).records().len() == 0),
    {
        self.close(id);
        self.windows.len() == 0
    }

    /// Switches the theme of window `id`; `None` when there is no such
    /// window.
    pub fn set_theme(&mut self, id: isize, theme: Theme) -> (r: Option<ThemeChange>)
        requires
            old(self).wf(),
        ensures
            final(self).wf(),
            r is None <==> !tracks(old(self).records(), id),
            r is None ==> final(self).records() == old(self).records(),
            r is Some ==> exists|i: int|
                0 <= i < old(self).records().len() && old(self).records()[i].id() == id
                    && final(self).records() == old(self).records().update(
                    i,
                    old(self).records()[i].themed(theme),
                ) && same_identity(final(self).records()[i], old(self).records()[i])
                    && final(self).records()[i].spec_options() == (WindowOptions {
                    theme,
                    ..old(self).records()[i].spec_options()
                }) && final(self).records()[i].saved() == old(self).records()[i].saved()
                    && final(self).records()[i].subscription() == theme_next(
                    theme,
                    old(self).records()[i].subscription(),
                ).0 && r->0 == theme_next(theme, old(self).records()[i].subscription()).1,
    {
        match self.find(id) {
            Some(i) => {
                let change = self.windows[i].set_theme(theme);
                proof {
                    lemma_update_keeps_wf(old(self).records(), self.records(), i as int);
                }
                Some(change)
            },
            None => None,
        }
    }

    /// Records the subscription taken out for window `id`; false when there
    /// is no such window.
    pub fn set_subscription(&mut self, id: isize, token: i64) -> (found: bool)
        requires
            old(self).wf(),
        ensures
            final(self).wf(),
            found == tracks(old(self).records(), id),
            !found ==> final(self).records() == old(self).records(),
            found ==> exists|i: int|
                0 <= i < old(self).records().len() && old(self).records()[i].id() == id
                    && final(self).records() == old(self).records().update(
                    i,
                    old(self).records()[i].subscribed(token),
                ) && same_identity(final(self).records()[i], old(self).records()[i])
                    && final(self).records()[i].spec_options() == old(self).records()[i].spec_options()
                    && final(self).records()[i].saved() == old(self).records()[i].saved()
                    && final(self).records()[i].subscription() == Some(token),
    {
        match self.find(id) {
            Some(i) => {
                self.windows[i].set_subscription(token);
                proof {
                    lemma_update_keeps_wf(old(self).records(), self.records(), i as int);
                }
                true
            },
            None => false,
        }
    }

    /// The system's color scheme changed and the subscription of window `id`
    /// reported it: whether that window is repainted, which it is exactly
    /// while it holds a live subscription. A cancelled subscription repaints
    /// nothing.
    pub fn on_scheme_changed(&self, id: isize) -> (repaint: bool)
        requires
            self.wf(),
        ensures
            repaint == exists|i: int|
                0 <= i < self.records().len() && #[trigger] self.records()[i].id() == id
                    && self.records()[i].subscription() is Some,
    {
        match self.find(id) {
            Some(i) => {
                let live = self.windows[i].is_subscribed();
                proof {
                    if !live {
                        assert forall|k: int|
                            0 <= k < self.records().len() && #[trigger] self.records()[k].id() == id
                            implies self.records()[k].subscription() is None by {
                            if k < i {
                                assert(self.records()[k].id() != self.records()[i as int].id());
                            } else if k > i {
                                assert(self.records()[i as int].id() != self.records()[k].id());
                            }
                        }
                    }
                }
                live
            },
            None => false,
        }
    }

    /// The theme and background with which the background of window `id` is
    /// filled: the defaults when there is no such window.
    pub fn background_of(&self, id: isize) -> (r: (Theme, Background))
        ensures
            !tracks(self.records(), id) ==> r == (Theme::Light, Background {
                light: 0xFFFFFF,
                dark: 0x000000,
            }),
            tracks(self.records(), id) ==> exists|i: int|
                0 <= i < self.records().len() && self.records()[i].id() == id && r == (
                    self.records()[i].spec_options().theme,
                    self.records()[i].spec_options().background,
                ),
    {
        match self.find(id) {
            Some(i) => {
                let options = self.windows[i].options();
                (options.theme, options.background)
            },
            None => (Theme::default(), Background::default()),
        }
    }
}

/// Changing one record without changing its id or class name keeps the
/// records apart.
proof fn lemma_update_keeps_wf(before: Seq<Window>, after: Seq<Window>, i: int)
    requires
        0 <= i < before.len(),
        after.len() == before.len(),
        same_identity(after[i], before[i]),
        forall|k: int| 0 <= k < before.len() && k != i ==> after[k] == before[k],
        distinct_ids(before),
        distinct_classes(before),
    ensures
        distinct_ids(after),
        distinct_classes(after),
{
    assert forall|a: int, b: int| 0 <= a < b < after.len() implies #[trigger] after[a].id()
        != #[trigger] after[b].id() && after[a].class_name() != after[b].class_name() by {
        assert(same_identity(after[a], before[a]));
        assert(same_identity(after[b], before[b]));
    }
}

/// Toggles fullscreen for window `id` (see `Window::fullscreen`); `None`
/// when there is no such window.
pub fn toggle_fullscreen(registry: &mut Registry, id: isize, capture: Option<Capture>) -> (r: Option<
    FullscreenAction,
>)
    requires
        old(registry).wf(),
    ensures
        final(registry).wf(),
        r is None <==> !tracks(old(registry).records(), id),
        toggled_at(old(registry).records(), final(registry).records(), id, capture, r),
{
    match registry.find(id) {
        Some(i) => {
            let action = registry.windows[i].fullscreen(capture);
            proof {
                lemma_update_keeps_wf(old(registry).records(), registry.records(), i as int);
                assert(registry.records() =~= old(registry).records().update(
                    i as int,
                    old(registry).records()[i as int].toggled(capture),
                ));
            }
            Some(action)
        },
        None => None,
    }
}

/// Toggling a window's fullscreen twice through the registry: the second
/// toggle leaves fullscreen, restoring exactly the placement that the first
/// captured, and the records are as they were before the first.
pub proof fn lemma_toggle_twice_in_registry(
    r0: Seq<Window>,
    r1: Seq<Window>,
    r2: Seq<Window>,
    id: isize,
    capture: Capture,
    later: Option<Capture>,
    first: Option<FullscreenAction>,
    second: Option<FullscreenAction>,
)
    requires
        distinct_ids(r0),
        tracks(r0, id),
        forall|k: int| 0 <= k < r0.len() && #[trigger] r0[k].id() == id ==> r0[k].saved() is None,
        toggled_at(r0, r1, id, Some(capture), first),
        toggled_at(r1, r2, id, later, second),
    ensures
        first is Some,
        second == Some(FullscreenAction::Leave(capture.placement)),
        r2 == r0,
{
    let i = choose|i: int|
        0 <= i < r0.len() && r0[i].id() == id && r1 == r0.update(i, r0[i].toggled(Some(capture)))
            && r1[i].id() == id && r1[i].saved() == fullscreen_next(r0[i].saved(), Some(capture)).0
            && r1[i].spec_options() == r0[i].spec_options() && r1[i].subscription()
            == r0[i].subscription() && first->0 == fullscreen_next(r0[i].saved(), Some(capture)).1;
    assert(tracks(r1, id));
    let j = choose|j: int|
        0 <= j < r1.len() && r1[j].id() == id && r2 == r1.update(j, r1[j].toggled(later))
            && r2[j].id() == id && r2[j].saved() == fullscreen_next(r1[j].saved(), later).0
            && r2[j].spec_options() == r1[j].spec_options() && r2[j].subscription()
            == r1[j].subscription() && second->0 == fullscreen_next(r1[j].saved(), later).1;
    if j != i {
        assert(r1[j] == r0[j]);
        assert(false);
    }
    lemma_toggle_twice_restores(r0[i], capture, later);
    assert(r2 =~= r0);
}

} // verus!
