use storytree_native::color::{ColorPicker, DialogAction, CC_ANYCOLOR, CC_FULLOPEN, CC_PREVENTFULLOPEN, CC_RGBINIT};
use storytree_native::dispatch::{repaint_pass, scheme_change, Action};
use storytree_native::message::WM_SCHEME_CHANGED;
use storytree_native::error::Error;
use storytree_native::registry::Registry;
use storytree_native::style::{fill_color, swap_rb, Background, Theme};
use storytree_native::window::{
    frame_style, is_ico_path, Builder, Capture, FullscreenAction, Placement, Rect, ThemeChange,
    WindowOptions, WS_OVERLAPPEDWINDOW,
};
use storytree_native::{is_maxamized, toggle_fullscreen, Window};

fn made(title: &str, theme: Theme, handle: isize) -> Window {
    let mut w = Builder::new().title(title).theme(theme).create();
    w.set_handle(handle);
    w
}

fn placement() -> Placement {
    Placement {
        flags: 0,
        show_cmd: 1,
        min_x: -1,
        min_y: -1,
        max_x: -1,
        max_y: -1,
        normal: Rect { left: 10, top: 20, right: 810, bottom: 620 },
    }
}

fn capture() -> Capture {
    Capture { placement: placement(), monitor: Rect { left: -1920, top: 0, right: 0, bottom: 1080 } }
}

#[test]
fn fresh_window_record() {
    let w = Builder::new().title("T").create();
    let class = w.class();
    assert!(class.starts_with("Window-StoryTree-"));
    assert_eq!(class.len(), 17 + 36);
    for (i, c) in class[17..].chars().enumerate() {
        if [8, 13, 18, 23].contains(&i) {
            assert_eq!(c, '-');
        } else {
            assert!(c.is_ascii_hexdigit());
        }
    }
    let other = Builder::new().title("T").create();
    assert_ne!(other.class(), class);
    assert_eq!(w.handle(), 0);
    assert_eq!(w.options().title, "T");
    assert!(!w.is_fullscreen());
}

#[test]
fn builder_collects_options() {
    let w = Builder::new()
        .title("Rust Window")
        .theme(Theme::Auto)
        .background(Background::new(0xA35FC1, 0x0B0B0B))
        .icon("images/app.ico")
        .show();
    let o: &WindowOptions = w.options();
    assert_eq!(o.title, "Rust Window");
    assert_eq!(o.theme, Theme::Auto);
    assert_eq!(o.background, Background { light: 0xA35FC1, dark: 0x0B0B0B });
    assert_eq!(o.icon.as_deref(), Some("images/app.ico"));
    assert!(o.show);
    let d = WindowOptions::default();
    assert_eq!(d.title, "");
    assert!(!d.show);
}

#[test]
fn icon_paths() {
    assert!(is_ico_path("a.ico"));
    assert!(is_ico_path(".ico"));
    assert!(!is_ico_path("ico"));
    assert!(!is_ico_path("images/NativeUI"));
    assert!(!is_ico_path("a.icon"));
}

#[test]
fn dark_window_reports_dark_then_cancels_after_auto() {
    let mut registry = Registry::new();
    assert!(registry.insert(made("T", Theme::Dark, 11)));
    assert_eq!(registry.get(11).unwrap().theme(), Theme::Dark);
    let change = registry.set_theme(11, Theme::Auto).unwrap();
    assert_eq!(change, ThemeChange { cancel: None, subscribe: true, dark: None });
    assert!(registry.set_subscription(11, 77));
    assert!(registry.on_scheme_changed(11));
    let again = registry.set_theme(11, Theme::Auto).unwrap();
    assert!(!again.subscribe);
    let change = registry.set_theme(11, Theme::Light).unwrap();
    assert_eq!(change, ThemeChange { cancel: Some(77), subscribe: false, dark: Some(false) });
    assert!(!registry.on_scheme_changed(11));
    assert_eq!(registry.get(11).unwrap().theme(), Theme::Light);
    assert_eq!(registry.set_theme(12, Theme::Dark), None);
}

#[test]
fn auto_window_repaints_once_without_callback() {
    let mut registry = Registry::new();
    assert!(registry.insert(made("T", Theme::Auto, 5)));
    let change = registry.set_theme(5, Theme::Auto).unwrap();
    assert!(change.subscribe);
    assert!(registry.set_subscription(5, 1));
    let notified = scheme_change(WM_SCHEME_CHANGED, 5);
    assert_eq!(notified, Some(5));
    assert!(registry.on_scheme_changed(5));
    let pass = repaint_pass();
    let erases = pass.iter().filter(|a| **a == Action::EraseBackground).count();
    assert_eq!(erases, 1);
    assert_eq!(pass.len(), 2);
    assert!(pass
        .iter()
        .all(|a| !matches!(a, Action::Input(_) | Action::Close | Action::Paint)));
}

#[test]
fn fullscreen_twice_restores_placement() {
    let mut registry = Registry::new();
    assert!(registry.insert(made("F", Theme::Light, 3)));
    let first = toggle_fullscreen(&mut registry, 3, Some(capture())).unwrap();
    assert_eq!(first, FullscreenAction::Enter { x: -1920, y: 0, width: 1920, height: 1080 });
    assert!(registry.get(3).unwrap().is_fullscreen());
    let second = toggle_fullscreen(&mut registry, 3, None).unwrap();
    assert_eq!(second, FullscreenAction::Leave(placement()));
    assert!(!registry.get(3).unwrap().is_fullscreen());
    assert_eq!(toggle_fullscreen(&mut registry, 4, Some(capture())), None);
}

#[test]
fn fullscreen_stays_when_capture_fails() {
    let mut w = made("F", Theme::Light, 3);
    assert_eq!(w.fullscreen(None), FullscreenAction::Stay);
    assert!(!w.is_fullscreen());
}

#[test]
fn record_keeps_options_after_handle() {
    let mut w = Builder::new().title("T").theme(Theme::Dark).create();
    let class = w.class().to_string();
    w.set_handle(21);
    w.set_instance(4);
    assert_eq!(w.theme(), Theme::Dark);
    assert_eq!(w.options().title, "T");
    assert_eq!(w.class(), class);
    assert_eq!(w.instance(), 4);
    assert!(!w.is_subscribed());
    let mut registry = Registry::new();
    assert!(registry.insert(w));
    assert_eq!(registry.get(21).unwrap().theme(), Theme::Dark);
    assert!(!registry.on_scheme_changed(21));
    assert!(!registry.on_scheme_changed(22));
}

#[test]
fn close_and_destroy() {
    let mut registry = Registry::new();
    assert!(registry.insert(made("a", Theme::Light, 1)));
    assert!(registry.insert(made("b", Theme::Light, 2)));
    assert!(!registry.insert(made("c", Theme::Dark, 2)));
    assert_eq!(registry.get(2).unwrap().options().title, "b");
    assert!(registry.close(1));
    assert!(!registry.close(1));
    assert_eq!(registry.len(), 1);
    assert_eq!(registry.find(2), Some(0));
    assert!(registry.on_destroyed(2));
    assert!(registry.on_destroyed(2));
    assert_eq!(registry.len(), 0);
}

#[test]
fn destroy_keeps_loop_while_windows_remain() {
    let mut registry = Registry::new();
    assert!(registry.insert(made("a", Theme::Light, 1)));
    assert!(registry.insert(made("b", Theme::Light, 2)));
    assert!(!registry.on_destroyed(1));
}

#[test]
fn background_colors() {
    assert_eq!(swap_rb(0x112233), 0x332211);
    assert_eq!(swap_rb(0xAA112233), 0xAA332211);
    let bg = Background::new(0xA35FC1, 0x0B0B0B);
    assert_eq!(bg.color(true), 0x0B0B0B);
    assert_eq!(fill_color(Theme::Light, bg, true), 0xC15FA3);
    assert_eq!(fill_color(Theme::Dark, bg, false), 0x0B0B0B);
    assert_eq!(fill_color(Theme::Auto, bg, false), 0xC15FA3);
    let mut registry = Registry::new();
    let mut w = Builder::new().background(bg).theme(Theme::Dark).create();
    w.set_handle(8);
    assert!(registry.insert(w));
    assert_eq!(registry.background_of(8), (Theme::Dark, bg));
    assert_eq!(registry.background_of(9), (Theme::Light, Background::new(0xFFFFFF, 0)));
}

#[test]
fn window_styles() {
    assert!(is_maxamized(0x0100_0000 | 0x00CF_0000));
    assert!(!is_maxamized(0x00CF_0000));
    assert_eq!(frame_style(0x10CF_0000, false), 0x1000_0000);
    assert_eq!(frame_style(0x1000_0000, true), 0x1000_0000 | WS_OVERLAPPEDWINDOW);
}

#[test]
fn color_dialog_request() {
    let picker = ColorPicker::new(Some(0x112233), vec![0x0000FF, 0xFF0000]);
    let r = picker.show();
    assert_eq!(r.owner, 0);
    assert_eq!(r.initial, 0x332211);
    assert_eq!(r.flags, CC_RGBINIT | CC_FULLOPEN | CC_PREVENTFULLOPEN | CC_ANYCOLOR);
    assert_eq!(r.custom.len(), 16);
    assert_eq!(r.custom[0], 0xFF0000);
    assert_eq!(r.custom[1], 0x0000FF);
    assert!(r.custom[2..].iter().all(|c| *c == 0xFFFFFF));
    let plain = ColorPicker::new(None, vec![0x123456; 20]).show_with(42);
    assert_eq!(plain.owner, 42);
    assert_eq!(plain.initial, 0);
    assert_eq!(plain.flags, CC_FULLOPEN | CC_PREVENTFULLOPEN | CC_ANYCOLOR);
    assert_eq!(plain.custom, vec![0x563412; 20]);
}

#[test]
fn color_dialog_answers() {
    assert_eq!(
        ColorPicker::finish(true, 0x332211, &vec![0xFF0000, 0xFFFFFF], 0),
        Ok(DialogAction::Color(0x112233, vec![0x0000FF, 0xFFFFFF]))
    );
    assert_eq!(ColorPicker::finish(false, 0, &vec![], 0), Ok(DialogAction::NoAction));
    assert_eq!(ColorPicker::finish(false, 0, &vec![], 0xFFFF), Err(Error::Dialog(0xFFFF)));
}
