//! Themes and background colors.

use vstd::prelude::*;

verus! {

/// How a window picks between its light and dark look.
#[derive(Debug, Clone, Copy, PartialEq, Eq, Structural)]
pub enum Theme {
    Light,
    Dark,
    /// Follow the operating system's color scheme, and keep following it.
    Auto,
}

impl Default for Theme {
    fn default() -> (r: Theme)
        ensures
            r == Theme::Light,
    {
        Theme::Light
    }
}

/// The background colors of a window, as `0xRRGGBB`, for its light and its
/// dark look.
#[derive(Debug, Clone, Copy, PartialEq, Eq, Structural)]
pub struct Background {
    pub light: u32,
    pub dark: u32,
}

impl Default for Background {
    fn default() -> (r: Background)
        ensures
            r == (Background { light: 0xFFFFFF, dark: 0x000000 }),
    {
        Background { light: 0xFFFFFF, dark: 0x000000 }
    }
}

/// The color a background shows for a look.
pub open spec fn color_for(b: Background, dark: bool) -> u32 {
    if dark {
        b.dark
    } else {
        b.light
    }
}

/// Whether a theme shows its dark look, given the system's current scheme.
pub open spec fn shows_dark(theme: Theme, system_dark: bool) -> bool {
    match theme {
        Theme::Light => false,
        Theme::Dark => true,
        Theme::Auto => system_dark,
    }
}

impl Background {
    pub fn new(light: u32, dark: u32) -> (r: Background)
        ensures
            r == (Background { light, dark }),
    {
        Background { light, dark }
    }

    pub fn light(&self) -> (r: u32)
        ensures
            r == self.light,
    {
        self.light
    }

    pub fn dark(&self) -> (r: u32)
        ensures
            r == self.dark,
    {
        self.dark
    }

    pub fn color(&self, dark: bool) -> (r: u32)
        ensures
            r == color_for(*self, dark),
    {
        if dark {
            self.dark
        } else {
            self.light
        }
    }
}

/// A color with its lowest and third-lowest bytes exchanged: `0xRRGGBB`
/// becomes the platform's `0xBBGGRR`, and back.
pub open spec fn red_blue_swapped(c: u32) -> u32 {
    ((c / 0x1000000) * 0x1000000 + (c % 0x100) * 0x10000 + ((c / 0x100) % 0x100) * 0x100 + (c
        / 0x10000) % 0x100) as u32
}

pub fn swap_rb(c: u32) -> (r: u32)
    ensures
        r == red_blue_swapped(c),
{
    let r: u32 = (c & 0xFF00_FF00) | ((c & 0xFF) << 16) | ((c >> 16) & 0xFF);
    assert(r == ((c / 0x1000000) * 0x1000000 + (c % 0x100) * 0x10000 + ((c / 0x100) % 0x100)
        * 0x100 + (c / 0x10000) % 0x100)) by (bit_vector)
        requires
            r == (c & 0xFF00_FF00) | ((c & 0xFF) << 16) | ((c >> 16) & 0xFF),
    ;
    r
}

/// The platform color that fills a window's background.
pub open spec fn fill_of(theme: Theme, background: Background, system_dark: bool) -> u32 {
    red_blue_swapped(color_for(background, shows_dark(theme, system_dark)))
}

/// The platform color (`0xBBGGRR`) with which the background of a window of
/// this theme and background is filled, given the system's scheme.
pub fn fill_color(theme: Theme, background: Background, system_dark: bool) -> (r: u32)
    ensures
        r == fill_of(theme, background, system_dark),
{
    let color = match theme {
        Theme::Light => background.light(),
        Theme::Dark => background.dark(),
        Theme::Auto => background.color(system_dark),
    };
    swap_rb(color)
}

} // verus!
