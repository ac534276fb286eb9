//! The color dialog: what it is opened with, and what its answer means.

use vstd::prelude::*;

use crate::error::Error;
use crate::style::{red_blue_swapped, swap_rb};

verus! {

/// Use the initial color.
pub const CC_RGBINIT: u32 = 0x0001;

/// Open with the custom-color part shown.
pub const CC_FULLOPEN: u32 = 0x0002;

pub const CC_PREVENTFULLOPEN: u32 = 0x0004;

/// Offer every available color.
pub const CC_ANYCOLOR: u32 = 0x0100;

/// The number of custom colors that the dialog shows.
pub const CUSTOM_COLOR_SLOTS: usize = 16;

/// The platform color of an empty custom-color slot (white).
pub const EMPTY_SLOT: u32 = 0xFF_FFFF;

/// What a dialog ended with.
#[derive(Debug, Clone, PartialEq, Eq)]
pub enum DialogAction {
    /// The user closed the dialog without choosing.
    NoAction,
    /// The chosen color and the custom colors as the user left them, as
    /// `0xRRGGBB`.
    Color(u32, Vec<u32>),
}

/// Every color of a sequence with red and blue exchanged.
pub open spec fn all_swapped(colors: Seq<u32>) -> Seq<u32> {
    colors.map_values(|c: u32| red_blue_swapped(c))
}

/// The custom colors filled up to the dialog's slots with empty ones.
pub open spec fn padded(colors: Seq<u32>) -> Seq<u32> {
    if colors.len() < CUSTOM_COLOR_SLOTS {
        colors + Seq::new((CUSTOM_COLOR_SLOTS - colors.len()) as nat, |i: int| EMPTY_SLOT)
    } else {
        colors
    }
}

/// The flags that the dialog is opened with.
pub open spec fn dialog_flags(has_initial: bool) -> u32 {
    (if has_initial {
        CC_RGBINIT
    } else {
        0
    }) | CC_FULLOPEN | CC_PREVENTFULLOPEN | CC_ANYCOLOR
}

/// Everything the platform's color dialog is opened with.
#[derive(Debug, Clone, PartialEq, Eq)]
pub struct ColorRequest {
    /// The owner window, 0 for none.
    pub owner: isize,
    /// The initial color, as a platform color (`0xBBGGRR`).
    pub initial: u32,
    pub flags: u32,
    /// The custom-color slots, as platform colors.
    pub custom: Vec<u32>,
}

/// Exchanges red and blue in every color.
pub fn swap_all(colors: &Vec<u32>) -> (r: Vec<u32>)
    ensures
        r@ == all_swapped(colors@),
{
    let mut r: Vec<u32> = Vec::new();
    let n = colors.len();
    let mut i: usize = 0;
    while i < n
        invariant
            n == colors@.len(),
            i <= n,
            r@ == all_swapped(colors@.subrange(0, i as int)),
        decreases n - i,
    {
        r.push(swap_rb(colors[i]));
        proof {
            assert(colors@.subrange(0, i + 1) =~= colors@.subrange(0, i as int).push(colors@[i as int]));
            assert(r@ =~= all_swapped(colors@.subrange(0, i + 1)));
        }
        i += 1;
    }
    assert(colors@.subrange(0, n as int) =~= colors@);
    r
}

#[derive(Debug, Clone, Default)]
pub struct ColorPicker {
    initial_color: Option<u32>,
    custom_colors: Vec<u32>,
}

impl ColorPicker {
    /// The initial color, as a platform color.
    pub closed spec fn initial(&self) -> Option<u32> {
        self.initial_color
    }

    /// The custom colors, as `0xRRGGBB`.
    pub closed spec fn custom(&self) -> Seq<u32> {
        self.custom_colors@
    }

    /// A picker that starts at `initial_color` (`0xRRGGBB`), with these
    /// custom colors.
    pub fn new(initial_color: Option<u32>, custom_colors: Vec<u32>) -> (r: Self)
        ensures
            r.initial() == match initial_color {
                Some(c) => Some(red_blue_swapped(c)),
                None => None,
            },
            r.custom() == custom_colors@,
    {
        let initial_color = match initial_color {
            Some(c) => Some(swap_rb(c)),
            None => None,
        };
        ColorPicker { initial_color, custom_colors }
    }

    /// What the dialog owned by window `parent` is opened with.
    pub fn show_with(&self, parent: isize) -> (r: ColorRequest)
        ensures
            r.owner == parent,
            r.initial == match self.initial() {
                Some(c) => c,
                None => 0,
            },
            r.flags == dialog_flags(self.initial() is Some),
            r.custom@ == padded(all_swapped(self.custom())),
    {
        let mut custom = swap_all(&self.custom_colors);
        let ghost swapped = custom@;
        while custom.len() < CUSTOM_COLOR_SLOTS
            invariant
                custom@.len() >= swapped.len(),
                swapped.len() < CUSTOM_COLOR_SLOTS ==> custom@.len() <= CUSTOM_COLOR_SLOTS,
                swapped.len() >= CUSTOM_COLOR_SLOTS ==> custom@ == swapped,
                custom@.subrange(0, swapped.len() as int) == swapped,
                forall|k: int| swapped.len() <= k < custom@.len() ==> custom@[k] == EMPTY_SLOT,
            decreases CUSTOM_COLOR_SLOTS - custom@.len(),
        {
            let ghost before = custom@;
            custom.push(EMPTY_SLOT);
            assert(custom@.subrange(0, swapped.len() as int) =~= before.subrange(
                0,
                swapped.len() as int,
            ));
        }
        assert(custom@ =~= padded(swapped));
        let initial = match self.initial_color {
            Some(c) => c,
            None => 0,
        };
        let rgb_init: u32 = if self.initial_color.is_some() {
            CC_RGBINIT
        } else {
            0
        };
        ColorRequest {
            owner: parent,
            initial,
            flags: rgb_init | CC_FULLOPEN | CC_PREVENTFULLOPEN | CC_ANYCOLOR,
            custom,
        }
    }

    /// What the dialog's answer means. `confirmed` says that the user chose
    /// a color: then `result` and `custom` are the chosen color and the
    /// custom slots as the dialog left them, as platform colors. Otherwise a
    /// zero `extended_error` means that the user cancelled, and any other
    /// value that the dialog failed.
    pub fn finish(confirmed: bool, result: u32, custom: &Vec<u32>, extended_error: u32) -> (r:
        Result<DialogAction, Error>)
        ensures
            confirmed ==> (r matches Ok(DialogAction::Color(c, cs)) && c == red_blue_swapped(result)
                && cs@ == all_swapped(custom@)),
            !confirmed && extended_error == 0 ==> r == Ok::<DialogAction, Error>(
                DialogAction::NoAction,
            ),
            !confirmed && extended_error != 0 ==> r == Err::<DialogAction, Error>(
                Error::Dialog(extended_error),
            ),
    {
        if confirmed {
            Ok(DialogAction::Color(swap_rb(result), swap_all(custom)))
        } else if extended_error == 0 {
            Ok(DialogAction::NoAction)
        } else {
            Err(Error::Dialog(extended_error))
        }
    }

    /// What the dialog without an owner window is opened with.
    pub fn show(&self) -> (r: ColorRequest)
        ensures
            r.owner == 0,
            r.initial == match self.initial() {
                Some(c) => c,
                None => 0,
            },
            r.flags == dialog_flags(self.initial() is Some),
            r.custom@ == padded(all_swapped(self.custom())),
    {
        self.show_with(0)
    }
}

} // verus!
