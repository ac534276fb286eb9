//! The errors that the library reports.

use vstd::prelude::*;

verus! {

#[derive(Debug, Clone, Copy, PartialEq, Eq, Structural)]
pub enum Error {
    /// The platform gave no window, or no window class: the platform's last
    /// error code.
    Creation(i32),
    /// A platform call failed with this error code.
    Api(i32),
    /// A common dialog failed with this extended error code.
    Dialog(u32),
}

} // verus!
