//! Typed events, window bookkeeping and theming for a native desktop
//! windowing backend.
//!
//! The library turns raw window messages (a code and two machine words) into
//! typed events, decides what the message loop does with each message, and
//! keeps the per-window records that fullscreen toggling and theming need.
//! Everything that talks to the operating system stays with the caller: the
//! functions here take what the platform reported as plain values and return
//! what the platform should be asked to do.

pub mod message;
pub mod mouse;
pub mod keyboard;
pub mod event;
pub mod state;
pub mod style;
pub mod dispatch;
pub mod error;
pub mod window;
pub mod registry;
pub mod color;

pub use registry::toggle_fullscreen;
pub use window::{is_maxamized, Window};
