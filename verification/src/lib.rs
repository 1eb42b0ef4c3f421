//! Control logic of a transparent, always-on-top overlay window.
//!
//! The crate holds the overlay's mode state machine and the registry of the
//! global shortcuts that drive it. Both are pure: every operation maps plain
//! values to plain values and to an ordered list of commands for the window,
//! the hotkey facility and the rendered content, which the caller carries out.

pub mod error;
pub mod games;
pub mod keys;
pub mod mode;
pub mod registry;
pub mod text;
pub mod window;
