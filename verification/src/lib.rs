//! Core of a keyboard-driven terminal file browser.
//!
//! The library holds everything with invariants worth maintaining: the
//! text-edit buffer used by the rename/add/search prompts, the viewport
//! arithmetic that keeps a scrollable selection consistent with the
//! terminal height, the snapshot filter-and-sort pass over a directory
//! listing, and the mode state machine that turns key presses into
//! state changes and filesystem requests. Terminal drawing and the
//! filesystem calls themselves live outside, in the binary around this
//! crate: the state machine only reports which request to make.

pub mod action;
pub mod buffer;
pub mod entry;
pub mod mode;
pub mod nfm;
pub mod snapshot;
pub mod text;
pub mod viewport;
pub mod window;
