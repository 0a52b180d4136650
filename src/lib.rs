//! Input translation between a windowing layer's events and an immediate-mode
//! GUI's per-frame input state.
//!
//! The library holds the rules of that translation: which array slot a mouse
//! button lands in, how a press that is released before the next frame is
//! still seen by that frame, how pixel scrolling becomes wheel steps, what a key
//! event changes, when the OS cursor must be updated, when a suspended context
//! is run, retried or skipped, and the close-request channel between a handle
//! and the frame loop.
pub mod context;
pub mod cursor;
pub mod handle;
pub mod keyboard;
pub mod mouse;
pub mod wheel;
