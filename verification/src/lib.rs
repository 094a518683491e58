//! A verified session/viewport core for windowed editing of a byte buffer.
//!
//! A `Session` owns a byte buffer and a registry of `Viewport`s: bounded
//! windows over the buffer, each optionally registered for change
//! notification.  Mutations (insert, overwrite, delete) update the buffer,
//! refresh every open viewport's window, and report exactly which
//! notification-bound viewports saw their window overlap the changed region.

pub mod errors;
pub mod laws;
pub mod model;
pub mod session;
pub mod state;
pub mod viewport;
