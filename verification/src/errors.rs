//! The errors session and viewport operations surface.

use vstd::prelude::*;

verus! {

/// Why a session or viewport operation failed.
#[derive(Clone, Copy, Debug, PartialEq, Eq, Structural)]
pub enum EditError {
    /// The engine connection could not be established or seeded.
    EngineInit,
    /// A mutation was rejected: its range lies outside the buffer.
    EngineMutation,
    /// The session was torn down; no further operation on it is valid.
    SessionClosed,
    /// The handle does not resolve to a live viewport of this session.
    UnknownViewport,
    /// The viewport's bytes are not valid UTF-8.
    Decode,
}

} // verus!
