//! Protocol-wide numeric limits.

use vstd::prelude::*;

verus! {

/// A stream identifier. Clients allocate odd ids, servers even ids.
pub type StreamId = u32;

/// Magnitude of a flow-control window or of a change to one.
pub type WindowSize = u32;

/// Largest flow-control window the protocol allows (2^31 - 1).
pub const MAX_WINDOW_SIZE: u32 = 0x7FFF_FFFF;

/// Largest stream identifier that can ever be allocated (2^31 - 1).
pub const MAX_STREAM_ID: u32 = 0x7FFF_FFFF;

/// Initial size of the connection-wide send window before any update.
pub const DEFAULT_INITIAL_WINDOW_SIZE: u32 = 65_535;

/// Floor for a stream window driven negative by a settings-induced shrink.
/// Mirrors the range of the wire-level signed 32-bit window representation.
pub const MIN_WINDOW_AVAILABLE: i64 = -0x8000_0000;

} // verus!
