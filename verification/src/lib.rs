//! Send-side stream and flow-control management for an HTTP/2-style
//! multiplexed connection.
//!
//! The [`send::Send`] manager owns the next-stream-id counter and the
//! negotiated initial window size, validates every outbound frame against the
//! stream's send-half state, and keeps per-stream and connection-wide
//! flow-control windows consistent, including mid-flight renegotiation of the
//! initial window size that may drive stream windows negative.

use vstd::prelude::*;

pub mod consts;
pub mod counts;
pub mod errors;
pub mod flow;
pub mod frames;
pub mod prioritize;
pub mod send;
pub mod state;
pub mod store;
pub mod stream;

verus! {

/// Outcome of a non-blocking poll: either a value is ready now, or the caller
/// must try again once progress is possible.
pub enum Async<T> {
    Ready(T),
    NotReady,
}

/// A non-blocking poll that can also fail with a typed error.
pub type Poll<T, E> = Result<Async<T>, E>;

} // verus!
