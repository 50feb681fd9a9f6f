//! Error taxonomy: caller-misuse errors stay local to the call, protocol
//! violations surface as a `Reason` code for the connection driver.

use vstd::prelude::*;

verus! {

/// A protocol-level error code carried by RST_STREAM or reported to the
/// connection driver.
#[derive(Clone, Copy, Debug, PartialEq, Eq, Structural)]
pub enum Reason {
    ProtocolError,
    FlowControlError,
    Cancel,
}

/// An error caused by local caller misuse; it never affects other streams or
/// the connection.
#[derive(Clone, Copy, Debug, PartialEq, Eq, Structural)]
pub enum UserError {
    /// The concurrent-stream budget is exhausted.
    Rejected,
    /// The frame is illegal for the current role or stream state.
    UnexpectedFrameType,
}

/// An error raised while applying input received from the peer.
#[derive(Clone, Copy, Debug, PartialEq, Eq, Structural)]
pub enum RecvError {
    /// A connection-level violation; the driver decides whether to terminate.
    Connection(Reason),
}

} // verus!
