//! The send half of the stream lifecycle: idle until HEADERS are sent, open
//! while DATA may follow, half-closed once the local side is done, and reset
//! or closed terminally.

use vstd::prelude::*;
use crate::errors::{Reason, UserError};

verus! {

/// Send-half state of one stream.
#[derive(Clone, Copy, Debug, PartialEq, Eq, Structural)]
pub enum State {
    /// No HEADERS sent yet.
    Idle,
    /// HEADERS sent without END_STREAM; DATA and trailers may follow.
    Open,
    /// The local side finished sending; the peer may still send.
    HalfClosedLocal,
    /// Both halves are done.
    Closed,
    /// The stream was torn down with the recorded reason.
    Reset(Reason),
}

impl State {
    /// Drive the send half forward for an outgoing HEADERS frame. Only an
    /// idle stream may open; `end_stream` closes the send half immediately.
    pub fn send_open(&mut self, end_stream: bool) -> (r: Result<(), UserError>)
        ensures
            *old(self) is Idle ==> {
                &&& r is Ok
                &&& *final(self) == (if end_stream { State::HalfClosedLocal } else { State::Open })
            },
            !(*old(self) is Idle) ==> {
                &&& r == Err::<(), UserError>(UserError::UnexpectedFrameType)
                &&& *final(self) == *old(self)
            },
    {
        match *self {
            State::Idle => {
                if end_stream {
                    *self = State::HalfClosedLocal;
                } else {
                    *self = State::Open;
                }
                Ok(())
            }
            _ => Err(UserError::UnexpectedFrameType),
        }
    }

    /// Close the send half of an actively streaming stream.
    pub fn send_close(&mut self)
        requires
            *old(self) is Open,
        ensures
            *final(self) == State::HalfClosedLocal,
    {
        *self = State::HalfClosedLocal;
    }

    /// Record a reset, whatever the previous state.
    pub fn set_reset(&mut self, reason: Reason)
        ensures
            *final(self) == State::Reset(reason),
    {
        *self = State::Reset(reason);
    }

    /// Whether the stream was reset.
    pub fn is_reset(&self) -> (r: bool)
        ensures
            r == (*self is Reset),
    {
        match *self {
            State::Reset(_) => true,
            _ => false,
        }
    }

    /// Whether both halves are done.
    pub fn is_closed(&self) -> (r: bool)
        ensures
            r == (*self is Closed),
    {
        match *self {
            State::Closed => true,
            _ => false,
        }
    }

    /// Whether the send half is open for DATA and trailers.
    pub fn is_send_streaming(&self) -> (r: bool)
        ensures
            r == (*self is Open),
    {
        match *self {
            State::Open => true,
            _ => false,
        }
    }
}

} // verus!
