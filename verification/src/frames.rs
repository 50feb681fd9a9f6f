//! Frame objects as this core sees them: only the fields its decisions read.
//! Byte-level encoding and HPACK belong to the codec, not here, so a DATA
//! payload is represented by its flow-controlled length alone.

use vstd::prelude::*;
use crate::consts::{StreamId, WindowSize};
use crate::errors::Reason;

verus! {

/// A HEADERS frame (also used for trailers).
#[derive(Clone, Copy, Debug, PartialEq, Eq, Structural)]
pub struct Headers {
    pub stream_id: StreamId,
    pub end_stream: bool,
}

impl Headers {
    /// Whether this frame also closes the send half of its stream.
    pub fn is_end_stream(&self) -> (r: bool)
        ensures
            r == self.end_stream,
    {
        self.end_stream
    }
}

/// A DATA frame; `len` is the flow-controlled size of its payload.
#[derive(Clone, Copy, Debug, PartialEq, Eq, Structural)]
pub struct Data {
    pub stream_id: StreamId,
    pub len: WindowSize,
    pub end_stream: bool,
}

/// A RST_STREAM frame.
#[derive(Clone, Copy, Debug, PartialEq, Eq, Structural)]
pub struct Reset {
    pub stream_id: StreamId,
    pub reason: Reason,
}

/// A WINDOW_UPDATE frame received from the peer.
#[derive(Clone, Copy, Debug, PartialEq, Eq, Structural)]
pub struct WindowUpdate {
    pub stream_id: StreamId,
    pub size_increment: WindowSize,
}

impl WindowUpdate {
    /// The credit the peer grants.
    pub fn size_increment(&self) -> (r: WindowSize)
        ensures
            r == self.size_increment,
    {
        self.size_increment
    }
}

/// The slice of a peer SETTINGS frame this core consumes.
#[derive(Clone, Copy, Debug, PartialEq, Eq, Structural)]
pub struct Settings {
    pub initial_window_size: Option<WindowSize>,
}

impl Settings {
    /// The newly advertised `SETTINGS_INITIAL_WINDOW_SIZE`, if the frame
    /// carried one.
    pub fn initial_window_size(&self) -> (r: Option<WindowSize>)
        ensures
            r == self.initial_window_size,
    {
        self.initial_window_size
    }
}

/// An outbound frame queued for the write scheduler.
#[derive(Clone, Copy, Debug, PartialEq, Eq, Structural)]
pub enum Frame {
    Headers(Headers),
    Data(Data),
    Reset(Reset),
}

} // verus!
