//! One tracked stream record: identity, send-half state, send window,
//! buffered byte count, the capacity-increase signal, and the outbound queue.

use vstd::prelude::*;
use crate::consts::{StreamId, WindowSize, MAX_WINDOW_SIZE};
use crate::flow::FlowControl;
use crate::frames::Frame;
use crate::state::State;

verus! {

/// A stream as the send manager sees it.
#[derive(Debug)]
pub struct Stream {
    /// This stream's identifier.
    pub id: StreamId,
    /// Send-half lifecycle state.
    pub state: State,
    /// This stream's available send window; may go negative.
    pub send_flow: FlowControl,
    /// Bytes queued for sending but not yet flushed; subtracted from the
    /// window so capacity is never granted twice.
    pub buffered_send_data: WindowSize,
    /// Set when capacity grew since the last `poll_capacity` observation,
    /// cleared when that observation consumes it.
    pub send_capacity_inc: bool,
    /// Outbound frames queued for this stream, oldest first.
    pub pending_send: Vec<Frame>,
}

impl Stream {
    /// The window stays in range and the buffered count never exceeds the
    /// largest window the protocol can grant.
    pub open spec fn wf(&self) -> bool {
        &&& self.send_flow.wf()
        &&& self.buffered_send_data <= MAX_WINDOW_SIZE
    }

    /// Usable send capacity: available window minus already-buffered bytes,
    /// floored at zero.
    pub open spec fn spec_capacity(&self) -> int {
        let diff = self.send_flow.spec_available() - self.buffered_send_data as int;
        if diff > 0 {
            diff
        } else {
            0
        }
    }

    /// All fields except the queue agree; used where only frames moved.
    pub open spec fn same_except_queue(&self, other: &Stream) -> bool {
        &&& self.id == other.id
        &&& self.state == other.state
        &&& self.send_flow == other.send_flow
        &&& self.buffered_send_data == other.buffered_send_data
        &&& self.send_capacity_inc == other.send_capacity_inc
    }

    /// A fresh idle stream whose window holds the negotiated initial size.
    pub fn new(id: StreamId, init_window_sz: WindowSize) -> (r: Stream)
        requires
            init_window_sz <= MAX_WINDOW_SIZE,
        ensures
            r.wf(),
            r.id == id,
            r.state == State::Idle,
            r.send_flow.spec_available() == init_window_sz as int,
            r.buffered_send_data == 0,
            r.send_capacity_inc == false,
            r.pending_send@ == Seq::<Frame>::empty(),
    {
        Stream {
            id,
            state: State::Idle,
            send_flow: FlowControl::new(init_window_sz),
            buffered_send_data: 0,
            send_capacity_inc: false,
            pending_send: Vec::new(),
        }
    }
}

} // verus!
