//! The concurrent-stream budget: how many locally initiated streams are in
//! flight and how many the peer allows.

use vstd::prelude::*;

verus! {

/// Tracks locally initiated send streams against the peer's limit.
#[derive(Clone, Copy, Debug)]
pub struct Counts {
    /// Greatest number of concurrent send streams the peer allows.
    pub max_send_streams: u32,
    /// Send streams currently counted as in flight.
    pub num_send_streams: u32,
}

impl Counts {
    /// A fresh budget with no stream in flight.
    pub fn new(max_send_streams: u32) -> (r: Counts)
        ensures
            r.max_send_streams == max_send_streams,
            r.num_send_streams == 0,
    {
        Counts { max_send_streams, num_send_streams: 0 }
    }

    /// Whether one more send stream fits under the limit.
    pub fn can_inc_num_send_streams(&self) -> (r: bool)
        ensures
            r == (self.num_send_streams < self.max_send_streams),
    {
        self.num_send_streams < self.max_send_streams
    }

    /// Count one more stream; callers check the budget first.
    pub fn inc_num_send_streams(&mut self)
        requires
            old(self).num_send_streams < old(self).max_send_streams,
        ensures
            final(self).num_send_streams == old(self).num_send_streams + 1,
            final(self).max_send_streams == old(self).max_send_streams,
    {
        self.num_send_streams = self.num_send_streams + 1;
    }

    /// Release the slot of a stream that finished or was reset.
    pub fn dec_num_send_streams(&mut self)
        requires
            old(self).num_send_streams > 0,
        ensures
            final(self).num_send_streams == old(self).num_send_streams - 1,
            final(self).max_send_streams == old(self).max_send_streams,
    {
        self.num_send_streams = self.num_send_streams - 1;
    }
}

} // verus!
