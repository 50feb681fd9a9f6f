//! The registry of streams this connection tracks, in insertion order.

use vstd::prelude::*;
use crate::stream::Stream;

verus! {

/// All tracked streams; settings sweeps walk them in insertion order.
#[derive(Debug)]
pub struct Store {
    /// The tracked streams.
    pub streams: Vec<Stream>,
}

impl Store {
    /// Every tracked stream is well formed.
    pub open spec fn wf(&self) -> bool {
        forall|i: int| 0 <= i < self.streams@.len() ==> #[trigger] self.streams@[i].wf()
    }

    /// An empty registry.
    pub fn new() -> (r: Store)
        ensures
            r.wf(),
            r.streams@.len() == 0,
    {
        Store { streams: Vec::new() }
    }

    /// Track one more stream.
    pub fn push(&mut self, stream: Stream)
        requires
            old(self).wf(),
            stream.wf(),
        ensures
            final(self).wf(),
            final(self).streams@ == old(self).streams@.push(stream),
    {
        self.streams.push(stream);
        proof {
            assert forall|i: int| 0 <= i < self.streams@.len() implies #[trigger] self.streams@[i].wf() by {
                if i < old(self).streams@.len() {
                    assert(old(self).streams@[i].wf());
                }
            }
        }
    }

    /// How many streams are tracked.
    pub fn len(&self) -> (r: usize)
        ensures
            r == self.streams@.len(),
    {
        self.streams.len()
    }
}

} // verus!
