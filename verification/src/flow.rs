//! A signed flow-control credit counter, used once per stream and once for
//! the whole connection.

use vstd::prelude::*;
use crate::consts::{WindowSize, MAX_WINDOW_SIZE, MIN_WINDOW_AVAILABLE};
use crate::errors::Reason;

verus! {

/// `x` capped at the largest window the protocol allows.
pub open spec fn clip_window(x: int) -> int {
    if x > MAX_WINDOW_SIZE as int {
        MAX_WINDOW_SIZE as int
    } else {
        x
    }
}

/// Available send credit. The balance may go negative after the peer shrinks
/// the initial window mid-flight; it never exceeds [`MAX_WINDOW_SIZE`].
#[derive(Clone, Copy, Debug)]
pub struct FlowControl {
    avail: i64,
}

impl FlowControl {
    /// The credit currently available, as a mathematical integer.
    pub closed spec fn spec_available(&self) -> int {
        self.avail as int
    }

    /// The balance stays inside the signed 32-bit window range.
    pub open spec fn wf(&self) -> bool {
        MIN_WINDOW_AVAILABLE as int <= self.spec_available() <= MAX_WINDOW_SIZE as int
    }

    /// A fresh window holding `sz` credit.
    pub fn new(sz: WindowSize) -> (r: FlowControl)
        requires
            sz <= MAX_WINDOW_SIZE,
        ensures
            r.wf(),
            r.spec_available() == sz as int,
    {
        FlowControl { avail: sz as i64 }
    }

    /// Current balance; may be negative.
    pub fn available(&self) -> (r: i64)
        ensures
            r as int == self.spec_available(),
    {
        self.avail
    }

    /// Add credit granted by a WINDOW_UPDATE, rejecting growth past the
    /// protocol maximum without touching the balance.
    pub fn inc_window(&mut self, sz: WindowSize) -> (r: Result<(), Reason>)
        requires
            old(self).wf(),
        ensures
            final(self).wf(),
            old(self).spec_available() + sz as int <= MAX_WINDOW_SIZE as int ==> {
                &&& r is Ok
                &&& final(self).spec_available() == old(self).spec_available() + sz as int
            },
            old(self).spec_available() + sz as int > MAX_WINDOW_SIZE as int ==> {
                &&& r == Err::<(), Reason>(Reason::FlowControlError)
                &&& *final(self) == *old(self)
            },
    {
        if self.avail + sz as i64 > MAX_WINDOW_SIZE as i64 {
            Err(Reason::FlowControlError)
        } else {
            self.avail = self.avail + sz as i64;
            Ok(())
        }
    }

    /// Remove credit when the negotiated initial window shrinks; the balance
    /// may go negative and is never clamped.
    pub fn dec_window(&mut self, sz: WindowSize)
        requires
            old(self).wf(),
            old(self).spec_available() - sz as int >= MIN_WINDOW_AVAILABLE as int,
        ensures
            final(self).wf(),
            final(self).spec_available() == old(self).spec_available() - sz as int,
    {
        self.avail = self.avail - sz as i64;
    }

    /// Take `sz` of the credit that is actually present, returning it to the
    /// caller's pool.
    pub fn claim_capacity(&mut self, sz: WindowSize)
        requires
            old(self).wf(),
            sz as int <= old(self).spec_available(),
        ensures
            final(self).wf(),
            final(self).spec_available() == old(self).spec_available() - sz as int,
    {
        self.avail = self.avail - sz as i64;
    }

    /// Return reclaimed credit to this pool, capping at the protocol maximum
    /// as the window-increment policy prescribes.
    pub fn assign_capacity_capped(&mut self, sz: WindowSize)
        requires
            old(self).wf(),
        ensures
            final(self).wf(),
            final(self).spec_available() == clip_window(old(self).spec_available() + sz as int),
    {
        if self.avail + sz as i64 > MAX_WINDOW_SIZE as i64 {
            self.avail = MAX_WINDOW_SIZE as i64;
        } else {
            self.avail = self.avail + sz as i64;
        }
    }

    /// Grant `sz` credit taken from the caller's pool.
    pub fn assign_capacity(&mut self, sz: WindowSize)
        requires
            old(self).wf(),
            old(self).spec_available() + sz as int <= MAX_WINDOW_SIZE as int,
        ensures
            final(self).wf(),
            final(self).spec_available() == old(self).spec_available() + sz as int,
    {
        self.avail = self.avail + sz as i64;
    }
}

} // verus!
