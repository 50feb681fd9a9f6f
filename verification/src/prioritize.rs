//! The write-scheduling collaborator: owns the connection-wide send window
//! and the mechanics of queueing frames and moving capacity between the
//! connection pool and individual streams. The send manager makes the
//! state-machine decisions; this layer only executes them.

use vstd::prelude::*;
use crate::consts::{WindowSize, DEFAULT_INITIAL_WINDOW_SIZE, MAX_WINDOW_SIZE};
use crate::errors::{Reason, UserError};
use crate::flow::{clip_window, FlowControl};
use crate::frames::{Data, Frame};
use crate::state::State;
use crate::store::Store;
use crate::stream::Stream;

verus! {

/// Credit actually takeable from a connection pool holding `conn` toward a
/// demand of `need`: never more than is present, never negative.
pub open spec fn conn_take(conn: int, need: int) -> int {
    if conn <= 0 {
        0
    } else if conn < need {
        conn
    } else {
        need
    }
}

/// Stream window after a reservation of total target `target` (buffered plus
/// requested) against a stream window `avail` and connection pool `conn`:
/// excess above the target is released, a shortfall is covered from the pool
/// as far as the pool goes.
pub open spec fn reserve_stream_avail(avail: int, target: int, conn: int) -> int {
    if avail >= target {
        target
    } else {
        avail + conn_take(conn, target - avail)
    }
}

/// Connection pool after the same reservation.
pub open spec fn reserve_conn_avail(avail: int, target: int, conn: int) -> int {
    if avail >= target {
        clip_window(conn + (avail - target))
    } else {
        conn - conn_take(conn, target - avail)
    }
}

/// Frames flushed by draining every stream's queue in store order.
pub open spec fn drained_frames(streams: Seq<Stream>) -> Seq<Frame>
    decreases streams.len(),
{
    if streams.len() == 0 {
        Seq::<Frame>::empty()
    } else {
        drained_frames(streams.drop_last()) + streams.last().pending_send@
    }
}

/// The scheduling layer. Per-stream windows live on the stream records; the
/// connection-wide window lives here.
#[derive(Debug)]
pub struct Prioritize {
    /// The connection-wide send window.
    pub conn_flow: FlowControl,
}

impl Prioritize {
    /// The connection window is in range.
    pub open spec fn wf(&self) -> bool {
        self.conn_flow.wf()
    }

    /// Connection credit currently available.
    pub open spec fn spec_conn_available(&self) -> int {
        self.conn_flow.spec_available()
    }

    /// A fresh scheduler whose connection window holds the protocol default.
    pub fn new() -> (r: Prioritize)
        ensures
            r.wf(),
            r.spec_conn_available() == DEFAULT_INITIAL_WINDOW_SIZE as int,
    {
        Prioritize { conn_flow: FlowControl::new(DEFAULT_INITIAL_WINDOW_SIZE) }
    }

    /// Append a frame to the stream's outbound queue.
    pub fn queue_frame(&mut self, frame: Frame, stream: &mut Stream)
        ensures
            *final(self) == *old(self),
            final(stream).pending_send@ == old(stream).pending_send@.push(frame),
            final(stream).same_except_queue(old(stream)),
    {
        stream.pending_send.push(frame);
    }

    /// Drop every frame still queued for the stream.
    pub fn clear_queue(&mut self, stream: &mut Stream)
        ensures
            *final(self) == *old(self),
            final(stream).pending_send@ == Seq::<Frame>::empty(),
            final(stream).same_except_queue(old(stream)),
    {
        stream.pending_send.clear();
    }

    /// Return reclaimed credit to the connection pool, capped at the
    /// protocol maximum.
    pub fn assign_connection_capacity(&mut self, amount: WindowSize)
        requires
            old(self).wf(),
        ensures
            final(self).wf(),
            final(self).spec_conn_available() == clip_window(
                old(self).spec_conn_available() + amount as int,
            ),
    {
        self.conn_flow.assign_capacity_capped(amount);
    }

    /// Reconcile the stream's window with a request for `capacity` bytes
    /// beyond what is already buffered: release any excess back to the
    /// connection pool, or pull a shortfall from it as far as it goes,
    /// flagging the stream when its usable capacity grew.
    pub fn reserve_capacity(&mut self, capacity: WindowSize, stream: &mut Stream)
        requires
            old(self).wf(),
            old(stream).wf(),
            capacity + old(stream).buffered_send_data <= MAX_WINDOW_SIZE,
        ensures
            final(self).wf(),
            final(stream).wf(),
            ({
                let avail = old(stream).send_flow.spec_available();
                let target = old(stream).buffered_send_data as int + capacity as int;
                let conn = old(self).spec_conn_available();
                &&& final(stream).send_flow.spec_available() == reserve_stream_avail(
                    avail,
                    target,
                    conn,
                )
                &&& final(self).spec_conn_available() == reserve_conn_avail(avail, target, conn)
                &&& final(stream).send_capacity_inc == (old(stream).send_capacity_inc || (avail
                    < target && conn_take(conn, target - avail) > 0 && avail + conn_take(
                    conn,
                    target - avail,
                ) > old(stream).buffered_send_data as int))
            }),
            final(stream).id == old(stream).id,
            final(stream).state == old(stream).state,
            final(stream).buffered_send_data == old(stream).buffered_send_data,
            final(stream).pending_send@ == old(stream).pending_send@,
    {
        let avail = stream.send_flow.available();
        let target = stream.buffered_send_data as i64 + capacity as i64;
        if avail >= target {
            let release = (avail - target) as u32;
            stream.send_flow.claim_capacity(release);
            self.conn_flow.assign_capacity_capped(release);
        } else {
            let need = target - avail;
            let conn_avail = self.conn_flow.available();
            let take = if conn_avail <= 0 {
                0
            } else if conn_avail < need {
                conn_avail
            } else {
                need
            };
            if take > 0 {
                self.conn_flow.claim_capacity(take as u32);
                stream.send_flow.assign_capacity(take as u32);
                if stream.send_flow.available() > stream.buffered_send_data as i64 {
                    stream.send_capacity_inc = true;
                }
            }
        }
    }

    /// Account a DATA frame: the stream must be actively streaming; its
    /// payload length joins the buffered count, the frame joins the queue,
    /// and END_STREAM closes the send half.
    pub fn send_data(&mut self, frame: Data, stream: &mut Stream) -> (r: Result<(), UserError>)
        requires
            old(stream).wf(),
            old(stream).state is Open ==> frame.len + old(stream).buffered_send_data
                <= MAX_WINDOW_SIZE,
        ensures
            *final(self) == *old(self),
            !(old(stream).state is Open) ==> {
                &&& r == Err::<(), UserError>(UserError::UnexpectedFrameType)
                &&& *final(stream) == *old(stream)
            },
            old(stream).state is Open ==> {
                &&& r is Ok
                &&& final(stream).wf()
                &&& final(stream).buffered_send_data == old(stream).buffered_send_data + frame.len
                &&& final(stream).pending_send@ == old(stream).pending_send@.push(
                    Frame::Data(frame),
                )
                &&& final(stream).state == (if frame.end_stream {
                    State::HalfClosedLocal
                } else {
                    State::Open
                })
                &&& final(stream).send_flow == old(stream).send_flow
                &&& final(stream).send_capacity_inc == old(stream).send_capacity_inc
                &&& final(stream).id == old(stream).id
            },
    {
        if !stream.state.is_send_streaming() {
            return Err(UserError::UnexpectedFrameType);
        }
        stream.buffered_send_data = stream.buffered_send_data + frame.len;
        if frame.end_stream {
            stream.state.send_close();
        }
        stream.pending_send.push(Frame::Data(frame));
        Ok(())
    }

    /// Apply a connection-level WINDOW_UPDATE; growth past the protocol
    /// maximum is a flow-control violation and leaves the window untouched.
    pub fn recv_connection_window_update(&mut self, inc: WindowSize) -> (r: Result<(), Reason>)
        requires
            old(self).wf(),
        ensures
            final(self).wf(),
            old(self).spec_conn_available() + inc as int <= MAX_WINDOW_SIZE as int ==> {
                &&& r is Ok
                &&& final(self).spec_conn_available() == old(self).spec_conn_available()
                    + inc as int
            },
            old(self).spec_conn_available() + inc as int > MAX_WINDOW_SIZE as int ==> {
                &&& r == Err::<(), Reason>(Reason::FlowControlError)
                &&& *final(self) == *old(self)
            },
    {
        self.conn_flow.inc_window(inc)
    }

    /// Apply a stream-level WINDOW_UPDATE to the stream's own window,
    /// raising the capacity-increase signal exactly when usable capacity
    /// strictly grew. Growth past the protocol maximum fails and changes
    /// nothing.
    pub fn recv_stream_window_update(&mut self, sz: WindowSize, stream: &mut Stream) -> (r: Result<
        (),
        Reason,
    >)
        requires
            old(stream).wf(),
        ensures
            *final(self) == *old(self),
            old(stream).send_flow.spec_available() + sz as int <= MAX_WINDOW_SIZE as int ==> {
                &&& r is Ok
                &&& final(stream).wf()
                &&& final(stream).send_flow.spec_available() == old(
                    stream,
                ).send_flow.spec_available() + sz as int
                &&& final(stream).send_capacity_inc == (old(stream).send_capacity_inc || (sz > 0
                    && old(stream).send_flow.spec_available() + sz as int > old(
                    stream,
                ).buffered_send_data as int))
                &&& final(stream).id == old(stream).id
                &&& final(stream).state == old(stream).state
                &&& final(stream).buffered_send_data == old(stream).buffered_send_data
                &&& final(stream).pending_send@ == old(stream).pending_send@
            },
            old(stream).send_flow.spec_available() + sz as int > MAX_WINDOW_SIZE as int ==> {
                &&& r == Err::<(), Reason>(Reason::FlowControlError)
                &&& *final(stream) == *old(stream)
            },
    {
        match stream.send_flow.inc_window(sz) {
            Ok(()) => {
                if sz > 0 && stream.send_flow.available() > stream.buffered_send_data as i64 {
                    stream.send_capacity_inc = true;
                }
                Ok(())
            }
            Err(reason) => Err(reason),
        }
    }

    /// Drain every stream's queue in store order and hand the frames back in
    /// the order they would reach the wire.
    pub fn poll_complete(&mut self, store: &mut Store) -> (r: Vec<Frame>)
        ensures
            *final(self) == *old(self),
            r@ == drained_frames(old(store).streams@),
            final(store).streams@.len() == old(store).streams@.len(),
            forall|i: int|
                0 <= i < old(store).streams@.len() ==> {
                    &&& (#[trigger] final(store).streams@[i]).pending_send@
                        == Seq::<Frame>::empty()
                    &&& final(store).streams@[i].same_except_queue(&old(store).streams@[i])
                },
            old(store).wf() ==> final(store).wf(),
    {
        let ghost orig = store.streams@;
        let mut out: Vec<Frame> = Vec::new();
        let mut i: usize = 0;
        while i < store.streams.len()
            invariant
                i <= store.streams@.len(),
                store.streams@.len() == orig.len(),
                out@ == drained_frames(orig.take(i as int)),
                forall|j: int|
                    0 <= j < i ==> {
                        &&& (#[trigger] store.streams@[j]).pending_send@ == Seq::<Frame>::empty()
                        &&& store.streams@[j].same_except_queue(&orig[j])
                    },
                forall|j: int| i <= j < orig.len() ==> #[trigger] store.streams@[j] == orig[j],
            decreases store.streams@.len() - i,
        {
            let s = &mut store.streams[i];
            let mut j: usize = 0;
            while j < s.pending_send.len()
                invariant
                    j <= s.pending_send@.len(),
                    *s == orig[i as int],
                    i < orig.len(),
                    out@ == drained_frames(orig.take(i as int)) + s.pending_send@.take(j as int),
                decreases s.pending_send@.len() - j,
            {
                out.push(s.pending_send[j]);
                proof {
                    assert(s.pending_send@.take(j + 1 as int) == s.pending_send@.take(
                        j as int,
                    ).push(s.pending_send@[j as int]));
                }
                j = j + 1;
            }
            proof {
                assert(s.pending_send@.take(j as int) == s.pending_send@);
            }
            s.pending_send.clear();
            proof {
                assert(orig.take(i + 1 as int).drop_last() == orig.take(i as int));
                assert(orig.take(i + 1 as int).last() == orig[i as int]);
                assert(drained_frames(orig.take(i + 1 as int)) == drained_frames(
                    orig.take(i as int),
                ) + orig[i as int].pending_send@);
            }
            i = i + 1;
        }
        proof {
            assert(orig.take(orig.len() as int) == orig);
            if old(store).wf() {
                assert forall|k: int| 0 <= k < store.streams@.len() implies (
                #[trigger] store.streams@[k]).wf() by {
                    assert(orig[k].wf());
                    assert(store.streams@[k].same_except_queue(&orig[k]));
                }
            }
        }
        out
    }
}

} // verus!
