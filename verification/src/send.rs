//! The send manager: owns the next-stream-id counter and the negotiated
//! initial window size, validates every outbound frame against the stream's
//! send-half state, and drives the scheduling layer.

use vstd::prelude::*;
use crate::consts::{
    StreamId, WindowSize, MAX_STREAM_ID, MAX_WINDOW_SIZE, MIN_WINDOW_AVAILABLE,
};
use crate::counts::Counts;
use crate::errors::{Reason, RecvError, UserError};
use crate::flow::clip_window;
use crate::frames;
use crate::frames::{Data, Frame, Headers, Settings, WindowUpdate};
use crate::prioritize::{
    conn_take, drained_frames, reserve_conn_avail, reserve_stream_avail, Prioritize,
};
use crate::state::State;
use crate::store::Store;
use crate::stream::Stream;
use crate::{Async, Poll};

verus! {

/// Which side of the connection this endpoint plays.
#[derive(Clone, Copy, Debug, PartialEq, Eq, Structural)]
pub enum Peer {
    Client,
    Server,
}

/// Configuration consumed at construction.
#[derive(Clone, Copy, Debug)]
pub struct Config {
    /// Initial window size for locally initiated streams.
    pub init_local_window_sz: WindowSize,
}

/// A reset takes effect unless the stream is already reset, or already
/// closed with nothing left in its queue.
pub open spec fn reset_applies(s: Stream) -> bool {
    &&& !(s.state is Reset)
    &&& !(s.state is Closed && s.pending_send@.len() == 0)
}

/// Stream window after its credit is reclaimed by a reset: positive credit
/// is taken back in full, a negative balance stays as it is.
pub open spec fn stream_avail_after_reset(avail: int) -> int {
    if avail > 0 {
        0
    } else {
        avail
    }
}

/// Connection window after a reset reclaimed `avail` from the stream.
pub open spec fn conn_avail_after_reset(avail: int, conn: int) -> int {
    if avail > 0 {
        clip_window(conn + avail)
    } else {
        conn
    }
}

/// The stream after an effective reset: state records the reason, the queue
/// holds exactly the RST_STREAM frame, the window gave up its positive
/// credit, and the rest is untouched.
pub open spec fn reset_post(pre: Stream, post: Stream, reason: Reason) -> bool {
    &&& post.id == pre.id
    &&& post.state == State::Reset(reason)
    &&& post.pending_send@ == seq![Frame::Reset(frames::Reset { stream_id: pre.id, reason })]
    &&& post.send_flow.spec_available() == stream_avail_after_reset(pre.send_flow.spec_available())
    &&& post.buffered_send_data == pre.buffered_send_data
    &&& post.send_capacity_inc == pre.send_capacity_inc
}

/// A stream after a settings-driven shrink of `dec`: only the window moved,
/// and it moved by exactly `dec`, negative results included.
pub open spec fn shrunk_post(pre: Stream, post: Stream, dec: int) -> bool {
    &&& post.id == pre.id
    &&& post.state == pre.state
    &&& post.send_flow.spec_available() == pre.send_flow.spec_available() - dec
    &&& post.buffered_send_data == pre.buffered_send_data
    &&& post.send_capacity_inc == pre.send_capacity_inc
    &&& post.pending_send@ == pre.pending_send@
}

/// Whether a stream's window can absorb a grow of `inc` without passing the
/// protocol maximum.
pub open spec fn grow_fits(s: Stream, inc: int) -> bool {
    s.send_flow.spec_available() + inc <= MAX_WINDOW_SIZE as int
}

/// A stream after a window grown by `inc` took effect: the capacity-increase
/// signal is raised exactly when usable capacity strictly grew.
pub open spec fn grown_post(pre: Stream, post: Stream, inc: int) -> bool {
    &&& post.id == pre.id
    &&& post.state == pre.state
    &&& post.send_flow.spec_available() == pre.send_flow.spec_available() + inc
    &&& post.buffered_send_data == pre.buffered_send_data
    &&& post.send_capacity_inc == (pre.send_capacity_inc || (inc > 0
        && pre.send_flow.spec_available() + inc > pre.buffered_send_data as int))
    &&& post.pending_send@ == pre.pending_send@
}

/// Manages state transitions related to outbound frames.
#[derive(Debug)]
pub struct Send {
    /// Stream identifier to use for the next locally initiated stream.
    pub next_stream_id: StreamId,
    /// Initial window size most recently negotiated for new streams.
    pub init_window_sz: WindowSize,
    /// The local role; only clients open streams through this path.
    pub peer: Peer,
    /// The write-scheduling layer.
    pub prioritize: Prioritize,
}

impl Send {
    /// The id counter keeps the role's parity and stays in range, the
    /// negotiated window is a legal window, and the scheduler is well formed.
    pub open spec fn wf(&self) -> bool {
        &&& (self.peer is Server ==> self.next_stream_id % 2 == 0 && self.next_stream_id >= 2)
        &&& (self.peer is Client ==> self.next_stream_id % 2 == 1)
        &&& self.next_stream_id <= MAX_STREAM_ID as int + 2
        &&& self.init_window_sz <= MAX_WINDOW_SIZE
        &&& self.prioritize.wf()
    }

    /// The identity fields no operation but `open` and a settings sweep may
    /// touch.
    pub open spec fn same_identity(&self, other: &Send) -> bool {
        &&& self.next_stream_id == other.next_stream_id
        &&& self.init_window_sz == other.init_window_sz
        &&& self.peer == other.peer
    }

    /// A fresh manager: the first stream id is 1 for a client and 2 for a
    /// server, and the initial window comes from configuration.
    pub fn new(peer: Peer, config: &Config) -> (r: Send)
        requires
            config.init_local_window_sz <= MAX_WINDOW_SIZE,
        ensures
            r.wf(),
            r.next_stream_id == (if peer is Server { 2 as StreamId } else { 1 as StreamId }),
            r.init_window_sz == config.init_local_window_sz,
            r.peer == peer,
            r.prioritize.spec_conn_available()
                == crate::consts::DEFAULT_INITIAL_WINDOW_SIZE as int,
    {
        let next_stream_id: StreamId = match peer {
            Peer::Server => 2,
            Peer::Client => 1,
        };
        Send { next_stream_id, init_window_sz: config.init_local_window_sz, peer, prioritize: Prioritize::new() }
    }

    /// The initial send window size most recently negotiated.
    pub fn init_window_sz(&self) -> (r: WindowSize)
        ensures
            r == self.init_window_sz,
    {
        self.init_window_sz
    }

    /// Whether the local actor may initiate a stream: servers must reserve
    /// via push promises instead.
    fn ensure_can_open(&self) -> (r: Result<(), UserError>)
        ensures
            self.peer is Server ==> r == Err::<(), UserError>(UserError::UnexpectedFrameType),
            self.peer is Client ==> r is Ok,
    {
        match self.peer {
            Peer::Server => Err(UserError::UnexpectedFrameType),
            Peer::Client => Ok(()),
        }
    }

    /// Reserve an identifier and a concurrency slot for a locally initiated
    /// stream. A rejected open leaves the id counter and the counts exactly
    /// as they were; a successful one returns the current id and advances
    /// the counter by the protocol's id step.
    pub fn open(&mut self, counts: &mut Counts) -> (r: Result<StreamId, UserError>)
        requires
            old(self).wf(),
            old(self).next_stream_id <= MAX_STREAM_ID,
        ensures
            final(self).wf(),
            final(self).init_window_sz == old(self).init_window_sz,
            final(self).peer == old(self).peer,
            final(self).prioritize == old(self).prioritize,
            final(self).next_stream_id >= old(self).next_stream_id,
            final(counts).max_send_streams == old(counts).max_send_streams,
            old(self).peer is Server ==> {
                &&& r == Err::<StreamId, UserError>(UserError::UnexpectedFrameType)
                &&& *final(self) == *old(self)
                &&& *final(counts) == *old(counts)
            },
            old(self).peer is Client && old(counts).num_send_streams >= old(
                counts,
            ).max_send_streams ==> {
                &&& r == Err::<StreamId, UserError>(UserError::Rejected)
                &&& *final(self) == *old(self)
                &&& *final(counts) == *old(counts)
            },
            old(self).peer is Client && old(counts).num_send_streams < old(
                counts,
            ).max_send_streams ==> {
                &&& r == Ok::<StreamId, UserError>(old(self).next_stream_id)
                &&& final(self).next_stream_id == old(self).next_stream_id + 2
                &&& final(counts).num_send_streams == old(counts).num_send_streams + 1
            },
    {
        if let Err(e) = self.ensure_can_open() {
            return Err(e);
        }
        if !counts.can_inc_num_send_streams() {
            return Err(UserError::Rejected);
        }
        let ret = self.next_stream_id;
        self.next_stream_id = self.next_stream_id + 2;
        counts.inc_num_send_streams();
        Ok(ret)
    }

    /// Emit HEADERS: drives the stream's send half through its opening
    /// transition and queues the frame; an illegal state rejects the frame
    /// and changes nothing.
    pub fn send_headers(&mut self, frame: Headers, stream: &mut Stream) -> (r: Result<
        (),
        UserError,
    >)
        ensures
            *final(self) == *old(self),
            old(stream).state is Idle ==> {
                &&& r is Ok
                &&& final(stream).state == (if frame.end_stream {
                    State::HalfClosedLocal
                } else {
                    State::Open
                })
                &&& final(stream).pending_send@ == old(stream).pending_send@.push(
                    Frame::Headers(frame),
                )
                &&& final(stream).id == old(stream).id
                &&& final(stream).send_flow == old(stream).send_flow
                &&& final(stream).buffered_send_data == old(stream).buffered_send_data
                &&& final(stream).send_capacity_inc == old(stream).send_capacity_inc
            },
            !(old(stream).state is Idle) ==> {
                &&& r == Err::<(), UserError>(UserError::UnexpectedFrameType)
                &&& *final(stream) == *old(stream)
            },
    {
        let end_stream = frame.is_end_stream();
        if let Err(e) = stream.state.send_open(end_stream) {
            return Err(e);
        }
        self.prioritize.queue_frame(Frame::Headers(frame), stream);
        Ok(())
    }

    /// Reset the stream's send half. Idempotent: a stream already reset, or
    /// already closed with an empty queue, is left untouched. Otherwise the
    /// queue is cleared, remaining positive credit is reclaimed to the
    /// connection pool, and the RST_STREAM frame is queued before the
    /// reclaimed credit is reassigned.
    pub fn send_reset(&mut self, reason: Reason, stream: &mut Stream)
        requires
            old(self).wf(),
            old(stream).wf(),
        ensures
            final(self).wf(),
            final(self).same_identity(old(self)),
            !reset_applies(*old(stream)) ==> {
                &&& *final(stream) == *old(stream)
                &&& *final(self) == *old(self)
            },
            reset_applies(*old(stream)) ==> {
                &&& reset_post(*old(stream), *final(stream), reason)
                &&& final(stream).wf()
                &&& final(self).prioritize.spec_conn_available() == conn_avail_after_reset(
                    old(stream).send_flow.spec_available(),
                    old(self).prioritize.spec_conn_available(),
                )
            },
    {
        if stream.state.is_reset() {
            return;
        }
        if stream.state.is_closed() && stream.pending_send.len() == 0 {
            return;
        }

        stream.state.set_reset(reason);
        self.prioritize.clear_queue(stream);

        let available = stream.send_flow.available();
        let reclaimed: WindowSize = if available > 0 {
            available as WindowSize
        } else {
            0
        };
        if reclaimed > 0 {
            stream.send_flow.claim_capacity(reclaimed);
        }

        let frame = frames::Reset { stream_id: stream.id, reason };
        self.prioritize.queue_frame(Frame::Reset(frame), stream);

        if reclaimed > 0 {
            self.prioritize.assign_connection_capacity(reclaimed);
        }

        proof {
            assert(final(stream).pending_send@ =~= seq![
                Frame::Reset(frames::Reset { stream_id: old(stream).id, reason }),
            ]);
        }
    }

    /// Emit DATA: routed to the scheduling layer, which owns the byte-budget
    /// bookkeeping for data frames.
    pub fn send_data(&mut self, frame: Data, stream: &mut Stream) -> (r: Result<(), UserError>)
        requires
            old(stream).wf(),
            old(stream).state is Open ==> frame.len + old(stream).buffered_send_data
                <= MAX_WINDOW_SIZE,
        ensures
            *final(self) == *old(self),
            !(old(stream).state is Open) ==> {
                &&& r == Err::<(), UserError>(UserError::UnexpectedFrameType)
                &&& *final(stream) == *old(stream)
            },
            old(stream).state is Open ==> {
                &&& r is Ok
                &&& final(stream).wf()
                &&& final(stream).buffered_send_data == old(stream).buffered_send_data + frame.len
                &&& final(stream).pending_send@ == old(stream).pending_send@.push(
                    Frame::Data(frame),
                )
                &&& final(stream).state == (if frame.end_stream {
                    State::HalfClosedLocal
                } else {
                    State::Open
                })
                &&& final(stream).send_flow == old(stream).send_flow
                &&& final(stream).send_capacity_inc == old(stream).send_capacity_inc
                &&& final(stream).id == old(stream).id
            },
    {
        self.prioritize.send_data(frame, stream)
    }

    /// Emit trailers: legal only while the stream is actively streaming.
    /// Closes the send half, queues the frame, then releases any
    /// reserved-but-unused capacity back to the pool, since no DATA can
    /// follow trailers.
    pub fn send_trailers(&mut self, frame: Headers, stream: &mut Stream) -> (r: Result<
        (),
        UserError,
    >)
        requires
            old(self).wf(),
            old(stream).wf(),
        ensures
            final(self).wf(),
            final(self).same_identity(old(self)),
            !(old(stream).state is Open) ==> {
                &&& r == Err::<(), UserError>(UserError::UnexpectedFrameType)
                &&& *final(stream) == *old(stream)
                &&& *final(self) == *old(self)
            },
            old(stream).state is Open ==> {
                let avail = old(stream).send_flow.spec_available();
                let buffered = old(stream).buffered_send_data as int;
                let conn = old(self).prioritize.spec_conn_available();
                &&& r is Ok
                &&& final(stream).wf()
                &&& final(stream).state == State::HalfClosedLocal
                &&& final(stream).pending_send@ == old(stream).pending_send@.push(
                    Frame::Headers(frame),
                )
                &&& final(stream).send_flow.spec_available() == reserve_stream_avail(
                    avail,
                    buffered,
                    conn,
                )
                &&& final(self).prioritize.spec_conn_available() == reserve_conn_avail(
                    avail,
                    buffered,
                    conn,
                )
                &&& final(stream).send_capacity_inc == old(stream).send_capacity_inc
                &&& final(stream).buffered_send_data == old(stream).buffered_send_data
                &&& final(stream).id == old(stream).id
            },
    {
        if !stream.state.is_send_streaming() {
            return Err(UserError::UnexpectedFrameType);
        }

        stream.state.send_close();
        self.prioritize.queue_frame(Frame::Headers(frame), stream);
        self.prioritize.reserve_capacity(0, stream);
        Ok(())
    }

    /// Drain every stream's queue in store order and hand back the frames in
    /// the order they would reach the wire.
    pub fn poll_complete(&mut self, store: &mut Store) -> (r: Vec<Frame>)
        ensures
            *final(self) == *old(self),
            r@ == drained_frames(old(store).streams@),
            final(store).streams@.len() == old(store).streams@.len(),
            forall|i: int|
                0 <= i < old(store).streams@.len() ==> {
                    &&& (#[trigger] final(store).streams@[i]).pending_send@
                        == Seq::<Frame>::empty()
                    &&& final(store).streams@[i].same_except_queue(&old(store).streams@[i])
                },
            old(store).wf() ==> final(store).wf(),
    {
        self.prioritize.poll_complete(store)
    }

    /// Request capacity for future DATA frames on this stream.
    pub fn reserve_capacity(&mut self, capacity: WindowSize, stream: &mut Stream)
        requires
            old(self).wf(),
            old(stream).wf(),
            capacity + old(stream).buffered_send_data <= MAX_WINDOW_SIZE,
        ensures
            final(self).wf(),
            final(self).same_identity(old(self)),
            final(stream).wf(),
            ({
                let avail = old(stream).send_flow.spec_available();
                let target = old(stream).buffered_send_data as int + capacity as int;
                let conn = old(self).prioritize.spec_conn_available();
                &&& final(stream).send_flow.spec_available() == reserve_stream_avail(
                    avail,
                    target,
                    conn,
                )
                &&& final(self).prioritize.spec_conn_available() == reserve_conn_avail(
                    avail,
                    target,
                    conn,
                )
                &&& final(stream).send_capacity_inc == (old(stream).send_capacity_inc || (avail
                    < target && conn_take(conn, target - avail) > 0 && avail + conn_take(
                    conn,
                    target - avail,
                ) > old(stream).buffered_send_data as int))
            }),
            final(stream).id == old(stream).id,
            final(stream).state == old(stream).state,
            final(stream).buffered_send_data == old(stream).buffered_send_data,
            final(stream).pending_send@ == old(stream).pending_send@,
    {
        self.prioritize.reserve_capacity(capacity, stream)
    }

    /// Single-shot, non-blocking capacity check: once the stream is no
    /// longer streaming no capacity will ever be granted again; otherwise a
    /// capacity increase is consumed exactly once and reported as the
    /// current computed capacity.
    pub fn poll_capacity(&mut self, stream: &mut Stream) -> (r: Poll<Option<WindowSize>, UserError>)
        requires
            old(stream).wf(),
        ensures
            *final(self) == *old(self),
            !(old(stream).state is Open) ==> {
                &&& r == Ok::<Async<Option<WindowSize>>, UserError>(Async::Ready(None))
                &&& *final(stream) == *old(stream)
            },
            old(stream).state is Open && !old(stream).send_capacity_inc ==> {
                &&& r == Ok::<Async<Option<WindowSize>>, UserError>(Async::NotReady)
                &&& *final(stream) == *old(stream)
            },
            old(stream).state is Open && old(stream).send_capacity_inc ==> {
                &&& r == Ok::<Async<Option<WindowSize>>, UserError>(
                    Async::Ready(Some(old(stream).spec_capacity() as WindowSize)),
                )
                &&& final(stream).send_capacity_inc == false
                &&& final(stream).id == old(stream).id
                &&& final(stream).state == old(stream).state
                &&& final(stream).send_flow == old(stream).send_flow
                &&& final(stream).buffered_send_data == old(stream).buffered_send_data
                &&& final(stream).pending_send@ == old(stream).pending_send@
            },
    {
        if !stream.state.is_send_streaming() {
            return Ok(Async::Ready(None));
        }
        if !stream.send_capacity_inc {
            return Ok(Async::NotReady);
        }
        stream.send_capacity_inc = false;
        Ok(Async::Ready(Some(self.capacity(stream))))
    }

    /// Current usable send capacity: available window minus buffered bytes,
    /// never negative even when the underlying window is.
    pub fn capacity(&self, stream: &Stream) -> (r: WindowSize)
        requires
            stream.wf(),
        ensures
            r as int == stream.spec_capacity(),
    {
        let available = stream.send_flow.available();
        let buffered = stream.buffered_send_data as i64;
        if available <= buffered {
            0
        } else {
            (available - buffered) as WindowSize
        }
    }

    /// Apply a connection-level WINDOW_UPDATE; overflow past the protocol
    /// maximum surfaces as a connection-level flow-control error.
    pub fn recv_connection_window_update(&mut self, frame: WindowUpdate) -> (r: Result<(), Reason>)
        requires
            old(self).wf(),
        ensures
            final(self).wf(),
            final(self).same_identity(old(self)),
            old(self).prioritize.spec_conn_available() + frame.size_increment as int
                <= MAX_WINDOW_SIZE as int ==> {
                &&& r is Ok
                &&& final(self).prioritize.spec_conn_available() == old(
                    self,
                ).prioritize.spec_conn_available() + frame.size_increment as int
            },
            old(self).prioritize.spec_conn_available() + frame.size_increment as int
                > MAX_WINDOW_SIZE as int ==> {
                &&& r == Err::<(), Reason>(Reason::FlowControlError)
                &&& *final(self) == *old(self)
            },
    {
        self.prioritize.recv_connection_window_update(frame.size_increment())
    }

    /// Apply a stream-level WINDOW_UPDATE. A flow-control violation resets
    /// the offending stream with `FlowControlError` before the error is
    /// returned, so the caller never needs to reset separately.
    pub fn recv_stream_window_update(&mut self, sz: WindowSize, stream: &mut Stream) -> (r: Result<
        (),
        Reason,
    >)
        requires
            old(self).wf(),
            old(stream).wf(),
        ensures
            final(self).wf(),
            final(self).same_identity(old(self)),
            old(stream).send_flow.spec_available() + sz as int <= MAX_WINDOW_SIZE as int ==> {
                &&& r is Ok
                &&& *final(self) == *old(self)
                &&& final(stream).wf()
                &&& grown_post(*old(stream), *final(stream), sz as int)
            },
            old(stream).send_flow.spec_available() + sz as int > MAX_WINDOW_SIZE as int ==> {
                &&& r == Err::<(), Reason>(Reason::FlowControlError)
                &&& (reset_applies(*old(stream)) ==> {
                    &&& reset_post(*old(stream), *final(stream), Reason::FlowControlError)
                    &&& final(stream).wf()
                    &&& final(self).prioritize.spec_conn_available() == conn_avail_after_reset(
                        old(stream).send_flow.spec_available(),
                        old(self).prioritize.spec_conn_available(),
                    )
                })
                &&& (!reset_applies(*old(stream)) ==> {
                    &&& *final(stream) == *old(stream)
                    &&& *final(self) == *old(self)
                })
            },
    {
        match self.prioritize.recv_stream_window_update(sz, stream) {
            Ok(()) => Ok(()),
            Err(e) => {
                self.send_reset(Reason::FlowControlError, stream);
                Err(e)
            }
        }
    }

    /// Apply a peer SETTINGS change to the initial window size: record the
    /// new value, then adjust every tracked stream's window by the
    /// difference. A shrink may drive windows negative and never fails; a
    /// grow runs the stream window-update path per stream, stopping at the
    /// first flow-control violation after resetting the offending stream,
    /// with streams already processed keeping their new windows.
    pub fn apply_remote_settings(&mut self, settings: &Settings, store: &mut Store) -> (r: Result<
        (),
        RecvError,
    >)
        requires
            old(self).wf(),
            old(store).wf(),
            settings.initial_window_size matches Some(v) ==> v <= MAX_WINDOW_SIZE,
            settings.initial_window_size matches Some(v) ==> v < old(self).init_window_sz
                ==> forall|i: int|
                0 <= i < old(store).streams@.len() ==> (#[trigger] old(
                    store,
                ).streams@[i]).send_flow.spec_available() - (old(self).init_window_sz - v)
                    >= MIN_WINDOW_AVAILABLE as int,
        ensures
            final(self).wf(),
            final(store).wf(),
            final(self).next_stream_id == old(self).next_stream_id,
            final(self).peer == old(self).peer,
            settings.initial_window_size is None ==> {
                &&& r is Ok
                &&& *final(self) == *old(self)
                &&& *final(store) == *old(store)
            },
            settings.initial_window_size matches Some(v) ==> final(self).init_window_sz == v,
            settings.initial_window_size matches Some(v) ==> v == old(self).init_window_sz ==> {
                &&& r is Ok
                &&& *final(self) == *old(self)
                &&& *final(store) == *old(store)
            },
            settings.initial_window_size matches Some(v) ==> v < old(self).init_window_sz ==> {
                let dec = old(self).init_window_sz - v;
                &&& r is Ok
                &&& final(self).prioritize == old(self).prioritize
                &&& final(store).streams@.len() == old(store).streams@.len()
                &&& forall|i: int|
                    0 <= i < old(store).streams@.len() ==> shrunk_post(
                        old(store).streams@[i],
                        #[trigger] final(store).streams@[i],
                        dec as int,
                    )
            },
            settings.initial_window_size matches Some(v) ==> v > old(self).init_window_sz ==> {
                let inc = v - old(self).init_window_sz;
                &&& final(store).streams@.len() == old(store).streams@.len()
                &&& (forall|j: int|
                    0 <= j < old(store).streams@.len() ==> grow_fits(
                        #[trigger] old(store).streams@[j],
                        inc as int,
                    )) ==> {
                    &&& r is Ok
                    &&& final(self).prioritize == old(self).prioritize
                    &&& forall|i: int|
                        0 <= i < old(store).streams@.len() ==> grown_post(
                            old(store).streams@[i],
                            #[trigger] final(store).streams@[i],
                            inc as int,
                        )
                }
                &&& !(forall|j: int|
                    0 <= j < old(store).streams@.len() ==> grow_fits(
                        #[trigger] old(store).streams@[j],
                        inc as int,
                    )) ==> {
                    &&& r == Err::<(), RecvError>(
                        RecvError::Connection(Reason::FlowControlError),
                    )
                    &&& forall|k: int|
                        #![trigger old(store).streams@[k]]
                        0 <= k < old(store).streams@.len() && !grow_fits(
                            old(store).streams@[k],
                            inc as int,
                        ) && (forall|j: int|
                            0 <= j < k ==> grow_fits(
                                #[trigger] old(store).streams@[j],
                                inc as int,
                            )) ==> {
                            &&& forall|j: int|
                                0 <= j < k ==> grown_post(
                                    old(store).streams@[j],
                                    #[trigger] final(store).streams@[j],
                                    inc as int,
                                )
                            &&& (reset_applies(old(store).streams@[k]) ==> {
                                &&& reset_post(
                                    old(store).streams@[k],
                                    final(store).streams@[k],
                                    Reason::FlowControlError,
                                )
                                &&& final(self).prioritize.spec_conn_available()
                                    == conn_avail_after_reset(
                                    old(store).streams@[k].send_flow.spec_available(),
                                    old(self).prioritize.spec_conn_available(),
                                )
                            })
                            &&& (!reset_applies(old(store).streams@[k]) ==> {
                                &&& final(store).streams@[k] == old(store).streams@[k]
                                &&& final(self).prioritize == old(self).prioritize
                            })
                            &&& forall|j: int|
                                k < j < old(store).streams@.len()
                                    ==> #[trigger] final(store).streams@[j] == old(
                                    store,
                                ).streams@[j]
                        }
                }
            },
    {
        let val = match settings.initial_window_size() {
            Some(v) => v,
            None => {
                return Ok(());
            }
        };
        let old_val = self.init_window_sz;
        self.init_window_sz = val;

        if val < old_val {
            let dec = old_val - val;
            let mut i: usize = 0;
            while i < store.streams.len()
                invariant
                    i <= store.streams@.len(),
                    store.streams@.len() == old(store).streams@.len(),
                    settings.initial_window_size == Some(val),
                    dec == old(self).init_window_sz - val,
                    self.next_stream_id == old(self).next_stream_id,
                    self.init_window_sz == val,
                    self.peer == old(self).peer,
                    self.prioritize == old(self).prioritize,
                    self.wf(),
                    forall|j: int|
                        0 <= j < old(store).streams@.len() ==> (#[trigger] old(
                            store,
                        ).streams@[j]).wf(),
                    forall|j: int|
                        0 <= j < old(store).streams@.len() ==> (#[trigger] old(
                            store,
                        ).streams@[j]).send_flow.spec_available() - dec as int
                            >= MIN_WINDOW_AVAILABLE as int,
                    forall|j: int|
                        0 <= j < i ==> shrunk_post(
                            old(store).streams@[j],
                            #[trigger] store.streams@[j],
                            dec as int,
                        ),
                    forall|j: int|
                        0 <= j < i ==> (#[trigger] store.streams@[j]).wf(),
                    forall|j: int|
                        i <= j < store.streams@.len() ==> #[trigger] store.streams@[j] == old(
                            store,
                        ).streams@[j],
                decreases store.streams@.len() - i,
            {
                let s = &mut store.streams[i];
                s.send_flow.dec_window(dec);
                i = i + 1;
            }
            Ok(())
        } else if val > old_val {
            let inc = val - old_val;
            let mut i: usize = 0;
            while i < store.streams.len()
                invariant
                    i <= store.streams@.len(),
                    store.streams@.len() == old(store).streams@.len(),
                    settings.initial_window_size == Some(val),
                    inc == val - old(self).init_window_sz,
                    val > old(self).init_window_sz,
                    self.next_stream_id == old(self).next_stream_id,
                    self.init_window_sz == val,
                    self.peer == old(self).peer,
                    self.prioritize == old(self).prioritize,
                    self.wf(),
                    val <= MAX_WINDOW_SIZE,
                    forall|j: int|
                        0 <= j < old(store).streams@.len() ==> (#[trigger] old(
                            store,
                        ).streams@[j]).wf(),
                    forall|j: int|
                        0 <= j < i ==> grow_fits(#[trigger] old(store).streams@[j], inc as int),
                    forall|j: int|
                        0 <= j < i ==> grown_post(
                            old(store).streams@[j],
                            #[trigger] store.streams@[j],
                            inc as int,
                        ),
                    forall|j: int|
                        0 <= j < i ==> (#[trigger] store.streams@[j]).wf(),
                    forall|j: int|
                        i <= j < store.streams@.len() ==> #[trigger] store.streams@[j] == old(
                            store,
                        ).streams@[j],
                decreases store.streams@.len() - i,
            {
                let s = &mut store.streams[i];
                match self.recv_stream_window_update(inc, s) {
                    Ok(()) => {}
                    Err(reason) => {
                        proof {
                            let ghost k0 = i as int;
                            assert(!grow_fits(old(store).streams@[k0], inc as int));
                            assert forall|k: int|
                                0 <= k < old(store).streams@.len() && !grow_fits(
                                    old(store).streams@[k],
                                    inc as int,
                                ) && (forall|j: int|
                                    0 <= j < k ==> grow_fits(
                                        #[trigger] old(store).streams@[j],
                                        inc as int,
                                    )) implies k == k0 by {
                                if k < k0 {
                                    assert(grow_fits(old(store).streams@[k], inc as int));
                                } else if k > k0 {
                                    assert(grow_fits(old(store).streams@[k0], inc as int));
                                }
                            }
                        }
                        return Err(RecvError::Connection(reason));
                    }
                }
                i = i + 1;
            }
            Ok(())
        } else {
            Ok(())
        }
    }

    /// A peer id at or past the next unallocated local id was never issued
    /// by this side, so it is still idle and a protocol error to reference.
    pub fn ensure_not_idle(&self, id: StreamId) -> (r: Result<(), Reason>)
        ensures
            id >= self.next_stream_id ==> r == Err::<(), Reason>(Reason::ProtocolError),
            id < self.next_stream_id ==> r is Ok,
    {
        if id >= self.next_stream_id {
            return Err(Reason::ProtocolError);
        }
        Ok(())
    }
}

/// Reset idempotence: once a reset has taken effect, no further reset
/// applies, so `send_reset`'s contract leaves the stream, its queue and the
/// reclaimed capacity exactly as the first effective call left them.
pub proof fn lemma_reset_idempotent(pre: Stream, post: Stream, reason: Reason)
    requires
        reset_post(pre, post, reason),
    ensures
        !reset_applies(post),
{
}

/// Idle-id detection: an id handed out by a successful `open` stays below
/// the id counter ever after, since no operation decreases it, so
/// `ensure_not_idle` accepts every previously issued id.
pub proof fn lemma_issued_id_never_idle(pre: Send, id: StreamId, cur: Send)
    requires
        id == pre.next_stream_id,
        cur.next_stream_id >= pre.next_stream_id + 2,
    ensures
        id < cur.next_stream_id,
{
}

/// Stream-id monotonicity: ids handed out by successive successful `open`
/// calls strictly increase, are never reused, and keep the role's parity —
/// odd for a client, even for a server. The hypotheses are exactly what
/// `open`'s contract gives for two successful calls with any operations
/// between them, since no operation ever decreases the id counter.
pub proof fn lemma_open_ids_monotonic(
    pre1: Send,
    post1: Send,
    id1: StreamId,
    pre2: Send,
    id2: StreamId,
)
    requires
        pre1.wf(),
        id1 == pre1.next_stream_id,
        post1.next_stream_id == id1 + 2,
        pre2.wf(),
        pre2.peer == pre1.peer,
        pre2.next_stream_id >= post1.next_stream_id,
        id2 == pre2.next_stream_id,
    ensures
        id2 > id1,
        id2 != id1,
        id1 % 2 == id2 % 2,
        pre1.peer is Client ==> id1 % 2 == 1,
        pre1.peer is Server ==> id1 % 2 == 0,
{
}

} // verus!
