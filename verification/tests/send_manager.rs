use sendflow::consts::MAX_WINDOW_SIZE;
use sendflow::counts::Counts;
use sendflow::errors::{Reason, RecvError, UserError};
use sendflow::frames;
use sendflow::frames::{Data, Frame, Headers, Settings};
use sendflow::send::{Config, Peer, Send};
use sendflow::state::State;
use sendflow::store::Store;
use sendflow::stream::Stream;
use sendflow::Async;

fn client(init: u32) -> Send {
    Send::new(Peer::Client, &Config { init_local_window_sz: init })
}

#[test]
fn open_ids_strictly_increase_and_stay_odd() {
    let mut send = client(65_535);
    let mut counts = Counts::new(10);
    let a = send.open(&mut counts).unwrap();
    let b = send.open(&mut counts).unwrap();
    let c = send.open(&mut counts).unwrap();
    assert_eq!(a, 1);
    assert_eq!(b, 3);
    assert_eq!(c, 5);
    assert!(a < b && b < c);
    assert_eq!(a % 2, 1);
    assert_eq!(b % 2, 1);
    assert_eq!(c % 2, 1);
}

#[test]
fn server_manager_starts_even_and_cannot_open() {
    let mut send = Send::new(Peer::Server, &Config { init_local_window_sz: 65_535 });
    assert_eq!(send.next_stream_id, 2);
    let mut counts = Counts::new(10);
    assert_eq!(send.open(&mut counts), Err(UserError::UnexpectedFrameType));
    assert_eq!(send.next_stream_id, 2);
    assert_eq!(counts.num_send_streams, 0);
}

#[test]
fn rejected_open_leaves_state_untouched() {
    let mut send = client(65_535);
    let mut counts = Counts::new(0);
    assert_eq!(send.open(&mut counts), Err(UserError::Rejected));
    assert_eq!(send.next_stream_id, 1);
    assert_eq!(counts.num_send_streams, 0);
}

#[test]
fn scenario_limit_one_reset_frees_slot() {
    let mut send = client(65_535);
    let mut counts = Counts::new(1);
    assert_eq!(send.open(&mut counts), Ok(1));
    assert_eq!(send.open(&mut counts), Err(UserError::Rejected));
    let mut stream = Stream::new(1, 65_535);
    send.send_reset(Reason::Cancel, &mut stream);
    assert_eq!(stream.state, State::Reset(Reason::Cancel));
    // The counts collaborator observes the reset and releases the slot.
    counts.dec_num_send_streams();
    assert_eq!(send.open(&mut counts), Ok(3));
}

#[test]
fn scenario_headers_then_trailers_releases_capacity() {
    let mut send = client(100);
    let mut counts = Counts::new(5);
    let id = send.open(&mut counts).unwrap();
    let mut stream = Stream::new(id, 100);
    let conn_before = send.prioritize.conn_flow.available();

    let headers = Headers { stream_id: id, end_stream: false };
    assert_eq!(send.send_headers(headers, &mut stream), Ok(()));
    assert_eq!(stream.state, State::Open);
    assert_eq!(stream.pending_send.len(), 1);
    assert_eq!(stream.pending_send[0], Frame::Headers(headers));

    let trailers = Headers { stream_id: id, end_stream: true };
    assert_eq!(send.send_trailers(trailers, &mut stream), Ok(()));
    assert_eq!(stream.state, State::HalfClosedLocal);
    assert_eq!(stream.pending_send.len(), 2);
    assert_eq!(stream.pending_send[1], Frame::Headers(trailers));
    // Reserve-to-zero released the stream's unused window to the connection.
    assert_eq!(stream.send_flow.available(), 0);
    assert_eq!(send.prioritize.conn_flow.available(), conn_before + 100);
}

#[test]
fn send_headers_twice_is_unexpected_frame_type() {
    let mut send = client(100);
    let mut stream = Stream::new(1, 100);
    let headers = Headers { stream_id: 1, end_stream: false };
    assert_eq!(send.send_headers(headers, &mut stream), Ok(()));
    assert_eq!(send.send_headers(headers, &mut stream), Err(UserError::UnexpectedFrameType));
    assert_eq!(stream.pending_send.len(), 1);
}

#[test]
fn send_trailers_needs_a_streaming_stream() {
    let mut send = client(100);
    let mut stream = Stream::new(1, 100);
    let trailers = Headers { stream_id: 1, end_stream: true };
    assert_eq!(send.send_trailers(trailers, &mut stream), Err(UserError::UnexpectedFrameType));
    assert_eq!(stream.state, State::Idle);
    assert_eq!(stream.pending_send.len(), 0);
}

#[test]
fn send_data_buffers_and_end_stream_closes() {
    let mut send = client(1_000);
    let mut stream = Stream::new(1, 1_000);
    let headers = Headers { stream_id: 1, end_stream: false };
    send.send_headers(headers, &mut stream).unwrap();

    let first = Data { stream_id: 1, len: 300, end_stream: false };
    assert_eq!(send.send_data(first, &mut stream), Ok(()));
    assert_eq!(stream.buffered_send_data, 300);
    assert_eq!(stream.state, State::Open);

    let last = Data { stream_id: 1, len: 200, end_stream: true };
    assert_eq!(send.send_data(last, &mut stream), Ok(()));
    assert_eq!(stream.buffered_send_data, 500);
    assert_eq!(stream.state, State::HalfClosedLocal);
    assert_eq!(stream.pending_send.len(), 3);

    let more = Data { stream_id: 1, len: 1, end_stream: false };
    assert_eq!(send.send_data(more, &mut stream), Err(UserError::UnexpectedFrameType));
}

#[test]
fn reset_is_idempotent() {
    let mut send = client(100);
    let mut stream = Stream::new(1, 100);
    let headers = Headers { stream_id: 1, end_stream: false };
    send.send_headers(headers, &mut stream).unwrap();

    send.send_reset(Reason::Cancel, &mut stream);
    let expected = Frame::Reset(frames::Reset { stream_id: 1, reason: Reason::Cancel });
    assert_eq!(stream.state, State::Reset(Reason::Cancel));
    assert_eq!(stream.pending_send.len(), 1);
    assert_eq!(stream.pending_send[0], expected);
    assert_eq!(stream.send_flow.available(), 0);
    let conn_after_first = send.prioritize.conn_flow.available();

    send.send_reset(Reason::ProtocolError, &mut stream);
    assert_eq!(stream.state, State::Reset(Reason::Cancel));
    assert_eq!(stream.pending_send.len(), 1);
    assert_eq!(stream.pending_send[0], expected);
    assert_eq!(send.prioritize.conn_flow.available(), conn_after_first);
}

#[test]
fn reset_on_closed_stream_with_empty_queue_is_a_no_op() {
    let mut send = client(100);
    let mut stream = Stream::new(1, 100);
    stream.state = State::Closed;
    let conn_before = send.prioritize.conn_flow.available();
    send.send_reset(Reason::Cancel, &mut stream);
    assert_eq!(stream.state, State::Closed);
    assert_eq!(stream.pending_send.len(), 0);
    assert_eq!(stream.send_flow.available(), 100);
    assert_eq!(send.prioritize.conn_flow.available(), conn_before);
}

#[test]
fn reset_reclaims_positive_credit_to_the_connection() {
    let mut send = client(500);
    let mut stream = Stream::new(1, 500);
    let headers = Headers { stream_id: 1, end_stream: false };
    send.send_headers(headers, &mut stream).unwrap();
    let conn_before = send.prioritize.conn_flow.available();
    send.send_reset(Reason::Cancel, &mut stream);
    assert_eq!(stream.send_flow.available(), 0);
    assert_eq!(send.prioritize.conn_flow.available(), conn_before + 500);
}

#[test]
fn ensure_not_idle_detects_unissued_ids() {
    let mut send = client(65_535);
    let mut counts = Counts::new(10);
    assert_eq!(send.ensure_not_idle(1), Err(Reason::ProtocolError));
    let id = send.open(&mut counts).unwrap();
    assert_eq!(send.ensure_not_idle(id), Ok(()));
    // Ids are judged by magnitude alone: anything below the next id passes.
    assert_eq!(send.ensure_not_idle(2), Ok(()));
    assert_eq!(send.ensure_not_idle(3), Err(Reason::ProtocolError));
    let id2 = send.open(&mut counts).unwrap();
    assert_eq!(send.ensure_not_idle(id2), Ok(()));
}

#[test]
fn poll_complete_drains_queues_in_store_order() {
    let mut send = client(100);
    let mut store = Store::new();
    let mut one = Stream::new(1, 100);
    let mut three = Stream::new(3, 100);
    let h1 = Headers { stream_id: 1, end_stream: false };
    let h3 = Headers { stream_id: 3, end_stream: false };
    let t1 = Headers { stream_id: 1, end_stream: true };
    send.send_headers(h1, &mut one).unwrap();
    send.send_trailers(t1, &mut one).unwrap();
    send.send_headers(h3, &mut three).unwrap();
    store.push(one);
    store.push(three);

    let frames = send.poll_complete(&mut store);
    assert_eq!(
        frames,
        vec![Frame::Headers(h1), Frame::Headers(t1), Frame::Headers(h3)]
    );
    assert_eq!(store.streams[0].pending_send.len(), 0);
    assert_eq!(store.streams[1].pending_send.len(), 0);

    // A second drain finds nothing left.
    assert_eq!(send.poll_complete(&mut store), vec![]);
}

#[test]
fn settings_with_no_window_field_changes_nothing() {
    let mut send = client(100);
    let mut store = Store::new();
    store.push(Stream::new(1, 100));
    let settings = Settings { initial_window_size: None };
    assert_eq!(send.apply_remote_settings(&settings, &mut store), Ok(()));
    assert_eq!(send.init_window_sz(), 100);
    assert_eq!(store.streams[0].send_flow.available(), 100);
}

#[test]
fn settings_grow_raises_every_tracked_window() {
    let mut send = client(100);
    let mut store = Store::new();
    store.push(Stream::new(1, 100));
    store.push(Stream::new(3, 40));
    let settings = Settings { initial_window_size: Some(130) };
    assert_eq!(send.apply_remote_settings(&settings, &mut store), Ok(()));
    assert_eq!(send.init_window_sz(), 130);
    assert_eq!(store.streams[0].send_flow.available(), 130);
    assert_eq!(store.streams[1].send_flow.available(), 70);
}

#[test]
fn settings_grow_overflow_resets_only_the_offending_stream() {
    let mut send = client(100);
    let mut store = Store::new();
    store.push(Stream::new(1, 50));
    store.push(Stream::new(3, MAX_WINDOW_SIZE));
    store.push(Stream::new(5, 70));
    let settings = Settings { initial_window_size: Some(110) };
    assert_eq!(
        send.apply_remote_settings(&settings, &mut store),
        Err(RecvError::Connection(Reason::FlowControlError))
    );
    assert_eq!(send.init_window_sz(), 110);
    // The stream before the violation keeps its new window.
    assert_eq!(store.streams[0].send_flow.available(), 60);
    // The offending stream was reset with a flow-control reason.
    assert_eq!(store.streams[1].state, State::Reset(Reason::FlowControlError));
    assert_eq!(
        store.streams[1].pending_send[0],
        Frame::Reset(frames::Reset { stream_id: 3, reason: Reason::FlowControlError })
    );
    // The stream after it is untouched.
    assert_eq!(store.streams[2].send_flow.available(), 70);
    assert_eq!(store.streams[2].state, State::Idle);
}

#[test]
fn poll_capacity_is_edge_consumed() {
    let mut send = client(200);
    let mut stream = Stream::new(1, 0);
    let headers = Headers { stream_id: 1, end_stream: false };
    send.send_headers(headers, &mut stream).unwrap();

    // No increase observed yet.
    assert!(matches!(send.poll_capacity(&mut stream), Ok(Async::NotReady)));

    // Two increases before a poll collapse into one notification.
    assert_eq!(send.recv_stream_window_update(30, &mut stream), Ok(()));
    assert_eq!(send.recv_stream_window_update(25, &mut stream), Ok(()));
    match send.poll_capacity(&mut stream) {
        Ok(Async::Ready(Some(w))) => assert_eq!(w, 55),
        _ => panic!("expected a capacity grant"),
    }
    assert!(matches!(send.poll_capacity(&mut stream), Ok(Async::NotReady)));
}

#[test]
fn poll_capacity_finished_stream_reports_none() {
    let mut send = client(100);
    let mut stream = Stream::new(1, 100);
    let headers = Headers { stream_id: 1, end_stream: true };
    send.send_headers(headers, &mut stream).unwrap();
    assert!(matches!(send.poll_capacity(&mut stream), Ok(Async::Ready(None))));
}

#[test]
fn reserve_capacity_pulls_from_the_connection_pool() {
    let mut send = client(10);
    let mut stream = Stream::new(1, 10);
    let headers = Headers { stream_id: 1, end_stream: false };
    send.send_headers(headers, &mut stream).unwrap();
    let conn_before = send.prioritize.conn_flow.available();

    send.reserve_capacity(50, &mut stream);
    assert_eq!(stream.send_flow.available(), 50);
    assert_eq!(send.prioritize.conn_flow.available(), conn_before - 40);
    assert!(stream.send_capacity_inc);
}

#[test]
fn reserve_capacity_releases_excess_to_the_connection_pool() {
    let mut send = client(100);
    let mut stream = Stream::new(1, 100);
    let conn_before = send.prioritize.conn_flow.available();
    send.reserve_capacity(30, &mut stream);
    assert_eq!(stream.send_flow.available(), 30);
    assert_eq!(send.prioritize.conn_flow.available(), conn_before + 70);
}
