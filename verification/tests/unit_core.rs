use tokio_quic::buffer::ReadBuffer;
use tokio_quic::config::MAX_DATAGRAM_SIZE;
use tokio_quic::connection::Incoming;
use tokio_quic::connection::QuicConnection;
use tokio_quic::connection::StreamMap;
use tokio_quic::connection::ToClient;
use tokio_quic::connection::ToServer;
use tokio_quic::driver::close_send_failure_notice;
use tokio_quic::driver::plan_outbound;
use tokio_quic::driver::DriverState;
use tokio_quic::driver::StreamSendCall;
use tokio_quic::handshake::handshake_step;
use tokio_quic::handshake::HandshakeStep;
use tokio_quic::send_state::SendCall;
use tokio_quic::send_state::SendEvent;
use tokio_quic::send_state::SendOutcome;
use tokio_quic::send_state::SendState;
use tokio_quic::send_state::fatal_close_reason;
use tokio_quic::stream::BidiStream;
use tokio_quic::stream::ReadHalf;
use tokio_quic::stream::ReadOutcome;
use tokio_quic::stream::ReadStep;
use tokio_quic::stream::RecvEvent;
use tokio_quic::stream::UncheckedQuicStream;
use tokio_quic::stream_id::bidi_stream_id;
use tokio_quic::stream_id::uni_stream_id;
use tokio_quic::timer::Timer;
use tokio_quic::stream::TryWrite;
use tokio_quic::Error;
use tokio_quic::Message;

#[test]
fn bidi_ids_carry_role_and_direction() {
    assert_eq!(bidi_stream_id(1, false), 0b100);
    assert_eq!(bidi_stream_id(1, true), 0b101);
    assert_eq!(uni_stream_id(0, false), 0b10);
    assert_eq!(uni_stream_id(0, true), 0b11);
    assert_eq!(bidi_stream_id(7, false), 28);
}

#[test]
fn distinct_slots_never_collide() {
    for a in 0u64..8 {
        for b in 0u64..8 {
            if a != b {
                assert_ne!(bidi_stream_id(a, false), bidi_stream_id(b, false));
                assert_ne!(uni_stream_id(a, true), uni_stream_id(b, true));
            }
            assert_ne!(bidi_stream_id(a, false), uni_stream_id(b, false));
        }
    }
}

#[test]
fn reused_slot_yields_id_already_taken() {
    let mut conn: QuicConnection<ToServer> = QuicConnection::new();
    let first = conn.bidi(7);
    assert!(first.is_ok());
    assert_eq!(first.unwrap().id(), 28);
    match conn.bidi(7) {
        Err(Error::IdAlreadyTaken(id)) => assert_eq!(id, (7 << 2) | 0),
        _ => panic!("second open of slot 7 must fail with the formed id"),
    }
}

#[test]
fn concurrent_slots_open_independently() {
    let mut conn: QuicConnection<ToServer> = QuicConnection::new();
    let one = conn.bidi(1).unwrap();
    let two = conn.bidi(2).unwrap();
    assert_eq!(one.id(), 1 << 2);
    assert_eq!(two.id(), 2 << 2);
    let uni = conn.uni(1).unwrap();
    assert_eq!(uni.id(), (1 << 2) | 0b10);
}

#[test]
fn incoming_classification_has_correct_low_bits() {
    // Server side: a client-initiated uni stream (low bits 0b10) reads only.
    let mut server: QuicConnection<ToClient> = QuicConnection::new();
    match server.incoming(Some(UncheckedQuicStream { id: 0b10 })) {
        Some(Incoming::Uni(s)) => assert_eq!(s.id() & 0b11, 0b10),
        _ => panic!("client uni must surface readable-uni at the server"),
    }
    match server.incoming(Some(UncheckedQuicStream { id: 0b00 })) {
        Some(Incoming::Bidi(s)) => assert_eq!(s.id(), 0),
        _ => panic!("client bidi must surface bidi at the server"),
    }
    // Client side: a server-initiated uni stream (low bits 0b11) reads only.
    let mut client: QuicConnection<ToServer> = QuicConnection::new();
    match client.incoming(Some(UncheckedQuicStream { id: 0b111 })) {
        Some(Incoming::Uni(s)) => assert_eq!(s.id() & 0b11, 0b11),
        _ => panic!("server uni must surface readable-uni at the client"),
    }
    assert!(client.incoming(None).is_none());
}

#[test]
fn read_buffer_serves_in_order_and_compacts() {
    let mut buf = ReadBuffer::new();
    assert_eq!(buf.len(), 0);
    buf.push(&[1, 2, 3, 4, 5]);
    assert_eq!(buf.take(2), vec![1, 2]);
    assert_eq!(buf.len(), 3);
    assert_eq!(buf.take(10), vec![3, 4, 5]);
    assert_eq!(buf.len(), 0);
    assert_eq!(buf.take(4), Vec::<u8>::new());
}

#[test]
fn reader_observes_writes_in_order() {
    let mut read = ReadHalf::new(4);
    let out = read.poll_read_event(
        RecvEvent::Item(Ok(Message::Data { stream_id: 4, bytes: vec![10, 11], fin: false })),
        1,
    );
    match out {
        ReadOutcome::Read(bytes) => assert_eq!(bytes, vec![10]),
        _ => panic!("data must be served"),
    }
    let out = read.poll_read_event(
        RecvEvent::Item(Ok(Message::Data { stream_id: 4, bytes: vec![12], fin: true })),
        8,
    );
    match out {
        ReadOutcome::Read(bytes) => assert_eq!(bytes, vec![11, 12]),
        _ => panic!("buffered and new bytes must be served in order"),
    }
}

#[test]
fn try_read_drains_queued_messages_in_order() {
    let mut stream = BidiStream::new(4);
    let events = vec![
        Ok(Message::Data { stream_id: 4, bytes: vec![1, 2], fin: false }),
        Ok(Message::Close(4)),
        Ok(Message::Data { stream_id: 4, bytes: vec![3], fin: true }),
    ];
    assert_eq!(stream.try_read(events, 2), Ok(vec![1, 2]));
    assert_eq!(stream.try_read(Vec::new(), 8), Ok(vec![3]));
    assert_eq!(stream.try_read(Vec::new(), 8), Ok(Vec::new()));
}

#[test]
fn try_read_stops_at_the_first_error() {
    let mut stream = BidiStream::new(4);
    let events = vec![
        Ok(Message::Data { stream_id: 4, bytes: vec![1], fin: false }),
        Err(Error::Engine(String::from("reset"))),
        Ok(Message::Data { stream_id: 4, bytes: vec![2], fin: false }),
    ];
    assert_eq!(
        stream.try_read(events, 8),
        Err(Error::Engine(String::from("reset")))
    );
    // What was drained before the error stays readable.
    assert_eq!(stream.try_read(Vec::new(), 8), Ok(vec![1]));
}

#[test]
fn try_write_reports_full_length() {
    let mut stream = BidiStream::new(6);
    let (msg, n) = stream.try_write(vec![1, 2, 3]);
    assert_eq!(n, 3);
    assert_eq!(
        msg,
        Message::Data { stream_id: 6, bytes: vec![1, 2, 3], fin: false }
    );
    let mut uni = conn_uni();
    let (msg, n) = uni.try_write(vec![9]);
    assert_eq!(n, 1);
    assert_eq!(
        msg,
        Message::Data { stream_id: (1 << 2) | 0b10, bytes: vec![9], fin: false }
    );
}

fn conn_uni() -> tokio_quic::stream::UniStream<tokio_quic::stream::Writeable> {
    let mut conn: QuicConnection<ToServer> = QuicConnection::new();
    conn.uni(1).unwrap()
}

#[test]
fn closed_stream_reads_zero_then_broken_pipe() {
    let mut read = ReadHalf::new(4);
    assert!(matches!(read.poll_read_ready(8), ReadStep::AwaitEvent));
    match read.poll_read_event(RecvEvent::Item(Ok(Message::Close(4))), 8) {
        ReadOutcome::Read(bytes) => assert!(bytes.is_empty()),
        _ => panic!("a close is a zero read this round"),
    }
    match read.poll_read_ready(8) {
        ReadStep::BrokenPipe => {}
        _ => panic!("a drained closed stream is a broken pipe"),
    }
    match read.poll_read_event(RecvEvent::ChannelClosed, 8) {
        ReadOutcome::BrokenPipe => {}
        _ => panic!("a closed queue is a broken pipe too"),
    }
}

#[test]
fn fin_serves_buffered_bytes_then_broken_pipe() {
    let mut read = ReadHalf::new(4);
    // A FIN arrives with bytes still unserved: they are served first, the
    // broken pipe comes only once the buffer drains.
    match read.poll_read_event(
        RecvEvent::Item(Ok(Message::Data { stream_id: 4, bytes: vec![1, 2, 3], fin: true })),
        2,
    ) {
        ReadOutcome::Read(bytes) => assert_eq!(bytes, vec![1, 2]),
        _ => panic!("data before the FIN is served"),
    }
    match read.poll_read_ready(8) {
        ReadStep::Serve(bytes) => assert_eq!(bytes, vec![3]),
        _ => panic!("the rest of the buffer is served before the end"),
    }
    match read.poll_read_ready(8) {
        ReadStep::BrokenPipe => {}
        _ => panic!("the drained FIN ends the stream"),
    }
}

#[test]
fn stream_errors_surface_to_the_reader() {
    let mut read = ReadHalf::new(4);
    match read.poll_read_event(
        RecvEvent::Item(Err(Error::Engine(String::from("bad frame")))),
        8,
    ) {
        ReadOutcome::Failed(Error::Engine(msg)) => assert_eq!(msg, "bad frame"),
        _ => panic!("an engine error must surface"),
    }
}

#[test]
fn echo_round_trip_model() {
    // Thirteen known bytes travel client writer -> driver -> server reader,
    // and the echo travels back unchanged.
    let payload: Vec<u8> = b"thirteen-byte".to_vec();
    assert_eq!(payload.len(), 13);

    let mut client = BidiStream::new(bidi_stream_id(1, false));
    let (msg, reported) = client.poll_write(payload.clone());
    assert_eq!(reported, 13);
    let call = plan_outbound(msg);
    assert_eq!(call.bytes, payload);
    assert!(!call.fin);

    let mut server_read = ReadHalf::new(call.stream_id);
    let out = server_read.poll_read_event(
        RecvEvent::Item(Ok(Message::Data {
            stream_id: call.stream_id,
            bytes: call.bytes,
            fin: call.fin,
        })),
        64,
    );
    let received = match out {
        ReadOutcome::Read(bytes) => bytes,
        _ => panic!("payload must arrive"),
    };
    assert_eq!(received, payload);

    // Echo leg.
    let mut server = BidiStream::new(bidi_stream_id(1, false));
    let (echo_msg, _) = server.poll_write(received);
    let echo_call = plan_outbound(echo_msg);
    let mut client_read = ReadHalf::new(echo_call.stream_id);
    match client_read.poll_read_event(
        RecvEvent::Item(Ok(Message::Data {
            stream_id: echo_call.stream_id,
            bytes: echo_call.bytes,
            fin: true,
        })),
        64,
    ) {
        ReadOutcome::Read(bytes) => assert_eq!(bytes, payload),
        _ => panic!("echo must arrive"),
    }
}

#[test]
fn two_streams_deliver_independently() {
    let mut conn: QuicConnection<ToServer> = QuicConnection::new();
    let mut one = conn.bidi(1).unwrap();
    let mut two = conn.bidi(2).unwrap();
    let (m1, _) = one.poll_write(b"AAA".to_vec());
    let (m2, _) = two.poll_write(b"BBB".to_vec());
    let c1 = plan_outbound(m1);
    let c2 = plan_outbound(m2);
    assert_eq!(c1.stream_id, 1 << 2);
    assert_eq!(c2.stream_id, 2 << 2);
    assert_eq!(c1.bytes, b"AAA".to_vec());
    assert_eq!(c2.bytes, b"BBB".to_vec());
}

#[test]
fn uni_hello_from_client() {
    // Client opens uni slot 0 writeable: the id's low bits are 0b10.
    let mut client: QuicConnection<ToServer> = QuicConnection::new();
    let mut uni = client.uni(0).unwrap();
    assert_eq!(uni.id() & 0b11, 0b10);
    let (msg, n) = uni.poll_write(b"hello".to_vec());
    assert_eq!(n, 5);
    uni.poll_flush();
    let fin = uni.poll_shutdown();
    assert_eq!(fin, Some(Message::Close(uni.id())));
    // The server observes a readable uni with the same low bits and reads
    // the bytes, then end of stream.
    let mut server: QuicConnection<ToClient> = QuicConnection::new();
    let mut reader = match server.incoming(Some(UncheckedQuicStream { id: uni.id() })) {
        Some(Incoming::Uni(s)) => s,
        _ => panic!("a client uni must surface readable at the server"),
    };
    let call = plan_outbound(msg);
    match reader.poll_read(
        RecvEvent::Item(Ok(Message::Data { stream_id: call.stream_id, bytes: call.bytes, fin: true })),
        16,
    ) {
        ReadOutcome::Read(bytes) => assert_eq!(bytes, b"hello".to_vec()),
        _ => panic!("the payload must arrive"),
    }
    match reader.poll_read_ready(16) {
        ReadStep::BrokenPipe => {}
        _ => panic!("after FIN and drain every poll is a broken pipe"),
    }
    match reader.poll_read_ready(16) {
        ReadStep::BrokenPipe => {}
        _ => panic!("the broken pipe answer is sticky"),
    }
}

#[test]
fn repeated_shutdown_enqueues_one_close() {
    let mut stream = BidiStream::new(8);
    match stream.poll_shutdown() {
        Some(Message::Close(id)) => assert_eq!(id, 8),
        _ => panic!("first shutdown must enqueue a close"),
    }
    assert!(stream.poll_shutdown().is_none());
    assert!(stream.poll_shutdown().is_none());
}

#[test]
fn close_message_becomes_fin_send() {
    let call = plan_outbound(Message::Close(12));
    assert_eq!(
        call,
        StreamSendCall { stream_id: 12, bytes: Vec::new(), fin: true }
    );
    // A refused close send is still announced to the stream handle.
    assert_eq!(close_send_failure_notice(12), Message::Close(12));
}

#[test]
fn driver_announces_each_stream_once() {
    let mut state = DriverState::new(StreamMap::new());
    let (announce, msg) = state.deliver_inbound(0b10, vec![1, 2], false);
    assert_eq!(announce.map(|u| u.id), Some(0b10));
    assert_eq!(
        msg,
        Message::Data { stream_id: 0b10, bytes: vec![1, 2], fin: false }
    );
    let (announce, _) = state.deliver_inbound(0b10, vec![3], true);
    assert!(announce.is_none());
}

#[test]
fn partial_send_is_stashed_and_flushed() {
    let mut state = DriverState::new(StreamMap::new());
    assert!(state.outbound_ready());
    let call = StreamSendCall { stream_id: 4, bytes: vec![1, 2, 3, 4], fin: true };
    state.on_stream_send_result(call, 1);
    assert!(!state.outbound_ready());
    // The engine turns writable and takes two more bytes.
    state.on_stash_flushed(2);
    assert!(!state.outbound_ready());
    // The rest drains.
    state.on_stash_flushed(1);
    assert!(state.outbound_ready());
}

#[test]
fn driver_stops_and_broadcasts_on_engine_close() {
    let mut state = DriverState::new(StreamMap::new());
    state.deliver_inbound(0, vec![1], false);
    state.deliver_inbound(4, vec![2], false);
    assert!(!state.should_stop(false));
    let notices = state.on_engine_closed();
    assert_eq!(notices, vec![Message::Close(0), Message::Close(4)]);
    // Every later tick stops at once, whatever the engine reports.
    assert!(state.should_stop(false));
    assert!(state.should_stop(true));
}

#[test]
fn send_state_stages_then_flushes() {
    let mut s = SendState::new(MAX_DATAGRAM_SIZE);
    assert_eq!(s.next_call(), SendCall::AskEngine { from: 0, to: MAX_DATAGRAM_SIZE });
    assert_eq!(s.on_event(SendEvent::EngineStaged(100)), SendOutcome::Continue);
    assert!(!s.flush);
    assert_eq!(s.on_event(SendEvent::EngineBufferTooShort), SendOutcome::Continue);
    assert!(s.flush);
    assert_eq!(s.next_call(), SendCall::WriteSocket { from: 0, to: 100 });
    assert_eq!(s.on_event(SendEvent::SocketAccepted(40)), SendOutcome::Continue);
    assert_eq!(s.next_call(), SendCall::WriteSocket { from: 40, to: 100 });
    assert_eq!(s.on_event(SendEvent::SocketAccepted(60)), SendOutcome::Continue);
    assert_eq!(s.pos, 0);
    assert_eq!(s.end, 0);
    assert!(!s.flush);
}

#[test]
fn send_state_forces_flush_near_capacity() {
    let mut s = SendState::new(10);
    s.on_event(SendEvent::EngineStaged(9));
    assert!(s.flush);
    let mut s = SendState::new(10);
    s.on_event(SendEvent::EngineStaged(3));
    assert!(!s.flush);
    s.force_flush();
    assert!(s.flush);
    assert_eq!(s.next_call(), SendCall::WriteSocket { from: 0, to: 3 });
}

#[test]
fn send_state_done_and_fatal() {
    let mut s = SendState::new(10);
    assert_eq!(s.on_event(SendEvent::EngineDone), SendOutcome::Ready);
    assert_eq!(s.on_event(SendEvent::EngineFatal(7)), SendOutcome::Fatal(7));
    assert_eq!(fatal_close_reason(), b"fail".to_vec());
}

#[test]
fn timer_fires_at_deadline_and_stays_ready() {
    let mut t = Timer::Unset;
    assert!(!t.poll(100));
    t.arm(5);
    assert!(!t.poll(4));
    assert!(t.poll(5));
    assert!(t.poll(900));
    t.arm(1000);
    assert!(!t.poll(900));
    t.disarm();
    assert!(!t.poll(u64::MAX));
}

#[test]
fn timer_follows_engine_timeout() {
    let mut t = Timer::Unset;
    t.update(10, Some(5));
    assert_eq!(t, Timer::Armed(15));
    t.update(10, None);
    assert_eq!(t, Timer::Unset);
    t.update(u64::MAX, Some(5));
    assert_eq!(t, Timer::Armed(u64::MAX));
}

#[test]
fn handshake_steps() {
    assert_eq!(handshake_step(true, false), HandshakeStep::Done);
    assert_eq!(handshake_step(true, true), HandshakeStep::Done);
    assert_eq!(handshake_step(false, true), HandshakeStep::Failed);
    assert_eq!(handshake_step(false, false), HandshakeStep::Continue);
}

#[test]
fn peer_close_model() {
    // After the engine closes, the driver broadcasts closes; a reader that
    // sees its queue close gets a broken pipe, and incoming yields nothing.
    let mut state = DriverState::new(StreamMap::new());
    state.deliver_inbound(1, vec![9], false);
    let notices = state.on_engine_closed();
    assert_eq!(notices, vec![Message::Close(1)]);
    let mut read = ReadHalf::new(1);
    match read.poll_read_event(RecvEvent::Item(Ok(notices[0].clone())), 8) {
        ReadOutcome::Read(bytes) => assert!(bytes.is_empty()),
        _ => panic!("a close is a zero read"),
    }
    match read.poll_read_ready(8) {
        ReadStep::BrokenPipe => {}
        _ => panic!("later reads are broken pipe"),
    }
    match read.poll_read_event(RecvEvent::ChannelClosed, 8) {
        ReadOutcome::BrokenPipe => {}
        _ => panic!("a gone driver is a broken pipe as well"),
    }
    let mut conn: QuicConnection<ToServer> = QuicConnection::new();
    assert!(conn.incoming(None).is_none());
}
