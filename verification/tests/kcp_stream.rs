use bytes::BytesMut;
use rentamac::kcp_stream::handshake::{
    usable_packet, Connection, Handshake, HandshakeReply, HandshakeRequest, KcpError, Timeout,
};
use rentamac::kcp_stream::io::{IoAction, IoEvent, IoLoop, RECEIVE_BUFFER_LEN};
use rentamac::kcp_stream::{create_framed, KcpConnOwned, KcpStream, Signal};

const HEADER: usize = 14;

type Reply = HandshakeReply<u32, String>;
type Request = HandshakeRequest<u32>;
type State = Handshake<String>;

fn timeout() -> Timeout {
    Timeout { secs: 5, nanos: 250 }
}

fn bytes(len: usize) -> BytesMut {
    BytesMut::from(&vec![7u8; len][..])
}

/// Runs a handshake, and collects the steps after the first.
fn run(start: (State, Request), replies: Vec<Reply>) -> (State, Vec<Request>) {
    let mut state = start.0;
    assert!(matches!(start.1, HandshakeRequest::RunEndpoint));
    let mut requests = Vec::new();
    for reply in replies {
        let (next, request) = state.step(reply);
        state = next;
        requests.push(request);
    }
    (state, requests)
}

fn up_to_peer(start: (State, Request)) -> (State, Vec<Request>) {
    run(start, vec![Reply::EndpointRuns, Reply::Output(true), Reply::IoRuns])
}

#[test]
fn accept_waits_for_a_peer() {
    let (state, requests) = up_to_peer(KcpStream::accept(timeout(), None, HEADER));
    assert!(matches!(requests[0], HandshakeRequest::TakeOutput));
    assert!(matches!(requests[1], HandshakeRequest::SpawnIo));
    match requests[2] {
        HandshakeRequest::AcceptPeer { timeout: t } => assert_eq!(t, timeout()),
        _ => panic!("a peer is waited for"),
    }
    let (state, request) = state.step(Reply::Connected(Ok(9)));
    assert!(matches!(request, HandshakeRequest::OpenStream(9)));
    let (state, request) = state.step(Reply::Stream(true));
    assert!(matches!(request, HandshakeRequest::HandOver));
    match state {
        Handshake::Established(Connection::Guarded(guard)) => assert!(guard.stop_sender),
        _ => panic!("the connection is up"),
    }
}

#[test]
fn accept_injects_a_first_packet_that_holds_a_header() {
    let start = KcpStream::accept(timeout(), Some(bytes(HEADER)), HEADER);
    let replies =
        vec![Reply::EndpointRuns, Reply::Output(true), Reply::Injected(Ok(())), Reply::IoRuns];
    let (_, requests) = run(start, replies);
    match &requests[1] {
        HandshakeRequest::InjectPacket(packet) => assert_eq!(*packet, bytes(HEADER)),
        _ => panic!("the packet is injected"),
    }
    assert!(matches!(requests[2], HandshakeRequest::SpawnIo));
    assert!(matches!(requests[3], HandshakeRequest::AcceptPeer { .. }));
}

#[test]
fn accept_drops_a_first_packet_that_is_too_short() {
    let start = KcpStream::accept(timeout(), Some(bytes(HEADER - 1)), HEADER);
    let (_, requests) = up_to_peer(start);
    assert!(matches!(requests[1], HandshakeRequest::SpawnIo));
}

#[test]
fn usable_packet_needs_a_header() {
    assert!(usable_packet(None, HEADER).is_none());
    assert!(usable_packet(Some(bytes(HEADER - 1)), HEADER).is_none());
    assert_eq!(usable_packet(Some(bytes(HEADER)), HEADER), Some(bytes(HEADER)));
    assert_eq!(usable_packet(Some(bytes(0)), 0), Some(bytes(0)));
}

#[test]
fn connect_asks_for_a_peer_without_sessions() {
    let (state, requests) = up_to_peer(KcpStream::connect(timeout()));
    match &requests[2] {
        HandshakeRequest::ConnectPeer { timeout: t, src_session_id, dst_session_id, conn_data } => {
            assert_eq!(*t, timeout());
            assert_eq!(*src_session_id, 0);
            assert_eq!(*dst_session_id, 0);
            assert!(conn_data.is_none());
        }
        _ => panic!("a peer is connected to"),
    }
    let state = state.step::<u32>(Reply::Connected(Ok(9))).0;
    let (state, request) = state.step::<u32>(Reply::Stream(true));
    assert!(matches!(request, HandshakeRequest::HandOver));
    assert!(matches!(state, Handshake::Established(Connection::Guarded(_))));
}

#[test]
fn connect_owned_keeps_its_endpoint() {
    let (state, requests) = up_to_peer(KcpStream::connect_owned(timeout()));
    assert!(matches!(requests[2], HandshakeRequest::ConnectPeer { .. }));
    let state = state.step::<u32>(Reply::Connected(Ok(9))).0;
    let (state, request) = state.step::<u32>(Reply::Stream(true));
    assert!(matches!(request, HandshakeRequest::SpawnKeeper));
    let (state, request) = state.step::<u32>(Reply::KeeperRuns);
    assert!(matches!(request, HandshakeRequest::HandOver));
    match state {
        Handshake::Established(Connection::Owned(conn)) => {
            assert!(conn.stop_io);
            assert!(conn.stop_ep);
        }
        _ => panic!("the connection is up"),
    }
}

/// How many of these replies it takes until the connection is up.
fn replies_until_established(start: (State, Request), replies: Vec<Reply>) -> Option<usize> {
    let mut state = start.0;
    for (done, reply) in replies.into_iter().enumerate() {
        state = state.step(reply).0;
        if matches!(state, Handshake::Established(_)) {
            return Some(done + 1);
        }
    }
    None
}

#[test]
fn unrefused_handshake_comes_about() {
    let rest = || vec![Reply::IoRuns, Reply::Connected(Ok(9)), Reply::Stream(true)];
    let mut plain = vec![Reply::EndpointRuns, Reply::Output(true)];
    plain.extend(rest());
    let accept = KcpStream::accept(timeout(), None, HEADER);
    assert_eq!(replies_until_established(accept, plain), Some(5));

    let mut injected = vec![Reply::EndpointRuns, Reply::Output(true), Reply::Injected(Ok(()))];
    injected.extend(rest());
    let accept = KcpStream::accept(timeout(), Some(bytes(HEADER)), HEADER);
    assert_eq!(replies_until_established(accept, injected), Some(6));

    let mut owned = vec![Reply::EndpointRuns, Reply::Output(true)];
    owned.extend(rest());
    owned.push(Reply::KeeperRuns);
    let connect = KcpStream::connect_owned(timeout());
    assert_eq!(replies_until_established(connect, owned), Some(6));
}

fn failure(outcome: (State, Vec<Request>)) -> (KcpError<String>, bool) {
    let stop_io = match outcome.1.last() {
        Some(HandshakeRequest::GiveUp { stop_io }) => *stop_io,
        _ => panic!("the handshake gives up"),
    };
    match outcome.0 {
        Handshake::Failed(error) => (error, stop_io),
        _ => panic!("the handshake has failed"),
    }
}

#[test]
fn missing_output_queue_fails_before_any_loop_runs() {
    let replies = vec![Reply::EndpointRuns, Reply::Output(false)];
    let (error, stop_io) = failure(run(KcpStream::connect(timeout()), replies));
    assert_eq!(error.message(), Some("Failed to get output receiver"));
    assert!(!stop_io);
}

#[test]
fn refused_first_packet_fails_before_any_loop_runs() {
    let start = KcpStream::accept(timeout(), Some(bytes(20)), HEADER);
    let replies = vec![
        Reply::EndpointRuns,
        Reply::Output(true),
        Reply::Injected(Err("closed".to_string())),
    ];
    let (error, stop_io) = failure(run(start, replies));
    assert_eq!(error.message(), None);
    assert!(matches!(error, KcpError::Endpoint(e) if e == "closed"));
    assert!(!stop_io);
}

#[test]
fn missing_peer_stops_the_loop() {
    for start in [
        KcpStream::accept(timeout(), None, HEADER),
        KcpStream::connect(timeout()),
        KcpStream::connect_owned(timeout()),
    ] {
        let replies = vec![
            Reply::EndpointRuns,
            Reply::Output(true),
            Reply::IoRuns,
            Reply::Connected(Err("timed out".to_string())),
        ];
        let (error, stop_io) = failure(run(start, replies));
        assert!(matches!(error, KcpError::Endpoint(e) if e == "timed out"));
        assert!(stop_io);
    }
}

#[test]
fn missing_stream_stops_the_loop() {
    let replies = vec![
        Reply::EndpointRuns,
        Reply::Output(true),
        Reply::IoRuns,
        Reply::Connected(Ok(1)),
        Reply::Stream(false),
    ];
    let (error, stop_io) = failure(run(KcpStream::connect_owned(timeout()), replies));
    assert_eq!(error.message(), Some("Failed to create KcpStream"));
    assert!(stop_io);
}

#[test]
fn dropping_signals_once() {
    let mut guard = KcpStream { stop_sender: true };
    assert_eq!(guard.take_signals(), vec![Signal::StopIo]);
    assert!(guard.take_signals().is_empty());
    let mut conn = KcpConnOwned { stop_io: true, stop_ep: true };
    assert_eq!(conn.take_signals(), vec![Signal::StopIo, Signal::StopEndpoint]);
    assert!(conn.take_signals().is_empty());
    let mut half = KcpConnOwned { stop_io: false, stop_ep: true };
    assert_eq!(half.take_signals(), vec![Signal::StopEndpoint]);
}

#[test]
fn framing_uses_the_socket_address_where_known() {
    let known = create_framed(Some("10.0.0.1:5"), "0.0.0.0:0");
    assert_eq!(known.local_addr, "10.0.0.1:5");
    assert!(!known.encrypted);
    assert_eq!(known.send_timeout_ms, 0);
    assert_eq!(create_framed(None, "0.0.0.0:0").local_addr, "0.0.0.0:0");
}

fn buffer() -> Vec<u8> {
    (0..RECEIVE_BUFFER_LEN).map(|i| i as u8).collect()
}

#[test]
fn loop_forwards_datagrams_that_hold_a_header() {
    let buf = buffer();
    assert_eq!(buf.len(), 1500);
    let mut io = IoLoop::new(HEADER);
    match io.step(IoEvent::Received(HEADER), &buf) {
        IoAction::Forward(packet) => assert_eq!(&packet[..], &buf[..HEADER]),
        _ => panic!("the datagram is forwarded"),
    }
    assert!(matches!(io.step(IoEvent::Forwarded(true), &buf), IoAction::Wait));
    assert!(matches!(io.step(IoEvent::Received(HEADER - 1), &buf), IoAction::Wait));
    assert!(matches!(io.step(IoEvent::Received(0), &buf), IoAction::Wait));
    match io.step(IoEvent::Received(1500), &buf) {
        IoAction::Forward(packet) => assert_eq!(&packet[..], &buf[..]),
        _ => panic!("the datagram is forwarded"),
    }
    // An endpoint that no longer takes packets does not end the loop.
    assert!(matches!(io.step(IoEvent::Forwarded(false), &buf), IoAction::Wait));
}

#[test]
fn loop_sends_what_the_endpoint_has() {
    let buf = buffer();
    let mut io = IoLoop::new(HEADER);
    for len in [3, 40] {
        match io.step(IoEvent::Outgoing(bytes(len)), &buf) {
            IoAction::Send(packet) => assert_eq!(packet, bytes(len)),
            _ => panic!("the packet is sent"),
        }
        assert!(matches!(io.step(IoEvent::Sent(true), &buf), IoAction::Wait));
    }
    // With nothing more to send the loop still receives.
    assert!(matches!(io.step(IoEvent::OutgoingClosed, &buf), IoAction::Wait));
    assert!(matches!(io.step(IoEvent::Received(99), &buf), IoAction::Forward(_)));
}

#[test]
fn loop_ends_on_stop_or_failure() {
    let buf = buffer();
    for event in [IoEvent::Stop, IoEvent::ReceiveFailed, IoEvent::Exhausted] {
        let mut io = IoLoop::new(HEADER);
        assert!(matches!(io.step(event, &buf), IoAction::Leave));
    }
    let mut io = IoLoop::new(HEADER);
    assert!(matches!(io.step(IoEvent::Outgoing(bytes(3)), &buf), IoAction::Send(_)));
    assert!(matches!(io.step(IoEvent::Sent(false), &buf), IoAction::Leave));
}
