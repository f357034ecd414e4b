//! Bringing a KCP connection up, one outside step at a time.
use bytes::BytesMut;
use vstd::prelude::*;

use super::packet::packet_len;
use super::{KcpConnOwned, KcpStream};

verus! {

/// A span of time: whole seconds and the nanoseconds left over.
#[derive(Clone, Copy, Debug, PartialEq, Eq, Structural)]
pub struct Timeout {
    pub secs: u64,
    pub nanos: u32,
}

/// How a connection comes about, and who is to end it.
#[derive(Clone, Copy, Debug, PartialEq, Eq, Structural)]
pub enum Route {
    /// The peer connects; a guard ends the connection.
    Accept,
    /// We connect; a guard ends the connection.
    Connect,
    /// We connect; the connection ends itself when it is dropped.
    ConnectOwned,
}

/// The next outside step. All but the last two are answered by one
/// [`HandshakeReply`].
pub enum HandshakeRequest<C> {
    /// Make an endpoint and run it.
    RunEndpoint,
    /// Take the endpoint's queue of outgoing packets, and make the stop signals.
    TakeOutput,
    /// Give the endpoint this packet, which came before the connection.
    InjectPacket(BytesMut),
    /// Start the datagram loop.
    SpawnIo,
    /// Wait this long for a peer to connect.
    AcceptPeer { timeout: Timeout },
    /// Connect to the peer with these session ids and, if there is any, this
    /// data, waiting this long.
    ConnectPeer {
        timeout: Timeout,
        src_session_id: u32,
        dst_session_id: u32,
        conn_data: Option<BytesMut>,
    },
    /// Open the byte stream of this connection.
    OpenStream(C),
    /// Keep the endpoint alive until its stop signal comes.
    SpawnKeeper,
    /// Done: hand the stream over.
    HandOver,
    /// Failed: drop everything. `stop_io` says whether a datagram loop runs,
    /// which the dropped stop signal then ends.
    GiveUp { stop_io: bool },
}

/// How an outside step went. `C` identifies a connection; `E` is an error of the
/// endpoint.
pub enum HandshakeReply<C, E> {
    /// To `RunEndpoint`.
    EndpointRuns,
    /// To `TakeOutput`: whether the queue was there.
    Output(bool),
    /// To `InjectPacket`.
    Injected(Result<(), E>),
    /// To `SpawnIo`.
    IoRuns,
    /// To `AcceptPeer` and `ConnectPeer`; running out of time is an error.
    Connected(Result<C, E>),
    /// To `OpenStream`: whether there is such a stream.
    Stream(bool),
    /// To `SpawnKeeper`.
    KeeperRuns,
}

/// Why no connection came about.
pub enum KcpError<E> {
    /// The endpoint's outgoing queue was taken already.
    NoOutputReceiver,
    /// The endpoint does not know the connection.
    NoStream,
    /// The endpoint failed, or time ran out.
    Endpoint(E),
}

impl<E> KcpError<E> {
    /// What to say of the error, where that is not for the endpoint to say.
    pub open spec fn text(self) -> Option<Seq<char>> {
        match self {
            KcpError::NoOutputReceiver => Some("Failed to get output receiver"@),
            KcpError::NoStream => Some("Failed to create KcpStream"@),
            KcpError::Endpoint(_) => None,
        }
    }

    /// The error in words, or `None` where the endpoint's own error says it.
    pub fn message(&self) -> (message: Option<&'static str>)
        ensures
            message is Some <==> self.text() is Some,
            message matches Some(message) ==> Some(message@) == self.text(),
            self is NoOutputReceiver ==> (message matches Some(message) && message@
                == "Failed to get output receiver"@),
            self is NoStream ==> (message matches Some(message) && message@
                == "Failed to create KcpStream"@),
            self is Endpoint ==> message is None,
    {
        match self {
            KcpError::NoOutputReceiver => Some("Failed to get output receiver"),
            KcpError::NoStream => Some("Failed to create KcpStream"),
            KcpError::Endpoint(_) => None,
        }
    }
}

/// A connection that is up, with what ends it.
pub enum Connection {
    /// Ended by a guard beside the stream.
    Guarded(KcpStream),
    /// Ended by the stream itself.
    Owned(KcpConnOwned),
}

/// How far a handshake has got. Every state but the last two waits for a reply.
pub enum Handshake<E> {
    AwaitEndpoint { route: Route, timeout: Timeout, first_packet: Option<BytesMut> },
    AwaitOutput { route: Route, timeout: Timeout, first_packet: Option<BytesMut> },
    AwaitInjected { route: Route, timeout: Timeout },
    AwaitIo { route: Route, timeout: Timeout },
    AwaitPeer { route: Route },
    AwaitStream { route: Route },
    AwaitKeeper,
    Established(Connection),
    Failed(KcpError<E>),
}

impl Route {
    /// The step that brings in the peer.
    pub open spec fn peer_request<C>(self, timeout: Timeout) -> HandshakeRequest<C> {
        match self {
            Route::Accept => HandshakeRequest::AcceptPeer { timeout },
            _ => HandshakeRequest::ConnectPeer {
                timeout,
                src_session_id: 0,
                dst_session_id: 0,
                conn_data: None,
            },
        }
    }
}

/// The packet to give the endpoint first: the one that came before the
/// connection, if it is long enough to hold a header.
pub open spec fn packet_to_inject(packet: Option<BytesMut>, header_size: usize) -> Option<
    BytesMut,
> {
    match packet {
        Some(packet) => if super::packet::contents(packet).len() >= header_size {
            Some(packet)
        } else {
            None
        },
        None => None,
    }
}

/// Drops a first packet that is too short to hold a header of `header_size`
/// bytes.
pub fn usable_packet(packet: Option<BytesMut>, header_size: usize) -> (usable: Option<BytesMut>)
    ensures
        usable == packet_to_inject(packet, header_size),
        packet matches Some(given) ==> usable == (if super::packet::contents(given).len()
            >= header_size {
            Some(given)
        } else {
            None
        }),
        packet is None ==> usable is None,
{
    match packet {
        Some(packet) => {
            if packet_len(&packet) >= header_size {
                Some(packet)
            } else {
                None
            }
        },
        None => None,
    }
}

impl<E> Handshake<E> {
    /// Whether `reply` answers the step that this state waits for.
    pub open spec fn expects<C>(self, reply: HandshakeReply<C, E>) -> bool {
        match self {
            Handshake::AwaitEndpoint { .. } => reply is EndpointRuns,
            Handshake::AwaitOutput { .. } => reply is Output,
            Handshake::AwaitInjected { .. } => reply is Injected,
            Handshake::AwaitIo { .. } => reply is IoRuns,
            Handshake::AwaitPeer { .. } => reply is Connected,
            Handshake::AwaitStream { .. } => reply is Stream,
            Handshake::AwaitKeeper => reply is KeeperRuns,
            Handshake::Established(_) => false,
            Handshake::Failed(_) => false,
        }
    }

    /// The state after `reply`, and the step that comes next.
    pub open spec fn next<C>(self, reply: HandshakeReply<C, E>) -> (
        Handshake<E>,
        HandshakeRequest<C>,
    ) {
        match (self, reply) {
            (Handshake::AwaitEndpoint { route, timeout, first_packet }, _) => (
                Handshake::AwaitOutput { route, timeout, first_packet },
                HandshakeRequest::TakeOutput,
            ),
            (
                Handshake::AwaitOutput { route, timeout, first_packet },
                HandshakeReply::Output(there),
            ) => if !there {
                (
                    Handshake::Failed(KcpError::NoOutputReceiver),
                    HandshakeRequest::GiveUp { stop_io: false },
                )
            } else {
                match first_packet {
                    Some(packet) => (
                        Handshake::AwaitInjected { route, timeout },
                        HandshakeRequest::InjectPacket(packet),
                    ),
                    None => (Handshake::AwaitIo { route, timeout }, HandshakeRequest::SpawnIo),
                }
            },
            (Handshake::AwaitInjected { route, timeout }, HandshakeReply::Injected(Ok(_))) => (
                Handshake::AwaitIo { route, timeout },
                HandshakeRequest::SpawnIo,
            ),
            (Handshake::AwaitInjected { .. }, HandshakeReply::Injected(Err(e))) => (
                Handshake::Failed(KcpError::Endpoint(e)),
                HandshakeRequest::GiveUp { stop_io: false },
            ),
            (Handshake::AwaitIo { route, timeout }, _) => (
                Handshake::AwaitPeer { route },
                route.peer_request(timeout),
            ),
            (Handshake::AwaitPeer { route }, HandshakeReply::Connected(Ok(id))) => (
                Handshake::AwaitStream { route },
                HandshakeRequest::OpenStream(id),
            ),
            (Handshake::AwaitPeer { .. }, HandshakeReply::Connected(Err(e))) => (
                Handshake::Failed(KcpError::Endpoint(e)),
                HandshakeRequest::GiveUp { stop_io: true },
            ),
            (Handshake::AwaitStream { route }, HandshakeReply::Stream(there)) => if !there {
                (
                    Handshake::Failed(KcpError::NoStream),
                    HandshakeRequest::GiveUp { stop_io: true },
                )
            } else if route is ConnectOwned {
                (Handshake::AwaitKeeper, HandshakeRequest::SpawnKeeper)
            } else {
                (
                    Handshake::Established(Connection::Guarded(KcpStream { stop_sender: true })),
                    HandshakeRequest::HandOver,
                )
            },
            (Handshake::AwaitKeeper, _) => (
                Handshake::Established(
                    Connection::Owned(KcpConnOwned { stop_io: true, stop_ep: true }),
                ),
                HandshakeRequest::HandOver,
            ),
            _ => (self, HandshakeRequest::GiveUp { stop_io: false }),
        }
    }

    /// Goes on with the reply to the step that came last.
    pub fn step<C>(self, reply: HandshakeReply<C, E>) -> (next: (
        Handshake<E>,
        HandshakeRequest<C>,
    ))
        requires
            self.expects(reply),
        ensures
            next == self.next(reply),
    {
        match (self, reply) {
            (Handshake::AwaitEndpoint { route, timeout, first_packet }, _) => {
                (
                    Handshake::AwaitOutput { route, timeout, first_packet },
                    HandshakeRequest::TakeOutput,
                )
            },
            (
                Handshake::AwaitOutput { route, timeout, first_packet },
                HandshakeReply::Output(there),
            ) => {
                if !there {
                    return (
                        Handshake::Failed(KcpError::NoOutputReceiver),
                        HandshakeRequest::GiveUp { stop_io: false },
                    );
                }
                match first_packet {
                    Some(packet) => (
                        Handshake::AwaitInjected { route, timeout },
                        HandshakeRequest::InjectPacket(packet),
                    ),
                    None => (Handshake::AwaitIo { route, timeout }, HandshakeRequest::SpawnIo),
                }
            },
            (Handshake::AwaitInjected { route, timeout }, HandshakeReply::Injected(outcome)) => {
                match outcome {
                    Ok(_) => (Handshake::AwaitIo { route, timeout }, HandshakeRequest::SpawnIo),
                    Err(e) => (
                        Handshake::Failed(KcpError::Endpoint(e)),
                        HandshakeRequest::GiveUp { stop_io: false },
                    ),
                }
            },
            (Handshake::AwaitIo { route, timeout }, _) => {
                let request = match route {
                    Route::Accept => HandshakeRequest::AcceptPeer { timeout },
                    _ => HandshakeRequest::ConnectPeer {
                        timeout,
                        src_session_id: 0,
                        dst_session_id: 0,
                        conn_data: None,
                    },
                };
                (Handshake::AwaitPeer { route }, request)
            },
            (Handshake::AwaitPeer { route }, HandshakeReply::Connected(outcome)) => {
                match outcome {
                    Ok(id) => (Handshake::AwaitStream { route }, HandshakeRequest::OpenStream(id)),
                    Err(e) => (
                        Handshake::Failed(KcpError::Endpoint(e)),
                        HandshakeRequest::GiveUp { stop_io: true },
                    ),
                }
            },
            (Handshake::AwaitStream { route }, HandshakeReply::Stream(there)) => {
                if !there {
                    return (
                        Handshake::Failed(KcpError::NoStream),
                        HandshakeRequest::GiveUp { stop_io: true },
                    );
                }
                match route {
                    Route::ConnectOwned => (Handshake::AwaitKeeper, HandshakeRequest::SpawnKeeper),
                    _ => (
                        Handshake::Established(
                            Connection::Guarded(KcpStream { stop_sender: true }),
                        ),
                        HandshakeRequest::HandOver,
                    ),
                }
            },
            (Handshake::AwaitKeeper, _) => {
                (
                    Handshake::Established(
                        Connection::Owned(KcpConnOwned { stop_io: true, stop_ep: true }),
                    ),
                    HandshakeRequest::HandOver,
                )
            },
            (state, _) => (state, HandshakeRequest::GiveUp { stop_io: false }),
        }
    }
}

} // verus!
