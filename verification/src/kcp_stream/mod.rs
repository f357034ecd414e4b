//! Sessions over KCP, a reliable transport on top of UDP.
//!
//! [`KcpStream::accept`], [`KcpStream::connect`] and [`KcpStream::connect_owned`]
//! begin a handshake; [`handshake::Handshake`] says which outside step comes
//! next. [`io::IoLoop`] decides what happens to each datagram of a connection.
use bytes::BytesMut;
use vstd::prelude::*;

use handshake::{usable_packet, Handshake, HandshakeRequest, Route, Timeout};

pub mod course;
pub mod handshake;
pub mod io;
pub mod laws;
pub mod packet;

verus! {

/// A signal that ends part of a connection.
#[derive(Clone, Copy, Debug, PartialEq, Eq, Structural)]
pub enum Signal {
    /// Ends the datagram loop.
    StopIo,
    /// Lets the endpoint go.
    StopEndpoint,
}

/// The guard of a connection: dropping it ends the datagram loop.
#[derive(Debug, PartialEq, Eq, Structural)]
pub struct KcpStream {
    /// Whether the stop signal is still to be sent.
    pub stop_sender: bool,
}

/// A connection that owns its stop signals, so that dropping it tears it down
/// without a guard beside it.
#[derive(Debug, PartialEq, Eq, Structural)]
pub struct KcpConnOwned {
    /// Whether the datagram loop is still to be told to stop.
    pub stop_io: bool,
    /// Whether the endpoint is still to be let go.
    pub stop_ep: bool,
}

impl KcpStream {
    /// Begins to wait for a peer. A packet that came before the connection is
    /// given to the endpoint first if it is long enough to hold a header of
    /// `header_size` bytes, and dropped if it is not.
    pub fn accept<C, E>(
        timeout: Timeout,
        init_packet: Option<BytesMut>,
        header_size: usize,
    ) -> (start: (Handshake<E>, HandshakeRequest<C>))
        ensures
            start.0 == (Handshake::<E>::AwaitEndpoint {
                route: Route::Accept,
                timeout,
                first_packet: handshake::packet_to_inject(init_packet, header_size),
            }),
            start.0 matches Handshake::AwaitEndpoint { first_packet, .. } && first_packet == (
            match init_packet {
                Some(packet) if packet::contents(packet).len() >= header_size => Some(packet),
                _ => None,
            }),
            start.1 is RunEndpoint,
    {
        let first_packet = usable_packet(init_packet, header_size);
        (
            Handshake::AwaitEndpoint { route: Route::Accept, timeout, first_packet },
            HandshakeRequest::RunEndpoint,
        )
    }

    /// Begins to connect to a peer.
    pub fn connect<C, E>(timeout: Timeout) -> (start: (Handshake<E>, HandshakeRequest<C>))
        ensures
            start.0 == (Handshake::<E>::AwaitEndpoint {
                route: Route::Connect,
                timeout,
                first_packet: None,
            }),
            start.1 is RunEndpoint,
    {
        (
            Handshake::AwaitEndpoint { route: Route::Connect, timeout, first_packet: None },
            HandshakeRequest::RunEndpoint,
        )
    }

    /// Begins to connect to a peer, for a connection that ends itself when it is
    /// dropped.
    pub fn connect_owned<C, E>(timeout: Timeout) -> (start: (Handshake<E>, HandshakeRequest<C>))
        ensures
            start.0 == (Handshake::<E>::AwaitEndpoint {
                route: Route::ConnectOwned,
                timeout,
                first_packet: None,
            }),
            start.1 is RunEndpoint,
    {
        (
            Handshake::AwaitEndpoint { route: Route::ConnectOwned, timeout, first_packet: None },
            HandshakeRequest::RunEndpoint,
        )
    }

    /// The signals that dropping the guard sends.
    pub open spec fn signals(self) -> Seq<Signal> {
        if self.stop_sender {
            seq![Signal::StopIo]
        } else {
            seq![]
        }
    }

    /// Takes the signals that dropping the guard has to send; a signal that has
    /// been taken is not given again.
    pub fn take_signals(&mut self) -> (signals: Vec<Signal>)
        ensures
            signals@ == old(self).signals(),
            old(self).stop_sender ==> signals@ == seq![Signal::StopIo],
            !old(self).stop_sender ==> signals@.len() == 0,
            *final(self) == (KcpStream { stop_sender: false }),
    {
        let mut signals: Vec<Signal> = Vec::new();
        if self.stop_sender {
            signals.push(Signal::StopIo);
        }
        self.stop_sender = false;
        signals
    }
}

impl KcpConnOwned {
    /// The signals that dropping the connection sends, in order.
    pub open spec fn signals(self) -> Seq<Signal> {
        (if self.stop_io {
            seq![Signal::StopIo]
        } else {
            seq![]
        }) + (if self.stop_ep {
            seq![Signal::StopEndpoint]
        } else {
            seq![]
        })
    }

    /// Takes the signals that dropping the connection has to send; a signal that
    /// has been taken is not given again.
    pub fn take_signals(&mut self) -> (signals: Vec<Signal>)
        ensures
            signals@ == old(self).signals(),
            signals@.contains(Signal::StopIo) <==> old(self).stop_io,
            signals@.contains(Signal::StopEndpoint) <==> old(self).stop_ep,
            signals@.no_duplicates(),
            old(self).stop_io && old(self).stop_ep ==> signals@ == seq![
                Signal::StopIo,
                Signal::StopEndpoint,
            ],
            *final(self) == (KcpConnOwned { stop_io: false, stop_ep: false }),
    {
        let mut signals: Vec<Signal> = Vec::new();
        if self.stop_io {
            signals.push(Signal::StopIo);
        }
        if self.stop_ep {
            signals.push(Signal::StopEndpoint);
        }
        proof {
            assert(signals@ =~= self.signals());
            law_each_signal_is_owed_once(*self);
        }
        self.stop_io = false;
        self.stop_ep = false;
        signals
    }
}

/// Dropping a connection sends each signal that is still owed, once, and no other;
/// the datagram loop is told before the endpoint is let go.
pub proof fn law_each_signal_is_owed_once(conn: KcpConnOwned)
    ensures
        conn.signals().contains(Signal::StopIo) <==> conn.stop_io,
        conn.signals().contains(Signal::StopEndpoint) <==> conn.stop_ep,
        conn.signals().no_duplicates(),
        conn.stop_io && conn.stop_ep ==> conn.signals() == seq![
            Signal::StopIo,
            Signal::StopEndpoint,
        ],
{
    let signals = conn.signals();
    if conn.stop_io {
        assert(signals[0] == Signal::StopIo);
    }
    if conn.stop_ep {
        assert(signals.last() == Signal::StopEndpoint);
    }
}

/// A guard sends its signal exactly if that is still owed.
pub proof fn law_guard_stops_its_loop(guard: KcpStream)
    ensures
        guard.stop_sender ==> guard.signals() == seq![Signal::StopIo],
        !guard.stop_sender ==> guard.signals().len() == 0,
{
}

/// How the byte stream of a connection is framed into messages.
#[derive(Debug)]
pub struct Framing<A> {
    /// The address that the stream gives as its own.
    pub local_addr: A,
    /// Whether messages are encrypted from the start.
    pub encrypted: bool,
    /// How long sending may take in milliseconds; zero is without limit.
    pub send_timeout_ms: u64,
}

/// The framing of a new connection: unencrypted, without a send timeout, under
/// the socket's own address or, where that is not known, under `any_addr`.
pub fn create_framed<A>(local_addr: Option<A>, any_addr: A) -> (framing: Framing<A>)
    ensures
        framing.local_addr == (match local_addr {
            Some(addr) => addr,
            None => any_addr,
        }),
        !framing.encrypted,
        framing.send_timeout_ms == 0,
{
    Framing { local_addr: local_addr.unwrap_or(any_addr), encrypted: false, send_timeout_ms: 0 }
}

} // verus!
