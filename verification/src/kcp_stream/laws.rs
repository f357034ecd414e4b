//! What holds of every handshake, whatever the outside steps reply.
use bytes::BytesMut;
use vstd::prelude::*;

use super::handshake::{Connection, Handshake, HandshakeReply, HandshakeRequest, Route, Timeout};
use super::io::{IoInput, IoState, IoWork};
use super::{KcpConnOwned, KcpStream, Signal};

verus! {

impl<E> Handshake<E> {
    /// The state after all of `replies`, first to last.
    pub open spec fn after<C>(self, replies: Seq<HandshakeReply<C, E>>) -> Handshake<E>
        decreases replies.len(),
    {
        if replies.len() == 0 {
            self
        } else {
            self.next(replies.first()).0.after(replies.drop_first())
        }
    }

    /// Whether each of `replies` answers the step that was waited for.
    pub open spec fn expects_all<C>(self, replies: Seq<HandshakeReply<C, E>>) -> bool
        decreases replies.len(),
    {
        replies.len() > 0 ==> {
            &&& self.expects(replies.first())
            &&& self.next(replies.first()).0.expects_all(replies.drop_first())
        }
    }

    /// The steps that `replies` lead to, first to last.
    pub open spec fn requests<C>(self, replies: Seq<HandshakeReply<C, E>>) -> Seq<
        HandshakeRequest<C>,
    >
        decreases replies.len(),
    {
        if replies.len() == 0 {
            seq![]
        } else {
            let (next, request) = self.next(replies.first());
            seq![request] + next.requests(replies.drop_first())
        }
    }

    /// Whether the datagram loop has been asked for by now.
    pub open spec fn io_asked_for(self) -> bool {
        self is AwaitIo || self is AwaitPeer || self is AwaitStream || self is AwaitKeeper
    }

    /// The number of replies that a handshake in this state can still take.
    pub open spec fn replies_left(self) -> nat {
        match self {
            Handshake::AwaitEndpoint { .. } => 7,
            Handshake::AwaitOutput { .. } => 6,
            Handshake::AwaitInjected { .. } => 5,
            Handshake::AwaitIo { .. } => 4,
            Handshake::AwaitPeer { .. } => 3,
            Handshake::AwaitStream { .. } => 2,
            Handshake::AwaitKeeper => 1,
            Handshake::Established(_) => 0,
            Handshake::Failed(_) => 0,
        }
    }
}

/// A handshake that goes on to fail ends by giving up, and stops the datagram
/// loop exactly if it was asked for.
proof fn lemma_failure_stops_io<C, E>(state: Handshake<E>, replies: Seq<HandshakeReply<C, E>>)
    requires
        state.expects_all(replies),
        replies.len() > 0,
        state.after(replies) is Failed,
    ensures
        state.requests(replies).len() == replies.len(),
        state.requests(replies).last() == (HandshakeRequest::<C>::GiveUp {
            stop_io: state.io_asked_for() || state.requests(replies).contains(
                HandshakeRequest::SpawnIo,
            ),
        }),
    decreases replies.len(),
{
    let (next, request) = state.next(replies.first());
    let rest = replies.drop_first();
    let requests = state.requests(replies);
    let tail = next.requests(rest);
    assert(requests == seq![request] + tail);
    assert(requests[0] == request);
    if rest.len() > 0 {
        lemma_failure_stops_io(next, rest);
        assert(next.expects_all(rest));
        assert(next.expects(rest.first()));
        if tail.contains(HandshakeRequest::SpawnIo) {
            let i = choose|i: int| 0 <= i < tail.len() && tail[i] == HandshakeRequest::<C>::SpawnIo;
            assert(requests[i + 1] == HandshakeRequest::<C>::SpawnIo);
        }
        if requests.contains(HandshakeRequest::SpawnIo) && request !is SpawnIo {
            let i = choose|i: int|
                0 <= i < requests.len() && requests[i] == HandshakeRequest::<C>::SpawnIo;
            assert(tail[i - 1] == requests[i]);
        }
        assert(request is SpawnIo ==> requests[0] == HandshakeRequest::<C>::SpawnIo);
        assert(next.io_asked_for() <==> state.io_asked_for() || request is SpawnIo);
        assert(requests.last() == tail.last());
    } else {
        assert(next.after(rest) == next);
        assert(requests =~= seq![request]);
    }
}

/// A handshake that fails leaves nothing running: its last step gives up, and
/// ends the datagram loop exactly if one was started.
pub proof fn law_failed_handshake_leaves_no_loop<C, E>(
    route: Route,
    timeout: Timeout,
    first_packet: Option<BytesMut>,
    replies: Seq<HandshakeReply<C, E>>,
)
    requires
        (Handshake::<E>::AwaitEndpoint { route, timeout, first_packet }).expects_all(replies),
        (Handshake::<E>::AwaitEndpoint { route, timeout, first_packet }).after(replies) is Failed,
    ensures
        ({
            let requests = (Handshake::<E>::AwaitEndpoint {
                route,
                timeout,
                first_packet,
            }).requests(replies);
            requests.last() == HandshakeRequest::<C>::GiveUp {
                stop_io: requests.contains(HandshakeRequest::SpawnIo),
            }
        }),
{
    lemma_failure_stops_io(
        Handshake::<E>::AwaitEndpoint { route, timeout, first_packet },
        replies,
    );
}

/// Whether `reply` says that a step went wrong.
pub open spec fn refuses<C, E>(reply: HandshakeReply<C, E>) -> bool {
    match reply {
        HandshakeReply::Output(there) => !there,
        HandshakeReply::Injected(outcome) => outcome is Err,
        HandshakeReply::Connected(outcome) => outcome is Err,
        HandshakeReply::Stream(there) => !there,
        _ => false,
    }
}

/// A handshake fails at the first step that goes wrong, and only then: a
/// connection comes about only if every step went well.
pub proof fn law_handshake_fails_on_refusal<C, E>(
    state: Handshake<E>,
    replies: Seq<HandshakeReply<C, E>>,
)
    requires
        state.expects_all(replies),
        replies.len() > 0,
    ensures
        state.after(replies) is Failed <==> refuses(replies.last()),
        forall|i: int| 0 <= i < replies.len() - 1 ==> !refuses(#[trigger] replies[i]),
    decreases replies.len(),
{
    let next = state.next(replies.first()).0;
    let rest = replies.drop_first();
    assert(next.expects_all(rest));
    if rest.len() > 0 {
        law_handshake_fails_on_refusal(next, rest);
        assert(next.expects(rest.first()));
        assert forall|i: int| 0 <= i < replies.len() - 1 implies !refuses(
            #[trigger] replies[i],
        ) by {
            if i > 0 {
                assert(replies[i] == rest[i - 1]);
            }
        }
    } else {
        assert(next.after(rest) == next);
    }
}

impl<E> Handshake<E> {
    /// The number of replies until the connection is up, if every step from here
    /// on goes well.
    pub open spec fn replies_to_establish(self) -> nat {
        match self {
            Handshake::AwaitEndpoint { route, first_packet, .. } => 5 + extra_replies(
                route,
                first_packet is Some,
            ),
            Handshake::AwaitOutput { route, first_packet, .. } => 4 + extra_replies(
                route,
                first_packet is Some,
            ),
            Handshake::AwaitInjected { route, .. } => 4 + extra_replies(route, false),
            Handshake::AwaitIo { route, .. } => 3 + extra_replies(route, false),
            Handshake::AwaitPeer { route } => 2 + extra_replies(route, false),
            Handshake::AwaitStream { route } => 1 + extra_replies(route, false),
            Handshake::AwaitKeeper => 1,
            Handshake::Established(_) => 0,
            Handshake::Failed(_) => 0,
        }
    }
}

/// A first packet takes one more reply, and so does a connection that owns its
/// endpoint.
pub open spec fn extra_replies(route: Route, packet: bool) -> nat {
    (if packet {
        1nat
    } else {
        0
    }) + (if route is ConnectOwned {
        1nat
    } else {
        0
    })
}

/// Each reply that refuses nothing is one step towards the connection.
proof fn lemma_unrefused_steps<C, E>(state: Handshake<E>, replies: Seq<HandshakeReply<C, E>>)
    requires
        state.expects_all(replies),
        state !is Failed,
        forall|i: int| 0 <= i < replies.len() ==> !refuses(#[trigger] replies[i]),
    ensures
        state.after(replies) !is Failed,
        state.after(replies).replies_to_establish() == state.replies_to_establish()
            - replies.len(),
    decreases replies.len(),
{
    if replies.len() > 0 {
        let rest = replies.drop_first();
        assert(!refuses(replies[0]));
        assert forall|i: int| 0 <= i < rest.len() implies !refuses(#[trigger] rest[i]) by {
            assert(rest[i] == replies[i + 1]);
        }
        lemma_unrefused_steps(state.next(replies.first()).0, rest);
    }
}

/// A handshake in which no step goes wrong comes about: after exactly as many
/// replies as its route takes, and not before, the connection is up.
pub proof fn law_unrefused_handshake_comes_about<C, E>(
    route: Route,
    timeout: Timeout,
    first_packet: Option<BytesMut>,
    replies: Seq<HandshakeReply<C, E>>,
)
    requires
        (Handshake::<E>::AwaitEndpoint { route, timeout, first_packet }).expects_all(replies),
        forall|i: int| 0 <= i < replies.len() ==> !refuses(#[trigger] replies[i]),
    ensures
        ({
            let end = (Handshake::<E>::AwaitEndpoint { route, timeout, first_packet }).after(
                replies,
            );
            &&& end !is Failed
            &&& replies.len() <= 5 + extra_replies(route, first_packet is Some)
            &&& end is Established <==> replies.len() == 5 + extra_replies(
                route,
                first_packet is Some,
            )
        }),
{
    lemma_unrefused_steps(Handshake::<E>::AwaitEndpoint { route, timeout, first_packet }, replies);
}

/// Every reply brings a handshake closer to its end.
proof fn lemma_replies_left<C, E>(state: Handshake<E>, replies: Seq<HandshakeReply<C, E>>)
    requires
        state.expects_all(replies),
    ensures
        replies.len() <= state.replies_left(),
        state.after(replies).replies_left() <= state.replies_left() - replies.len(),
    decreases replies.len(),
{
    if replies.len() > 0 {
        lemma_replies_left(state.next(replies.first()).0, replies.drop_first());
    }
}

/// A handshake ends: it takes at most seven replies.
pub proof fn law_handshake_ends<C, E>(
    route: Route,
    timeout: Timeout,
    first_packet: Option<BytesMut>,
    replies: Seq<HandshakeReply<C, E>>,
)
    requires
        (Handshake::<E>::AwaitEndpoint { route, timeout, first_packet }).expects_all(replies),
    ensures
        replies.len() <= 7,
        replies.len() == 7 ==> ({
            let end = (Handshake::<E>::AwaitEndpoint { route, timeout, first_packet }).after(
                replies,
            );
            end is Established || end is Failed
        }),
{
    lemma_replies_left(Handshake::<E>::AwaitEndpoint { route, timeout, first_packet }, replies);
}

/// The packet that came before the connection reaches the endpoint before any
/// datagram can: where the datagram loop is started, that packet, if there is
/// one, has been handed over in the step just before.
pub proof fn law_first_packet_comes_first<C, E>(
    route: Route,
    timeout: Timeout,
    first_packet: Option<BytesMut>,
    replies: Seq<HandshakeReply<C, E>>,
    i: int,
)
    requires
        (Handshake::<E>::AwaitEndpoint { route, timeout, first_packet }).expects_all(replies),
        0 <= i < replies.len(),
        (Handshake::<E>::AwaitEndpoint { route, timeout, first_packet }).requests(
            replies,
        )[i] is SpawnIo,
    ensures
        ({
            let requests = (Handshake::<E>::AwaitEndpoint {
                route,
                timeout,
                first_packet,
            }).requests(replies);
            match first_packet {
                Some(packet) => i == 2 && requests[1] == HandshakeRequest::<C>::InjectPacket(
                    packet,
                ) && (replies[2] matches HandshakeReply::Injected(Ok(_))),
                None => i == 1,
            }
        }),
{
    let s0 = Handshake::<E>::AwaitEndpoint { route, timeout, first_packet };
    lemma_requests(s0, replies, i);
    let s1 = s0.next(replies[0]).0;
    let r1 = replies.drop_first();
    assert(i > 0);
    lemma_requests(s1, r1, i - 1);
    let s2 = s1.next(r1[0]).0;
    let r2 = r1.drop_first();
    if i > 1 {
        lemma_requests(s2, r2, i - 2);
        let s3 = s2.next(r2[0]).0;
        let r3 = r2.drop_first();
        if i > 2 {
            lemma_requests(s3, r3, i - 3);
            if s3 is AwaitIo || s3 is AwaitPeer {
                lemma_io_asked_for_once(s3, r3, i - 3);
            }
        }
    }
}

/// The first step of a course, and those after it.
proof fn lemma_requests<C, E>(state: Handshake<E>, replies: Seq<HandshakeReply<C, E>>, i: int)
    requires
        state.expects_all(replies),
        0 <= i < replies.len(),
    ensures
        state.requests(replies).len() == replies.len(),
        state.expects(replies[0]),
        state.next(replies[0]).0.expects_all(replies.drop_first()),
        i == 0 ==> state.requests(replies)[i] == state.next(replies[0]).1,
        i > 0 ==> state.requests(replies)[i] == state.next(replies[0]).0.requests(
            replies.drop_first(),
        )[i - 1],
    decreases replies.len(),
{
    if replies.len() > 1 {
        lemma_requests(state.next(replies[0]).0, replies.drop_first(), 0);
    } else {
        assert(state.next(replies[0]).0.requests(replies.drop_first()).len() == 0);
    }
}

/// The datagram loop is not asked for twice.
proof fn lemma_io_asked_for_once<C, E>(
    state: Handshake<E>,
    replies: Seq<HandshakeReply<C, E>>,
    i: int,
)
    requires
        state.expects_all(replies),
        state.io_asked_for(),
        0 <= i < replies.len(),
    ensures
        state.requests(replies)[i] !is SpawnIo,
    decreases replies.len(),
{
    lemma_requests(state, replies, i);
    if i > 0 {
        let rest = replies.drop_first();
        lemma_requests(state.next(replies[0]).0, rest, i - 1);
        lemma_io_asked_for_once(state.next(replies[0]).0, rest, i - 1);
    }
}

/// A connection that came about can be torn down by dropping it, once: the
/// datagram loop is told to stop and leaves; a connection that owns its signals
/// lets its endpoint go as well; and nothing is signalled a second time.
pub proof fn law_dropping_tears_the_connection_down<C, E>(
    route: Route,
    timeout: Timeout,
    first_packet: Option<BytesMut>,
    replies: Seq<HandshakeReply<C, E>>,
    connection: Connection,
    header_size: nat,
)
    requires
        (Handshake::<E>::AwaitEndpoint { route, timeout, first_packet }).expects_all(replies),
        (Handshake::<E>::AwaitEndpoint { route, timeout, first_packet }).after(replies)
            == Handshake::<E>::Established(connection),
    ensures
        connection is Owned <==> route is ConnectOwned,
        match connection {
            Connection::Guarded(guard) => guard.signals() == seq![Signal::StopIo],
            Connection::Owned(conn) => conn.signals() == seq![
                Signal::StopIo,
                Signal::StopEndpoint,
            ],
        },
        IoState::Waiting.next(header_size, IoInput::Stop) == (IoState::Left, IoWork::Leave),
        (KcpStream { stop_sender: false }).signals() == Seq::<Signal>::empty(),
        (KcpConnOwned { stop_io: false, stop_ep: false }).signals() == Seq::<Signal>::empty(),
{
    lemma_keeps_to_route(
        Handshake::<E>::AwaitEndpoint { route, timeout, first_packet },
        replies,
        route,
    );
}

impl<E> Handshake<E> {
    /// Whether a handshake in this state takes the given route, as far as the
    /// state still tells.
    spec fn takes(self, route: Route) -> bool {
        match self {
            Handshake::AwaitEndpoint { route: r, .. } => r == route,
            Handshake::AwaitOutput { route: r, .. } => r == route,
            Handshake::AwaitInjected { route: r, .. } => r == route,
            Handshake::AwaitIo { route: r, .. } => r == route,
            Handshake::AwaitPeer { route: r } => r == route,
            Handshake::AwaitStream { route: r } => r == route,
            Handshake::AwaitKeeper => route is ConnectOwned,
            Handshake::Established(Connection::Guarded(guard)) => route !is ConnectOwned
                && guard.stop_sender,
            Handshake::Established(Connection::Owned(conn)) => route is ConnectOwned
                && conn.stop_io && conn.stop_ep,
            Handshake::Failed(_) => true,
        }
    }
}

/// A handshake keeps to its route.
proof fn lemma_keeps_to_route<C, E>(
    state: Handshake<E>,
    replies: Seq<HandshakeReply<C, E>>,
    route: Route,
)
    requires
        state.expects_all(replies),
        state.takes(route),
    ensures
        state.after(replies).takes(route),
    decreases replies.len(),
{
    if replies.len() > 0 {
        lemma_keeps_to_route(state.next(replies.first()).0, replies.drop_first(), route);
    }
}

} // verus!
