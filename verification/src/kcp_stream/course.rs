//! The course of a handshake, told by the replies alone: what is asked for and
//! when, and what it all comes to.
use bytes::BytesMut;
use vstd::prelude::*;

use super::handshake::{
    Connection, Handshake, HandshakeReply, HandshakeRequest, KcpError, Route, Timeout,
};
use super::{KcpConnOwned, KcpStream};

verus! {

/// The last reply comes after all the others.
proof fn lemma_last_reply<C, E>(state: Handshake<E>, replies: Seq<HandshakeReply<C, E>>)
    requires
        replies.len() > 0,
    ensures
        state.after(replies) == state.after(replies.drop_last()).next(replies.last()).0,
        state.expects_all(replies) <==> state.expects_all(replies.drop_last()) && state.after(
            replies.drop_last(),
        ).expects(replies.last()),
        state.requests(replies) == state.requests(replies.drop_last()).push(
            state.after(replies.drop_last()).next(replies.last()).1,
        ),
    decreases replies.len(),
{
    let (next, request) = state.next(replies.first());
    let rest = replies.drop_first();
    let before = replies.drop_last();
    if rest.len() > 0 {
        lemma_last_reply(next, rest);
        assert(rest.drop_last() =~= before.drop_first());
        assert(before.first() == replies.first());
        assert(rest.last() == replies.last());
        assert(state.requests(before) == seq![request] + next.requests(before.drop_first()));
        assert(state.requests(replies) =~= state.requests(before).push(
            next.after(rest.drop_last()).next(rest.last()).1,
        ));
    } else {
        assert(next.after(rest) == next);
        assert(next.expects_all(rest));
        assert(before.len() == 0);
        assert(next.requests(rest).len() == 0);
        assert(state.requests(before).len() == 0);
        assert(state.requests(replies) == seq![request] + next.requests(rest));
        assert(state.requests(replies) =~= state.requests(before).push(request));
    }
}

/// How many replies a first packet takes.
spec fn packet_replies(first_packet: Option<BytesMut>) -> int {
    if first_packet is Some {
        1
    } else {
        0
    }
}

/// Whether `end` is where a handshake stands after `replies`.
spec fn stands_at<C, E>(
    route: Route,
    timeout: Timeout,
    first_packet: Option<BytesMut>,
    replies: Seq<HandshakeReply<C, E>>,
    end: Handshake<E>,
) -> bool {
    let n = replies.len();
    let k = packet_replies(first_packet);
    &&& n >= 1 ==> replies[0] is EndpointRuns
    &&& n >= 2 ==> replies[1] is Output
    &&& n >= 3 ==> replies[1] == HandshakeReply::<C, E>::Output(true)
    &&& n >= 3 && k == 1 ==> replies[2] is Injected
    &&& n >= 4 && k == 1 ==> (replies[2] matches HandshakeReply::Injected(Ok(_)))
    &&& n >= 3 + k ==> replies[2 + k] is IoRuns
    &&& n >= 4 + k ==> replies[3 + k] is Connected
    &&& n >= 5 + k ==> replies[4 + k] is Stream
    &&& n >= 5 + k ==> (replies[3 + k] matches HandshakeReply::Connected(Ok(_)))
    &&& n >= 6 + k ==> replies[5 + k] is KeeperRuns && replies[4 + k] == HandshakeReply::<
        C,
        E,
    >::Stream(true) && route is ConnectOwned
    &&& match end {
        Handshake::AwaitEndpoint { route: r, timeout: t, first_packet: p } => n == 0 && r == route
            && t == timeout && p == first_packet,
        Handshake::AwaitOutput { route: r, timeout: t, first_packet: p } => n == 1 && r == route
            && t == timeout && p == first_packet,
        Handshake::AwaitInjected { route: r, timeout: t } => n == 2 && k == 1 && r == route && t
            == timeout && replies[1] == HandshakeReply::<C, E>::Output(true),
        Handshake::AwaitIo { route: r, timeout: t } => n == 2 + k && r == route && t == timeout
            && replies[1] == HandshakeReply::<C, E>::Output(true) && (k == 1 ==> (
        replies[2] matches HandshakeReply::Injected(Ok(_)))),
        Handshake::AwaitPeer { route: r } => n == 3 + k && r == route,
        Handshake::AwaitStream { route: r } => n == 4 + k && r == route && (
        replies[3 + k] matches HandshakeReply::Connected(Ok(_))),
        Handshake::AwaitKeeper => n == 5 + k && route is ConnectOwned && replies[4 + k]
            == HandshakeReply::<C, E>::Stream(true),
        Handshake::Established(Connection::Guarded(guard)) => n == 5 + k && route !is ConnectOwned
            && replies[4 + k] == HandshakeReply::<C, E>::Stream(true) && guard.stop_sender,
        Handshake::Established(Connection::Owned(conn)) => n == 6 + k && route is ConnectOwned
            && conn.stop_io && conn.stop_ep,
        Handshake::Failed(error) => {
            ||| n == 2 && replies[1] == HandshakeReply::<C, E>::Output(false)
                && error is NoOutputReceiver
            ||| n == 3 && k == 1 && (replies[2] matches HandshakeReply::Injected(Err(e)) && error
                == KcpError::Endpoint(e))
            ||| n == 4 + k && (replies[3 + k] matches HandshakeReply::Connected(Err(e)) && error
                == KcpError::Endpoint(e))
            ||| n == 5 + k && replies[4 + k] == HandshakeReply::<C, E>::Stream(false)
                && error is NoStream
        },
    }
}

/// Every run of replies leads there.
proof fn lemma_stands<C, E>(
    route: Route,
    timeout: Timeout,
    first_packet: Option<BytesMut>,
    replies: Seq<HandshakeReply<C, E>>,
)
    requires
        (Handshake::<E>::AwaitEndpoint { route, timeout, first_packet }).expects_all(replies),
    ensures
        stands_at(
            route,
            timeout,
            first_packet,
            replies,
            (Handshake::<E>::AwaitEndpoint { route, timeout, first_packet }).after(replies),
        ),
    decreases replies.len(),
{
    if replies.len() > 0 {
        let before = replies.drop_last();
        lemma_last_reply(Handshake::<E>::AwaitEndpoint { route, timeout, first_packet }, replies);
        lemma_stands(route, timeout, first_packet, before);
        assert(forall|i: int| 0 <= i < before.len() ==> before[i] == replies[i]);
    }
}

/// The step after the reply at `i` depends on the replies up to it alone.
proof fn lemma_request_at<C, E>(state: Handshake<E>, replies: Seq<HandshakeReply<C, E>>, i: int)
    requires
        state.expects_all(replies),
        0 <= i < replies.len(),
    ensures
        state.requests(replies).len() == replies.len(),
        state.expects_all(replies.take(i)),
        state.after(replies.take(i)).expects(replies[i]),
        state.requests(replies)[i] == state.after(replies.take(i)).next(replies[i]).1,
    decreases replies.len(),
{
    let before = replies.drop_last();
    lemma_last_reply(state, replies);
    if i < before.len() {
        lemma_request_at(state, before, i);
        assert(before.take(i) =~= replies.take(i));
    } else {
        assert(before =~= replies.take(i));
    }
    if before.len() > 0 {
        lemma_request_at(state, before, 0);
    }
}

/// The steps of a handshake, told by the reply just before each: with the endpoint
/// running its queue is taken; then the first packet is injected, if there is one;
/// then the datagram loop is started; then the peer is waited for or connected to;
/// then the stream of the very connection that came about is opened; then, for a
/// connection that owns its endpoint, its keeper is started; then the stream is
/// handed over. After a refusal everything is given up, with the datagram loop if
/// it runs by then.
pub proof fn law_handshake_asks_in_order<C, E>(
    route: Route,
    timeout: Timeout,
    first_packet: Option<BytesMut>,
    replies: Seq<HandshakeReply<C, E>>,
    i: int,
)
    requires
        (Handshake::<E>::AwaitEndpoint { route, timeout, first_packet }).expects_all(replies),
        0 <= i < replies.len(),
    ensures
        ({
            let requests = (Handshake::<E>::AwaitEndpoint {
                route,
                timeout,
                first_packet,
            }).requests(replies);
            &&& requests.len() == replies.len()
            &&& match replies[i] {
                HandshakeReply::EndpointRuns => requests[i] is TakeOutput,
                HandshakeReply::Output(false) => requests[i] == HandshakeRequest::<C>::GiveUp {
                    stop_io: false,
                },
                HandshakeReply::Output(true) => match first_packet {
                    Some(packet) => requests[i] == HandshakeRequest::<C>::InjectPacket(packet),
                    None => requests[i] is SpawnIo,
                },
                HandshakeReply::Injected(Ok(_)) => requests[i] is SpawnIo,
                HandshakeReply::Injected(Err(_)) => requests[i] == HandshakeRequest::<C>::GiveUp {
                    stop_io: false,
                },
                HandshakeReply::IoRuns => match route {
                    Route::Accept => requests[i] == HandshakeRequest::<C>::AcceptPeer { timeout },
                    _ => requests[i] == HandshakeRequest::<C>::ConnectPeer {
                        timeout,
                        src_session_id: 0,
                        dst_session_id: 0,
                        conn_data: None,
                    },
                },
                HandshakeReply::Connected(Ok(id)) => requests[i] == HandshakeRequest::OpenStream(
                    id,
                ),
                HandshakeReply::Connected(Err(_)) => requests[i] == HandshakeRequest::<C>::GiveUp {
                    stop_io: true,
                },
                HandshakeReply::Stream(true) => if route is ConnectOwned {
                    requests[i] is SpawnKeeper
                } else {
                    requests[i] is HandOver
                },
                HandshakeReply::Stream(false) => requests[i] == HandshakeRequest::<C>::GiveUp {
                    stop_io: true,
                },
                HandshakeReply::KeeperRuns => requests[i] is HandOver,
            }
        }),
{
    lemma_request_at(
        Handshake::<E>::AwaitEndpoint { route, timeout, first_packet },
        replies,
        i,
    );
    lemma_stands(route, timeout, first_packet, replies.take(i));
}

/// The peer is waited for exactly as long as the caller said, by the route that was
/// taken: every request to accept or connect carries that timeout, with or without
/// a first packet; only an accepting handshake accepts and only a connecting one
/// connects, without session ids or data. And once the datagram loop runs, the
/// peer is asked for.
pub proof fn law_peer_is_given_the_time_asked_for<C, E>(
    route: Route,
    timeout: Timeout,
    first_packet: Option<BytesMut>,
    replies: Seq<HandshakeReply<C, E>>,
    i: int,
)
    requires
        (Handshake::<E>::AwaitEndpoint { route, timeout, first_packet }).expects_all(replies),
        0 <= i < replies.len(),
    ensures
        ({
            let requests = (Handshake::<E>::AwaitEndpoint {
                route,
                timeout,
                first_packet,
            }).requests(replies);
            &&& requests[i] matches HandshakeRequest::AcceptPeer { timeout: t } ==> t == timeout
                && route is Accept
            &&& requests[i] matches HandshakeRequest::ConnectPeer {
                timeout: t,
                src_session_id,
                dst_session_id,
                conn_data,
            } ==> t == timeout && route !is Accept && src_session_id == 0 && dst_session_id == 0
                && conn_data is None
            &&& replies[i] is IoRuns <==> requests[i] is AcceptPeer || requests[i] is ConnectPeer
        }),
{
    law_handshake_asks_in_order(route, timeout, first_packet, replies, i);
}

/// A handshake takes every reply of the kind that was asked for, and no other; it
/// asks for the injection only where there is a first packet, and for the keeper
/// only where the connection owns its endpoint.
pub proof fn law_handshake_takes_what_it_asked_for<C, E>(
    route: Route,
    timeout: Timeout,
    first_packet: Option<BytesMut>,
    replies: Seq<HandshakeReply<C, E>>,
    reply: HandshakeReply<C, E>,
)
    requires
        (Handshake::<E>::AwaitEndpoint { route, timeout, first_packet }).expects_all(replies),
    ensures
        ({
            let n = replies.len();
            let k: int = if first_packet is Some {
                1
            } else {
                0
            };
            let end = (Handshake::<E>::AwaitEndpoint { route, timeout, first_packet }).after(
                replies,
            );
            end.expects(reply) <==> end !is Failed && match reply {
                HandshakeReply::EndpointRuns => n == 0,
                HandshakeReply::Output(_) => n == 1,
                HandshakeReply::Injected(_) => n == 2 && first_packet is Some,
                HandshakeReply::IoRuns => n == 2 + k,
                HandshakeReply::Connected(_) => n == 3 + k,
                HandshakeReply::Stream(_) => n == 4 + k,
                HandshakeReply::KeeperRuns => n == 5 + k && route is ConnectOwned,
            }
        }),
{
    lemma_stands(route, timeout, first_packet, replies);
}

/// What a handshake comes to on its last reply: each refusal is a failure that says
/// what was refused, and passes the endpoint's own error on as it came; the stream,
/// or the keeper of a connection that owns its endpoint, makes the connection, with
/// all of its signals still to be sent; nothing else ends a handshake.
pub proof fn law_handshake_comes_to_what_was_replied<C, E>(
    route: Route,
    timeout: Timeout,
    first_packet: Option<BytesMut>,
    replies: Seq<HandshakeReply<C, E>>,
)
    requires
        (Handshake::<E>::AwaitEndpoint { route, timeout, first_packet }).expects_all(replies),
        replies.len() > 0,
    ensures
        ({
            let end = (Handshake::<E>::AwaitEndpoint { route, timeout, first_packet }).after(
                replies,
            );
            match replies.last() {
                HandshakeReply::Output(false) => end == Handshake::<E>::Failed(
                    KcpError::NoOutputReceiver,
                ),
                HandshakeReply::Injected(Err(e)) => end == Handshake::Failed(
                    KcpError::Endpoint(e),
                ),
                HandshakeReply::Connected(Err(e)) => end == Handshake::Failed(
                    KcpError::Endpoint(e),
                ),
                HandshakeReply::Stream(false) => end == Handshake::<E>::Failed(
                    KcpError::NoStream,
                ),
                HandshakeReply::Stream(true) if route !is ConnectOwned => end == Handshake::<
                    E,
                >::Established(Connection::Guarded(KcpStream { stop_sender: true })),
                HandshakeReply::KeeperRuns => end == Handshake::<E>::Established(
                    Connection::Owned(KcpConnOwned { stop_io: true, stop_ep: true }),
                ),
                _ => end !is Failed && end !is Established,
            }
        }),
{
    lemma_last_reply(Handshake::<E>::AwaitEndpoint { route, timeout, first_packet }, replies);
    lemma_stands(route, timeout, first_packet, replies.drop_last());
    lemma_stands(route, timeout, first_packet, replies);
}

/// A packet that came before the connection is handed on, whole, exactly if it is
/// at least as long as a header.
pub proof fn law_whole_first_packet_is_kept(packet: BytesMut, header_size: usize)
    ensures
        super::packet::contents(packet).len() >= header_size
            ==> super::handshake::packet_to_inject(Some(packet), header_size) == Some(packet),
        super::packet::contents(packet).len() < header_size
            ==> super::handshake::packet_to_inject(Some(packet), header_size) is None,
        super::handshake::packet_to_inject(None, header_size) is None,
{
}

} // verus!
