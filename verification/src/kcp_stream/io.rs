//! The loop that carries datagrams between a UDP socket and a KCP endpoint.
use bytes::BytesMut;
use vstd::prelude::*;
use vstd::slice::slice_subrange;

use super::packet::packet_from;

verus! {

/// The size of the receive buffer.
pub const RECEIVE_BUFFER_LEN: usize = 1500;

/// What the loop has just seen happen.
pub enum IoEvent {
    /// The stop signal came, or its sender is gone.
    Stop,
    /// The endpoint has a packet to send.
    Outgoing(BytesMut),
    /// The endpoint will have no more packets to send.
    OutgoingClosed,
    /// Sending came to its end; whether it worked.
    Sent(bool),
    /// A datagram of this length lies at the start of the receive buffer.
    Received(usize),
    /// Receiving failed.
    ReceiveFailed,
    /// The endpoint has been offered a packet; whether it still took it.
    Forwarded(bool),
    /// There is nothing left to wait for.
    Exhausted,
}

/// What the loop has to do next.
pub enum IoAction {
    /// Wait for the stop signal, an outgoing packet or a datagram.
    Wait,
    /// Send this packet on the socket.
    Send(BytesMut),
    /// Offer this packet to the endpoint.
    Forward(BytesMut),
    /// Leave the loop.
    Leave,
}

/// An event, with the bytes that it is about.
pub enum IoInput {
    Stop,
    Outgoing(Seq<u8>),
    OutgoingClosed,
    Sent(bool),
    Received(Seq<u8>),
    ReceiveFailed,
    Forwarded(bool),
    Exhausted,
}

/// An action, with the bytes that it is about.
pub enum IoWork {
    Wait,
    Send(Seq<u8>),
    Forward(Seq<u8>),
    Leave,
}

impl IoEvent {
    /// The event as seen with `buffer` as the receive buffer.
    pub open spec fn input(self, buffer: Seq<u8>) -> IoInput {
        match self {
            IoEvent::Stop => IoInput::Stop,
            IoEvent::Outgoing(packet) => IoInput::Outgoing(super::packet::contents(packet)),
            IoEvent::OutgoingClosed => IoInput::OutgoingClosed,
            IoEvent::Sent(ok) => IoInput::Sent(ok),
            IoEvent::Received(size) => IoInput::Received(buffer.take(size as int)),
            IoEvent::ReceiveFailed => IoInput::ReceiveFailed,
            IoEvent::Forwarded(ok) => IoInput::Forwarded(ok),
            IoEvent::Exhausted => IoInput::Exhausted,
        }
    }
}

impl View for IoAction {
    type V = IoWork;

    open spec fn view(&self) -> IoWork {
        match *self {
            IoAction::Wait => IoWork::Wait,
            IoAction::Send(packet) => IoWork::Send(super::packet::contents(packet)),
            IoAction::Forward(packet) => IoWork::Forward(super::packet::contents(packet)),
            IoAction::Leave => IoWork::Leave,
        }
    }
}

/// What the loop is busy with.
#[derive(Clone, Copy, Debug, PartialEq, Eq, Structural)]
pub enum IoState {
    Waiting,
    Sending,
    Forwarding,
    Left,
}

impl IoState {
    /// Whether `input` can come while the loop is in this state.
    pub open spec fn expects(self, input: IoInput) -> bool {
        match self {
            IoState::Waiting => !(input is Sent) && !(input is Forwarded),
            IoState::Sending => input is Sent,
            IoState::Forwarding => input is Forwarded,
            IoState::Left => false,
        }
    }

    /// The state after `input`, and what to do. A datagram that is too short to
    /// hold a header is dropped; a packet that the endpoint no longer takes is
    /// lost; the loop goes on in both cases.
    pub open spec fn next(self, header_size: nat, input: IoInput) -> (IoState, IoWork) {
        match input {
            IoInput::Outgoing(bytes) => (IoState::Sending, IoWork::Send(bytes)),
            IoInput::Received(bytes) => if bytes.len() >= header_size {
                (IoState::Forwarding, IoWork::Forward(bytes))
            } else {
                (IoState::Waiting, IoWork::Wait)
            },
            IoInput::OutgoingClosed | IoInput::Sent(true) | IoInput::Forwarded(_) => (
                IoState::Waiting,
                IoWork::Wait,
            ),
            IoInput::Stop
            | IoInput::Sent(false)
            | IoInput::ReceiveFailed
            | IoInput::Exhausted => (IoState::Left, IoWork::Leave),
        }
    }
}

/// The datagram loop of one connection.
pub struct IoLoop {
    state: IoState,
    header_size: usize,
}

impl IoLoop {
    /// What the loop is busy with.
    pub closed spec fn state(self) -> IoState {
        self.state
    }

    /// The length of the header that every packet starts with.
    pub closed spec fn header_size(self) -> usize {
        self.header_size
    }

    /// A loop that has just begun to wait. Every packet starts with a header of
    /// `header_size` bytes.
    pub fn new(header_size: usize) -> (io: Self)
        ensures
            io.state() is Waiting,
            io.header_size() == header_size,
    {
        IoLoop { state: IoState::Waiting, header_size }
    }

    /// Goes on with `event`; `buffer` is the receive buffer.
    pub fn step(&mut self, event: IoEvent, buffer: &[u8]) -> (action: IoAction)
        requires
            event matches IoEvent::Received(size) ==> size <= buffer@.len(),
            old(self).state().expects(event.input(buffer@)),
        ensures
            (final(self).state(), action@) == old(self).state().next(
                old(self).header_size() as nat,
                event.input(buffer@),
            ),
            final(self).header_size() == old(self).header_size(),
            event matches IoEvent::Outgoing(packet) ==> action == IoAction::Send(packet),
            event matches IoEvent::Received(size) ==> {
                &&& size >= old(self).header_size() ==> (action matches IoAction::Forward(packet)
                    && super::packet::contents(packet) == buffer@.subrange(0, size as int))
                &&& size < old(self).header_size() ==> action is Wait
            },
            event is OutgoingClosed || event == IoEvent::Sent(true) || event is Forwarded
                ==> action is Wait,
            event is Stop || event == IoEvent::Sent(false) || event is ReceiveFailed
                || event is Exhausted ==> action is Leave,
            final(self).state() == (match action {
                IoAction::Wait => IoState::Waiting,
                IoAction::Send(_) => IoState::Sending,
                IoAction::Forward(_) => IoState::Forwarding,
                IoAction::Leave => IoState::Left,
            }),
    {
        match event {
            IoEvent::Outgoing(packet) => {
                self.state = IoState::Sending;
                IoAction::Send(packet)
            },
            IoEvent::Received(size) => {
                if size >= self.header_size {
                    let packet = packet_from(slice_subrange(buffer, 0, size));
                    self.state = IoState::Forwarding;
                    IoAction::Forward(packet)
                } else {
                    self.state = IoState::Waiting;
                    IoAction::Wait
                }
            },
            IoEvent::OutgoingClosed | IoEvent::Sent(true) | IoEvent::Forwarded(_) => {
                self.state = IoState::Waiting;
                IoAction::Wait
            },
            IoEvent::Stop | IoEvent::Sent(false) | IoEvent::ReceiveFailed | IoEvent::Exhausted => {
                self.state = IoState::Left;
                IoAction::Leave
            },
        }
    }
}

impl IoState {
    /// The state after all of `inputs`, first to last.
    pub open spec fn after(self, header_size: nat, inputs: Seq<IoInput>) -> IoState
        decreases inputs.len(),
    {
        if inputs.len() == 0 {
            self
        } else {
            self.next(header_size, inputs.first()).0.after(header_size, inputs.drop_first())
        }
    }

    /// Whether each of `inputs` can come when it does.
    pub open spec fn expects_all(self, header_size: nat, inputs: Seq<IoInput>) -> bool
        decreases inputs.len(),
    {
        inputs.len() > 0 ==> {
            &&& self.expects(inputs.first())
            &&& self.next(header_size, inputs.first()).0.expects_all(
                header_size,
                inputs.drop_first(),
            )
        }
    }

    /// What is done on `inputs`, first to last.
    pub open spec fn work(self, header_size: nat, inputs: Seq<IoInput>) -> Seq<IoWork>
        decreases inputs.len(),
    {
        if inputs.len() == 0 {
            seq![]
        } else {
            let (next, work) = self.next(header_size, inputs.first());
            seq![work] + next.work(header_size, inputs.drop_first())
        }
    }
}

/// The datagrams among `inputs` that are long enough to hold a header.
pub open spec fn whole_datagrams(header_size: nat, inputs: Seq<IoInput>) -> Seq<Seq<u8>>
    decreases inputs.len(),
{
    if inputs.len() == 0 {
        seq![]
    } else {
        let rest = whole_datagrams(header_size, inputs.drop_first());
        match inputs.first() {
            IoInput::Received(bytes) if bytes.len() >= header_size => seq![bytes] + rest,
            _ => rest,
        }
    }
}

/// The packets among `inputs` that the endpoint had to send.
pub open spec fn outgoing_packets(inputs: Seq<IoInput>) -> Seq<Seq<u8>>
    decreases inputs.len(),
{
    if inputs.len() == 0 {
        seq![]
    } else {
        let rest = outgoing_packets(inputs.drop_first());
        match inputs.first() {
            IoInput::Outgoing(bytes) => seq![bytes] + rest,
            _ => rest,
        }
    }
}

/// The packets that `work` offers to the endpoint.
pub open spec fn forwarded(work: Seq<IoWork>) -> Seq<Seq<u8>>
    decreases work.len(),
{
    if work.len() == 0 {
        seq![]
    } else {
        match work.first() {
            IoWork::Forward(bytes) => seq![bytes] + forwarded(work.drop_first()),
            _ => forwarded(work.drop_first()),
        }
    }
}

/// The packets that `work` sends on the socket.
pub open spec fn sent(work: Seq<IoWork>) -> Seq<Seq<u8>>
    decreases work.len(),
{
    if work.len() == 0 {
        seq![]
    } else {
        match work.first() {
            IoWork::Send(bytes) => seq![bytes] + sent(work.drop_first()),
            _ => sent(work.drop_first()),
        }
    }
}

/// Whether `input` ends the loop: the stop signal, a failure to send or to
/// receive, or nothing left to wait for.
pub open spec fn ends_loop(input: IoInput) -> bool {
    input is Stop || input == IoInput::Sent(false) || input is ReceiveFailed || input is Exhausted
}

/// The loop carries datagrams unchanged, in order and without loss or doubling:
/// to the endpoint, every datagram that is long enough to hold a header and no
/// other; to the socket, every packet that the endpoint had to send.
pub proof fn law_loop_carries_every_packet(
    state: IoState,
    header_size: nat,
    inputs: Seq<IoInput>,
)
    requires
        state.expects_all(header_size, inputs),
    ensures
        forwarded(state.work(header_size, inputs)) == whole_datagrams(header_size, inputs),
        sent(state.work(header_size, inputs)) == outgoing_packets(inputs),
    decreases inputs.len(),
{
    if inputs.len() > 0 {
        let (next, work) = state.next(header_size, inputs.first());
        let rest = next.work(header_size, inputs.drop_first());
        law_loop_carries_every_packet(next, header_size, inputs.drop_first());
        assert((seq![work] + rest).drop_first() =~= rest);
    }
}

/// The loop is left exactly on the stop signal, on a failure to send or to
/// receive, or when nothing is left to wait for; and nothing comes after that.
pub proof fn law_loop_ends_on_stop_or_failure(
    state: IoState,
    header_size: nat,
    inputs: Seq<IoInput>,
)
    requires
        state.expects_all(header_size, inputs),
        inputs.len() > 0,
    ensures
        state.after(header_size, inputs) is Left <==> ends_loop(inputs.last()),
        forall|i: int| 0 <= i < inputs.len() - 1 ==> !ends_loop(#[trigger] inputs[i]),
    decreases inputs.len(),
{
    let next = state.next(header_size, inputs.first()).0;
    let rest = inputs.drop_first();
    if rest.len() > 0 {
        law_loop_ends_on_stop_or_failure(next, header_size, rest);
        assert forall|i: int| 0 <= i < inputs.len() - 1 implies !ends_loop(
            #[trigger] inputs[i],
        ) by {
            if i > 0 {
                assert(inputs[i] == rest[i - 1]);
            } else {
                assert(next.expects_all(header_size, rest));
                assert(next.expects(rest.first()));
            }
        }
    } else {
        assert(next.after(header_size, rest) == next);
    }
}

/// What the loop does on each event, whatever came before: a packet of the endpoint
/// is sent as it is; a datagram at least as long as a header is offered to the
/// endpoint as it is, and a shorter one is dropped; the stop signal, a failure to
/// send or receive, or nothing left to wait for, ends the loop; and on anything else
/// the loop just waits on.
pub proof fn law_loop_answers_each_event(
    state: IoState,
    header_size: nat,
    inputs: Seq<IoInput>,
    i: int,
)
    requires
        state.expects_all(header_size, inputs),
        0 <= i < inputs.len(),
    ensures
        state.work(header_size, inputs).len() == inputs.len(),
        match inputs[i] {
            IoInput::Outgoing(packet) => state.work(header_size, inputs)[i] == IoWork::Send(
                packet,
            ),
            IoInput::Received(datagram) => state.work(header_size, inputs)[i] == (
            if datagram.len() >= header_size {
                IoWork::Forward(datagram)
            } else {
                IoWork::Wait
            }),
            IoInput::OutgoingClosed => state.work(header_size, inputs)[i] is Wait,
            IoInput::Forwarded(_) => state.work(header_size, inputs)[i] is Wait,
            IoInput::Sent(ok) => if ok {
                state.work(header_size, inputs)[i] is Wait
            } else {
                state.work(header_size, inputs)[i] is Leave
            },
            IoInput::Stop => state.work(header_size, inputs)[i] is Leave,
            IoInput::ReceiveFailed => state.work(header_size, inputs)[i] is Leave,
            IoInput::Exhausted => state.work(header_size, inputs)[i] is Leave,
        },
    decreases inputs.len(),
{
    let (next, work) = state.next(header_size, inputs.first());
    let rest = inputs.drop_first();
    let tail = next.work(header_size, rest);
    assert(state.work(header_size, inputs) == seq![work] + tail);
    if rest.len() > 0 {
        law_loop_answers_each_event(
            next,
            header_size,
            rest,
            if i > 0 {
                i - 1
            } else {
                0
            },
        );
        if i > 0 {
            assert(inputs[i] == rest[i - 1]);
            assert((seq![work] + tail)[i] == tail[i - 1]);
        }
    } else {
        assert(tail.len() == 0);
    }
}

/// What the loop is ready for after an event depends on what it then does: while
/// sending, only for how that went; while offering a packet to the endpoint, only
/// for whether it was taken; while waiting, for all but those two; and for nothing
/// once it has left.
pub proof fn law_loop_is_ready_for_what_it_awaits(
    state: IoState,
    header_size: nat,
    input: IoInput,
    later: IoInput,
)
    requires
        state.expects(input),
    ensures
        ({
            let (next, work) = state.next(header_size, input);
            next.expects(later) <==> match work {
                IoWork::Wait => later !is Sent && later !is Forwarded,
                IoWork::Send(_) => later is Sent,
                IoWork::Forward(_) => later is Forwarded,
                IoWork::Leave => false,
            }
        }),
        IoState::Waiting.expects(later) <==> later !is Sent && later !is Forwarded,
{
}

/// A datagram is what lies at the start of the receive buffer: as many bytes as came,
/// each where it was received. A packet stands for the bytes that it holds.
pub proof fn law_datagram_is_what_was_received(size: usize, packet: BytesMut, buffer: Seq<u8>)
    requires
        size <= buffer.len(),
    ensures
        IoEvent::Received(size).input(buffer) matches IoInput::Received(datagram)
            && datagram.len() == size && forall|k: int|
            0 <= k < size ==> #[trigger] datagram[k] == buffer[k],
        IoEvent::Outgoing(packet).input(buffer) == IoInput::Outgoing(
            super::packet::contents(packet),
        ),
        IoAction::Send(packet)@ == IoWork::Send(super::packet::contents(packet)),
        IoAction::Forward(packet)@ == IoWork::Forward(super::packet::contents(packet)),
{
}

} // verus!
