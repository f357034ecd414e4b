//! The course of a setup, told by the replies alone: what is asked for and when,
//! what is done on the way, and what it all comes to.
use vstd::prelude::*;

use super::refs::Effect;
use super::setup::{Reply, Request, Setup, SetupError, SetupParams};
use super::Capturer;

verus! {

impl Setup {
    /// What is done on the last of `replies`.
    pub open spec fn last_effects(self, replies: Seq<Reply>) -> Seq<Effect> {
        self.after(replies.drop_last()).next(replies.last()).1
    }
}

/// The last reply comes after all the others.
proof fn lemma_last_reply(setup: Setup, replies: Seq<Reply>)
    requires
        replies.len() > 0,
    ensures
        setup.after(replies) == setup.after(replies.drop_last()).next(replies.last()).0,
        setup.expects_all(replies) <==> setup.expects_all(replies.drop_last()) && setup.after(
            replies.drop_last(),
        ).expects(replies.last()),
    decreases replies.len(),
{
    let next = setup.next(replies.first()).0;
    let rest = replies.drop_first();
    if rest.len() > 0 {
        lemma_last_reply(next, rest);
        assert(rest.drop_last() =~= replies.drop_last().drop_first());
        assert(replies.drop_last().first() == replies.first());
        assert(rest.last() == replies.last());
    } else {
        assert(next.after(rest) == next);
        assert(next.expects_all(rest));
        assert(replies.drop_last().len() == 0);
    }
}

/// Whether the first `n` steps have gone well.
spec fn went_well(params: SetupParams, replies: Seq<Reply>, n: nat) -> bool {
    &&& replies.len() >= n
    &&& n >= 1 ==> (replies[0] matches Reply::Content(Ok(shared)) && super::setup::chosen_display(
        shared.displays@,
        params.display_id,
    ) != 0)
    &&& n >= 2 ==> replies[1] is Address && replies[1]->Address_0 != 0
    &&& n >= 3 ==> replies[2] is Address && replies[2]->Address_0 != 0
    &&& n >= 4 ==> replies[3] is Address
    &&& n >= 5 ==> replies[4] is Address
    &&& n >= 6 ==> replies[5] is Address && replies[5]->Address_0 != 0
    &&& n >= 7 ==> replies[6] is Address
    &&& n >= 8 ==> (replies[7] matches Reply::Added(Ok(_)))
    &&& n >= 9 ==> (replies[8] matches Reply::Started(Ok(_)))
}

/// The capturer that is made of the replies.
spec fn made_of(replies: Seq<Reply>) -> Capturer {
    Capturer {
        stream: replies[5]->Address_0,
        filter: replies[1]->Address_0,
        config: replies[2]->Address_0,
        output: replies[4]->Address_0,
        queue: replies[6]->Address_0,
        slot_raw: replies[3]->Address_0,
    }
}

/// Whether `end` is where a setup that has not failed stands after `replies`.
spec fn stands_at(params: SetupParams, replies: Seq<Reply>, end: Setup) -> bool {
    match end {
        Setup::AwaitContent { params: p } => p == params && replies.len() == 0,
        Setup::AwaitFilter { params: p, target } => {
            &&& p == params
            &&& replies.len() == 1
            &&& replies[0] matches Reply::Content(Ok(shared))
            &&& target == super::setup::chosen_display(shared.displays@, params.display_id)
        },
        Setup::AwaitConfig { params: p, filter } => {
            &&& p == params
            &&& replies.len() == 2
            &&& filter == replies[1]->Address_0
        },
        Setup::AwaitSlot { filter, config } => {
            &&& replies.len() == 3
            &&& filter == replies[1]->Address_0
            &&& config == replies[2]->Address_0
        },
        Setup::AwaitOutput { filter, config, slot } => {
            &&& replies.len() == 4
            &&& filter == replies[1]->Address_0
            &&& config == replies[2]->Address_0
            &&& slot == replies[3]->Address_0
        },
        Setup::AwaitStream { filter, config, slot, output } => {
            &&& replies.len() == 5
            &&& filter == replies[1]->Address_0
            &&& config == replies[2]->Address_0
            &&& slot == replies[3]->Address_0
            &&& output == replies[4]->Address_0
        },
        Setup::AwaitQueue { filter, config, slot, output, stream } => {
            &&& replies.len() == 6
            &&& filter == replies[1]->Address_0
            &&& config == replies[2]->Address_0
            &&& slot == replies[3]->Address_0
            &&& output == replies[4]->Address_0
            &&& stream == replies[5]->Address_0
        },
        Setup::AwaitAdded { capturer } => replies.len() == 7 && capturer == made_of(replies),
        Setup::AwaitStarted { capturer } => replies.len() == 8 && capturer == made_of(replies),
        Setup::Running(capturer) => replies.len() == 9 && capturer == made_of(replies),
        Setup::Failed(_) => false,
    }
}

/// Whether the last of `replies` makes a setup fail, with `error`.
spec fn fails_with(params: SetupParams, replies: Seq<Reply>, error: SetupError) -> bool {
    ||| replies.len() == 1 && replies[0] == Reply::Content(Err(error))
    ||| replies.len() == 1 && error is NoDisplay && (replies[0] matches Reply::Content(Ok(shared))
        && super::setup::chosen_display(shared.displays@, params.display_id) == 0)
    ||| replies.len() == 2 && replies[1] == Reply::Address(0) && error is FilterInit
    ||| replies.len() == 3 && replies[2] == Reply::Address(0) && error is ConfigInit
    ||| replies.len() == 6 && replies[5] == Reply::Address(0) && error is StreamInit
    ||| replies.len() == 8 && replies[7] == Reply::Added(Err(error))
    ||| replies.len() == 9 && replies[8] == Reply::Started(Err(error))
}

/// Where a setup stands after `replies`.
proof fn lemma_course(params: SetupParams, replies: Seq<Reply>)
    requires
        (Setup::AwaitContent { params }).expects_all(replies),
    ensures
        ({
            let end = (Setup::AwaitContent { params }).after(replies);
            match end {
                Setup::Failed(error) => {
                    &&& replies.len() > 0
                    &&& went_well(params, replies.drop_last(), (replies.len() - 1) as nat)
                    &&& fails_with(params, replies, error)
                },
                _ => went_well(params, replies, replies.len()) && stands_at(params, replies, end),
            }
        }),
    decreases replies.len(),
{
    let start = Setup::AwaitContent { params };
    if replies.len() > 0 {
        let before = replies.drop_last();
        lemma_last_reply(start, replies);
        lemma_course(params, before);
        assert(forall|i: int| 0 <= i < before.len() ==> before[i] == replies[i]);
    }
}

/// A setup asks for nine things, each only once all before it went well, and each
/// time for what the replies so far have made: the shareable content; a filter of
/// the chosen display that leaves no window out; a configuration; the delegate's
/// share of the frame slot; a delegate that holds just that share; a stream of the
/// filter and the configuration, without a delegate of its own; a queue; to attach
/// the delegate as a screen output on that queue; and to start the stream. Then it
/// runs, and the stream is made of the objects that were asked for.
pub proof fn law_setup_asks_in_order(params: SetupParams, replies: Seq<Reply>)
    requires
        (Setup::AwaitContent { params }).expects_all(replies),
        (Setup::AwaitContent { params }).after(replies) !is Failed,
    ensures
        ({
            let n = replies.len();
            let end = (Setup::AwaitContent { params }).after(replies);
            &&& n <= 9
            &&& n == 0 ==> end.pending() == Some(Request::GetShareableContent { timeout_secs: 10 })
            &&& n == 1 ==> {
                &&& replies[0] matches Reply::Content(Ok(shared))
                &&& end.pending() == Some(
                    Request::InitFilter {
                        display: super::setup::chosen_display(
                            shared.displays@,
                            params.display_id,
                        ),
                        excluded_windows: 0,
                    },
                )
            }
            &&& n == 2 ==> end.pending() == Some(Request::InitConfig)
            &&& n == 3 ==> end.pending() == Some(Request::ShareSlot)
            &&& n == 4 ==> end.pending() == Some(
                Request::CreateOutput { slot: replies[3]->Address_0 },
            )
            &&& n == 5 ==> end.pending() == Some(
                Request::InitStream {
                    filter: replies[1]->Address_0,
                    config: replies[2]->Address_0,
                    delegate: 0,
                },
            )
            &&& n == 6 ==> {
                &&& end.pending() matches Some(Request::CreateQueue { label })
                &&& label@ == "io.rentamac.sck.capture"@
            }
            &&& n == 7 ==> end.pending() == Some(
                Request::AddOutput {
                    stream: replies[5]->Address_0,
                    output: replies[4]->Address_0,
                    output_type: 0,
                    queue: replies[6]->Address_0,
                },
            )
            &&& n == 8 ==> end.pending() == Some(
                Request::StartCapture { stream: replies[5]->Address_0, timeout_secs: 10 },
            )
            &&& n == 9 ==> end.pending() is None && end == Setup::Running(
                Capturer {
                    stream: replies[5]->Address_0,
                    filter: replies[1]->Address_0,
                    config: replies[2]->Address_0,
                    output: replies[4]->Address_0,
                    queue: replies[6]->Address_0,
                    slot_raw: replies[3]->Address_0,
                },
            )
        }),
{
    lemma_course(params, replies);
}

/// A setup takes every reply of the kind that was asked for, and no other: the
/// content first, the outcomes of attaching and of starting last, and an address,
/// nil or not, each time in between. Once it has failed or runs it takes none.
pub proof fn law_setup_takes_what_it_asked_for(
    params: SetupParams,
    replies: Seq<Reply>,
    reply: Reply,
)
    requires
        (Setup::AwaitContent { params }).expects_all(replies),
    ensures
        ({
            let n = replies.len();
            let end = (Setup::AwaitContent { params }).after(replies);
            end.expects(reply) <==> end !is Failed && match reply {
                Reply::Content(_) => n == 0,
                Reply::Address(_) => 1 <= n <= 6,
                Reply::Added(_) => n == 7,
                Reply::Started(_) => n == 8,
            }
        }),
{
    lemma_course(params, replies);
}

/// A setup fails exactly where a step it cannot do without went wrong, and says
/// which: no content, no display to capture, or no filter, configuration or
/// stream; or an output that could not be attached or a stream that did not start.
/// An error that came with a reply is passed on as it came. Nil for the slot, the
/// delegate or the queue is no failure.
pub proof fn law_setup_fails_where_a_step_did(params: SetupParams, replies: Seq<Reply>)
    requires
        (Setup::AwaitContent { params }).expects_all(replies),
        replies.len() > 0,
    ensures
        ({
            let n = replies.len();
            let end = (Setup::AwaitContent { params }).after(replies);
            match replies.last() {
                Reply::Content(Err(e)) => end == Setup::Failed(e),
                Reply::Content(Ok(shared)) => {
                    if super::setup::chosen_display(shared.displays@, params.display_id) == 0 {
                        end == Setup::Failed(SetupError::NoDisplay)
                    } else {
                        end !is Failed
                    }
                },
                Reply::Address(object) => {
                    if object == 0 && n == 2 {
                        end == Setup::Failed(SetupError::FilterInit)
                    } else if object == 0 && n == 3 {
                        end == Setup::Failed(SetupError::ConfigInit)
                    } else if object == 0 && n == 6 {
                        end == Setup::Failed(SetupError::StreamInit)
                    } else {
                        end !is Failed
                    }
                },
                Reply::Added(Err(e)) => end == Setup::Failed(e),
                Reply::Started(Err(e)) => end == Setup::Failed(e),
                Reply::Added(Ok(_)) => end !is Failed,
                Reply::Started(Ok(_)) => end !is Failed,
            }
        }),
{
    let start = Setup::AwaitContent { params };
    lemma_last_reply(start, replies);
    lemma_course(params, replies);
    lemma_course(params, replies.drop_last());
}

/// What a setup does on the way: it keeps the chosen display while it lets the
/// content go, and lets the display go once the filter is there; and where a step
/// fails it gives back all that the steps before made, the slot last. Nothing else
/// is done, but for filling in the configuration.
pub proof fn law_setup_undoes_what_it_did(params: SetupParams, replies: Seq<Reply>)
    requires
        (Setup::AwaitContent { params }).expects_all(replies),
        replies.len() > 0,
    ensures
        ({
            let n = replies.len();
            let effects = (Setup::AwaitContent { params }).last_effects(replies);
            let shared = replies[0]->Content_0->Ok_0;
            let target = super::setup::chosen_display(shared.displays@, params.display_id);
            let filter = replies[1]->Address_0;
            let config = replies[2]->Address_0;
            let slot = replies[3]->Address_0;
            let output = replies[4]->Address_0;
            let stream = replies[5]->Address_0;
            &&& n == 1 && (replies[0] matches Reply::Content(Err(_))) ==> effects.len() == 0
            &&& n == 1 && (replies[0] matches Reply::Content(Ok(_))) ==> effects == (if target
                == 0 {
                seq![Effect::Release(shared.content)]
            } else {
                seq![Effect::Retain(target), Effect::Release(shared.content)]
            })
            &&& n == 2 ==> effects == seq![Effect::Release(target)]
            &&& n == 3 && config == 0 ==> effects == seq![Effect::Release(filter)]
            &&& n == 3 && config != 0 ==> effects.len() == 1 && effects[0] is Configure
            &&& n == 4 || n == 5 || n == 7 ==> effects.len() == 0
            &&& n == 6 && stream != 0 ==> effects.len() == 0
            &&& n == 6 && stream == 0 ==> effects == seq![
                Effect::Release(output),
                Effect::Release(config),
                Effect::Release(filter),
                Effect::ReclaimSlot(slot),
            ]
            &&& n >= 8 && (replies.last() matches Reply::Added(Ok(_))) ==> effects.len() == 0
            &&& n >= 8 && (replies.last() matches Reply::Started(Ok(_))) ==> effects.len() == 0
            &&& n >= 8 && ((replies.last() matches Reply::Added(Err(_))) || (
            replies.last() matches Reply::Started(Err(_)))) ==> effects == seq![
                Effect::Release(stream),
                Effect::Release(output),
                Effect::Release(config),
                Effect::Release(filter),
                Effect::ReclaimSlot(slot),
            ]
        }),
{
    let start = Setup::AwaitContent { params };
    let before = replies.drop_last();
    lemma_last_reply(start, replies);
    lemma_course(params, before);
    lemma_course(params, replies);
    assert(forall|i: int| 0 <= i < before.len() ==> before[i] == replies[i]);
}

/// A stream is set up as its caller asked: the new configuration, and nothing
/// else, is filled in, once, with the size that was given, 32-bit BGRA pixels, six
/// frames of queue, the cursor drawn exactly if that was wanted, and a shortest
/// frame interval of one `max_fps`th of a second.
pub proof fn law_stream_is_configured_as_asked(params: SetupParams, replies: Seq<Reply>, k: int)
    requires
        (Setup::AwaitContent { params }).expects_all(replies),
        replies.len() > 0,
        0 <= k < (Setup::AwaitContent { params }).last_effects(replies).len(),
    ensures
        replies.len() == 3 && replies[2] != Reply::Address(0) <==> (Setup::AwaitContent {
            params,
        }).last_effects(replies)[k] is Configure,
        (Setup::AwaitContent { params }).last_effects(replies)[k] matches Effect::Configure {
            config,
            settings,
        } ==> {
            &&& replies[2] == Reply::Address(config)
            &&& settings.width == params.width as isize
            &&& settings.height == params.height as isize
            &&& params.width <= isize::MAX ==> settings.width == params.width
            &&& params.height <= isize::MAX ==> settings.height == params.height
            &&& settings.pixel_format == 0x4247_5241
            &&& settings.queue_depth == 6
            &&& params.show_cursor ==> settings.shows_cursor == 1
            &&& !params.show_cursor ==> settings.shows_cursor == 0
            &&& settings.minimum_frame_interval.value == 1
            &&& settings.minimum_frame_interval.flags == 1
            &&& settings.minimum_frame_interval.epoch == 0
            &&& 1 <= params.max_fps <= i32::MAX ==> settings.minimum_frame_interval.timescale
                == params.max_fps
            &&& params.max_fps == 0 ==> settings.minimum_frame_interval.timescale == 1
            &&& params.max_fps > i32::MAX ==> settings.minimum_frame_interval.timescale
                == i32::MAX
        },
{
    let start = Setup::AwaitContent { params };
    let before = replies.drop_last();
    lemma_last_reply(start, replies);
    lemma_course(params, before);
    lemma_course(params, replies);
    law_setup_undoes_what_it_did(params, replies);
    assert(forall|i: int| 0 <= i < before.len() ==> before[i] == replies[i]);
}

} // verus!
