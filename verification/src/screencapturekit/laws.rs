//! What holds of every setup and teardown, whatever the outside steps reply.
use vstd::multiset::Multiset;
use vstd::prelude::*;

use super::refs;
use super::refs::{Effect, Reference};
use super::setup::{Reply, ScDisplay, Setup, SetupParams};
use super::{Capturer, Handle};

verus! {

broadcast use vstd::multiset::group_multiset_axioms;

impl Setup {
    /// The counted references that a setup owns in this state.
    pub open spec fn owned(self) -> Multiset<Reference> {
        match self {
            Setup::AwaitContent { .. } => Multiset::empty(),
            Setup::AwaitFilter { target, .. } => refs::object_ref(target),
            Setup::AwaitConfig { filter, .. } => refs::object_ref(filter),
            Setup::AwaitSlot { filter, config } => refs::object_ref(config).add(
                refs::object_ref(filter),
            ),
            Setup::AwaitOutput { filter, config, slot } => refs::object_ref(config).add(
                refs::object_ref(filter),
            ).add(refs::slot_ref(slot)),
            Setup::AwaitStream { filter, config, slot, output } => refs::object_ref(
                output,
            ).add(refs::object_ref(config)).add(refs::object_ref(filter)).add(
                refs::slot_ref(slot),
            ),
            Setup::AwaitQueue { filter, config, slot, output, stream } => Capturer {
                stream,
                filter,
                config,
                output,
                queue: 0,
                slot_raw: slot,
            }.owned(),
            Setup::AwaitAdded { capturer } => capturer.owned(),
            Setup::AwaitStarted { capturer } => capturer.owned(),
            Setup::Running(capturer) => capturer.owned(),
            Setup::Failed(_) => Multiset::empty(),
        }
    }

    /// The counted references that come with `reply`: the retained content, a
    /// new object, or the delegate's share of the frame slot. The dispatch queue
    /// is not counted; it is never given back.
    pub open spec fn gained(self, reply: Reply) -> Multiset<Reference> {
        match (self, reply) {
            (Setup::AwaitContent { .. }, Reply::Content(Ok(shared))) => refs::object_ref(
                shared.content,
            ),
            (Setup::AwaitSlot { .. }, Reply::Address(slot)) => refs::slot_ref(slot),
            (Setup::AwaitQueue { .. }, _) => Multiset::empty(),
            (_, Reply::Address(object)) => refs::object_ref(object),
            _ => Multiset::empty(),
        }
    }

    /// The state after all of `replies`, first to last.
    pub open spec fn after(self, replies: Seq<Reply>) -> Setup
        decreases replies.len(),
    {
        if replies.len() == 0 {
            self
        } else {
            self.next(replies.first()).0.after(replies.drop_first())
        }
    }

    /// Whether each of `replies` answers the step that was waited for.
    pub open spec fn expects_all(self, replies: Seq<Reply>) -> bool
        decreases replies.len(),
    {
        replies.len() > 0 ==> {
            &&& self.expects(replies.first())
            &&& self.next(replies.first()).0.expects_all(replies.drop_first())
        }
    }

    /// The references still owned after `replies`, counted from the outside: what
    /// came with each reply, less what each effect gave up.
    pub open spec fn ledger(self, replies: Seq<Reply>, owned: Multiset<Reference>) -> Multiset<
        Reference,
    >
        decreases replies.len(),
    {
        if replies.len() == 0 {
            owned
        } else {
            let (next, effects) = self.next(replies.first());
            next.ledger(
                replies.drop_first(),
                refs::owned_after(effects, owned.add(self.gained(replies.first()))),
            )
        }
    }

    /// No effect on the way gives up a reference that is not owned at that point.
    pub open spec fn never_over_releases(
        self,
        replies: Seq<Reply>,
        owned: Multiset<Reference>,
    ) -> bool
        decreases replies.len(),
    {
        replies.len() > 0 ==> {
            let (next, effects) = self.next(replies.first());
            let held = owned.add(self.gained(replies.first()));
            &&& refs::only_gives_up_owned(effects, held)
            &&& next.never_over_releases(
                replies.drop_first(),
                refs::owned_after(effects, held),
            )
        }
    }

    /// The number of replies that a setup in this state can still take.
    pub open spec fn replies_left(self) -> nat {
        match self {
            Setup::AwaitContent { .. } => 9,
            Setup::AwaitFilter { .. } => 8,
            Setup::AwaitConfig { .. } => 7,
            Setup::AwaitSlot { .. } => 6,
            Setup::AwaitOutput { .. } => 5,
            Setup::AwaitStream { .. } => 4,
            Setup::AwaitQueue { .. } => 3,
            Setup::AwaitAdded { .. } => 2,
            Setup::AwaitStarted { .. } => 1,
            Setup::Running(_) => 0,
            Setup::Failed(_) => 0,
        }
    }
}

/// The first effect settled, the rest go on from what is then owned.
proof fn lemma_first_effect(first: Effect, rest: Seq<Effect>, owned: Multiset<Reference>)
    ensures
        refs::owned_after(seq![first] + rest, owned) == refs::owned_after(
            rest,
            owned.sub(first.given_up()).add(first.taken()),
        ),
        refs::only_gives_up_owned(seq![first] + rest, owned) <==> (
        first.given_up().subset_of(owned) && refs::only_gives_up_owned(
            rest,
            owned.sub(first.given_up()).add(first.taken()),
        )),
{
    assert((seq![first] + rest).drop_first() =~= rest);
    assert((seq![first] + rest).first() == first);
}

/// Settling a single effect.
proof fn lemma_last_effect(last: Effect, owned: Multiset<Reference>)
    requires
        last.given_up().subset_of(owned),
    ensures
        refs::owned_after(seq![last], owned) == owned.sub(last.given_up()).add(last.taken()),
        refs::only_gives_up_owned(seq![last], owned),
{
    assert(seq![last] + Seq::<Effect>::empty() =~= seq![last]);
    lemma_first_effect(last, seq![], owned);
}

/// Three objects and the slot, given up in this order, leave what else was owned.
proof fn lemma_give_up_parts(
    output: Handle,
    config: Handle,
    filter: Handle,
    slot: Handle,
)
    ensures
        ({
            let owned = refs::object_ref(output).add(refs::object_ref(config)).add(
                refs::object_ref(filter),
            ).add(refs::slot_ref(slot));
            let effects = seq![
                Effect::Release(output),
                Effect::Release(config),
                Effect::Release(filter),
                Effect::ReclaimSlot(slot),
            ];
            &&& refs::only_gives_up_owned(effects, owned)
            &&& refs::owned_after(effects, owned) == Multiset::<Reference>::empty()
        }),
{
    let o = refs::object_ref(output);
    let c = refs::object_ref(config);
    let f = refs::object_ref(filter);
    let s = refs::slot_ref(slot);
    let fourth = seq![Effect::ReclaimSlot(slot)];
    let third = seq![Effect::Release(filter)] + fourth;
    let second = seq![Effect::Release(config)] + third;
    let all = seq![Effect::Release(output)] + second;
    assert(all =~= seq![
        Effect::Release(output),
        Effect::Release(config),
        Effect::Release(filter),
        Effect::ReclaimSlot(slot),
    ]);
    let none = Multiset::<Reference>::empty();
    let owned = o.add(c).add(f).add(s);
    lemma_first_effect(Effect::Release(output), second, owned);
    assert(owned.sub(o).add(none) =~= c.add(f).add(s));
    lemma_first_effect(Effect::Release(config), third, c.add(f).add(s));
    assert(c.add(f).add(s).sub(c).add(none) =~= f.add(s));
    lemma_first_effect(Effect::Release(filter), fourth, f.add(s));
    assert(f.add(s).sub(f).add(none) =~= s);
    lemma_last_effect(Effect::ReclaimSlot(slot), s);
    assert(s.sub(s).add(none) =~= none);
}

/// One step keeps the books: what the next state owns is what this one owned and
/// what came with the reply, less what was given up; and only what is owned is
/// given up.
pub proof fn law_step_keeps_the_books(setup: Setup, reply: Reply)
    requires
        setup.expects(reply),
    ensures
        refs::only_gives_up_owned(
            setup.next(reply).1,
            setup.owned().add(setup.gained(reply)),
        ),
        refs::owned_after(setup.next(reply).1, setup.owned().add(setup.gained(reply)))
            == setup.next(reply).0.owned(),
{
    let (next, effects) = setup.next(reply);
    let gained = setup.gained(reply);
    let held = setup.owned().add(gained);
    let none = Multiset::<Reference>::empty();
    assert(effects.len() == 0 ==> refs::owned_after(effects, held) == held);
    match (setup, reply) {
        (Setup::AwaitContent { params }, Reply::Content(Ok(shared))) => {
            let target = super::setup::chosen_display(shared.displays@, params.display_id);
            let content = Effect::Release(shared.content);
            assert(held =~= gained);
            if target == 0 {
                lemma_last_effect(content, held);
            } else {
                let both = held.add(refs::object_ref(target));
                assert(effects =~= seq![Effect::Retain(target)] + seq![content]);
                lemma_first_effect(Effect::Retain(target), seq![content], held);
                assert(held.sub(none).add(refs::object_ref(target)) =~= both);
                lemma_last_effect(content, both);
            }
        },
        (Setup::AwaitFilter { target, .. }, _) => {
            lemma_last_effect(Effect::Release(target), held);
        },
        (Setup::AwaitConfig { filter, .. }, Reply::Address(config)) => {
            lemma_last_effect(effects[0], held);
            assert(effects =~= seq![effects[0]]);
        },
        (Setup::AwaitStream { filter, config, slot, output }, Reply::Address(stream)) => {
            if stream == 0 {
                lemma_give_up_parts(output, config, filter, slot);
                assert(held =~= setup.owned());
            }
        },
        (Setup::AwaitAdded { capturer }, Reply::Added(Err(_))) => {
            assert(held =~= capturer.owned());
            lemma_abandon_gives_up_all(capturer);
        },
        (Setup::AwaitStarted { capturer }, Reply::Started(Err(_))) => {
            assert(held =~= capturer.owned());
            lemma_abandon_gives_up_all(capturer);
        },
        _ => {},
    }
    assert(refs::owned_after(effects, held) =~= next.owned());
}

/// Giving up a stream that was not seen to start gives up exactly what it owned.
proof fn lemma_abandon_gives_up_all(capturer: Capturer)
    ensures
        refs::only_gives_up_owned(capturer.abandoned(), capturer.owned()),
        refs::owned_after(capturer.abandoned(), capturer.owned()) == Multiset::<
            Reference,
        >::empty(),
{
    let stream = refs::object_ref(capturer.stream);
    let parts = refs::object_ref(capturer.output).add(
        refs::object_ref(capturer.config),
    ).add(refs::object_ref(capturer.filter)).add(refs::slot_ref(capturer.slot_raw));
    let rest = seq![
        Effect::Release(capturer.output),
        Effect::Release(capturer.config),
        Effect::Release(capturer.filter),
        Effect::ReclaimSlot(capturer.slot_raw),
    ];
    assert(capturer.abandoned() =~= seq![Effect::Release(capturer.stream)] + rest);
    lemma_first_effect(Effect::Release(capturer.stream), rest, capturer.owned());
    assert(capturer.owned().sub(stream).add(Multiset::empty()) =~= parts);
    lemma_give_up_parts(capturer.output, capturer.config, capturer.filter, capturer.slot_raw);
}

/// The reference that a setup counts as its own when the content comes is the one
/// that the completion handler took.
pub proof fn law_content_reference_is_the_handlers(params: SetupParams, reply: Reply)
    requires
        reply matches Reply::Content(Ok(_)),
    ensures
        reply matches Reply::Content(Ok(shared)) ==> (Setup::AwaitContent { params }).gained(reply)
            == refs::owned_after(
            super::setup::retained_by_handler(shared.content),
            Multiset::empty(),
        ),
{
    if let Reply::Content(Ok(shared)) = reply {
        if shared.content != 0 {
            lemma_last_effect(Effect::Retain(shared.content), Multiset::empty());
        }
        assert((Setup::AwaitContent { params }).gained(reply) =~= refs::owned_after(
            super::setup::retained_by_handler(shared.content),
            Multiset::empty(),
        ));
    }
}

/// The books are kept along any run of replies.
proof fn lemma_run_keeps_the_books(setup: Setup, replies: Seq<Reply>)
    requires
        setup.expects_all(replies),
    ensures
        setup.ledger(replies, setup.owned()) == setup.after(replies).owned(),
        setup.never_over_releases(replies, setup.owned()),
    decreases replies.len(),
{
    if replies.len() > 0 {
        law_step_keeps_the_books(setup, replies.first());
        lemma_run_keeps_the_books(setup.next(replies.first()).0, replies.drop_first());
    }
}

/// Whatever the outside steps reply, a setup never releases what it does not
/// own, and at every point owns what its state says: nothing at all once it has
/// failed, and one reference to each of the stream's four objects and to the
/// frame slot once it runs.
pub proof fn law_setup_neither_leaks_nor_over_releases(params: SetupParams, replies: Seq<Reply>)
    requires
        (Setup::AwaitContent { params }).expects_all(replies),
    ensures
        ({
            let start = Setup::AwaitContent { params };
            let end = start.after(replies);
            let left = start.ledger(replies, Multiset::empty());
            &&& start.never_over_releases(replies, Multiset::empty())
            &&& left == end.owned()
            &&& end is Failed ==> left == Multiset::<Reference>::empty()
            &&& end matches Setup::Running(capturer) ==> left == capturer.owned()
        }),
{
    let start = Setup::AwaitContent { params };
    lemma_run_keeps_the_books(start, replies);
}

/// Every reply brings a setup closer to its end.
proof fn lemma_replies_left(setup: Setup, replies: Seq<Reply>)
    requires
        setup.expects_all(replies),
    ensures
        replies.len() <= setup.replies_left(),
        setup.after(replies).replies_left() <= setup.replies_left() - replies.len(),
    decreases replies.len(),
{
    if replies.len() > 0 {
        lemma_replies_left(setup.next(replies.first()).0, replies.drop_first());
    }
}

/// A setup ends: it takes at most nine replies, and is over exactly when it no
/// longer asks for anything.
pub proof fn law_setup_ends(params: SetupParams, replies: Seq<Reply>)
    requires
        (Setup::AwaitContent { params }).expects_all(replies),
    ensures
        replies.len() <= 9,
        ({
            let end = (Setup::AwaitContent { params }).after(replies);
            &&& end.pending() is None <==> (end is Running || end is Failed)
            &&& replies.len() == 9 ==> end.pending() is None
        }),
{
    lemma_replies_left(Setup::AwaitContent { params }, replies);
}

/// A stream runs only if every outside step went well, and then with the objects
/// that those steps made.
pub proof fn law_running_needs_every_step(
    params: SetupParams,
    replies: Seq<Reply>,
    capturer: Capturer,
)
    requires
        (Setup::AwaitContent { params }).expects_all(replies),
        (Setup::AwaitContent { params }).after(replies) == Setup::Running(capturer),
    ensures
        replies.len() == 9,
        replies[0] matches Reply::Content(Ok(shared)) && super::setup::chosen_display(
            shared.displays@,
            params.display_id,
        ) != 0,
        replies[1] == Reply::Address(capturer.filter) && capturer.filter != 0,
        replies[2] == Reply::Address(capturer.config) && capturer.config != 0,
        replies[3] == Reply::Address(capturer.slot_raw),
        replies[4] == Reply::Address(capturer.output),
        replies[5] == Reply::Address(capturer.stream) && capturer.stream != 0,
        replies[6] == Reply::Address(capturer.queue),
        replies[7] matches Reply::Added(Ok(_)),
        replies[8] matches Reply::Started(Ok(_)),
{
    reveal_with_fuel(Setup::after, 10);
    reveal_with_fuel(Setup::expects_all, 10);
    let s0 = Setup::AwaitContent { params };
    lemma_replies_left(s0, replies);
    let r1 = replies.drop_first();
    let s1 = s0.next(replies[0]).0;
    let r2 = r1.drop_first();
    let s2 = s1.next(r1[0]).0;
    let r3 = r2.drop_first();
    let s3 = s2.next(r2[0]).0;
    let r4 = r3.drop_first();
    let s4 = s3.next(r3[0]).0;
    let r5 = r4.drop_first();
    let s5 = s4.next(r4[0]).0;
    let r6 = r5.drop_first();
    let s6 = s5.next(r5[0]).0;
    let r7 = r6.drop_first();
    let s7 = s6.next(r6[0]).0;
    let r8 = r7.drop_first();
    let s8 = s7.next(r7[0]).0;
    assert(s0.after(replies) == s1.after(r1));
    assert(s1.after(r1) == s2.after(r2));
    assert(s2.after(r2) == s3.after(r3));
    assert(s3.after(r3) == s4.after(r4));
    assert(s4.after(r4) == s5.after(r5));
    assert(s5.after(r5) == s6.after(r6));
    assert(s6.after(r6) == s7.after(r7));
    assert(s7.after(r7) == s8.after(r8));
}

/// A setup whose nine steps all go well ends with a running stream, made of the
/// objects that the steps made.
pub proof fn law_every_step_going_well_makes_it_run(
    params: SetupParams,
    replies: Seq<Reply>,
    capturer: Capturer,
)
    requires
        replies.len() == 9,
        replies[0] matches Reply::Content(Ok(shared)) && super::setup::chosen_display(
            shared.displays@,
            params.display_id,
        ) != 0,
        replies[1] == Reply::Address(capturer.filter) && capturer.filter != 0,
        replies[2] == Reply::Address(capturer.config) && capturer.config != 0,
        replies[3] == Reply::Address(capturer.slot_raw),
        replies[4] == Reply::Address(capturer.output),
        replies[5] == Reply::Address(capturer.stream) && capturer.stream != 0,
        replies[6] == Reply::Address(capturer.queue),
        replies[7] matches Reply::Added(Ok(_)),
        replies[8] matches Reply::Started(Ok(_)),
    ensures
        (Setup::AwaitContent { params }).expects_all(replies),
        (Setup::AwaitContent { params }).after(replies) == Setup::Running(capturer),
{
    let s0 = Setup::AwaitContent { params };
    let r1 = replies.drop_first();
    let s1 = s0.next(replies[0]).0;
    let r2 = r1.drop_first();
    let s2 = s1.next(r1[0]).0;
    let r3 = r2.drop_first();
    let s3 = s2.next(r2[0]).0;
    let r4 = r3.drop_first();
    let s4 = s3.next(r3[0]).0;
    let r5 = r4.drop_first();
    let s5 = s4.next(r4[0]).0;
    let r6 = r5.drop_first();
    let s6 = s5.next(r5[0]).0;
    let r7 = r6.drop_first();
    let s7 = s6.next(r6[0]).0;
    let r8 = r7.drop_first();
    let s8 = s7.next(r7[0]).0;
    let r9 = r8.drop_first();
    let s9 = s8.next(r8[0]).0;
    assert(s9 == Setup::Running(capturer));
    assert(s9.after(r9) == s9 && s9.expects_all(r9));
    assert(s8.after(r8) == s9 && s8.expects_all(r8));
    assert(s7.after(r7) == s9 && s7.expects_all(r7));
    assert(s6.after(r6) == s9 && s6.expects_all(r6));
    assert(s5.after(r5) == s9 && s5.expects_all(r5));
    assert(s4.after(r4) == s9 && s4.expects_all(r4));
    assert(s3.after(r3) == s9 && s3.expects_all(r3));
    assert(s2.after(r2) == s9 && s2.expects_all(r2));
    assert(s1.after(r1) == s9 && s1.expects_all(r1));
}

/// Tearing a capturer down gives up what it owns and nothing else: everything if
/// its stream has stopped; all but the frame slot if callbacks may still fire,
/// so that they never find the slot gone.
pub proof fn law_teardown_keeps_the_slot_while_callbacks_may_fire(
    capturer: Capturer,
    stopped: bool,
)
    ensures
        refs::only_gives_up_owned(capturer.released(stopped), capturer.owned()),
        refs::owned_after(capturer.released(stopped), capturer.owned()) == (if stopped {
            Multiset::empty()
        } else {
            refs::slot_ref(capturer.slot_raw)
        }),
        !stopped ==> !capturer.released(stopped).contains(Effect::ReclaimSlot(capturer.slot_raw)),
{
    let st = refs::object_ref(capturer.stream);
    let o = refs::object_ref(capturer.output);
    let c = refs::object_ref(capturer.config);
    let f = refs::object_ref(capturer.filter);
    let s = refs::slot_ref(capturer.slot_raw);
    let none = Multiset::<Reference>::empty();
    let reclaim = stopped && capturer.slot_raw != 0;
    let fifth = if reclaim {
        seq![Effect::ReclaimSlot(capturer.slot_raw)]
    } else {
        seq![]
    };
    let fourth = seq![Effect::Release(capturer.filter)] + fifth;
    let third = seq![Effect::Release(capturer.config)] + fourth;
    let second = seq![Effect::Release(capturer.output)] + third;
    let all = seq![Effect::Release(capturer.stream)] + second;
    assert(all =~= capturer.released(stopped));
    let owned = capturer.owned();
    lemma_first_effect(Effect::Release(capturer.stream), second, owned);
    assert(owned.sub(st).add(none) =~= o.add(c).add(f).add(s));
    lemma_first_effect(Effect::Release(capturer.output), third, o.add(c).add(f).add(s));
    assert(o.add(c).add(f).add(s).sub(o).add(none) =~= c.add(f).add(s));
    lemma_first_effect(Effect::Release(capturer.config), fourth, c.add(f).add(s));
    assert(c.add(f).add(s).sub(c).add(none) =~= f.add(s));
    lemma_first_effect(Effect::Release(capturer.filter), fifth, f.add(s));
    assert(f.add(s).sub(f).add(none) =~= s);
    if reclaim {
        lemma_last_effect(Effect::ReclaimSlot(capturer.slot_raw), s);
        assert(s.sub(s).add(none) =~= none);
    }
}

/// Over its whole life a stream gives back every reference that it took, if it
/// stops when told to; if it does not, all but the one to the frame slot.
pub proof fn law_whole_life_returns_everything(
    params: SetupParams,
    replies: Seq<Reply>,
    capturer: Capturer,
    stopped: bool,
)
    requires
        (Setup::AwaitContent { params }).expects_all(replies),
        (Setup::AwaitContent { params }).after(replies) == Setup::Running(capturer),
    ensures
        refs::owned_after(
            capturer.released(stopped),
            (Setup::AwaitContent { params }).ledger(replies, Multiset::empty()),
        ) == (if stopped {
            Multiset::empty()
        } else {
            refs::slot_ref(capturer.slot_raw)
        }),
{
    law_setup_neither_leaks_nor_over_releases(params, replies);
    law_teardown_keeps_the_slot_while_callbacks_may_fire(capturer, stopped);
}

/// The chosen display is the first one listed with the wanted id; where none has
/// it, the first one listed; and nil only where none is listed. (What an array
/// lists is never nil.)
pub proof fn law_display_choice(displays: Seq<ScDisplay>, display_id: u32, i: int)
    requires
        forall|k: int| 0 <= k < displays.len() ==> (#[trigger] displays[k]).object != 0,
        0 <= i < displays.len(),
    ensures
        displays[i].display_id == display_id && (forall|k: int|
            0 <= k < i ==> (#[trigger] displays[k]).display_id != display_id)
            ==> super::setup::chosen_display(displays, display_id) == displays[i].object,
        (forall|k: int|
            0 <= k < displays.len() ==> (#[trigger] displays[k]).display_id != display_id)
            ==> super::setup::chosen_display(displays, display_id) == displays[0].object,
        super::setup::chosen_display(displays, display_id) != 0,
        super::setup::chosen_display(Seq::empty(), display_id) == 0,
{
    lemma_first_match(displays, display_id);
    if displays[i].display_id == display_id && (forall|k: int|
        0 <= k < i ==> (#[trigger] displays[k]).display_id != display_id) {
        lemma_first_match_at(displays, display_id, i);
    }
}

/// Without a match there is no first match.
proof fn lemma_first_match(displays: Seq<ScDisplay>, display_id: u32)
    ensures
        (forall|k: int|
            0 <= k < displays.len() ==> (#[trigger] displays[k]).display_id != display_id)
            ==> super::setup::first_match(displays, display_id) == 0,
    decreases displays.len(),
{
    if displays.len() > 0 {
        let rest = displays.drop_first();
        lemma_first_match(rest, display_id);
        assert(forall|k: int| 0 <= k < rest.len() ==> #[trigger] rest[k] == displays[k + 1]);
    }
}

/// The first match is the first one.
proof fn lemma_first_match_at(displays: Seq<ScDisplay>, display_id: u32, i: int)
    requires
        0 <= i < displays.len(),
        displays[i].display_id == display_id,
        forall|k: int| 0 <= k < i ==> (#[trigger] displays[k]).display_id != display_id,
    ensures
        super::setup::first_match(displays, display_id) == displays[i].object,
    decreases displays.len(),
{
    if i > 0 {
        let rest = displays.drop_first();
        assert(displays[0].display_id != display_id);
        assert forall|k: int| 0 <= k < i - 1 implies (#[trigger] rest[k]).display_id
            != display_id by {
            assert(rest[k] == displays[k + 1]);
        }
        lemma_first_match_at(rest, display_id, i - 1);
    }
}

/// The choice among any displays, nil ones included: the first one listed with the
/// wanted id, unless that is nil; else the first one listed.
pub proof fn law_first_listed_display_stands_in(displays: Seq<ScDisplay>, display_id: u32, i: int)
    requires
        0 <= i < displays.len(),
        displays[i].display_id == display_id,
        forall|k: int| 0 <= k < i ==> (#[trigger] displays[k]).display_id != display_id,
    ensures
        super::setup::chosen_display(displays, display_id) == (if displays[i].object != 0 {
            displays[i].object
        } else {
            displays[0].object
        }),
{
    lemma_first_match_at(displays, display_id, i);
}

/// Where no display has the wanted id, the first one listed is chosen, whatever it is.
pub proof fn law_unknown_display_falls_back_to_the_first(
    displays: Seq<ScDisplay>,
    display_id: u32,
)
    requires
        forall|k: int| 0 <= k < displays.len() ==> (#[trigger] displays[k]).display_id
            != display_id,
    ensures
        super::setup::chosen_display(displays, display_id) == (if displays.len() > 0 {
            displays[0].object
        } else {
            0
        }),
{
    lemma_first_match(displays, display_id);
}

/// Tearing a capturer down releases its four objects, each once, the stream first,
/// whether or not the stream stopped; the delegate's share of the slot goes back last,
/// and exactly if there is one and no callback can fire any more: there never was a
/// stream, or it confirmed that it stopped. The queue stays.
pub proof fn law_teardown_in_full(capturer: Capturer, confirmed: bool)
    ensures
        ({
            let effects = capturer.released(super::stop_confirmed(capturer.stream, confirmed));
            let reclaimed = capturer.slot_raw != 0 && (capturer.stream == 0 || confirmed);
            &&& effects.len() == (if reclaimed {
                5int
            } else {
                4
            })
            &&& effects[0] == Effect::Release(capturer.stream)
            &&& effects[1] == Effect::Release(capturer.output)
            &&& effects[2] == Effect::Release(capturer.config)
            &&& effects[3] == Effect::Release(capturer.filter)
            &&& reclaimed ==> effects[4] == Effect::ReclaimSlot(capturer.slot_raw)
        }),
{
}

} // verus!
