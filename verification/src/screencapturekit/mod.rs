//! ScreenCaptureKit video capture.
//!
//! The flow is: fetch the shareable content, pick the `SCDisplay` that matches a
//! `CGDirectDisplayID`, build an `SCContentFilter` and an `SCStreamConfiguration`
//! (BGRA, fixed output size), then start an `SCStream` whose per-frame callback
//! copies each `CVPixelBuffer` into a plain BGRA buffer.
//!
//! Objective-C objects appear as [`Handle`]s. [`setup::Setup`] says which message
//! to send next and which references to keep or release; [`sample::Sample`] does
//! the same for one frame callback.
use vstd::prelude::*;

use crate::slot::Slot;
use refs::Effect;
use setup::{Setup, SetupParams};

pub mod course;
pub mod ffi;
pub mod laws;
pub mod output;
pub mod refs;
pub mod sample;
pub mod setup;
pub mod text;

verus! {

/// The address of an Objective-C object or of a shared frame slot; zero is nil.
pub type Handle = usize;

/// One captured frame, already copied out of the `CVPixelBuffer` as BGRA.
pub struct Frame {
    pub data: Vec<u8>,
    pub stride: usize,
    pub width: usize,
    pub height: usize,
}

/// How long to wait for a stream to confirm that it has stopped.
pub const STOP_TIMEOUT_SECS: u64 = 3;

/// A running ScreenCaptureKit stream and the references that it owns. It cannot
/// be copied, so that they are given back only once.
#[derive(Debug, PartialEq, Eq, Structural)]
pub struct Capturer {
    pub stream: Handle,
    pub filter: Handle,
    pub config: Handle,
    pub output: Handle,
    /// The dispatch queue of the callbacks. It is never released.
    pub queue: Handle,
    /// The delegate's own reference to the frame slot.
    pub slot_raw: Handle,
}

impl Capturer {
    /// The counted references that a running capturer owns: one to each of its
    /// four objects and one to the frame slot, none to the queue.
    pub open spec fn owned(self) -> vstd::multiset::Multiset<refs::Reference> {
        refs::object_ref(self.stream).add(refs::object_ref(self.output)).add(
            refs::object_ref(self.config),
        ).add(refs::object_ref(self.filter)).add(refs::slot_ref(self.slot_raw))
    }

    /// Begins to bring up a stream of display `display_id`.
    pub fn new(
        display_id: u32,
        width: usize,
        height: usize,
        show_cursor: bool,
        max_fps: u32,
    ) -> (setup: Setup)
        ensures
            setup == (Setup::AwaitContent {
                params: (SetupParams { display_id, width, height, show_cursor, max_fps }),
            }),
    {
        Setup::AwaitContent {
            params: SetupParams { display_id, width, height, show_cursor, max_fps },
        }
    }

    /// Takes the most recent frame, if a new one has arrived since the last call.
    /// `slot` is the frame slot, or `None` if it could not be locked.
    pub fn take_frame(&mut self, slot: Option<&mut Slot<Frame>>) -> (frame: Option<Frame>)
        ensures
            slot is None ==> frame is None,
            slot matches Some(slot) ==> frame == (*slot)@ && (*final(slot))@ is None,
            *final(self) == *old(self),
    {
        match slot {
            Some(slot) => slot.take(),
            None => None,
        }
    }

    /// What tearing the capturer down gives back once it is known whether the
    /// stream has `stopped`. The slot reference goes back only if no callback
    /// can fire any more.
    pub open spec fn released(self, stopped: bool) -> Seq<Effect> {
        let objects = seq![
            Effect::Release(self.stream),
            Effect::Release(self.output),
            Effect::Release(self.config),
            Effect::Release(self.filter),
        ];
        if stopped && self.slot_raw != 0 {
            objects.push(Effect::ReclaimSlot(self.slot_raw))
        } else {
            objects
        }
    }

    /// What giving up a stream that could not be attached or was not seen to
    /// start gives back: everything.
    pub open spec fn abandoned(self) -> Seq<Effect> {
        seq![
            Effect::Release(self.stream),
            Effect::Release(self.output),
            Effect::Release(self.config),
            Effect::Release(self.filter),
            Effect::ReclaimSlot(self.slot_raw),
        ]
    }

    /// Gives up a stream that could not be attached or was not seen to start. A
    /// stream whose start was only not confirmed in time may yet run.
    pub fn abandon(self) -> (effects: Vec<Effect>)
        ensures
            effects@ == self.abandoned(),
            effects@ == seq![
                Effect::Release(self.stream),
                Effect::Release(self.output),
                Effect::Release(self.config),
                Effect::Release(self.filter),
                Effect::ReclaimSlot(self.slot_raw),
            ],
    {
        let mut effects: Vec<Effect> = Vec::new();
        effects.push(Effect::Release(self.stream));
        effects.push(Effect::Release(self.output));
        effects.push(Effect::Release(self.config));
        effects.push(Effect::Release(self.filter));
        effects.push(Effect::ReclaimSlot(self.slot_raw));
        effects
    }

    /// The stream to tell to stop before the capturer is torn down, and how many
    /// seconds to wait for it to confirm. A nil stream counts as stopped.
    pub fn stop_request(&self) -> (request: Option<(Handle, u64)>)
        ensures
            request == (if self.stream != 0 {
                Some((self.stream, STOP_TIMEOUT_SECS))
            } else {
                None
            }),
            request matches Some((_, timeout_secs)) ==> timeout_secs == 3,
    {
        if self.stream != 0 {
            Some((self.stream, STOP_TIMEOUT_SECS))
        } else {
            None
        }
    }

    /// Tears the capturer down. `confirmed` says whether the stream, told to
    /// stop, confirmed it in time.
    pub fn release(self, confirmed: bool) -> (effects: Vec<Effect>)
        ensures
            effects@ == self.released(stop_confirmed(self.stream, confirmed)),
            effects@.take(4) == seq![
                Effect::Release(self.stream),
                Effect::Release(self.output),
                Effect::Release(self.config),
                Effect::Release(self.filter),
            ],
            effects@.skip(4) == (if self.slot_raw != 0 && (self.stream == 0 || confirmed) {
                seq![Effect::ReclaimSlot(self.slot_raw)]
            } else {
                seq![]
            }),
    {
        let stopped = stop_capture(self.stream, confirmed);
        let mut effects: Vec<Effect> = Vec::new();
        effects.push(Effect::Release(self.stream));
        effects.push(Effect::Release(self.output));
        effects.push(Effect::Release(self.config));
        effects.push(Effect::Release(self.filter));
        if stopped && self.slot_raw != 0 {
            effects.push(Effect::ReclaimSlot(self.slot_raw));
        }
        effects
    }
}

/// Whether no callback of `stream` can fire any more.
pub open spec fn stop_confirmed(stream: Handle, confirmed: bool) -> bool {
    stream == 0 || confirmed
}

/// Whether `stream` has stopped: there is none, or it `confirmed` in time.
pub fn stop_capture(stream: Handle, confirmed: bool) -> (stopped: bool)
    ensures
        stopped == stop_confirmed(stream, confirmed),
        stopped <==> stream == 0 || confirmed,
{
    stream == 0 || confirmed
}

} // verus!
