//! Bringing a ScreenCaptureKit stream up, one outside step at a time.
use vstd::prelude::*;
use vstd::string::*;

use super::ffi::{CMTime, BGRA_PIXEL_FORMAT, SC_STREAM_OUTPUT_TYPE_SCREEN};
use super::refs::{Effect, StreamConfig};
use super::text::{ns_error_string, NsError};
use super::{Capturer, Handle};

verus! {

/// What to capture, and how.
#[derive(Clone, Copy, Debug, PartialEq, Eq, Structural)]
pub struct SetupParams {
    pub display_id: u32,
    pub width: usize,
    pub height: usize,
    pub show_cursor: bool,
    pub max_fps: u32,
}

/// An `SCDisplay` and its `displayID`.
#[derive(Clone, Copy, Debug, PartialEq, Eq, Structural)]
pub struct ScDisplay {
    pub object: Handle,
    pub display_id: u32,
}

/// An `SCShareableContent`, retained, with its displays in order.
pub struct SharedContent {
    pub content: Handle,
    pub displays: Vec<ScDisplay>,
}

/// Why a stream could not be brought up.
pub enum SetupError {
    /// The shareable content was refused, for the reason given.
    Content(String),
    /// No answer to the request for shareable content.
    ContentTimeout,
    /// The content lists no display.
    NoDisplay,
    /// The content filter could not be made.
    FilterInit,
    /// The stream configuration could not be made.
    ConfigInit,
    /// The stream could not be made.
    StreamInit,
    /// The frame output could not be attached, for the reason given.
    AddOutput(String),
    /// The stream did not start, for the reason given.
    Start(String),
    /// No answer to the request to start.
    StartTimeout,
}

impl SetupError {
    /// The message that goes with the error.
    pub open spec fn text(self) -> Seq<char> {
        match self {
            SetupError::Content(e) => "ScreenCaptureKit: getShareableContent error: "@ + e@,
            SetupError::ContentTimeout =>
                "ScreenCaptureKit: getShareableContent timed out (screen-recording permission?)"@,
            SetupError::NoDisplay => "ScreenCaptureKit: no SCDisplay available"@,
            SetupError::FilterInit => "ScreenCaptureKit: SCContentFilter init failed"@,
            SetupError::ConfigInit => "ScreenCaptureKit: SCStreamConfiguration init failed"@,
            SetupError::StreamInit => "ScreenCaptureKit: SCStream init failed"@,
            SetupError::AddOutput(e) => "ScreenCaptureKit: addStreamOutput failed: "@ + e@,
            SetupError::Start(e) => "ScreenCaptureKit: startCapture error: "@ + e@,
            SetupError::StartTimeout => "ScreenCaptureKit: startCapture timed out"@,
        }
    }

    /// The error in words.
    pub fn message(&self) -> (message: String)
        ensures
            message@ == self.text(),
    {
        match self {
            SetupError::Content(e) => {
                "ScreenCaptureKit: getShareableContent error: ".to_owned().concat(e.as_str())
            },
            SetupError::ContentTimeout => {
                "ScreenCaptureKit: getShareableContent timed out (screen-recording permission?)"
                    .to_owned()
            },
            SetupError::NoDisplay => "ScreenCaptureKit: no SCDisplay available".to_owned(),
            SetupError::FilterInit => "ScreenCaptureKit: SCContentFilter init failed".to_owned(),
            SetupError::ConfigInit =>
                "ScreenCaptureKit: SCStreamConfiguration init failed".to_owned(),
            SetupError::StreamInit => "ScreenCaptureKit: SCStream init failed".to_owned(),
            SetupError::AddOutput(e) => {
                "ScreenCaptureKit: addStreamOutput failed: ".to_owned().concat(e.as_str())
            },
            SetupError::Start(e) => {
                "ScreenCaptureKit: startCapture error: ".to_owned().concat(e.as_str())
            },
            SetupError::StartTimeout => "ScreenCaptureKit: startCapture timed out".to_owned(),
        }
    }
}

/// Every message says where it comes from.
pub proof fn law_messages_name_their_source(error: SetupError)
    ensures
        "ScreenCaptureKit: "@.is_prefix_of(error.text()),
{
    reveal_strlit("ScreenCaptureKit: ");
    reveal_strlit("ScreenCaptureKit: getShareableContent error: ");
    reveal_strlit("ScreenCaptureKit: getShareableContent timed out (screen-recording permission?)");
    reveal_strlit("ScreenCaptureKit: no SCDisplay available");
    reveal_strlit("ScreenCaptureKit: SCContentFilter init failed");
    reveal_strlit("ScreenCaptureKit: SCStreamConfiguration init failed");
    reveal_strlit("ScreenCaptureKit: SCStream init failed");
    reveal_strlit("ScreenCaptureKit: addStreamOutput failed: ");
    reveal_strlit("ScreenCaptureKit: startCapture error: ");
    reveal_strlit("ScreenCaptureKit: startCapture timed out");
    assert("ScreenCaptureKit: "@ =~= error.text().take(18));
}

/// Every message says which call failed, and ends in the reason where one was given.
pub proof fn law_messages_say_what_failed(reason: String)
    ensures
        SetupError::Content(reason).text() == "ScreenCaptureKit: getShareableContent error: "@
            + reason@,
        SetupError::AddOutput(reason).text() == "ScreenCaptureKit: addStreamOutput failed: "@
            + reason@,
        SetupError::Start(reason).text() == "ScreenCaptureKit: startCapture error: "@ + reason@,
        SetupError::ContentTimeout.text()
            == "ScreenCaptureKit: getShareableContent timed out (screen-recording permission?)"@,
        SetupError::NoDisplay.text() == "ScreenCaptureKit: no SCDisplay available"@,
        SetupError::FilterInit.text() == "ScreenCaptureKit: SCContentFilter init failed"@,
        SetupError::ConfigInit.text() == "ScreenCaptureKit: SCStreamConfiguration init failed"@,
        SetupError::StreamInit.text() == "ScreenCaptureKit: SCStream init failed"@,
        SetupError::StartTimeout.text() == "ScreenCaptureKit: startCapture timed out"@,
{
}

/// How long to wait for the shareable content, and for a stream to start.
pub const REPLY_TIMEOUT_SECS: u64 = 10;

/// What the completion handler of the content request does with the content, if
/// there is one, before it passes it on.
pub open spec fn retained_by_handler(content: Handle) -> Seq<Effect> {
    if content != 0 {
        seq![Effect::Retain(content)]
    } else {
        seq![]
    }
}

/// Keeps the content alive for whoever the completion handler passes it to. A
/// handler that runs after the wait is over retains the content all the same; no
/// setup is left then to release it.
pub fn shareable_content_effects(content: Handle) -> (effects: Vec<Effect>)
    ensures
        effects@ == retained_by_handler(content),
        content != 0 ==> effects@ == seq![Effect::Retain(content)],
        content == 0 ==> effects@.len() == 0,
{
    let mut effects: Vec<Effect> = Vec::new();
    if content != 0 {
        effects.push(Effect::Retain(content));
    }
    effects
}

/// What the completion handler of the content request passes on, once it has
/// carried out [`shareable_content_effects`]: the content, or the error's
/// description where there is none.
pub fn shareable_content_handler(content: Handle, error: &NsError) -> (passed: Result<
    Handle,
    String,
>)
    ensures
        content != 0 ==> passed == Ok::<Handle, String>(content),
        content == 0 ==> (passed matches Err(e) && e@ == error.text()),
{
    if content != 0 {
        Ok(content)
    } else {
        Err(ns_error_string(error))
    }
}

/// What the content request came to: `received` is what its completion handler
/// passed on, or `None` if it did not run in time.
pub fn get_shareable_content<T>(received: Option<Result<T, String>>) -> (outcome: Result<
    T,
    SetupError,
>)
    ensures
        outcome == (match received {
            Some(Ok(content)) => Ok(content),
            Some(Err(e)) => Err(SetupError::Content(e)),
            None => Err(SetupError::ContentTimeout),
        }),
{
    match received {
        Some(Ok(content)) => Ok(content),
        Some(Err(e)) => Err(SetupError::Content(e)),
        None => Err(SetupError::ContentTimeout),
    }
}

/// What the completion handler of the start request passes on: success exactly
/// if there is no error.
pub fn start_capture_handler(error: &NsError) -> (passed: Result<(), String>)
    ensures
        error is Nil ==> passed == Ok::<(), String>(()),
        error !is Nil ==> (passed matches Err(e) && e@ == error.text()),
{
    match error {
        NsError::Nil => Ok(()),
        NsError::Described(_) => Err(ns_error_string(error)),
    }
}

/// What the start request came to: `received` is what its completion handler
/// passed on, or `None` if it did not run in time.
pub fn start_capture(received: Option<Result<(), String>>) -> (outcome: Result<(), SetupError>)
    ensures
        outcome == (match received {
            Some(Ok(())) => Ok(()),
            Some(Err(e)) => Err(SetupError::Start(e)),
            None => Err(SetupError::StartTimeout),
        }),
{
    match received {
        Some(Ok(())) => Ok(()),
        Some(Err(e)) => Err(SetupError::Start(e)),
        None => Err(SetupError::StartTimeout),
    }
}

/// What attaching the frame output came to, from the `BOOL` that the call
/// returned and the error that it filled in.
pub fn add_stream_output(ok: i8, error: &NsError) -> (outcome: Result<(), SetupError>)
    ensures
        ok != 0 ==> outcome == Ok::<(), SetupError>(()),
        ok == 0 ==> (outcome matches Err(SetupError::AddOutput(e)) && e@ == error.text()),
{
    if ok == 0 {
        return Err(SetupError::AddOutput(ns_error_string(error)));
    }
    Ok(())
}

/// The first of `displays` whose id is `display_id`; nil if there is none.
pub open spec fn first_match(displays: Seq<ScDisplay>, display_id: u32) -> Handle
    decreases displays.len(),
{
    if displays.len() == 0 {
        0
    } else if displays.first().display_id == display_id {
        displays.first().object
    } else {
        first_match(displays.drop_first(), display_id)
    }
}

/// The display to capture: the first match, or failing that the first of all;
/// nil if there is none.
pub open spec fn chosen_display(displays: Seq<ScDisplay>, display_id: u32) -> Handle {
    let matching = first_match(displays, display_id);
    if matching == 0 && displays.len() > 0 {
        displays.first().object
    } else {
        matching
    }
}

/// Chooses the display to capture.
pub fn choose_display(displays: &Vec<ScDisplay>, display_id: u32) -> (target: Handle)
    ensures
        target == chosen_display(displays@, display_id),
{
    let mut target: Handle = 0;
    let mut i: usize = 0;
    assert(displays@.skip(0) =~= displays@);
    while i < displays.len()
        invariant_except_break
            target == 0,
            i <= displays.len(),
            first_match(displays@, display_id) == first_match(displays@.skip(i as int), display_id),
        ensures
            target == first_match(displays@, display_id),
        decreases displays.len() - i,
    {
        assert(displays@.skip(i as int).drop_first() =~= displays@.skip(i + 1));
        if displays[i].display_id == display_id {
            target = displays[i].object;
            break;
        }
        i = i + 1;
    }
    if target == 0 && displays.len() > 0 {
        target = displays[0].object;
    }
    target
}

impl SetupParams {
    /// The stream settings: BGRA at a fixed size, with a capped rate.
    pub open spec fn settings(self) -> StreamConfig {
        StreamConfig {
            width: self.width as isize,
            height: self.height as isize,
            pixel_format: BGRA_PIXEL_FORMAT,
            queue_depth: 6,
            shows_cursor: if self.show_cursor { 1 } else { 0 },
            minimum_frame_interval: CMTime::interval_of(self.max_fps),
        }
    }

    /// Makes the stream settings.
    pub fn stream_config(&self) -> (settings: StreamConfig)
        ensures
            settings == self.settings(),
            settings.width == self.width as isize,
            settings.height == self.height as isize,
            settings.pixel_format == 0x4247_5241,
            settings.queue_depth == 6,
            self.show_cursor ==> settings.shows_cursor == 1,
            !self.show_cursor ==> settings.shows_cursor == 0,
            settings.minimum_frame_interval.value == 1,
            settings.minimum_frame_interval.flags == 1,
            settings.minimum_frame_interval.epoch == 0,
            1 <= self.max_fps <= i32::MAX ==> settings.minimum_frame_interval.timescale
                == self.max_fps,
            self.max_fps == 0 ==> settings.minimum_frame_interval.timescale == 1,
            self.max_fps > i32::MAX ==> settings.minimum_frame_interval.timescale == i32::MAX,
    {
        StreamConfig {
            width: self.width as isize,
            height: self.height as isize,
            pixel_format: BGRA_PIXEL_FORMAT,
            queue_depth: 6,
            shows_cursor: if self.show_cursor { 1 } else { 0 },
            minimum_frame_interval: CMTime::frame_interval(self.max_fps),
        }
    }
}

/// The label of the queue for the frame callbacks.
pub const QUEUE_LABEL: &'static str = "io.rentamac.sck.capture";

/// The next outside step of a setup. Each is answered by one [`Reply`].
#[derive(Clone, Copy, Debug, PartialEq, Eq)]
pub enum Request {
    /// Ask for the shareable content, and wait this long for it.
    GetShareableContent { timeout_secs: u64 },
    /// Make a content filter of the display, less this many of its windows.
    InitFilter { display: Handle, excluded_windows: usize },
    /// Make a stream configuration.
    InitConfig,
    /// Take a second reference to the frame slot, for the delegate.
    ShareSlot,
    /// Make the delegate object that fills the frame slot.
    CreateOutput { slot: Handle },
    /// Make the stream, with this delegate.
    InitStream { filter: Handle, config: Handle, delegate: Handle },
    /// Make a serial queue for the frame callbacks.
    CreateQueue { label: &'static str },
    /// Attach the delegate to the stream as an output of this type.
    AddOutput { stream: Handle, output: Handle, output_type: isize, queue: Handle },
    /// Start the stream, and wait this long for the outcome.
    StartCapture { stream: Handle, timeout_secs: u64 },
}

/// How an outside step went.
pub enum Reply {
    /// To `GetShareableContent`.
    Content(Result<SharedContent, SetupError>),
    /// The address that came back, or zero: to `InitFilter`, `InitConfig`,
    /// `ShareSlot`, `CreateOutput`, `InitStream` and `CreateQueue`.
    Address(Handle),
    /// To `AddOutput`.
    Added(Result<(), SetupError>),
    /// To `StartCapture`.
    Started(Result<(), SetupError>),
}

/// How far a setup has got. Every state but the last two waits for a reply.
pub enum Setup {
    AwaitContent { params: SetupParams },
    AwaitFilter { params: SetupParams, target: Handle },
    AwaitConfig { params: SetupParams, filter: Handle },
    AwaitSlot { filter: Handle, config: Handle },
    AwaitOutput { filter: Handle, config: Handle, slot: Handle },
    AwaitStream { filter: Handle, config: Handle, slot: Handle, output: Handle },
    AwaitQueue { filter: Handle, config: Handle, slot: Handle, output: Handle, stream: Handle },
    AwaitAdded { capturer: Capturer },
    AwaitStarted { capturer: Capturer },
    /// The stream is up.
    Running(Capturer),
    /// The setup has failed, and owns nothing any more.
    Failed(SetupError),
}

impl Setup {
    /// The outside step that this state waits for, if it waits for one.
    pub open spec fn pending(self) -> Option<Request> {
        match self {
            Setup::AwaitContent { .. } => Some(
                Request::GetShareableContent { timeout_secs: REPLY_TIMEOUT_SECS },
            ),
            Setup::AwaitFilter { target, .. } => Some(
                Request::InitFilter { display: target, excluded_windows: 0 },
            ),
            Setup::AwaitConfig { .. } => Some(Request::InitConfig),
            Setup::AwaitSlot { .. } => Some(Request::ShareSlot),
            Setup::AwaitOutput { slot, .. } => Some(Request::CreateOutput { slot }),
            Setup::AwaitStream { filter, config, .. } => Some(
                Request::InitStream { filter, config, delegate: 0 },
            ),
            Setup::AwaitQueue { .. } => Some(Request::CreateQueue { label: QUEUE_LABEL }),
            Setup::AwaitAdded { capturer } => Some(
                Request::AddOutput {
                    stream: capturer.stream,
                    output: capturer.output,
                    output_type: SC_STREAM_OUTPUT_TYPE_SCREEN,
                    queue: capturer.queue,
                },
            ),
            Setup::AwaitStarted { capturer } => Some(
                Request::StartCapture {
                    stream: capturer.stream,
                    timeout_secs: REPLY_TIMEOUT_SECS,
                },
            ),
            Setup::Running(_) => None,
            Setup::Failed(_) => None,
        }
    }

    /// Whether `reply` answers the step that this state waits for.
    pub open spec fn expects(self, reply: Reply) -> bool {
        match self.pending() {
            Some(Request::GetShareableContent { .. }) => reply is Content,
            Some(Request::AddOutput { .. }) => reply is Added,
            Some(Request::StartCapture { .. }) => reply is Started,
            Some(_) => reply is Address,
            None => false,
        }
    }

    /// The state after `reply`, and what is to be done on the way there.
    pub open spec fn next(self, reply: Reply) -> (Setup, Seq<Effect>) {
        match (self, reply) {
            (Setup::AwaitContent { params }, Reply::Content(Err(e))) => (
                Setup::Failed(e),
                seq![],
            ),
            (Setup::AwaitContent { params }, Reply::Content(Ok(shared))) => {
                let target = chosen_display(shared.displays@, params.display_id);
                if target == 0 {
                    (Setup::Failed(SetupError::NoDisplay), seq![Effect::Release(shared.content)])
                } else {
                    (
                        Setup::AwaitFilter { params, target },
                        seq![Effect::Retain(target), Effect::Release(shared.content)],
                    )
                }
            },
            (Setup::AwaitFilter { params, target }, Reply::Address(filter)) => (
                if filter == 0 {
                    Setup::Failed(SetupError::FilterInit)
                } else {
                    Setup::AwaitConfig { params, filter }
                },
                seq![Effect::Release(target)],
            ),
            (Setup::AwaitConfig { params, filter }, Reply::Address(config)) => if config == 0 {
                (Setup::Failed(SetupError::ConfigInit), seq![Effect::Release(filter)])
            } else {
                (
                    Setup::AwaitSlot { filter, config },
                    seq![Effect::Configure { config, settings: params.settings() }],
                )
            },
            (Setup::AwaitSlot { filter, config }, Reply::Address(slot)) => (
                Setup::AwaitOutput { filter, config, slot },
                seq![],
            ),
            (Setup::AwaitOutput { filter, config, slot }, Reply::Address(output)) => (
                Setup::AwaitStream { filter, config, slot, output },
                seq![],
            ),
            (Setup::AwaitStream { filter, config, slot, output }, Reply::Address(stream)) =>
                if stream == 0 {
                    (
                        Setup::Failed(SetupError::StreamInit),
                        seq![
                            Effect::Release(output),
                            Effect::Release(config),
                            Effect::Release(filter),
                            Effect::ReclaimSlot(slot),
                        ],
                    )
                } else {
                    (Setup::AwaitQueue { filter, config, slot, output, stream }, seq![])
                },
            (
                Setup::AwaitQueue { filter, config, slot, output, stream },
                Reply::Address(queue),
            ) => (
                Setup::AwaitAdded {
                    capturer: Capturer { stream, filter, config, output, queue, slot_raw: slot },
                },
                seq![],
            ),
            (Setup::AwaitAdded { capturer }, Reply::Added(Ok(()))) => (
                Setup::AwaitStarted { capturer },
                seq![],
            ),
            (Setup::AwaitAdded { capturer }, Reply::Added(Err(e))) => (
                Setup::Failed(e),
                capturer.abandoned(),
            ),
            (Setup::AwaitStarted { capturer }, Reply::Started(Ok(()))) => (
                Setup::Running(capturer),
                seq![],
            ),
            (Setup::AwaitStarted { capturer }, Reply::Started(Err(e))) => (
                Setup::Failed(e),
                capturer.abandoned(),
            ),
            _ => (self, seq![]),
        }
    }

    /// The outside step to do next, or `None` once the setup is over.
    pub fn request(&self) -> (request: Option<Request>)
        ensures
            request == self.pending(),
    {
        match self {
            Setup::AwaitContent { .. } => Some(
                Request::GetShareableContent { timeout_secs: REPLY_TIMEOUT_SECS },
            ),
            Setup::AwaitFilter { target, .. } => Some(
                Request::InitFilter { display: *target, excluded_windows: 0 },
            ),
            Setup::AwaitConfig { .. } => Some(Request::InitConfig),
            Setup::AwaitSlot { .. } => Some(Request::ShareSlot),
            Setup::AwaitOutput { slot, .. } => Some(Request::CreateOutput { slot: *slot }),
            Setup::AwaitStream { filter, config, .. } => Some(
                Request::InitStream { filter: *filter, config: *config, delegate: 0 },
            ),
            Setup::AwaitQueue { .. } => Some(Request::CreateQueue { label: QUEUE_LABEL }),
            Setup::AwaitAdded { capturer } => Some(
                Request::AddOutput {
                    stream: capturer.stream,
                    output: capturer.output,
                    output_type: SC_STREAM_OUTPUT_TYPE_SCREEN,
                    queue: capturer.queue,
                },
            ),
            Setup::AwaitStarted { capturer } => Some(
                Request::StartCapture {
                    stream: capturer.stream,
                    timeout_secs: REPLY_TIMEOUT_SECS,
                },
            ),
            Setup::Running(_) => None,
            Setup::Failed(_) => None,
        }
    }

    /// Goes on with the reply to the step that [`Setup::request`] asked for. The
    /// effects are to be carried out in order before the next step.
    pub fn step(self, reply: Reply) -> (next: (Setup, Vec<Effect>))
        requires
            self.expects(reply),
        ensures
            next.0 == self.next(reply).0,
            next.1@ == self.next(reply).1,
    {
        let mut effects: Vec<Effect> = Vec::new();
        let next = match (self, reply) {
            (Setup::AwaitContent { params }, Reply::Content(Ok(shared))) => {
                let target = choose_display(&shared.displays, params.display_id);
                if target != 0 {
                    effects.push(Effect::Retain(target));
                }
                effects.push(Effect::Release(shared.content));
                if target == 0 {
                    Setup::Failed(SetupError::NoDisplay)
                } else {
                    Setup::AwaitFilter { params, target }
                }
            },
            (Setup::AwaitContent { .. }, Reply::Content(Err(e))) => Setup::Failed(e),
            (Setup::AwaitFilter { params, target }, Reply::Address(filter)) => {
                effects.push(Effect::Release(target));
                if filter == 0 {
                    Setup::Failed(SetupError::FilterInit)
                } else {
                    Setup::AwaitConfig { params, filter }
                }
            },
            (Setup::AwaitConfig { params, filter }, Reply::Address(config)) => {
                if config == 0 {
                    effects.push(Effect::Release(filter));
                    Setup::Failed(SetupError::ConfigInit)
                } else {
                    effects.push(Effect::Configure { config, settings: params.stream_config() });
                    Setup::AwaitSlot { filter, config }
                }
            },
            (Setup::AwaitSlot { filter, config }, Reply::Address(slot)) => {
                Setup::AwaitOutput { filter, config, slot }
            },
            (Setup::AwaitOutput { filter, config, slot }, Reply::Address(output)) => {
                Setup::AwaitStream { filter, config, slot, output }
            },
            (Setup::AwaitStream { filter, config, slot, output }, Reply::Address(stream)) => {
                if stream == 0 {
                    effects.push(Effect::Release(output));
                    effects.push(Effect::Release(config));
                    effects.push(Effect::Release(filter));
                    effects.push(Effect::ReclaimSlot(slot));
                    Setup::Failed(SetupError::StreamInit)
                } else {
                    Setup::AwaitQueue { filter, config, slot, output, stream }
                }
            },
            (
                Setup::AwaitQueue { filter, config, slot, output, stream },
                Reply::Address(queue),
            ) => {
                Setup::AwaitAdded {
                    capturer: Capturer { stream, filter, config, output, queue, slot_raw: slot },
                }
            },
            (Setup::AwaitAdded { capturer }, Reply::Added(outcome)) => {
                match outcome {
                    Ok(()) => Setup::AwaitStarted { capturer },
                    Err(e) => {
                        effects = capturer.abandon();
                        Setup::Failed(e)
                    },
                }
            },
            (Setup::AwaitStarted { capturer }, Reply::Started(outcome)) => {
                match outcome {
                    Ok(()) => Setup::Running(capturer),
                    Err(e) => {
                        effects = capturer.abandon();
                        Setup::Failed(e)
                    },
                }
            },
            (state, _) => state,
        };
        (next, effects)
    }
}

} // verus!
