//! What holds of every capturer and of all displays.
use vstd::prelude::*;

use super::capturer::{Backend, CaptureState, Fetched, Polled, QuartzPoll};
use super::display::DisplayInfo;
use crate::error::ErrorKind;
use crate::screencapturekit::sample::{Sample, SampleReply};
use crate::screencapturekit::{Frame, Handle};

verus! {

/// Displays are told apart by their names: two have the same name only if they
/// have the same id.
pub proof fn law_names_tell_displays_apart(a: DisplayInfo, b: DisplayInfo)
    ensures
        super::decimal::decimal(a.id as nat) == super::decimal::decimal(b.id as nat) <==> a.id
            == b.id,
{
    super::decimal::lemma_decimal_reads_back(a.id as nat);
    super::decimal::lemma_decimal_reads_back(b.id as nat);
}

/// A frame is shown once: when one has been taken note of, the same bytes again
/// are nothing new and change nothing, whichever backend is active.
pub proof fn law_same_frame_is_shown_once(state: CaptureState, first: Polled, again: Polled)
    requires
        first.raw() is Some,
        again.raw() == first.raw(),
    ensures
        state.fetch(first).0.fetch(again) == (
            state.fetch(first).0,
            Err::<super::capturer::Fetched, ErrorKind>(ErrorKind::WouldBlock),
        ),
{
}

/// The same holds once the surface of the first frame has been converted.
pub proof fn law_converted_frame_is_shown_once(
    state: CaptureState,
    first: Polled,
    again: Polled,
    bgra: Seq<u8>,
    stride: usize,
)
    requires
        first.raw() is Some,
        again.raw() == first.raw(),
    ensures
        ({
            let shown = state.fetch(first).0.convert(bgra, stride);
            shown.fetch(again) == (
                shown,
                Err::<super::capturer::Fetched, ErrorKind>(ErrorKind::WouldBlock),
            )
        }),
{
}

/// Every frame that differs from the last one gets through.
pub proof fn law_changed_frame_gets_through(state: CaptureState, polled: Polled)
    requires
        polled.raw() matches Some(raw) && raw != state.saved,
    ensures
        state.fetch(polled).1 is Ok,
        Some(state.fetch(polled).0.saved) == polled.raw(),
{
}

/// One use of a capturer.
pub enum CaptureUse {
    Fetch(Polled),
    Convert { bgra: Seq<u8>, stride: usize },
}

impl CaptureState {
    /// The state after all of `uses`, first to last.
    pub open spec fn after(self, uses: Seq<CaptureUse>) -> CaptureState
        decreases uses.len(),
    {
        if uses.len() == 0 {
            self
        } else {
            let next = match uses.first() {
                CaptureUse::Fetch(polled) => self.fetch(polled).0,
                CaptureUse::Convert { bgra, stride } => self.convert(bgra, stride),
            };
            next.after(uses.drop_first())
        }
    }
}

/// Whatever frames come, a capturer keeps its backend and the size of its
/// display.
pub proof fn law_size_and_backend_stay(state: CaptureState, uses: Seq<CaptureUse>)
    ensures
        state.after(uses).width == state.width,
        state.after(uses).height == state.height,
        state.after(uses).backend == state.backend,
    decreases uses.len(),
{
    if uses.len() > 0 {
        let next = match uses.first() {
            CaptureUse::Fetch(polled) => state.fetch(polled).0,
            CaptureUse::Convert { bgra, stride } => state.convert(bgra, stride),
        };
        law_size_and_backend_stay(next, uses.drop_first());
    }
}

/// What is shown is what was captured: a frame that a ScreenCaptureKit callback
/// hands over, if it is new, is shown with exactly the bytes that were copied
/// from the pixel buffer and with the row stride that was read for them.
pub proof fn law_captured_pixels_are_shown(
    sample: Handle,
    replies: Seq<SampleReply>,
    image_buffer: Handle,
    frame: Frame,
    state: CaptureState,
)
    requires
        (Sample::AwaitImageBuffer { sample }).expects_all(replies),
        (Sample::AwaitImageBuffer { sample }).after(replies) == (Sample::Finish {
            image_buffer,
            delivery: Some(frame),
        }),
        frame.data@ != state.saved,
    ensures
        ({
            let (shown, fetched) = state.fetch(Polled::Sck(Some(frame)));
            &&& fetched == Ok::<super::capturer::Fetched, ErrorKind>(
                super::capturer::Fetched::Ready,
            )
            &&& replies[2] matches SampleReply::Geometry(geometry)
            &&& replies[3] matches SampleReply::Pixels(pixels)
            &&& shown.data == pixels@
            &&& shown.stride == geometry.stride
            &&& shown.data.len() == geometry.stride * geometry.height
        }),
{
    crate::screencapturekit::sample::law_frame_holds_every_row(
        sample,
        replies,
        image_buffer,
        frame,
    );
}

/// A poll that finds no frame changes nothing at all: what is shown, and what the next
/// frame is compared with, stay. Only a poisoned lock is worth an error of its own.
pub proof fn law_empty_poll_changes_nothing(state: CaptureState, polled: Polled)
    requires
        match polled {
            Polled::Sck(frame) => frame is None,
            Polled::Quartz(poll) => poll !is Frame,
        },
    ensures
        state.fetch(polled).0 == state,
        state.fetch(polled).1 == Err::<Fetched, ErrorKind>(
            if polled == Polled::Quartz(QuartzPoll::Poisoned) {
                ErrorKind::Other
            } else {
                ErrorKind::WouldBlock
            },
        ),
        polled.raw() is None,
{
}

/// A frame of a ScreenCaptureKit stream is new exactly if its bytes differ from those
/// that were found last, and is then shown just as it is: all of its bytes, under
/// its own row stride, but in the size of the display.
pub proof fn law_new_frame_is_shown_as_it_is(state: CaptureState, frame: Frame)
    ensures
        ({
            let (shown, fetched) = state.fetch(Polled::Sck(Some(frame)));
            &&& Polled::Sck(Some(frame)).raw() == Some(frame.data@)
            &&& shown.saved == frame.data@
            &&& shown.width == state.width && shown.height == state.height
            &&& shown.backend == state.backend && shown.converting == state.converting
            &&& frame.data@ == state.saved ==> fetched == Err::<Fetched, ErrorKind>(
                ErrorKind::WouldBlock,
            ) && shown == state
            &&& frame.data@ != state.saved ==> fetched == Ok::<Fetched, ErrorKind>(Fetched::Ready)
                && shown.data == frame.data@ && shown.stride == frame.stride
        }),
{
}

/// A surface of a display stream is new exactly if its raw bytes differ from those
/// that were found last; it is to be converted with as many rows as the display has.
/// Once it is, exactly the bytes of the conversion are shown, all of them and in
/// order, under exactly the stride that came with them; until then the picture before
/// stays.
pub proof fn law_new_surface_is_shown_whole(
    state: CaptureState,
    raw: Vec<u8>,
    bgra: Seq<u8>,
    stride: usize,
)
    ensures
        ({
            let (waiting, fetched) = state.fetch(Polled::Quartz(QuartzPoll::Frame(raw)));
            let shown = waiting.convert(bgra, stride);
            &&& Polled::Quartz(QuartzPoll::Frame(raw)).raw() == Some(raw@)
            &&& raw@ == state.saved ==> fetched == Err::<Fetched, ErrorKind>(
                ErrorKind::WouldBlock,
            ) && waiting == state
            &&& raw@ != state.saved ==> fetched == Ok::<Fetched, ErrorKind>(
                Fetched::ConvertSurface { height: state.height },
            ) && waiting.converting
            &&& waiting.data == state.data && waiting.stride == state.stride
            &&& waiting.width == state.width && waiting.height == state.height
            &&& waiting.backend == state.backend
            &&& waiting.saved == raw@ && shown.saved == raw@
            &&& shown.data.len() == bgra.len()
            &&& forall|i: int| 0 <= i < bgra.len() ==> #[trigger] shown.data[i] == bgra[i]
            &&& shown.stride == stride
            &&& !shown.converting
            &&& shown.width == state.width && shown.height == state.height
            &&& shown.backend == state.backend
        }),
{
}

impl CaptureUse {
    /// The raw bytes of the frame that this use found, if it found one.
    pub open spec fn found(self) -> Option<Seq<u8>> {
        match self {
            CaptureUse::Fetch(Polled::Sck(Some(frame))) => Some(frame.data@),
            CaptureUse::Fetch(Polled::Quartz(QuartzPoll::Frame(raw))) => Some(raw@),
            _ => None,
        }
    }
}

/// Uses that find no frame leave what the next frame is compared with.
proof fn lemma_saved_stays(state: CaptureState, uses: Seq<CaptureUse>)
    requires
        forall|j: int| 0 <= j < uses.len() ==> (#[trigger] uses[j]).found() is None,
    ensures
        state.after(uses).saved == state.saved,
    decreases uses.len(),
{
    if uses.len() > 0 {
        let rest = uses.drop_first();
        assert(uses[0].found() is None);
        assert forall|j: int| 0 <= j < rest.len() implies (#[trigger] rest[j]).found() is None by {
            assert(rest[j] == uses[j + 1]);
        }
        let next = match uses.first() {
            CaptureUse::Fetch(polled) => state.fetch(polled).0,
            CaptureUse::Convert { bgra, stride } => state.convert(bgra, stride),
        };
        lemma_saved_stays(next, rest);
    }
}

/// Only what changed is passed on, however long ago the last frame was: whatever was
/// done before and however many polls found nothing since, the next frame gets through
/// exactly if its bytes differ from those of the last frame that was found.
pub proof fn law_next_frame_is_compared_with_the_last(
    state: CaptureState,
    uses: Seq<CaptureUse>,
    i: int,
    again: Polled,
)
    requires
        0 <= i < uses.len(),
        uses[i].found() is Some,
        forall|j: int| i < j < uses.len() ==> (#[trigger] uses[j]).found() is None,
    ensures
        ({
            let before = state.after(uses);
            let (after, fetched) = before.fetch(again);
            let next = CaptureUse::Fetch(again).found();
            &&& next is Some && next == uses[i].found() ==> fetched == Err::<Fetched, ErrorKind>(
                ErrorKind::WouldBlock,
            ) && after == before
            &&& next is Some && next != uses[i].found() ==> fetched is Ok
        }),
    decreases uses.len(),
{
    let rest = uses.drop_first();
    let next = match uses.first() {
        CaptureUse::Fetch(polled) => state.fetch(polled).0,
        CaptureUse::Convert { bgra, stride } => state.convert(bgra, stride),
    };
    assert forall|j: int| i - 1 < j < rest.len() && 0 <= j implies (
    #[trigger] rest[j]).found() is None by {
        assert(rest[j] == uses[j + 1]);
    }
    if i > 0 {
        assert(rest[i - 1] == uses[i]);
        law_next_frame_is_compared_with_the_last(next, rest, i - 1, again);
    } else {
        lemma_saved_stays(next, rest);
    }
}

/// A new capturer shows nothing yet, in the size of its display: any first frame that
/// holds a byte is new to it.
pub proof fn law_first_frame_gets_through(
    backend: Backend,
    width: usize,
    height: usize,
    polled: Polled,
)
    ensures
        ({
            let state = CaptureState::fresh(backend, width, height);
            &&& state.backend == backend && state.width == width && state.height == height
            &&& state.data.len() == 0 && state.stride == 0 && !state.converting
            &&& CaptureUse::Fetch(polled).found() matches Some(raw) ==> (
            state.fetch(polled).1 is Ok <==> raw.len() > 0)
        }),
{
    let state = CaptureState::fresh(backend, width, height);
    if let Some(raw) = CaptureUse::Fetch(polled).found() {
        assert(raw.len() == 0 ==> raw =~= state.saved);
    }
}

/// A capturer takes every poll of its own backend, and none of the other.
pub proof fn law_polls_come_from_the_backend(state: CaptureState, polled: Polled)
    ensures
        state.polls(polled) <==> (state.backend is Sck <==> polled is Sck),
{
}

} // verus!
