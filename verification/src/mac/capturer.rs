//! The capturer: starting a backend, and turning its frames into pixel buffers.
use vstd::prelude::*;

use super::display::Display;
use crate::error::ErrorKind;
use crate::screencapturekit as sck;
use crate::screencapturekit::setup::{SetupError, SetupParams};
use crate::slot::Slot;

verus! {

/// The rate at which ScreenCaptureKit frames are capped.
pub const MAX_FPS: u32 = 60;

/// The pixel format of the frames of a display stream.
#[derive(Clone, Copy, Debug, PartialEq, Eq, Structural)]
pub enum PixelFormat {
    Argb8888,
}

/// The pixel format of a captured frame.
#[derive(Clone, Copy, Debug, PartialEq, Eq, Structural)]
pub enum Pixfmt {
    BGRA,
}

/// Where the frames come from.
#[derive(Debug, PartialEq, Eq, Structural)]
pub enum Backend {
    /// A ScreenCaptureKit stream.
    Sck(sck::Capturer),
    /// A legacy display stream.
    Quartz,
}

/// Captures a display.
pub struct Capturer {
    backend: Backend,
    width: usize,
    height: usize,
    // BGRA bytes of the most recent frame; `PixelBuffer` borrows this.
    data: Vec<u8>,
    stride: usize,
    // Previous raw bytes, kept for a cheap "did anything change" comparison.
    saved_raw_data: Vec<u8>,
    // Whether a new surface is still to be turned into BGRA.
    converting: bool,
}

/// What a capturer holds.
#[verifier::ext_equal]
pub struct CaptureState {
    pub backend: Backend,
    pub width: usize,
    pub height: usize,
    /// The BGRA bytes of the frame that is shown.
    pub data: Seq<u8>,
    /// The bytes from one row of it to the next.
    pub stride: usize,
    /// The bytes of the last new frame, as they came.
    pub saved: Seq<u8>,
    /// A new frame has come whose BGRA bytes are still to be given.
    pub converting: bool,
}

impl View for Capturer {
    type V = CaptureState;

    closed spec fn view(&self) -> CaptureState {
        CaptureState {
            backend: self.backend,
            width: self.width,
            height: self.height,
            data: self.data@,
            stride: self.stride,
            saved: self.saved_raw_data@,
            converting: self.converting,
        }
    }
}

impl CaptureState {
    /// A capturer that has not shown anything yet.
    pub open spec fn fresh(backend: Backend, width: usize, height: usize) -> CaptureState {
        CaptureState {
            backend,
            width,
            height,
            data: Seq::empty(),
            stride: 0,
            saved: Seq::empty(),
            converting: false,
        }
    }
}

/// A capturer whose ScreenCaptureKit stream is being brought up.
#[derive(Clone, Copy, Debug, PartialEq, Eq, Structural)]
pub struct SckStart {
    pub display_id: u32,
    pub width: usize,
    pub height: usize,
}

/// A capturer whose display stream is being brought up, in this size and format
/// and otherwise with the default settings.
#[derive(Clone, Copy, Debug, PartialEq, Eq, Structural)]
pub struct QuartzStart {
    pub width: usize,
    pub height: usize,
    pub format: PixelFormat,
}

impl SckStart {
    /// The stream to ask for: the whole display in its own size, without the
    /// cursor.
    pub fn params(&self) -> (params: SetupParams)
        ensures
            params == (SetupParams {
                display_id: self.display_id,
                width: self.width,
                height: self.height,
                show_cursor: false,
                max_fps: MAX_FPS,
            }),
            params.max_fps == 60,
    {
        SetupParams {
            display_id: self.display_id,
            width: self.width,
            height: self.height,
            show_cursor: false,
            max_fps: MAX_FPS,
        }
    }

    /// Goes on once the stream is up or has failed. On failure the display
    /// stream is to be tried instead.
    pub fn finish(self, outcome: Result<sck::Capturer, SetupError>) -> (next: Result<
        Capturer,
        QuartzStart,
    >)
        ensures
            match outcome {
                Ok(stream) => next matches Ok(capturer) && capturer@ == CaptureState::fresh(
                    Backend::Sck(stream),
                    self.width,
                    self.height,
                ),
                Err(_) => next == Err::<Capturer, QuartzStart>(
                    QuartzStart {
                        width: self.width,
                        height: self.height,
                        format: PixelFormat::Argb8888,
                    },
                ),
            },
    {
        match outcome {
            Ok(stream) => Ok(Capturer::fresh(Backend::Sck(stream), self.width, self.height)),
            Err(_) => Err(
                QuartzStart {
                    width: self.width,
                    height: self.height,
                    format: PixelFormat::Argb8888,
                },
            ),
        }
    }
}

impl QuartzStart {
    /// Goes on once the display stream is up or has failed.
    pub fn finish<E>(self, outcome: Result<(), E>) -> (next: Result<Capturer, ErrorKind>)
        ensures
            match outcome {
                Ok(_) => next matches Ok(capturer) && capturer@ == CaptureState::fresh(
                    Backend::Quartz,
                    self.width,
                    self.height,
                ),
                Err(_) => next == Err::<Capturer, ErrorKind>(ErrorKind::Other),
            },
    {
        match outcome {
            Ok(_) => Ok(Capturer::fresh(Backend::Quartz, self.width, self.height)),
            Err(_) => Err(ErrorKind::Other),
        }
    }
}

/// What looking for a frame of a display stream found.
pub enum QuartzPoll {
    /// A frame, with its raw bytes.
    Frame(Vec<u8>),
    /// No new frame.
    Empty,
    /// The slot was locked by someone else.
    Busy,
    /// The slot's lock is poisoned.
    Poisoned,
}

/// What looking for a frame of the active backend found.
pub enum Polled {
    /// With a ScreenCaptureKit stream: what [`sck::Capturer::take_frame`] gave.
    Sck(Option<sck::Frame>),
    /// With a display stream.
    Quartz(QuartzPoll),
}

/// A new frame.
#[derive(Clone, Copy, Debug, PartialEq, Eq, Structural)]
pub enum Fetched {
    /// It can be shown.
    Ready,
    /// Its surface is to be turned into BGRA, with this many rows, and handed to
    /// [`Capturer::surface_converted`]; then it can be shown.
    ConvertSurface { height: usize },
}

impl Polled {
    /// The raw bytes of the frame that was found, if one was.
    pub open spec fn raw(self) -> Option<Seq<u8>> {
        match self {
            Polled::Sck(Some(frame)) => Some(frame.data@),
            Polled::Quartz(QuartzPoll::Frame(raw)) => Some(raw@),
            _ => None,
        }
    }
}

impl CaptureState {
    /// Whether `polled` is from the backend that is active.
    pub open spec fn polls(self, polled: Polled) -> bool {
        match self.backend {
            Backend::Sck(_) => polled is Sck,
            Backend::Quartz => polled is Quartz,
        }
    }

    /// What `polled` comes to: a frame counts only if its raw bytes differ from
    /// those of the last one. Of a ScreenCaptureKit frame the bytes and the row
    /// stride are adopted; the size stays that of the display.
    pub open spec fn fetch(self, polled: Polled) -> (CaptureState, Result<Fetched, ErrorKind>) {
        match polled {
            Polled::Sck(Some(frame)) => if frame.data@ == self.saved {
                (self, Err(ErrorKind::WouldBlock))
            } else {
                (
                    CaptureState {
                        saved: frame.data@,
                        data: frame.data@,
                        stride: frame.stride,
                        ..self
                    },
                    Ok(Fetched::Ready),
                )
            },
            Polled::Quartz(QuartzPoll::Frame(raw)) => if raw@ == self.saved {
                (self, Err(ErrorKind::WouldBlock))
            } else {
                (
                    CaptureState { saved: raw@, converting: true, ..self },
                    Ok(Fetched::ConvertSurface { height: self.height }),
                )
            },
            Polled::Quartz(QuartzPoll::Poisoned) => (self, Err(ErrorKind::Other)),
            _ => (self, Err(ErrorKind::WouldBlock)),
        }
    }

    /// The BGRA bytes of the new surface are there.
    pub open spec fn convert(self, bgra: Seq<u8>, stride: usize) -> CaptureState {
        CaptureState { data: bgra, stride, converting: false, ..self }
    }
}

impl Capturer {
    /// A capturer that has not shown anything yet.
    fn fresh(backend: Backend, width: usize, height: usize) -> (capturer: Capturer)
        ensures
            capturer@ == CaptureState::fresh(backend, width, height),
    {
        let capturer = Capturer {
            backend,
            width,
            height,
            data: Vec::new(),
            stride: 0,
            saved_raw_data: Vec::new(),
            converting: false,
        };
        assert(capturer@ =~= CaptureState::fresh(backend, width, height));
        capturer
    }

    /// Begins to capture `display`, preferring ScreenCaptureKit.
    pub fn new(display: Display) -> (start: SckStart)
        ensures
            start == (SckStart {
                display_id: display@.id,
                width: display@.width,
                height: display@.height,
            }),
    {
        SckStart { display_id: display.id(), width: display.width(), height: display.height() }
    }

    /// The width of the display.
    pub fn width(&self) -> (width: usize)
        ensures
            width == self@.width,
    {
        self.width
    }

    /// The height of the display.
    pub fn height(&self) -> (height: usize)
        ensures
            height == self@.height,
    {
        self.height
    }

    /// The active backend.
    pub fn backend(&self) -> (backend: &Backend)
        ensures
            *backend == self@.backend,
    {
        &self.backend
    }

    /// Ends the capture, and hands over the backend to be torn down.
    pub fn into_backend(self) -> (backend: Backend)
        ensures
            backend == self@.backend,
    {
        self.backend
    }

    /// Looks for a frame of the ScreenCaptureKit stream, in its frame slot; `None`
    /// if that could not be locked.
    pub fn poll_stream(&mut self, slot: Option<&mut Slot<sck::Frame>>) -> (polled: Polled)
        requires
            old(self)@.backend is Sck,
        ensures
            slot is None ==> polled == Polled::Sck(None),
            slot matches Some(slot) ==> polled == Polled::Sck((*slot)@) && (*final(slot))@ is None,
            final(self)@ == old(self)@,
    {
        match &mut self.backend {
            Backend::Sck(stream) => Polled::Sck(stream.take_frame(slot)),
            Backend::Quartz => Polled::Sck(None),
        }
    }

    /// Takes note of what looking for a frame found. On [`Fetched::Ready`] the
    /// new frame is in [`Capturer::pixel_buffer`]; where there is nothing new,
    /// nothing changes.
    pub fn frame(&mut self, polled: Polled) -> (fetched: Result<Fetched, ErrorKind>)
        requires
            old(self)@.polls(polled),
            !old(self)@.converting,
        ensures
            (final(self)@, fetched) == old(self)@.fetch(polled),
            fetched is Err ==> final(self)@ == old(self)@,
            polled matches Polled::Sck(Some(frame)) ==> {
                &&& fetched == (if frame.data@ == old(self)@.saved {
                    Err::<Fetched, ErrorKind>(ErrorKind::WouldBlock)
                } else {
                    Ok(Fetched::Ready)
                })
                &&& fetched is Ok ==> final(self)@.data == frame.data@ && final(self)@.stride
                    == frame.stride && !final(self)@.converting
                &&& final(self)@.saved == frame.data@
            },
            polled matches Polled::Quartz(QuartzPoll::Frame(raw)) ==> {
                &&& fetched == (if raw@ == old(self)@.saved {
                    Err::<Fetched, ErrorKind>(ErrorKind::WouldBlock)
                } else {
                    Ok(Fetched::ConvertSurface { height: old(self)@.height })
                })
                &&& fetched is Ok ==> final(self)@.converting
                &&& final(self)@.data == old(self)@.data && final(self)@.stride
                    == old(self)@.stride
                &&& final(self)@.saved == raw@
            },
            (polled matches Polled::Sck(None)) || (polled matches Polled::Quartz(QuartzPoll::Empty))
                || (polled matches Polled::Quartz(QuartzPoll::Busy)) ==> fetched == Err::<
                Fetched,
                ErrorKind,
            >(ErrorKind::WouldBlock),
            (polled matches Polled::Quartz(QuartzPoll::Poisoned)) ==> fetched == Err::<
                Fetched,
                ErrorKind,
            >(ErrorKind::Other),
            final(self)@.backend == old(self)@.backend,
            final(self)@.width == old(self)@.width,
            final(self)@.height == old(self)@.height,
    {
        match polled {
            Polled::Sck(None) => Err(ErrorKind::WouldBlock),
            Polled::Sck(Some(frame)) => {
                match would_block_if_equal(&mut self.saved_raw_data, frame.data.as_slice()) {
                    Ok(_) => {
                        self.stride = frame.stride;
                        self.data = frame.data;
                        Ok(Fetched::Ready)
                    },
                    Err(e) => Err(e),
                }
            },
            Polled::Quartz(QuartzPoll::Frame(raw)) => {
                match would_block_if_equal(&mut self.saved_raw_data, raw.as_slice()) {
                    Ok(_) => {
                        self.converting = true;
                        Ok(Fetched::ConvertSurface { height: self.height })
                    },
                    Err(e) => Err(e),
                }
            },
            Polled::Quartz(QuartzPoll::Empty) => Err(ErrorKind::WouldBlock),
            Polled::Quartz(QuartzPoll::Busy) => Err(ErrorKind::WouldBlock),
            Polled::Quartz(QuartzPoll::Poisoned) => Err(ErrorKind::Other),
        }
    }

    /// Adopts the BGRA bytes of the surface that [`Fetched::ConvertSurface`]
    /// asked for.
    pub fn surface_converted(&mut self, bgra: &[u8], stride: usize)
        requires
            old(self)@.converting,
        ensures
            final(self)@ == old(self)@.convert(bgra@, stride),
            final(self)@.data == bgra@,
            final(self)@.stride == stride,
            !final(self)@.converting,
            final(self)@.saved == old(self)@.saved,
            final(self)@.backend == old(self)@.backend,
            final(self)@.width == old(self)@.width,
            final(self)@.height == old(self)@.height,
    {
        self.stride = stride;
        self.data.clear();
        self.data.extend_from_slice(bgra);
        self.converting = false;
        assert(self.data@ =~= bgra@);
    }

    /// The frame that is shown.
    pub fn pixel_buffer(&self) -> (buffer: PixelBuffer<'_>)
        requires
            !self@.converting,
        ensures
            buffer@ == (Pixels {
                data: self@.data,
                width: self@.width,
                height: self@.height,
                stride: self@.stride,
            }),
    {
        PixelBuffer {
            data: self.data.as_slice(),
            width: self.width,
            height: self.height,
            stride: self.stride,
        }
    }

    /// Frames are always pixel buffers: asking for textures changes nothing.
    pub fn set_output_texture(&mut self, _texture: bool)
        ensures
            final(self)@ == old(self)@,
    {
    }
}

/// Compares a frame with the one before. If their bytes are the same there is
/// nothing new to show; if not, the new bytes are kept in `old_bytes`.
pub fn would_block_if_equal(old_bytes: &mut Vec<u8>, new_bytes: &[u8]) -> (changed: Result<
    (),
    ErrorKind,
>)
    ensures
        old(old_bytes)@ == new_bytes@ ==> changed == Err::<(), ErrorKind>(ErrorKind::WouldBlock),
        old(old_bytes)@ != new_bytes@ ==> changed is Ok,
        final(old_bytes)@ == new_bytes@,
{
    if same_bytes(old_bytes.as_slice(), new_bytes) {
        return Err(ErrorKind::WouldBlock);
    }
    old_bytes.clear();
    old_bytes.extend_from_slice(new_bytes);
    assert(old_bytes@ =~= new_bytes@);
    Ok(())
}

/// Whether two byte strings are the same.
fn same_bytes(a: &[u8], b: &[u8]) -> (same: bool)
    ensures
        same == (a@ == b@),
{
    if a.len() != b.len() {
        return false;
    }
    let mut i: usize = 0;
    while i < a.len()
        invariant
            a@.len() == b@.len(),
            i <= a@.len(),
            forall|k: int| 0 <= k < i ==> a@[k] == b@[k],
        decreases a@.len() - i,
    {
        if a[i] != b[i] {
            return false;
        }
        i = i + 1;
    }
    assert(a@ =~= b@);
    true
}

/// A frame in memory.
pub struct PixelBuffer<'a> {
    data: &'a [u8],
    width: usize,
    height: usize,
    stride: usize,
}

/// What a pixel buffer holds.
#[verifier::ext_equal]
pub struct Pixels {
    pub data: Seq<u8>,
    pub width: usize,
    pub height: usize,
    pub stride: usize,
}

impl<'a> View for PixelBuffer<'a> {
    type V = Pixels;

    closed spec fn view(&self) -> Pixels {
        Pixels {
            data: self.data@,
            width: self.width,
            height: self.height,
            stride: self.stride,
        }
    }
}

impl<'a> PixelBuffer<'a> {
    /// The BGRA bytes, row by row.
    pub fn data(&self) -> (data: &[u8])
        ensures
            data@ == self@.data,
    {
        self.data
    }

    /// The width in pixels.
    pub fn width(&self) -> (width: usize)
        ensures
            width == self@.width,
    {
        self.width
    }

    /// The height in pixels.
    pub fn height(&self) -> (height: usize)
        ensures
            height == self@.height,
    {
        self.height
    }

    /// The bytes from one row to the next, for each plane: there is one.
    pub fn stride(&self) -> (stride: Vec<usize>)
        ensures
            stride@ == seq![self@.stride],
    {
        let mut stride: Vec<usize> = Vec::new();
        stride.push(self.stride);
        stride
    }

    /// The pixel format.
    pub fn pixfmt(&self) -> (format: Pixfmt)
        ensures
            format == Pixfmt::BGRA,
    {
        Pixfmt::BGRA
    }
}

} // verus!
