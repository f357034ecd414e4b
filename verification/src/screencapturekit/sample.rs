//! One frame callback: from a sample buffer to a frame in the slot.
use vstd::prelude::*;

use super::ffi::kCVPixelBufferLock_ReadOnly;
use super::output::SLOT_FIELD;
use super::{Frame, Handle};

verus! {

/// Where a locked pixel buffer lies in memory, and how large it is.
#[derive(Clone, Copy, Debug, PartialEq, Eq, Structural)]
pub struct Geometry {
    /// The address of the first byte; zero is nil.
    pub base: Handle,
    pub stride: usize,
    pub width: usize,
    pub height: usize,
}

impl Geometry {
    /// Whether there are any pixels to copy.
    pub open spec fn has_pixels(self) -> bool {
        self.base != 0 && self.stride > 0 && self.height > 0
    }

    /// The pixels fit in one buffer.
    pub open spec fn fits_in_memory(self) -> bool {
        self.stride * self.height <= isize::MAX
    }

    /// Whether there are pixels that fit in one buffer, or none at all. Where
    /// this is false no callback can go on.
    pub fn can_copy(&self) -> (ok: bool)
        ensures
            ok == (self.has_pixels() ==> self.fits_in_memory()),
            ok <==> self.base == 0 || self.stride == 0 || self.height == 0 || self.stride
                * self.height <= isize::MAX,
    {
        if self.base != 0 && self.stride > 0 && self.height > 0 {
            match self.stride.checked_mul(self.height) {
                Some(len) => len <= isize::MAX as usize,
                None => false,
            }
        } else {
            true
        }
    }
}

/// The next outside step of a frame callback. Each is answered by one
/// [`SampleReply`].
#[derive(Clone, Copy, Debug, PartialEq, Eq)]
pub enum SampleRequest {
    /// `CMSampleBufferGetImageBuffer`.
    GetImageBuffer { sample: Handle },
    /// `CVPixelBufferLockBaseAddress`.
    Lock { image_buffer: Handle, flags: u64 },
    /// Read the base address, the bytes per row, the width and the height.
    ReadGeometry { image_buffer: Handle },
    /// Copy this many bytes from the base address.
    CopyPixels { base: Handle, len: usize },
    /// Read the address in the delegate's slot field.
    ReadSlot { field: &'static str },
    /// Lock the frame slot at this address.
    LockSlot { slot: Handle },
}

/// How an outside step of a frame callback went.
pub enum SampleReply {
    /// To `GetImageBuffer`: the buffer, or nil.
    ImageBuffer(Handle),
    /// To `Lock`: zero on success.
    Locked(i32),
    /// To `ReadGeometry`.
    Geometry(Geometry),
    /// To `CopyPixels`: the bytes.
    Pixels(Vec<u8>),
    /// To `ReadSlot`: the address, or nil.
    SlotAddress(Handle),
    /// To `LockSlot`: whether it could be locked.
    SlotLocked(bool),
}

/// How far a frame callback has got.
pub enum Sample {
    AwaitImageBuffer { sample: Handle },
    AwaitLock { image_buffer: Handle },
    AwaitGeometry { image_buffer: Handle },
    AwaitPixels { image_buffer: Handle, geometry: Geometry },
    AwaitSlotAddress { image_buffer: Handle, frame: Frame },
    AwaitSlot { image_buffer: Handle, frame: Frame, slot: Handle },
    /// Put the frame, if there is one, in the locked slot; then unlock the
    /// pixel buffer as [`Sample::unlock`] says.
    Finish { image_buffer: Handle, delivery: Option<Frame> },
    /// Nothing was locked, and nothing is left to do.
    Ignored,
}

impl Sample {
    /// The outside step that this state waits for, if it waits for one.
    pub open spec fn pending(self) -> Option<SampleRequest> {
        match self {
            Sample::AwaitImageBuffer { sample } => Some(SampleRequest::GetImageBuffer { sample }),
            Sample::AwaitLock { image_buffer } => Some(
                SampleRequest::Lock { image_buffer, flags: kCVPixelBufferLock_ReadOnly },
            ),
            Sample::AwaitGeometry { image_buffer } => Some(
                SampleRequest::ReadGeometry { image_buffer },
            ),
            Sample::AwaitPixels { geometry, .. } => Some(
                SampleRequest::CopyPixels {
                    base: geometry.base,
                    len: (geometry.stride * geometry.height) as usize,
                },
            ),
            Sample::AwaitSlotAddress { .. } => Some(SampleRequest::ReadSlot { field: SLOT_FIELD }),
            Sample::AwaitSlot { slot, .. } => Some(SampleRequest::LockSlot { slot }),
            Sample::Finish { .. } => None,
            Sample::Ignored => None,
        }
    }

    /// The buffer and the flags to unlock at the end, if one is locked then: the
    /// flags are those of the lock.
    pub open spec fn unlocking(self) -> Option<(Handle, u64)> {
        match self {
            Sample::Finish { image_buffer, .. } => Some(
                (image_buffer, kCVPixelBufferLock_ReadOnly),
            ),
            _ => None,
        }
    }

    /// A state that a callback can be in: pixels are asked for only where there
    /// are some, and fit in memory.
    pub open spec fn wf(self) -> bool {
        self matches Sample::AwaitPixels { geometry, .. } ==> geometry.has_pixels()
            && geometry.fits_in_memory()
    }

    /// Whether `reply` answers the step that this state waits for. A geometry
    /// has to fit in memory, and pixels have to be all that were asked for.
    pub open spec fn expects(self, reply: SampleReply) -> bool {
        match (self, reply) {
            (Sample::AwaitImageBuffer { .. }, SampleReply::ImageBuffer(_)) => true,
            (Sample::AwaitLock { .. }, SampleReply::Locked(_)) => true,
            (Sample::AwaitGeometry { .. }, SampleReply::Geometry(geometry)) => {
                geometry.has_pixels() ==> geometry.fits_in_memory()
            },
            (Sample::AwaitPixels { geometry, .. }, SampleReply::Pixels(data)) => {
                data@.len() == geometry.stride * geometry.height
            },
            (Sample::AwaitSlotAddress { .. }, SampleReply::SlotAddress(_)) => true,
            (Sample::AwaitSlot { .. }, SampleReply::SlotLocked(_)) => true,
            _ => false,
        }
    }

    /// The state after `reply`.
    pub open spec fn next(self, reply: SampleReply) -> Sample {
        match (self, reply) {
            (Sample::AwaitImageBuffer { .. }, SampleReply::ImageBuffer(image_buffer)) =>
                if image_buffer == 0 {
                    Sample::Ignored
                } else {
                    Sample::AwaitLock { image_buffer }
                },
            (Sample::AwaitLock { image_buffer }, SampleReply::Locked(status)) => if status != 0 {
                Sample::Ignored
            } else {
                Sample::AwaitGeometry { image_buffer }
            },
            (Sample::AwaitGeometry { image_buffer }, SampleReply::Geometry(geometry)) =>
                if geometry.has_pixels() {
                    Sample::AwaitPixels { image_buffer, geometry }
                } else {
                    Sample::Finish { image_buffer, delivery: None }
                },
            (Sample::AwaitPixels { image_buffer, geometry }, SampleReply::Pixels(data)) =>
                Sample::AwaitSlotAddress {
                    image_buffer,
                    frame: Frame {
                        data,
                        stride: geometry.stride,
                        width: geometry.width,
                        height: geometry.height,
                    },
                },
            (Sample::AwaitSlotAddress { image_buffer, frame }, SampleReply::SlotAddress(slot)) =>
                if slot == 0 {
                    Sample::Finish { image_buffer, delivery: None }
                } else {
                    Sample::AwaitSlot { image_buffer, frame, slot }
                },
            (Sample::AwaitSlot { image_buffer, frame, .. }, SampleReply::SlotLocked(locked)) =>
                Sample::Finish { image_buffer, delivery: if locked { Some(frame) } else { None } },
            _ => self,
        }
    }

    /// A callback with the given sample buffer. A nil one is ignored.
    pub fn on_output(sample: Handle) -> (state: Sample)
        ensures
            state == (if sample == 0 {
                Sample::Ignored
            } else {
                Sample::AwaitImageBuffer { sample }
            }),
            state.wf(),
    {
        if sample == 0 {
            return Sample::Ignored;
        }
        Sample::AwaitImageBuffer { sample }
    }

    /// The outside step to do next, or `None` once nothing is left to ask.
    pub fn request(&self) -> (request: Option<SampleRequest>)
        requires
            self.wf(),
        ensures
            request == self.pending(),
    {
        match self {
            Sample::AwaitImageBuffer { sample } => Some(
                SampleRequest::GetImageBuffer { sample: *sample },
            ),
            Sample::AwaitLock { image_buffer } => Some(
                SampleRequest::Lock {
                    image_buffer: *image_buffer,
                    flags: kCVPixelBufferLock_ReadOnly,
                },
            ),
            Sample::AwaitGeometry { image_buffer } => Some(
                SampleRequest::ReadGeometry { image_buffer: *image_buffer },
            ),
            Sample::AwaitPixels { geometry, .. } => Some(
                SampleRequest::CopyPixels {
                    base: geometry.base,
                    len: geometry.stride * geometry.height,
                },
            ),
            Sample::AwaitSlotAddress { .. } => Some(SampleRequest::ReadSlot { field: SLOT_FIELD }),
            Sample::AwaitSlot { slot, .. } => Some(SampleRequest::LockSlot { slot: *slot }),
            Sample::Finish { .. } => None,
            Sample::Ignored => None,
        }
    }

    /// The arguments for `CVPixelBufferUnlockBaseAddress`, the last thing that a
    /// callback does; `None` where there is nothing to unlock.
    pub fn unlock(&self) -> (call: Option<(Handle, u64)>)
        ensures
            call == self.unlocking(),
            call is Some <==> self is Finish,
            *self matches Sample::Finish { image_buffer, .. } ==> call == Some(
                (image_buffer, 1u64),
            ),
    {
        match self {
            Sample::Finish { image_buffer, .. } => Some(
                (*image_buffer, kCVPixelBufferLock_ReadOnly),
            ),
            _ => None,
        }
    }

    /// Goes on with the reply to the step that [`Sample::request`] asked for.
    pub fn step(self, reply: SampleReply) -> (next: Sample)
        requires
            self.wf(),
            self.expects(reply),
        ensures
            next == self.next(reply),
            next.wf(),
    {
        match (self, reply) {
            (Sample::AwaitImageBuffer { .. }, SampleReply::ImageBuffer(image_buffer)) => {
                // Idle and blank frames often carry no image buffer.
                if image_buffer == 0 {
                    Sample::Ignored
                } else {
                    Sample::AwaitLock { image_buffer }
                }
            },
            (Sample::AwaitLock { image_buffer }, SampleReply::Locked(status)) => {
                if status != 0 {
                    Sample::Ignored
                } else {
                    Sample::AwaitGeometry { image_buffer }
                }
            },
            (Sample::AwaitGeometry { image_buffer }, SampleReply::Geometry(geometry)) => {
                if geometry.base != 0 && geometry.stride > 0 && geometry.height > 0 {
                    Sample::AwaitPixels { image_buffer, geometry }
                } else {
                    Sample::Finish { image_buffer, delivery: None }
                }
            },
            (Sample::AwaitPixels { image_buffer, geometry }, SampleReply::Pixels(data)) => {
                Sample::AwaitSlotAddress {
                    image_buffer,
                    frame: Frame {
                        data,
                        stride: geometry.stride,
                        width: geometry.width,
                        height: geometry.height,
                    },
                }
            },
            (Sample::AwaitSlotAddress { image_buffer, frame }, SampleReply::SlotAddress(slot)) => {
                if slot == 0 {
                    Sample::Finish { image_buffer, delivery: None }
                } else {
                    Sample::AwaitSlot { image_buffer, frame, slot }
                }
            },
            (Sample::AwaitSlot { image_buffer, frame, .. }, SampleReply::SlotLocked(locked)) => {
                Sample::Finish { image_buffer, delivery: if locked { Some(frame) } else { None } }
            },
            (state, _) => state,
        }
    }
}

impl Sample {
    /// The state after all of `replies`, first to last.
    pub open spec fn after(self, replies: Seq<SampleReply>) -> Sample
        decreases replies.len(),
    {
        if replies.len() == 0 {
            self
        } else {
            self.next(replies.first()).after(replies.drop_first())
        }
    }

    /// Whether each of `replies` answers the step that was waited for.
    pub open spec fn expects_all(self, replies: Seq<SampleReply>) -> bool
        decreases replies.len(),
    {
        replies.len() > 0 ==> {
            &&& self.expects(replies.first())
            &&& self.next(replies.first()).expects_all(replies.drop_first())
        }
    }
}

/// A callback that has come to its end unlocks a pixel buffer exactly if it
/// locked one: that same buffer, with the flags that it was locked with.
pub proof fn law_unlocked_if_and_only_if_locked(sample: Handle, replies: Seq<SampleReply>)
    requires
        (Sample::AwaitImageBuffer { sample }).expects_all(replies),
        (Sample::AwaitImageBuffer { sample }).after(replies).pending() is None,
    ensures
        ({
            let end = (Sample::AwaitImageBuffer { sample }).after(replies);
            &&& end is Finish || end is Ignored
            &&& end.unlocking() is Some <==> replies.contains(SampleReply::Locked(0))
            &&& end.unlocking() matches Some((image_buffer, flags)) ==> {
                &&& replies[0] == SampleReply::ImageBuffer(image_buffer)
                &&& replies[1] == SampleReply::Locked(0)
                &&& (Sample::AwaitImageBuffer { sample }).next(replies[0]).pending() == Some(
                    SampleRequest::Lock { image_buffer, flags },
                )
            }
        }),
{
    lemma_course(sample, replies);
}

/// A frame that is handed over holds the copied pixels under the geometry that
/// was read for them: as many bytes as its rows take up.
pub proof fn law_frame_holds_every_row(
    sample: Handle,
    replies: Seq<SampleReply>,
    image_buffer: Handle,
    frame: Frame,
)
    requires
        (Sample::AwaitImageBuffer { sample }).expects_all(replies),
        (Sample::AwaitImageBuffer { sample }).after(replies) == (Sample::Finish {
            image_buffer,
            delivery: Some(frame),
        }),
    ensures
        frame.data@.len() == frame.stride * frame.height,
        frame.stride > 0,
        frame.height > 0,
        replies[2] matches SampleReply::Geometry(geometry) && geometry.stride == frame.stride
            && geometry.width == frame.width && geometry.height == frame.height,
        replies[3] == SampleReply::Pixels(frame.data),
        replies[4] matches SampleReply::SlotAddress(slot) && slot != 0,
        replies[5] == SampleReply::SlotLocked(true),
{
    lemma_course(sample, replies);
}

/// The course of a callback, reply by reply.
proof fn lemma_course(sample: Handle, replies: Seq<SampleReply>)
    requires
        (Sample::AwaitImageBuffer { sample }).expects_all(replies),
        (Sample::AwaitImageBuffer { sample }).after(replies).pending() is None,
    ensures
        ({
            let end = (Sample::AwaitImageBuffer { sample }).after(replies);
            &&& end is Finish || end is Ignored
            &&& end is Finish <==> replies.contains(SampleReply::Locked(0))
            &&& end matches Sample::Finish { image_buffer, delivery } ==> {
                &&& image_buffer != 0
                &&& replies[0] == SampleReply::ImageBuffer(image_buffer)
                &&& replies[1] == SampleReply::Locked(0)
                &&& delivery matches Some(frame) ==> {
                    &&& replies[2] matches SampleReply::Geometry(geometry)
                    &&& geometry.stride == frame.stride
                    &&& geometry.width == frame.width
                    &&& geometry.height == frame.height
                    &&& geometry.has_pixels()
                    &&& replies[3] == SampleReply::Pixels(frame.data)
                    &&& frame.data@.len() == frame.stride * frame.height
                    &&& replies[4] matches SampleReply::SlotAddress(slot)
                    &&& slot != 0
                    &&& replies[5] == SampleReply::SlotLocked(true)
                }
            }
        }),
{
    let s0 = Sample::AwaitImageBuffer { sample };
    let r1 = replies.drop_first();
    let s1 = s0.next(replies[0]);
    assert(s0.after(replies) == s1.after(r1));
    assert(s1.expects_all(r1));
    if s1 is Ignored {
        assert(r1.len() == 0);
        assert(replies.len() == 1);
    } else {
        let r2 = r1.drop_first();
        let s2 = s1.next(r1[0]);
        assert(s1.after(r1) == s2.after(r2));
        assert(s2.expects_all(r2));
        assert(r1[0] == replies[1]);
        if s2 is Ignored {
            assert(r2.len() == 0);
            assert(replies.len() == 2);
        } else {
            assert(replies[1] == SampleReply::Locked(0));
            let r3 = r2.drop_first();
            let s3 = s2.next(r2[0]);
            assert(s2.after(r2) == s3.after(r3));
            assert(s3.expects_all(r3));
            assert(r2[0] == replies[2]);
            if s3 is Finish {
                assert(r3.len() == 0);
            } else {
                let r4 = r3.drop_first();
                let s4 = s3.next(r3[0]);
                assert(s3.after(r3) == s4.after(r4));
                assert(s4.expects_all(r4));
                assert(r3[0] == replies[3]);
                let r5 = r4.drop_first();
                let s5 = s4.next(r4[0]);
                assert(s4.after(r4) == s5.after(r5));
                assert(s5.expects_all(r5));
                assert(r4[0] == replies[4]);
                if s5 is Finish {
                    assert(r5.len() == 0);
                } else {
                    let r6 = r5.drop_first();
                    let s6 = s5.next(r5[0]);
                    assert(s5.after(r5) == s6.after(r6));
                    assert(s6.expects_all(r6));
                    assert(r5[0] == replies[5]);
                    assert(r6.len() == 0);
                }
            }
        }
    }
}

/// The last reply comes after all the others.
proof fn lemma_last_reply(state: Sample, replies: Seq<SampleReply>)
    requires
        replies.len() > 0,
    ensures
        state.after(replies) == state.after(replies.drop_last()).next(replies.last()),
        state.expects_all(replies) <==> state.expects_all(replies.drop_last()) && state.after(
            replies.drop_last(),
        ).expects(replies.last()),
    decreases replies.len(),
{
    let next = state.next(replies.first());
    let rest = replies.drop_first();
    if rest.len() > 0 {
        lemma_last_reply(next, rest);
        assert(rest.drop_last() =~= replies.drop_last().drop_first());
        assert(replies.drop_last().first() == replies.first());
        assert(rest.last() == replies.last());
    } else {
        assert(next.after(rest) == next);
        assert(next.expects_all(rest));
        assert(replies.drop_last().len() == 0);
    }
}

/// Where a callback stands after `replies`.
spec fn stands_at(sample: Handle, replies: Seq<SampleReply>, end: Sample) -> bool {
    let n = replies.len();
    let ib = replies[0]->ImageBuffer_0;
    let g = replies[2]->Geometry_0;
    &&& n >= 1 ==> replies[0] is ImageBuffer
    &&& n >= 2 ==> replies[1] is Locked && ib != 0
    &&& n >= 3 ==> replies[2] is Geometry && replies[1]->Locked_0 == 0
    &&& n >= 4 ==> replies[3] is Pixels && g.base != 0 && g.stride > 0 && g.height > 0
        && g.stride * g.height <= isize::MAX && replies[3]->Pixels_0@.len() == g.stride * g.height
    &&& n >= 5 ==> replies[4] is SlotAddress
    &&& n >= 6 ==> replies[5] is SlotLocked && replies[4]->SlotAddress_0 != 0
    &&& match end {
        Sample::AwaitImageBuffer { sample: s } => n == 0 && s == sample,
        Sample::AwaitLock { image_buffer } => n == 1 && ib != 0 && image_buffer == ib,
        Sample::AwaitGeometry { image_buffer } => n == 2 && replies[1]->Locked_0 == 0
            && image_buffer == ib,
        Sample::AwaitPixels { image_buffer, geometry } => n == 3 && image_buffer == ib && geometry
            == g && g.base != 0 && g.stride > 0 && g.height > 0 && g.stride * g.height
            <= isize::MAX,
        Sample::AwaitSlotAddress { image_buffer, frame } => n == 4 && image_buffer == ib && frame
            == framed(replies),
        Sample::AwaitSlot { image_buffer, frame, slot } => n == 5 && image_buffer == ib && frame
            == framed(replies) && slot == replies[4]->SlotAddress_0 && slot != 0,
        Sample::Finish { image_buffer, delivery } => {
            &&& image_buffer == ib
            &&& {
                ||| n == 3 && (g.base == 0 || g.stride == 0 || g.height == 0) && delivery is None
                ||| n == 5 && replies[4]->SlotAddress_0 == 0 && delivery is None
                ||| n == 6 && delivery == (if replies[5]->SlotLocked_0 {
                    Some(framed(replies))
                } else {
                    None
                })
            }
        },
        Sample::Ignored => n == 1 && ib == 0 || n == 2 && replies[1]->Locked_0 != 0,
    }
}

/// The frame that the replies make.
spec fn framed(replies: Seq<SampleReply>) -> Frame {
    Frame {
        data: replies[3]->Pixels_0,
        stride: replies[2]->Geometry_0.stride,
        width: replies[2]->Geometry_0.width,
        height: replies[2]->Geometry_0.height,
    }
}

/// Every run of replies leads there.
proof fn lemma_stands(sample: Handle, replies: Seq<SampleReply>)
    requires
        (Sample::AwaitImageBuffer { sample }).expects_all(replies),
    ensures
        stands_at(sample, replies, (Sample::AwaitImageBuffer { sample }).after(replies)),
    decreases replies.len(),
{
    if replies.len() > 0 {
        let before = replies.drop_last();
        lemma_last_reply(Sample::AwaitImageBuffer { sample }, replies);
        lemma_stands(sample, before);
        assert(forall|i: int| 0 <= i < before.len() ==> before[i] == replies[i]);
    }
}

/// A callback delivers whenever it can: given an image buffer that could be
/// locked, with rows of pixels that fit in memory (padded or not, whatever their
/// width), all of those pixels, and a slot that could be locked, these replies are
/// taken in this order and the callback ends with a frame of exactly those pixels
/// under exactly that geometry.
pub proof fn law_callback_delivers_whenever_it_can(
    sample: Handle,
    image_buffer: Handle,
    geometry: Geometry,
    pixels: Vec<u8>,
    slot: Handle,
)
    requires
        image_buffer != 0,
        geometry.base != 0,
        geometry.stride > 0,
        geometry.height > 0,
        geometry.stride * geometry.height <= isize::MAX,
        pixels@.len() == geometry.stride * geometry.height,
        slot != 0,
    ensures
        ({
            let replies = seq![
                SampleReply::ImageBuffer(image_buffer),
                SampleReply::Locked(0),
                SampleReply::Geometry(geometry),
                SampleReply::Pixels(pixels),
                SampleReply::SlotAddress(slot),
                SampleReply::SlotLocked(true),
            ];
            &&& (Sample::AwaitImageBuffer { sample }).expects_all(replies)
            &&& (Sample::AwaitImageBuffer { sample }).after(replies) == (Sample::Finish {
                image_buffer,
                delivery: Some(
                    Frame {
                        data: pixels,
                        stride: geometry.stride,
                        width: geometry.width,
                        height: geometry.height,
                    },
                ),
            })
        }),
{
    let start = Sample::AwaitImageBuffer { sample };
    let r6 = seq![
        SampleReply::ImageBuffer(image_buffer),
        SampleReply::Locked(0),
        SampleReply::Geometry(geometry),
        SampleReply::Pixels(pixels),
        SampleReply::SlotAddress(slot),
        SampleReply::SlotLocked(true),
    ];
    let r5 = r6.drop_last();
    let r4 = r5.drop_last();
    let r3 = r4.drop_last();
    let r2 = r3.drop_last();
    let r1 = r2.drop_last();
    assert(start.after(r1.drop_last()) == start && start.expects_all(r1.drop_last()));
    lemma_last_reply(start, r1);
    lemma_last_reply(start, r2);
    lemma_last_reply(start, r3);
    lemma_last_reply(start, r4);
    lemma_last_reply(start, r5);
    lemma_last_reply(start, r6);
}

/// A callback asks for six things, each only if the one before was there: the
/// image buffer of its sample; a read-only lock on that buffer; where its pixels
/// lie; a copy of all of them, every row with its padding; the address in the
/// delegate's slot field; and the lock of the slot at that address.
pub proof fn law_callback_asks_in_order(sample: Handle, replies: Seq<SampleReply>)
    requires
        (Sample::AwaitImageBuffer { sample }).expects_all(replies),
    ensures
        ({
            let n = replies.len();
            let end = (Sample::AwaitImageBuffer { sample }).after(replies);
            let image_buffer = replies[0]->ImageBuffer_0;
            let geometry = replies[2]->Geometry_0;
            &&& n <= 6
            &&& n == 0 ==> end.pending() == Some(SampleRequest::GetImageBuffer { sample })
            &&& n == 1 ==> end.pending() == (if image_buffer != 0 {
                Some(SampleRequest::Lock { image_buffer, flags: 1 })
            } else {
                None
            })
            &&& n == 2 ==> end.pending() == (if replies[1]->Locked_0 == 0 {
                Some(SampleRequest::ReadGeometry { image_buffer })
            } else {
                None
            })
            &&& n == 3 && geometry.base != 0 && geometry.stride > 0 && geometry.height > 0 ==> {
                &&& end.pending() matches Some(SampleRequest::CopyPixels { base, len })
                &&& base == geometry.base
                &&& len == geometry.stride * geometry.height
            }
            &&& n == 3 && (geometry.base == 0 || geometry.stride == 0 || geometry.height == 0)
                ==> end.pending() is None
            &&& n == 4 ==> {
                &&& end.pending() matches Some(SampleRequest::ReadSlot { field })
                &&& field@ == "rentamac_slot"@
            }
            &&& n == 5 ==> end.pending() == (if replies[4]->SlotAddress_0 != 0 {
                Some(SampleRequest::LockSlot { slot: replies[4]->SlotAddress_0 })
            } else {
                None
            })
            &&& n == 6 ==> end.pending() is None
        }),
{
    lemma_stands(sample, replies);
}

/// A callback takes every reply of the kind that was asked for, and no other. A
/// geometry has to fit in memory if there are pixels at all; a copy has to be
/// complete.
pub proof fn law_callback_takes_what_it_asked_for(
    sample: Handle,
    replies: Seq<SampleReply>,
    reply: SampleReply,
)
    requires
        (Sample::AwaitImageBuffer { sample }).expects_all(replies),
    ensures
        ({
            let n = replies.len();
            let end = (Sample::AwaitImageBuffer { sample }).after(replies);
            end.expects(reply) <==> end.pending() is Some && match reply {
                SampleReply::ImageBuffer(_) => n == 0,
                SampleReply::Locked(_) => n == 1,
                SampleReply::Geometry(g) => n == 2 && (g.base != 0 && g.stride > 0 && g.height > 0
                    ==> g.stride * g.height <= isize::MAX),
                SampleReply::Pixels(data) => n == 3 && data@.len()
                    == replies[2]->Geometry_0.stride * replies[2]->Geometry_0.height,
                SampleReply::SlotAddress(_) => n == 4,
                SampleReply::SlotLocked(_) => n == 5,
            }
        }),
{
    lemma_stands(sample, replies);
}

/// How a callback ends. It leaves nothing behind where there was no buffer or no
/// lock; else it unlocks that buffer, for reading only, and delivers exactly if
/// there were pixels and a slot that could be locked.
pub proof fn law_callback_ends(sample: Handle, replies: Seq<SampleReply>)
    requires
        (Sample::AwaitImageBuffer { sample }).expects_all(replies),
        (Sample::AwaitImageBuffer { sample }).after(replies).pending() is None,
    ensures
        ({
            let n = replies.len();
            let end = (Sample::AwaitImageBuffer { sample }).after(replies);
            let image_buffer = replies[0]->ImageBuffer_0;
            &&& n <= 2 ==> end is Ignored && end.unlocking() is None
            &&& n > 2 ==> {
                &&& end matches Sample::Finish { image_buffer: locked, delivery }
                &&& locked == image_buffer
                &&& end.unlocking() == Some((image_buffer, 1u64))
                &&& delivery is Some <==> n == 6 && replies[5] == SampleReply::SlotLocked(true)
                &&& delivery matches Some(frame) ==> {
                    &&& replies[3] == SampleReply::Pixels(frame.data)
                    &&& frame.stride == replies[2]->Geometry_0.stride
                    &&& frame.width == replies[2]->Geometry_0.width
                    &&& frame.height == replies[2]->Geometry_0.height
                }
            }
        }),
{
    lemma_stands(sample, replies);
}

} // verus!
