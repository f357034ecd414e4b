//! Constants and values that cross over to CoreMedia and CoreVideo.
#![allow(non_upper_case_globals)]
use vstd::prelude::*;

verus! {

/// `kCVPixelBufferLock_ReadOnly`
pub const kCVPixelBufferLock_ReadOnly: u64 = 0x0000_0001;

/// `kCVPixelFormatType_32BGRA` == 'BGRA'
pub const BGRA_PIXEL_FORMAT: u32 = 0x4247_5241;

/// `SCStreamOutputType.screen`
pub const SC_STREAM_OUTPUT_TYPE_SCREEN: isize = 0;

/// `kCMTimeFlags_Valid`
pub const kCMTimeFlags_Valid: u32 = 1;

/// `CMTime`: a time of `value / timescale` seconds.
#[derive(Clone, Copy, Debug, PartialEq, Eq, Structural)]
pub struct CMTime {
    pub value: i64,
    pub timescale: i32,
    pub flags: u32,
    pub epoch: i64,
}

impl CMTime {
    /// The interval of one frame at `fps` frames a second. A rate of zero counts
    /// as one, and one that a time scale cannot hold as the highest that it can.
    pub open spec fn interval_of(fps: u32) -> CMTime {
        CMTime {
            value: 1,
            timescale: if fps == 0 {
                1
            } else if fps > i32::MAX {
                i32::MAX
            } else {
                fps as i32
            },
            flags: kCMTimeFlags_Valid,
            epoch: 0,
        }
    }

    /// A frame interval of `1/fps` seconds.
    pub fn frame_interval(fps: u32) -> (time: CMTime)
        ensures
            time == CMTime::interval_of(fps),
            time.value == 1 && time.flags == 1 && time.epoch == 0,
            1 <= fps <= i32::MAX ==> time.timescale == fps,
            fps == 0 ==> time.timescale == 1,
            fps > i32::MAX ==> time.timescale == i32::MAX,
    {
        let timescale: i32 = if fps == 0 {
            1
        } else if fps > 0x7fff_ffff {
            i32::MAX
        } else {
            fps as i32
        };
        CMTime { value: 1, timescale, flags: kCMTimeFlags_Valid, epoch: 0 }
    }
}

/// A frame interval is positive, whatever the rate.
pub proof fn law_interval_is_positive(fps: u32)
    ensures
        CMTime::interval_of(fps).value == 1,
        CMTime::interval_of(fps).timescale > 0,
{
}

/// For every rate that a time scale can hold, `fps` frame intervals make up
/// exactly one second.
pub proof fn law_frames_fill_a_second(fps: u32)
    requires
        1 <= fps <= i32::MAX,
    ensures
        CMTime::interval_of(fps).value * fps == CMTime::interval_of(fps).timescale,
        CMTime::interval_of(fps).timescale > 0,
{
}

/// The interval in full, for every rate: a valid time of one over the rate, with the
/// rate brought into what a time scale can hold where it is not.
pub proof fn law_interval_is_one_over_the_rate(fps: u32)
    ensures
        CMTime::interval_of(fps).value == 1,
        CMTime::interval_of(fps).flags == 1,
        CMTime::interval_of(fps).epoch == 0,
        1 <= fps <= i32::MAX ==> CMTime::interval_of(fps).timescale == fps,
        fps == 0 ==> CMTime::interval_of(fps).timescale == 1,
        fps > i32::MAX ==> CMTime::interval_of(fps).timescale == i32::MAX,
{
}

/// A faster rate never has a longer interval.
pub proof fn law_faster_is_shorter(slow: u32, fast: u32)
    requires
        slow <= fast,
    ensures
        CMTime::interval_of(slow).timescale <= CMTime::interval_of(fast).timescale,
{
}

/// The pixel format spells its own name.
pub proof fn law_pixel_format_is_its_four_letters()
    ensures
        BGRA_PIXEL_FORMAT == (('B' as u32 * 256 + 'G' as u32) * 256 + 'R' as u32) * 256
            + 'A' as u32,
{
}

} // verus!
