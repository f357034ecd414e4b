use rentamac::error::ErrorKind;
use rentamac::mac::capturer::{
    would_block_if_equal, Backend, Fetched, PixelFormat, Pixfmt, Polled, QuartzPoll, QuartzStart,
};
use rentamac::mac::display::DisplayInfo;
use rentamac::mac::{Capturer, Display};
use rentamac::screencapturekit as sck;
use rentamac::screencapturekit::setup::SetupError;
use rentamac::slot::Slot;

fn info(id: u32) -> DisplayInfo {
    DisplayInfo {
        id,
        width: 1920,
        height: 1080,
        origin: (-1920, 40),
        online: true,
        primary: id == 1,
    }
}

fn display(id: u32) -> Display {
    Display::primary(info(id)).unwrap()
}

fn stream() -> sck::Capturer {
    sck::Capturer { stream: 11, filter: 12, config: 13, output: 14, queue: 15, slot_raw: 16 }
}

fn sck_capturer() -> Capturer {
    match Capturer::new(display(7)).finish(Ok(stream())) {
        Ok(capturer) => capturer,
        Err(_) => panic!("the stream is up"),
    }
}

fn quartz_capturer() -> Capturer {
    match Capturer::new(display(7)).finish(Err(SetupError::NoDisplay)) {
        Ok(_) => panic!("the stream is not up"),
        Err(start) => start.finish(Ok::<(), u32>(())).unwrap_or_else(|_| panic!("it is up")),
    }
}

fn frame(data: &[u8], stride: usize) -> Polled {
    Polled::Sck(Some(sck::Frame { data: data.to_vec(), stride, width: 3, height: 2 }))
}

#[test]
fn display_accessors() {
    let d = display(7);
    assert_eq!(d.width(), 1920);
    assert_eq!(d.height(), 1080);
    assert_eq!(d.origin(), (-1920, 40));
    assert_eq!(d.id(), 7);
    assert!(d.is_online());
    assert!(!d.is_primary());
    assert!(display(1).is_primary());
}

#[test]
fn display_names_are_decimal_ids() {
    assert_eq!(display(0).name(), "0");
    assert_eq!(display(9).name(), "9");
    assert_eq!(display(10).name(), "10");
    assert_eq!(display(69733378).name(), "69733378");
    assert_eq!(display(u32::MAX).name(), "4294967295");
}

#[test]
fn a_display_tells_what_is_known_of_it() {
    let display = Display::from_info(info(4));
    assert_eq!(display.id(), 4);
    assert_eq!((display.width(), display.height()), (1920, 1080));
    assert_eq!(display.origin(), (-1920, 40));
    assert!(display.is_online());
    assert!(!display.is_primary());
}

#[test]
fn all_displays_keep_their_order() {
    let all = Display::all::<i32>(Ok(vec![info(4), info(1), info(9)])).unwrap();
    let ids: Vec<u32> = all.iter().map(|d| d.id()).collect();
    assert_eq!(ids, vec![4, 1, 9]);
    assert!(Display::all::<i32>(Ok(vec![])).unwrap().is_empty());
}

#[test]
fn a_failing_display_list_is_another_error() {
    assert_eq!(Display::all(Err(1001)).err(), Some(ErrorKind::Other));
}

#[test]
fn sck_is_asked_for_first_without_cursor() {
    let params = Capturer::new(display(7)).params();
    assert_eq!(params.display_id, 7);
    assert_eq!(params.width, 1920);
    assert_eq!(params.height, 1080);
    assert!(!params.show_cursor);
    assert_eq!(params.max_fps, 60);
}

#[test]
fn sck_backend_is_used_when_it_starts() {
    let capturer = sck_capturer();
    assert_eq!(capturer.backend(), &Backend::Sck(stream()));
    assert_eq!(capturer.width(), 1920);
    assert_eq!(capturer.height(), 1080);
    assert_eq!(capturer.into_backend(), Backend::Sck(stream()));
}

#[test]
fn quartz_is_the_fallback() {
    let start = Capturer::new(display(7)).finish(Err(SetupError::StartTimeout)).err().unwrap();
    let want = QuartzStart { width: 1920, height: 1080, format: PixelFormat::Argb8888 };
    assert_eq!(start, want);
    assert_eq!(quartz_capturer().backend(), &Backend::Quartz);
}

#[test]
fn both_backends_failing_is_another_error() {
    let start = Capturer::new(display(7)).finish(Err(SetupError::StreamInit)).err().unwrap();
    assert_eq!(start.finish(Err(5)).err(), Some(ErrorKind::Other));
}

#[test]
fn sck_frame_is_shown_with_its_stride() {
    let mut capturer = sck_capturer();
    assert_eq!(capturer.frame(frame(&[1, 2, 3, 4], 64)), Ok(Fetched::Ready));
    let buffer = capturer.pixel_buffer();
    assert_eq!(buffer.data(), &[1, 2, 3, 4]);
    assert_eq!(buffer.stride(), vec![64]);
    // The size stays that of the display, whatever the frame says.
    assert_eq!(buffer.width(), 1920);
    assert_eq!(buffer.height(), 1080);
    assert_eq!(buffer.pixfmt(), Pixfmt::BGRA);
}

#[test]
fn polling_the_stream_takes_the_latest_frame() {
    let mut capturer = sck_capturer();
    let mut slot = Slot::new();
    slot.put(sck::Frame { data: vec![1], stride: 4, width: 1, height: 1 });
    slot.put(sck::Frame { data: vec![2], stride: 4, width: 1, height: 1 });
    assert!(matches!(capturer.poll_stream(None), Polled::Sck(None)));
    let polled = capturer.poll_stream(Some(&mut slot));
    assert_eq!(capturer.frame(polled), Ok(Fetched::Ready));
    assert_eq!(capturer.pixel_buffer().data(), &[2]);
    assert!(matches!(capturer.poll_stream(Some(&mut slot)), Polled::Sck(None)));
}

#[test]
fn no_frame_blocks() {
    let mut capturer = sck_capturer();
    assert_eq!(capturer.frame(Polled::Sck(None)), Err(ErrorKind::WouldBlock));
    let mut capturer = quartz_capturer();
    let empty = Polled::Quartz(QuartzPoll::Empty);
    assert_eq!(capturer.frame(empty), Err(ErrorKind::WouldBlock));
    let busy = Polled::Quartz(QuartzPoll::Busy);
    assert_eq!(capturer.frame(busy), Err(ErrorKind::WouldBlock));
}

#[test]
fn poisoned_slot_is_another_error() {
    let mut capturer = quartz_capturer();
    let poisoned = Polled::Quartz(QuartzPoll::Poisoned);
    assert_eq!(capturer.frame(poisoned), Err(ErrorKind::Other));
}

#[test]
fn same_frame_is_shown_once() {
    let mut capturer = sck_capturer();
    assert_eq!(capturer.frame(frame(&[1, 2], 8)), Ok(Fetched::Ready));
    assert_eq!(capturer.frame(frame(&[1, 2], 16)), Err(ErrorKind::WouldBlock));
    assert_eq!(capturer.pixel_buffer().stride(), vec![8]);
    assert_eq!(capturer.frame(frame(&[1, 3], 16)), Ok(Fetched::Ready));
    assert_eq!(capturer.pixel_buffer().data(), &[1, 3]);
    assert_eq!(capturer.frame(frame(&[1, 2], 8)), Ok(Fetched::Ready));
}

#[test]
fn an_empty_first_frame_is_nothing_new() {
    let mut capturer = sck_capturer();
    assert_eq!(capturer.frame(frame(&[], 8)), Err(ErrorKind::WouldBlock));
}

#[test]
fn quartz_surface_is_converted_when_it_changed() {
    let mut capturer = quartz_capturer();
    let raw = vec![9, 8, 7];
    let first = capturer.frame(Polled::Quartz(QuartzPoll::Frame(raw.clone())));
    assert_eq!(first, Ok(Fetched::ConvertSurface { height: 1080 }));
    capturer.surface_converted(&[1, 2, 3, 4], 32);
    assert_eq!(capturer.pixel_buffer().data(), &[1, 2, 3, 4]);
    assert_eq!(capturer.pixel_buffer().stride(), vec![32]);
    let again = capturer.frame(Polled::Quartz(QuartzPoll::Frame(raw)));
    assert_eq!(again, Err(ErrorKind::WouldBlock));
    assert_eq!(capturer.pixel_buffer().data(), &[1, 2, 3, 4]);
    // A longer and then a shorter surface.
    let next = capturer.frame(Polled::Quartz(QuartzPoll::Frame(vec![1])));
    assert_eq!(next, Ok(Fetched::ConvertSurface { height: 1080 }));
    capturer.surface_converted(&[5, 6], 2);
    assert_eq!(capturer.pixel_buffer().data(), &[5, 6]);
    assert_eq!(capturer.width(), 1920);
    assert_eq!(capturer.height(), 1080);
}

#[test]
fn output_textures_change_nothing() {
    let mut capturer = sck_capturer();
    assert_eq!(capturer.frame(frame(&[1], 4)), Ok(Fetched::Ready));
    capturer.set_output_texture(true);
    assert_eq!(capturer.pixel_buffer().data(), &[1]);
}

#[test]
fn would_block_if_equal_keeps_the_new_bytes() {
    let mut old = vec![1, 2, 3];
    assert_eq!(would_block_if_equal(&mut old, &[1, 2, 3]), Err(ErrorKind::WouldBlock));
    assert_eq!(old, vec![1, 2, 3]);
    assert_eq!(would_block_if_equal(&mut old, &[1, 2, 4]), Ok(()));
    assert_eq!(old, vec![1, 2, 4]);
    assert_eq!(would_block_if_equal(&mut old, &[1, 2]), Ok(()));
    assert_eq!(old, vec![1, 2]);
    assert_eq!(would_block_if_equal(&mut old, &[1, 2, 0, 0]), Ok(()));
    assert_eq!(old, vec![1, 2, 0, 0]);
}
