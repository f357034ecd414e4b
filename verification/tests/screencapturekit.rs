use rentamac::screencapturekit::ffi::{CMTime, BGRA_PIXEL_FORMAT};
use rentamac::screencapturekit::output::{ObjectStep, OutputClass, Protocols};
use rentamac::screencapturekit::refs::Effect;
use rentamac::screencapturekit::sample::{Geometry, Sample, SampleReply, SampleRequest};
use rentamac::screencapturekit::setup::{
    add_stream_output, choose_display, get_shareable_content, shareable_content_effects,
    shareable_content_handler, start_capture, start_capture_handler, Reply, Request, ScDisplay,
    Setup, SetupError, SharedContent,
};
use rentamac::screencapturekit::text::{ns_error_string, ns_string_to_rust, NsError, NsString};
use rentamac::screencapturekit::{stop_capture, Capturer, Frame};
use rentamac::slot::Slot;

fn described(text: &str) -> NsError {
    NsError::Described(NsString::Utf8(text.as_bytes().to_vec()))
}

fn content(ids: &[u32]) -> Reply {
    let displays = ids
        .iter()
        .map(|id| ScDisplay { object: 100 + *id as usize, display_id: *id })
        .collect();
    Reply::Content(Ok(SharedContent { content: 50, displays }))
}

/// Runs a setup on the given replies, and collects the effects.
fn run(replies: Vec<Reply>) -> (Setup, Vec<Effect>) {
    let mut setup = Capturer::new(2, 800, 600, true, 30);
    let mut effects = Vec::new();
    for reply in replies {
        assert!(setup.request().is_some());
        let (next, done) = setup.step(reply);
        setup = next;
        effects.extend(done);
    }
    (setup, effects)
}

/// The replies of a setup that goes well, as far as asked for.
fn good_replies(n: usize) -> Vec<Reply> {
    let all = vec![
        content(&[1, 2, 3]),
        Reply::Address(60),
        Reply::Address(61),
        Reply::Address(62),
        Reply::Address(63),
        Reply::Address(64),
        Reply::Address(65),
        Reply::Added(Ok(())),
        Reply::Started(Ok(())),
    ];
    all.into_iter().take(n).collect()
}

fn failing(n: usize, last: Reply) -> (String, Vec<Effect>) {
    let mut replies = good_replies(n);
    replies.push(last);
    let (setup, effects) = run(replies);
    assert!(setup.request().is_none());
    match setup {
        Setup::Failed(error) => (error.message(), effects),
        _ => panic!("the setup has failed"),
    }
}

/// The references to `object` that are left after `effects`, given how many came.
fn balance(object: usize, came: i32, effects: &[Effect]) -> i32 {
    let mut left = came;
    for effect in effects {
        if *effect == Effect::Retain(object) {
            left += 1;
        }
        if *effect == Effect::Release(object) {
            left -= 1;
        }
    }
    left
}

#[test]
fn frame_interval_is_one_over_fps() {
    let at_60 = CMTime::frame_interval(60);
    assert_eq!(at_60, CMTime { value: 1, timescale: 60, flags: 1, epoch: 0 });
    assert_eq!(CMTime::frame_interval(1).timescale, 1);
    assert_eq!(CMTime::frame_interval(0).timescale, 1);
    assert_eq!(CMTime::frame_interval(i32::MAX as u32).timescale, i32::MAX);
    assert_eq!(CMTime::frame_interval(i32::MAX as u32 + 1).timescale, i32::MAX);
    assert_eq!(CMTime::frame_interval(u32::MAX).timescale, i32::MAX);
}

#[test]
fn display_is_matched_or_the_first() {
    let listed = vec![
        ScDisplay { object: 10, display_id: 1 },
        ScDisplay { object: 20, display_id: 2 },
        ScDisplay { object: 30, display_id: 2 },
    ];
    assert_eq!(choose_display(&listed, 2), 20);
    assert_eq!(choose_display(&listed, 1), 10);
    assert_eq!(choose_display(&listed, 9), 10);
    assert_eq!(choose_display(&vec![], 9), 0);
    let nil_match = vec![
        ScDisplay { object: 10, display_id: 1 },
        ScDisplay { object: 0, display_id: 2 },
    ];
    assert_eq!(choose_display(&nil_match, 2), 10);
}

#[test]
fn setup_asks_for_each_step_in_turn() {
    let mut setup = Capturer::new(2, 800, 600, true, 30);
    let requests = [
        Request::GetShareableContent { timeout_secs: 10 },
        Request::InitFilter { display: 102, excluded_windows: 0 },
        Request::InitConfig,
        Request::ShareSlot,
        Request::CreateOutput { slot: 62 },
        Request::InitStream { filter: 60, config: 61, delegate: 0 },
        Request::CreateQueue { label: "io.rentamac.sck.capture" },
        Request::AddOutput { stream: 64, output: 63, output_type: 0, queue: 65 },
        Request::StartCapture { stream: 64, timeout_secs: 10 },
    ];
    for (request, reply) in requests.iter().zip(good_replies(9)) {
        assert_eq!(setup.request(), Some(*request));
        setup = setup.step(reply).0;
    }
    assert_eq!(setup.request(), None);
}

#[test]
fn setup_that_goes_well_keeps_its_objects() {
    let (setup, effects) = run(good_replies(9));
    let capturer = match setup {
        Setup::Running(capturer) => capturer,
        _ => panic!("the stream runs"),
    };
    let want =
        Capturer { stream: 64, filter: 60, config: 61, output: 63, queue: 65, slot_raw: 62 };
    assert_eq!(capturer, want);
    // The content and the display are given back, the rest is kept.
    assert_eq!(balance(50, 1, &effects), 0);
    assert_eq!(balance(102, 0, &effects), 0);
    for object in [60, 61, 63, 64] {
        assert_eq!(balance(object, 1, &effects), 1);
    }
    assert!(!effects.contains(&Effect::ReclaimSlot(62)));
}

#[test]
fn stream_settings_follow_the_parameters() {
    let (_, effects) = run(good_replies(3));
    let settings = match effects.last() {
        Some(Effect::Configure { config: 61, settings }) => *settings,
        _ => panic!("the configuration is filled in"),
    };
    assert_eq!(settings.width, 800);
    assert_eq!(settings.height, 600);
    assert_eq!(settings.pixel_format, BGRA_PIXEL_FORMAT);
    assert_eq!(settings.pixel_format.to_be_bytes(), *b"BGRA");
    assert_eq!(settings.queue_depth, 6);
    assert_eq!(settings.shows_cursor, 1);
    assert_eq!(settings.minimum_frame_interval, CMTime::frame_interval(30));
}

#[test]
fn setup_fails_without_content() {
    let refused = get_shareable_content(Some(Err("denied".to_string())));
    let (message, effects) = failing(0, Reply::Content(refused));
    assert_eq!(message, "ScreenCaptureKit: getShareableContent error: denied");
    assert!(effects.is_empty());
    let late = get_shareable_content(None);
    let (message, effects) = failing(0, Reply::Content(late));
    assert_eq!(
        message,
        "ScreenCaptureKit: getShareableContent timed out (screen-recording permission?)"
    );
    assert!(effects.is_empty());
}

#[test]
fn setup_fails_without_a_display() {
    let (message, effects) = failing(0, content(&[]));
    assert_eq!(message, "ScreenCaptureKit: no SCDisplay available");
    assert_eq!(effects, vec![Effect::Release(50)]);
}

#[test]
fn setup_fails_without_a_filter() {
    let (message, effects) = failing(1, Reply::Address(0));
    assert_eq!(message, "ScreenCaptureKit: SCContentFilter init failed");
    let want = vec![Effect::Retain(102), Effect::Release(50), Effect::Release(102)];
    assert_eq!(effects, want);
}

#[test]
fn setup_fails_without_a_configuration() {
    let (message, effects) = failing(2, Reply::Address(0));
    assert_eq!(message, "ScreenCaptureKit: SCStreamConfiguration init failed");
    assert_eq!(effects.last(), Some(&Effect::Release(60)));
}

#[test]
fn setup_fails_without_a_stream() {
    let (message, effects) = failing(5, Reply::Address(0));
    assert_eq!(message, "ScreenCaptureKit: SCStream init failed");
    let want = [
        Effect::Release(63),
        Effect::Release(61),
        Effect::Release(60),
        Effect::ReclaimSlot(62),
    ];
    assert_eq!(effects[effects.len() - 4..], want);
}

#[test]
fn setup_that_cannot_attach_or_start_gives_everything_back() {
    let want = [
        Effect::Release(64),
        Effect::Release(63),
        Effect::Release(61),
        Effect::Release(60),
        Effect::ReclaimSlot(62),
    ];
    let refused = add_stream_output(0, &described("busy"));
    let (message, effects) = failing(7, Reply::Added(refused));
    assert_eq!(message, "ScreenCaptureKit: addStreamOutput failed: busy");
    assert_eq!(effects[effects.len() - 5..], want);
    let refused = start_capture(Some(Err("stopped".to_string())));
    let (message, effects) = failing(8, Reply::Started(refused));
    assert_eq!(message, "ScreenCaptureKit: startCapture error: stopped");
    assert_eq!(effects[effects.len() - 5..], want);
    let (message, effects) = failing(8, Reply::Started(start_capture(None)));
    assert_eq!(message, "ScreenCaptureKit: startCapture timed out");
    for object in [50, 60, 61, 63, 64] {
        assert_eq!(balance(object, 1, &effects), 0);
    }
    assert_eq!(balance(102, 0, &effects), 0);
}

#[test]
fn handlers_pass_on_the_outcome() {
    assert_eq!(shareable_content_handler(5, &NsError::Nil), Ok(5));
    assert_eq!(shareable_content_handler(5, &described("ignored")), Ok(5));
    assert_eq!(shareable_content_handler(0, &described("no")), Err("no".to_string()));
    assert_eq!(shareable_content_handler(0, &NsError::Nil), Err("nil".to_string()));
    assert_eq!(shareable_content_effects(5), vec![Effect::Retain(5)]);
    assert!(shareable_content_effects(0).is_empty());
    assert_eq!(start_capture_handler(&NsError::Nil), Ok(()));
    assert_eq!(start_capture_handler(&described("no")), Err("no".to_string()));
    assert!(get_shareable_content(Some(Ok(3))).is_ok());
    assert!(start_capture(Some(Ok(()))).is_ok());
    assert!(add_stream_output(1, &described("ignored")).is_ok());
    assert!(matches!(
        add_stream_output(0, &NsError::Nil),
        Err(SetupError::AddOutput(e)) if e == "nil"
    ));
}

#[test]
fn foundation_text_is_read_lossily() {
    assert_eq!(ns_string_to_rust(&NsString::Nil), "");
    assert_eq!(ns_string_to_rust(&NsString::NoUtf8), "");
    assert_eq!(ns_string_to_rust(&NsString::Utf8("h\u{e9}llo".as_bytes().to_vec())), "h\u{e9}llo");
    assert_eq!(ns_string_to_rust(&NsString::Utf8(vec![b'a', 0xff, b'b'])), "a\u{fffd}b");
    assert_eq!(ns_error_string(&NsError::Nil), "nil");
    assert_eq!(ns_error_string(&NsError::Described(NsString::Nil)), "");
    assert_eq!(ns_error_string(&described("boom")), "boom");
}

#[test]
fn teardown_keeps_the_slot_while_callbacks_may_fire() {
    let capturer = |stream: usize, slot_raw: usize| Capturer {
        stream,
        filter: 2,
        config: 3,
        output: 4,
        queue: 5,
        slot_raw,
    };
    let objects = [
        Effect::Release(1),
        Effect::Release(4),
        Effect::Release(3),
        Effect::Release(2),
    ];
    assert_eq!(capturer(1, 6).stop_request(), Some((1, 3)));
    let stopped = capturer(1, 6).release(true);
    assert_eq!(stopped[..4], objects);
    assert_eq!(stopped[4..], [Effect::ReclaimSlot(6)]);
    assert_eq!(capturer(1, 6).release(false), objects);
    let without_stream = capturer(0, 6);
    assert_eq!(without_stream.stop_request(), None);
    assert_eq!(without_stream.release(false).last(), Some(&Effect::ReclaimSlot(6)));
    assert_eq!(capturer(1, 0).release(true), objects);
    assert!(stop_capture(0, false));
    assert!(stop_capture(9, true));
    assert!(!stop_capture(9, false));
}

fn geometry() -> Geometry {
    Geometry { base: 4096, stride: 8, width: 2, height: 3 }
}

/// Runs a frame callback on the given replies.
fn callback(replies: Vec<SampleReply>) -> Sample {
    let mut sample = Sample::on_output(77);
    for reply in replies {
        assert!(sample.request().is_some());
        sample = sample.step(reply);
    }
    sample
}

#[test]
fn callback_delivers_a_frame() {
    let mut sample = Sample::on_output(77);
    assert_eq!(sample.request(), Some(SampleRequest::GetImageBuffer { sample: 77 }));
    sample = sample.step(SampleReply::ImageBuffer(88));
    assert_eq!(sample.request(), Some(SampleRequest::Lock { image_buffer: 88, flags: 1 }));
    sample = sample.step(SampleReply::Locked(0));
    assert_eq!(sample.request(), Some(SampleRequest::ReadGeometry { image_buffer: 88 }));
    assert!(geometry().can_copy());
    sample = sample.step(SampleReply::Geometry(geometry()));
    assert_eq!(sample.request(), Some(SampleRequest::CopyPixels { base: 4096, len: 24 }));
    let pixels: Vec<u8> = (0..24).collect();
    sample = sample.step(SampleReply::Pixels(pixels.clone()));
    assert_eq!(sample.request(), Some(SampleRequest::ReadSlot { field: "rentamac_slot" }));
    sample = sample.step(SampleReply::SlotAddress(99));
    assert_eq!(sample.request(), Some(SampleRequest::LockSlot { slot: 99 }));
    assert_eq!(sample.unlock(), None);
    sample = sample.step(SampleReply::SlotLocked(true));
    assert_eq!(sample.request(), None);
    assert_eq!(sample.unlock(), Some((88, 1)));
    match sample {
        Sample::Finish { image_buffer: 88, delivery: Some(frame) } => {
            assert_eq!(frame.data, pixels);
            assert_eq!(frame.stride, 8);
            assert_eq!(frame.width, 2);
            assert_eq!(frame.height, 3);
        }
        _ => panic!("a frame is delivered"),
    }
}

#[test]
fn callback_without_a_buffer_is_ignored() {
    assert!(matches!(Sample::on_output(0), Sample::Ignored));
    assert!(matches!(callback(vec![SampleReply::ImageBuffer(0)]), Sample::Ignored));
    let unlockable = vec![SampleReply::ImageBuffer(88), SampleReply::Locked(-6660)];
    let ignored = callback(unlockable);
    assert!(matches!(ignored, Sample::Ignored));
    assert_eq!(ignored.unlock(), None);
}

#[test]
fn callback_unlocks_what_it_locked() {
    let empty = [
        Geometry { base: 0, ..geometry() },
        Geometry { stride: 0, ..geometry() },
        Geometry { height: 0, ..geometry() },
    ];
    for g in empty {
        let end = callback(vec![
            SampleReply::ImageBuffer(88),
            SampleReply::Locked(0),
            SampleReply::Geometry(g),
        ]);
        assert!(matches!(end, Sample::Finish { image_buffer: 88, delivery: None }));
        assert_eq!(end.unlock(), Some((88, 1)));
    }
    let no_slot = callback(vec![
        SampleReply::ImageBuffer(88),
        SampleReply::Locked(0),
        SampleReply::Geometry(geometry()),
        SampleReply::Pixels(vec![0; 24]),
        SampleReply::SlotAddress(0),
    ]);
    assert!(matches!(no_slot, Sample::Finish { image_buffer: 88, delivery: None }));
    assert_eq!(no_slot.unlock(), Some((88, 1)));
    let poisoned = callback(vec![
        SampleReply::ImageBuffer(88),
        SampleReply::Locked(0),
        SampleReply::Geometry(geometry()),
        SampleReply::Pixels(vec![0; 24]),
        SampleReply::SlotAddress(99),
        SampleReply::SlotLocked(false),
    ]);
    assert!(matches!(poisoned, Sample::Finish { image_buffer: 88, delivery: None }));
    assert_eq!(poisoned.unlock(), Some((88, 1)));
}

#[test]
fn geometry_that_does_not_fit_cannot_be_copied() {
    assert!(!Geometry { stride: usize::MAX, height: 2, ..geometry() }.can_copy());
    assert!(!Geometry { stride: usize::MAX / 2 + 1, height: 1, ..geometry() }.can_copy());
    assert!(Geometry { stride: usize::MAX / 2, height: 1, ..geometry() }.can_copy());
    assert!(Geometry { base: 0, stride: usize::MAX, height: 2, width: 0 }.can_copy());
}

fn frame(first: u8) -> Frame {
    Frame { data: vec![first, 0, 0, 0], stride: 4, width: 1, height: 1 }
}

#[test]
fn take_frame_gives_the_latest_once() {
    let mut capturer =
        Capturer { stream: 1, filter: 2, config: 3, output: 4, queue: 5, slot_raw: 6 };
    let mut slot: Slot<Frame> = Slot::new();
    assert!(capturer.take_frame(Some(&mut slot)).is_none());
    slot.put(frame(1));
    slot.put(frame(2));
    let taken = capturer.take_frame(Some(&mut slot)).unwrap();
    assert_eq!(taken.data[0], 2);
    assert!(capturer.take_frame(Some(&mut slot)).is_none());
    slot.put(frame(3));
    assert!(capturer.take_frame(None).is_none());
    assert_eq!(slot.take().unwrap().data[0], 3);
}

#[test]
fn delegate_class_is_registered_once() {
    let mut class = OutputClass::new();
    let first = class.create_output_object(Protocols { output: true, delegate: true }, 7);
    let want = vec![
        ObjectStep::DeclareClass { name: "RentaMacSCKOutput", superclass: "NSObject" },
        ObjectStep::AddSlotField { name: "rentamac_slot" },
        ObjectStep::AddFrameMethod { selector: "stream:didOutputSampleBuffer:ofType:" },
        ObjectStep::AdoptProtocol { name: "SCStreamOutput" },
        ObjectStep::AdoptProtocol { name: "SCStreamDelegate" },
        ObjectStep::RegisterClass,
        ObjectStep::Allocate,
        ObjectStep::Initialise,
        ObjectStep::StoreSlot { field: "rentamac_slot", slot: 7 },
    ];
    assert_eq!(first, want);
    let second = class.create_output_object(Protocols { output: true, delegate: true }, 8);
    let want = vec![
        ObjectStep::Allocate,
        ObjectStep::Initialise,
        ObjectStep::StoreSlot { field: "rentamac_slot", slot: 8 },
    ];
    assert_eq!(second, want);
    let mut bare = OutputClass::new();
    let steps = bare.create_output_object(Protocols { output: false, delegate: false }, 9);
    assert_eq!(steps.len(), 7);
    assert!(!steps.iter().any(|step| matches!(step, ObjectStep::AdoptProtocol { .. })));
}
