use frame_capture::capture::{Capture, CaptureSource};
use frame_capture::encoder::EncoderSet;
use frame_capture::frames::FramesEncoder;
use frame_capture::image_buffer::{ImageBuffer, PixelFormat};

fn three_encoders() -> Vec<FramesEncoder> {
    vec![
        FramesEncoder::new("a".to_string()),
        FramesEncoder::new("b".to_string()),
        FramesEncoder::new("c".to_string()),
    ]
}

fn solid_image(width: u32, height: u32) -> ImageBuffer {
    let data = vec![128u8; (width * height * 4) as usize];
    ImageBuffer::new(width, height, PixelFormat::Rgba8, data)
}

#[test]
fn start_pause_resume_stop_cycle() {
    let mut capture: Capture<FramesEncoder> = Capture::new();
    assert!(!capture.is_capturing());
    assert!(!capture.is_paused());

    capture.start(three_encoders());
    assert!(capture.is_capturing());
    assert!(!capture.is_paused());

    capture.pause();
    assert!(capture.is_capturing());
    assert!(capture.is_paused());

    capture.resume();
    assert!(capture.is_capturing());
    assert!(!capture.is_paused());

    capture.stop();
    assert!(!capture.is_capturing());
    assert!(!capture.is_paused());
}

#[test]
fn pause_and_resume_outside_capturing_are_no_ops() {
    let mut capture: Capture<FramesEncoder> = Capture::new();
    capture.pause();
    assert!(!capture.is_capturing());
    assert!(!capture.is_paused());
    capture.resume();
    assert!(!capture.is_capturing());
}

#[test]
fn stop_finalizes_every_encoder_once_in_insertion_order() {
    let mut capture: Capture<FramesEncoder> = Capture::new();
    capture.start(three_encoders());
    let released = capture.stop().expect("a pending set must be released");
    assert_eq!(released.set.len(), 3);
    assert_eq!(released.order, vec![0, 1, 2]);
    assert_eq!(released.warnings.len(), 3);
    assert!(released.warnings.iter().all(|w| w.is_none()));
    assert!(!capture.is_capturing());
    // A second stop is idempotent: nothing is left to release.
    assert!(capture.stop().is_none());
}

#[test]
fn restart_replaces_and_finalizes_the_pending_set() {
    let mut capture: Capture<FramesEncoder> = Capture::new();
    capture.start(three_encoders());
    let released = capture.start(vec![FramesEncoder::new("d".to_string())]);
    let released = released.expect("the replaced set must be released");
    assert_eq!(released.set.len(), 3);
    assert_eq!(released.order, vec![0, 1, 2]);
    assert!(capture.is_capturing());
    assert_eq!(capture.stop().unwrap().set.len(), 1);
}

#[test]
fn finalize_fan_out_visits_members_in_insertion_order() {
    let mut set = EncoderSet::new(three_encoders());
    let (order, warnings) = set.finalize_all();
    assert_eq!(order, vec![0, 1, 2]);
    assert_eq!(warnings.len(), 3);
}

#[test]
fn encode_fan_out_counts_each_member_once() {
    let mut set = EncoderSet::new(three_encoders());
    let image = solid_image(2, 2);
    let outcomes = set.encode_all(&image);
    assert_eq!(outcomes, vec![true, true, true]);
    for i in 0..3 {
        assert_eq!(set.get(i).frames_encoded(), 1);
    }
}

#[test]
fn take_pending_empties_the_cell_exactly_once() {
    let mut capture: Capture<FramesEncoder> = Capture::new();
    capture.start(three_encoders());
    let taken = capture.take_pending();
    assert!(taken.is_some());
    assert_eq!(taken.unwrap().len(), 3);
    // The scheduler observes the set exactly once.
    assert!(capture.take_pending().is_none());
    assert!(capture.is_capturing());
}

#[test]
fn capture_source_selects_the_camera_entity() {
    assert_eq!(CaptureSource::ThisCamera.camera_entity(17), 17);
    assert_eq!(CaptureSource::Camera(5).camera_entity(17), 5);
    assert!(matches!(CaptureSource::default(), CaptureSource::ThisCamera));
}

#[test]
fn single_encoder_starts_a_capture_too() {
    let mut capture: Capture<FramesEncoder> = Capture::new();
    capture.start(FramesEncoder::new("solo".to_string()));
    assert!(capture.is_capturing());
    assert_eq!(capture.stop().unwrap().set.len(), 1);
}
