use frame_capture::capture::Capture;
use frame_capture::frames::FramesEncoder;
use frame_capture::image_buffer::PixelFormat;
use frame_capture::errors::ReadbackError;
use frame_capture::scheduler::{copy_request, deliver_frame, reconcile_target, SourceInfo};

fn source(id: u64, width: u32, height: u32) -> SourceInfo {
    SourceInfo { id, width, height, format: PixelFormat::Rgba8 }
}

fn padded_buffer(width: u32, height: u32, fill: u8) -> Vec<u8> {
    let aligned = frame_capture::readback::align_copy_bytes_per_row((width * 4) as usize);
    vec![fill; aligned * height as usize]
}

#[test]
fn a_started_capture_is_extracted_with_its_encoders() {
    let mut capture: Capture<FramesEncoder> = Capture::new();
    capture.start(FramesEncoder::new("out".to_string()));
    let (entry, released) = reconcile_target(&mut capture, None, Some(source(1, 2, 2)));
    assert!(released.is_none());
    let entry = entry.expect("a capturing target must be extracted");
    assert!(!entry.paused);
    assert_eq!(entry.encoders.len(), 1);
    let session = entry.session.as_ref().expect("a resolved source must yield a session");
    assert_eq!(session.source, 1);
    assert_eq!(session.unpadded_row_bytes, 8);
    assert_eq!(session.aligned_row_bytes, 256);
    assert_eq!(session.buffer_size, 512);
}

#[test]
fn unresolved_surface_skips_the_frame_but_keeps_capturing() {
    let mut capture: Capture<FramesEncoder> = Capture::new();
    capture.start(FramesEncoder::new("out".to_string()));

    // Frame K: the surface cannot be resolved.
    let (entry, _) = reconcile_target(&mut capture, None, None);
    let mut entry = entry.unwrap();
    assert!(entry.session.is_none());
    assert!(copy_request(&entry).is_none());
    let outcomes = deliver_frame(&mut entry, None);
    assert!(outcomes.is_none());
    assert_eq!(entry.encoders.get(0).frames_encoded(), 0);
    assert!(capture.is_capturing());

    // Frame K + 1: the surface resolves again and delivery resumes.
    let (entry, _) = reconcile_target(&mut capture, Some(entry), Some(source(1, 2, 2)));
    let mut entry = entry.unwrap();
    assert!(copy_request(&entry).is_some());
    let outcomes = deliver_frame(&mut entry, Some(Ok(padded_buffer(2, 2, 7))));
    assert_eq!(outcomes.unwrap(), vec![true]);
    assert_eq!(entry.encoders.get(0).frames_encoded(), 1);
}

#[test]
fn pausing_suppresses_copy_and_delivery_without_leaving_capturing() {
    let mut capture: Capture<FramesEncoder> = Capture::new();
    capture.start(FramesEncoder::new("out".to_string()));
    capture.pause();
    let (entry, _) = reconcile_target(&mut capture, None, Some(source(1, 2, 2)));
    let mut entry = entry.unwrap();
    assert!(entry.paused);
    // Policy: the device copy is skipped entirely while paused.
    assert!(copy_request(&entry).is_none());
    let outcomes = deliver_frame(&mut entry, None);
    assert!(outcomes.is_none());
    assert_eq!(entry.encoders.get(0).frames_encoded(), 0);
    assert!(capture.is_capturing());

    // Resume: the same encoder, not a reconstruction, starts receiving.
    capture.resume();
    let (entry, _) = reconcile_target(&mut capture, Some(entry), Some(source(1, 2, 2)));
    let mut entry = entry.unwrap();
    assert!(!entry.paused);
    let outcomes = deliver_frame(&mut entry, Some(Ok(padded_buffer(2, 2, 9))));
    assert_eq!(outcomes.unwrap(), vec![true]);
    assert_eq!(entry.encoders.get(0).frames_encoded(), 1);
}

#[test]
fn a_mapping_error_is_fatal_for_that_frame_only() {
    let mut capture: Capture<FramesEncoder> = Capture::new();
    capture.start(FramesEncoder::new("out".to_string()));
    let (entry, _) = reconcile_target(&mut capture, None, Some(source(1, 2, 2)));
    let mut entry = entry.unwrap();

    let outcomes = deliver_frame(&mut entry, Some(Err(ReadbackError::MapFailed)));
    assert!(outcomes.is_none());
    assert_eq!(entry.encoders.get(0).frames_encoded(), 0);
    assert!(capture.is_capturing());

    // The next frame's readback succeeds and is delivered.
    let (entry, _) = reconcile_target(&mut capture, Some(entry), Some(source(1, 2, 2)));
    let mut entry = entry.unwrap();
    let outcomes = deliver_frame(&mut entry, Some(Ok(padded_buffer(2, 2, 3))));
    assert_eq!(outcomes.unwrap(), vec![true]);
}

#[test]
fn session_is_reused_while_the_source_is_unchanged() {
    let mut capture: Capture<FramesEncoder> = Capture::new();
    capture.start(FramesEncoder::new("out".to_string()));
    let (entry, _) = reconcile_target(&mut capture, None, Some(source(1, 2, 2)));
    let entry = entry.unwrap();
    let (entry, _) = reconcile_target(&mut capture, Some(entry), Some(source(1, 2, 2)));
    let entry = entry.unwrap();
    assert_eq!(entry.session.as_ref().unwrap().source, 1);

    // A different source identity rebuilds the session.
    let (entry, _) = reconcile_target(&mut capture, Some(entry), Some(source(2, 4, 2)));
    let entry = entry.unwrap();
    let session = entry.session.as_ref().unwrap();
    assert_eq!(session.source, 2);
    assert_eq!(session.width, 4);
}

#[test]
fn stopping_releases_and_finalizes_the_active_set() {
    let mut capture: Capture<FramesEncoder> = Capture::new();
    capture.start(FramesEncoder::new("out".to_string()));
    let (entry, _) = reconcile_target(&mut capture, None, Some(source(1, 2, 2)));
    let entry = entry.unwrap();

    capture.stop();
    let (gone, released) = reconcile_target(&mut capture, Some(entry), Some(source(1, 2, 2)));
    assert!(gone.is_none());
    let released = released.expect("the active set must be released on stop");
    assert_eq!(released.set.len(), 1);
    assert_eq!(released.order, vec![0]);
    assert_eq!(released.warnings.len(), 1);
}

#[test]
fn delivery_strips_row_padding_before_encoding() {
    let mut capture: Capture<FramesEncoder> = Capture::new();
    capture.start(FramesEncoder::new("out".to_string()));
    let (entry, _) = reconcile_target(&mut capture, None, Some(source(1, 1, 1)));
    let mut entry = entry.unwrap();

    // One 4-byte pixel inside a 256-byte padded row.
    let mut mapped = vec![0xAAu8; 256];
    mapped[0] = 1;
    mapped[1] = 2;
    mapped[2] = 3;
    mapped[3] = 255;
    let outcomes = deliver_frame(&mut entry, Some(Ok(mapped)));
    assert_eq!(outcomes.unwrap(), vec![true]);

    capture.stop();
    let (_, released) = reconcile_target(&mut capture, Some(entry), None);
    let mut released = released.unwrap();
    let files = released.set.get_mut(0).take_output();
    let decoded = image::load_from_memory(&files[0].bytes).unwrap().to_rgba8();
    assert_eq!(decoded.into_raw(), vec![1, 2, 3, 255]);
}
