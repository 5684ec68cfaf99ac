use frame_capture::any_encoder::AnyEncoder;
use frame_capture::encoder::{Encoder, EncoderSet};
use frame_capture::errors::{ConstructionError, EncodeError};
use frame_capture::frames::FramesEncoder;
use frame_capture::gif::GifEncoder;
use frame_capture::image_buffer::{ImageBuffer, PixelFormat};
use frame_capture::mp4_openh264::Mp4Openh264Encoder;

fn gradient_image(width: u32, height: u32, seed: u8) -> ImageBuffer {
    let mut data = Vec::new();
    for y in 0..height {
        for x in 0..width {
            data.push((x as u8).wrapping_mul(3).wrapping_add(seed));
            data.push((y as u8).wrapping_mul(5));
            data.push(seed);
            data.push(255);
        }
    }
    ImageBuffer::new(width, height, PixelFormat::Rgba8, data)
}

#[test]
fn odd_dimensions_are_rejected_at_construction() {
    let mut buf: Vec<u8> = Vec::new();
    let r = Mp4Openh264Encoder::new(&mut buf, 63, 64);
    assert!(matches!(r, Err(ConstructionError::InvalidParameter)));
    let mut buf2: Vec<u8> = Vec::new();
    let r = Mp4Openh264Encoder::new(&mut buf2, 64, 33);
    assert!(matches!(r, Err(ConstructionError::InvalidParameter)));
}

#[test]
fn track_is_registered_once_and_samples_accumulate() {
    let mut buf: Vec<u8> = Vec::new();
    {
        let mut enc = Mp4Openh264Encoder::new(&mut buf, 64, 64).unwrap();
        assert!(!enc.is_track_registered());
        assert!(enc.first_sample_sync().is_none());
        for n in 0..3u8 {
            enc.encode(&gradient_image(64, 64, n)).unwrap();
            assert!(enc.is_track_registered());
        }
        assert_eq!(enc.frames_encoded(), 3);
        // The codec opens the stream with a full frame: the first sample is
        // a seekable sync point.
        assert_eq!(enc.first_sample_sync(), Some(true));
        assert!(enc.finish().is_none());
    }
    // The buffer holds a container opened with the fixed brand metadata.
    assert_eq!(&buf[4..8], b"ftyp");
    assert_eq!(&buf[8..12], b"isom");
    // The trailing index structures were written at finalize.
    let tail = buf.len() - 4;
    assert!((0..=tail).any(|i| &buf[i..i + 4] == b"moov"));
}

#[test]
fn mismatched_image_dimensions_are_a_frame_error() {
    let mut buf: Vec<u8> = Vec::new();
    let mut enc = Mp4Openh264Encoder::new(&mut buf, 64, 64).unwrap();
    let wrong = gradient_image(32, 64, 0);
    assert!(matches!(enc.encode(&wrong), Err(EncodeError::DimensionMismatch)));
    assert_eq!(enc.frames_encoded(), 0);
    // The failure is recoverable: a matching frame still encodes.
    enc.encode(&gradient_image(64, 64, 1)).unwrap();
    assert_eq!(enc.frames_encoded(), 1);
}

#[test]
fn one_failing_encoder_never_blocks_its_siblings() {
    let mut gif_buf: Vec<u8> = Vec::new();
    let mut mp4_buf: Vec<u8> = Vec::new();
    // B is built for different dimensions than the delivered frames, so its
    // encode always fails; A and C are fine.
    let a = AnyEncoder::Frames(FramesEncoder::new("a".to_string()));
    let b = AnyEncoder::Mp4(Mp4Openh264Encoder::new(&mut mp4_buf, 32, 32).unwrap());
    let c = AnyEncoder::Gif(GifEncoder::new(&mut gif_buf));
    let mut set = EncoderSet::new(vec![a, b, c]);

    let image = gradient_image(64, 64, 0);
    let outcomes = set.encode_all(&image);
    assert_eq!(outcomes, vec![true, false, true]);

    let report = |e: &AnyEncoder| -> u64 {
        match e {
            AnyEncoder::Frames(e) => e.frames_encoded() as u64,
            AnyEncoder::Gif(e) => e.frames_encoded() as u64,
            AnyEncoder::Mp4Cli(e) => e.frames_encoded() as u64,
            AnyEncoder::Mp4(e) => e.frames_encoded(),
        }
    };
    assert_eq!(report(set.get(0)), 1);
    assert_eq!(report(set.get(1)), 0);
    assert_eq!(report(set.get(2)), 1);

    // The frame completed; the next frame is delivered normally too.
    let outcomes = set.encode_all(&image);
    assert_eq!(outcomes, vec![true, false, true]);
    let (order, warnings) = set.finalize_all();
    assert_eq!(order, vec![0, 1, 2]);
    assert_eq!(warnings.len(), 3);
}
