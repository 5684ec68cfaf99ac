use frame_capture::encoder::Encoder;
use frame_capture::errors::EncodeError;
use frame_capture::frames::{frame_file_name, FramesEncoder};
use frame_capture::gif::{GifEncoder, RepeatMode};
use frame_capture::image_buffer::{ImageBuffer, PixelFormat};
use frame_capture::mp4_ffmpeg_cli::Mp4FfmpegCliEncoder;
use frame_capture::nal::{length_prefixed_units, remove_nal_start_code, split_units};

fn solid_image(width: u32, height: u32, rgba: [u8; 4]) -> ImageBuffer {
    let mut data = Vec::new();
    for _ in 0..width * height {
        data.extend_from_slice(&rgba);
    }
    ImageBuffer::new(width, height, PixelFormat::Rgba8, data)
}

#[test]
fn frame_file_names_are_zero_padded() {
    assert_eq!(frame_file_name(0), "frame_000000.png");
    assert_eq!(frame_file_name(42), "frame_000042.png");
    assert_eq!(frame_file_name(999999), "frame_999999.png");
}

#[test]
fn frames_encoder_emits_gapless_indices_from_zero() {
    let mut enc = FramesEncoder::new("out".to_string());
    let image = solid_image(2, 2, [9, 8, 7, 255]);
    for _ in 0..3 {
        enc.encode(&image).unwrap();
    }
    assert_eq!(enc.frames_encoded(), 3);
    let files = enc.take_output();
    assert_eq!(files.len(), 3);
    assert_eq!(files[0].name, "frame_000000.png");
    assert_eq!(files[1].name, "frame_000001.png");
    assert_eq!(files[2].name, "frame_000002.png");
    // A later batch continues the numbering without gaps.
    enc.encode(&image).unwrap();
    let more = enc.take_output();
    assert_eq!(more.len(), 1);
    assert_eq!(more[0].name, "frame_000003.png");
}

#[test]
fn frames_encoder_writes_real_png_bytes() {
    let mut enc = FramesEncoder::new("out".to_string());
    let image = solid_image(2, 1, [1, 2, 3, 4]);
    enc.encode(&image).unwrap();
    let files = enc.take_output();
    let decoded = image::load_from_memory(&files[0].bytes).unwrap().to_rgba8();
    assert_eq!(decoded.width(), 2);
    assert_eq!(decoded.height(), 1);
    assert_eq!(decoded.into_raw(), vec![1, 2, 3, 4, 1, 2, 3, 4]);
}

#[test]
fn frames_encoder_converts_bgra_before_encoding() {
    let mut enc = FramesEncoder::new("out".to_string());
    let image = ImageBuffer::new(1, 1, PixelFormat::Bgra8, vec![10, 20, 30, 255]);
    enc.encode(&image).unwrap();
    let files = enc.take_output();
    let decoded = image::load_from_memory(&files[0].bytes).unwrap().to_rgba8();
    assert_eq!(decoded.into_raw(), vec![30, 20, 10, 255]);
}

#[test]
fn gif_encoder_appends_frames_in_arrival_order() {
    let mut buf: Vec<u8> = Vec::new();
    {
        let mut enc = GifEncoder::new(&mut buf).with_repeat(RepeatMode::Infinite);
        let a = solid_image(2, 2, [255, 0, 0, 255]);
        let b = solid_image(2, 2, [0, 255, 0, 255]);
        enc.encode(&a).unwrap();
        enc.encode(&b).unwrap();
        assert_eq!(enc.frames_encoded(), 2);
        enc.finish();
    }
    assert_eq!(&buf[0..6], b"GIF89a");
    let decoder = image::codecs::gif::GifDecoder::new(std::io::Cursor::new(&buf)).unwrap();
    let frames = image::AnimationDecoder::into_frames(decoder)
        .collect_frames()
        .unwrap();
    assert_eq!(frames.len(), 2);
    assert_eq!(frames[0].buffer().get_pixel(0, 0).0[0], 255);
    assert_eq!(frames[1].buffer().get_pixel(0, 0).0[1], 255);
}

#[test]
fn ffmpeg_invocation_is_exact() {
    let enc = Mp4FfmpegCliEncoder::new("/tmp/stage".to_string(), "out.mp4".to_string())
        .with_framerate(30)
        .with_crf(18);
    let cmd = enc.build_command();
    let expected = vec![
        "ffmpeg",
        "-framerate",
        "30",
        "-i",
        "/tmp/stage/frame_%06d.png",
        "-c:v",
        "libx264",
        "-pix_fmt",
        "yuv420p",
        "-crf",
        "18",
        "out.mp4",
    ];
    assert_eq!(cmd, expected);
}

#[test]
fn ffmpeg_encoder_stages_numbered_pngs() {
    let mut enc = Mp4FfmpegCliEncoder::new("stage".to_string(), "out.mp4".to_string());
    let image = solid_image(2, 2, [5, 6, 7, 255]);
    enc.encode(&image).unwrap();
    enc.encode(&image).unwrap();
    assert_eq!(enc.frames_encoded(), 2);
    let files = enc.take_output();
    assert_eq!(files.len(), 2);
    assert_eq!(files[0].name, "frame_000000.png");
    assert_eq!(files[1].name, "frame_000001.png");
    assert!(image::load_from_memory(&files[0].bytes).is_ok());
}

#[test]
fn gif_records_its_repeat_policy() {
    let mut buf: Vec<u8> = Vec::new();
    let enc = GifEncoder::new(&mut buf);
    assert!(enc.repeat_policy().is_none());
    let enc = enc.with_repeat(RepeatMode::Finite(3));
    assert!(matches!(enc.repeat_policy(), Some(RepeatMode::Finite(3))));
    let enc = enc.with_repeat(RepeatMode::Infinite);
    assert!(matches!(enc.repeat_policy(), Some(RepeatMode::Infinite)));
}

#[test]
fn gif_rejects_dimensions_beyond_its_format() {
    let mut buf: Vec<u8> = Vec::new();
    let mut enc = GifEncoder::new(&mut buf);
    // A GIF cannot hold a dimension beyond 65535.
    let image = solid_image(65536, 2, [0, 0, 0, 255]);
    assert!(matches!(enc.encode(&image), Err(EncodeError::UnsupportedDimensions)));
    assert_eq!(enc.frames_encoded(), 0);
}

#[test]
fn start_codes_are_stripped() {
    assert_eq!(remove_nal_start_code(&[0, 0, 0, 1, 9, 9]), &[9, 9]);
    assert_eq!(remove_nal_start_code(&[0, 0, 1, 7]), &[7]);
    assert_eq!(remove_nal_start_code(&[1, 2, 3]), &[1, 2, 3]);
    assert_eq!(remove_nal_start_code(&[0, 0, 0, 1]), &[] as &[u8]);
}

#[test]
fn annex_b_streams_split_into_units() {
    let stream = vec![0, 0, 0, 1, 9, 9, 0, 0, 1, 7];
    let units = split_units(&stream);
    assert_eq!(units, vec![vec![9u8, 9], vec![7u8]]);

    let empty: Vec<u8> = Vec::new();
    assert_eq!(split_units(&empty).len(), 0);

    let no_code = vec![5, 6];
    assert_eq!(split_units(&no_code), vec![vec![5u8, 6]]);
}

#[test]
fn units_are_repackaged_with_length_prefixes() {
    let units = vec![vec![9u8, 9], vec![7u8]];
    let packed = length_prefixed_units(&units).unwrap();
    assert_eq!(packed, vec![0, 0, 0, 2, 9, 9, 0, 0, 0, 1, 7]);
}

#[test]
fn repackaging_strips_leftover_start_codes() {
    let units = vec![vec![0u8, 0, 0, 1, 42]];
    let packed = length_prefixed_units(&units).unwrap();
    assert_eq!(packed, vec![0, 0, 0, 1, 42]);
}
