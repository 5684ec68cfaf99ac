//! The closed sum of the provided encoders, for mixed encoder sets.
//!
//! An [`EncoderSet`] is homogeneous in its element type; wrapping the four
//! provided encoders in one enum lets a single set fan out to different
//! formats at once.

use vstd::prelude::*;

use crate::encoder::Encoder;
use crate::errors::{EncodeError, FinalizeWarning};
use crate::frames::FramesEncoder;
use crate::gif::GifEncoder;
use crate::image_buffer::ImageBuffer;
use crate::mp4_ffmpeg_cli::Mp4FfmpegCliEncoder;
use crate::mp4_openh264::Mp4Openh264Encoder;

verus! {

/// Any of the provided encoders.
pub enum AnyEncoder<'a> {
    /// Individually numbered image files.
    Frames(FramesEncoder),
    /// One growing animated image.
    Gif(GifEncoder<'a>),
    /// Staged frames handed to an external transcoding tool.
    Mp4Cli(Mp4FfmpegCliEncoder),
    /// An in-process software-codec MP4.
    Mp4(Mp4Openh264Encoder<'a>),
}

impl<'a> Encoder for AnyEncoder<'a> {
    open spec fn inv(&self) -> bool {
        match self {
            AnyEncoder::Frames(e) => e.inv(),
            AnyEncoder::Gif(e) => e.inv(),
            AnyEncoder::Mp4Cli(e) => e.inv(),
            AnyEncoder::Mp4(e) => e.inv(),
        }
    }

    open spec fn frames(&self) -> nat {
        match self {
            AnyEncoder::Frames(e) => e.frames(),
            AnyEncoder::Gif(e) => e.frames(),
            AnyEncoder::Mp4Cli(e) => e.frames(),
            AnyEncoder::Mp4(e) => e.frames(),
        }
    }

    open spec fn finished(&self) -> bool {
        match self {
            AnyEncoder::Frames(e) => e.finished(),
            AnyEncoder::Gif(e) => e.finished(),
            AnyEncoder::Mp4Cli(e) => e.finished(),
            AnyEncoder::Mp4(e) => e.finished(),
        }
    }

    open spec fn encode_succeeds(&self, image: &ImageBuffer) -> bool {
        match self {
            AnyEncoder::Frames(e) => e.encode_succeeds(image),
            AnyEncoder::Gif(e) => e.encode_succeeds(image),
            AnyEncoder::Mp4Cli(e) => e.encode_succeeds(image),
            AnyEncoder::Mp4(e) => e.encode_succeeds(image),
        }
    }

    open spec fn encode_fails(&self, image: &ImageBuffer) -> bool {
        match self {
            AnyEncoder::Frames(e) => e.encode_fails(image),
            AnyEncoder::Gif(e) => e.encode_fails(image),
            AnyEncoder::Mp4Cli(e) => e.encode_fails(image),
            AnyEncoder::Mp4(e) => e.encode_fails(image),
        }
    }

    fn encode(&mut self, image: &ImageBuffer) -> (r: Result<(), EncodeError>) {
        match self {
            AnyEncoder::Frames(e) => e.encode(image),
            AnyEncoder::Gif(e) => e.encode(image),
            AnyEncoder::Mp4Cli(e) => e.encode(image),
            AnyEncoder::Mp4(e) => e.encode(image),
        }
    }

    fn finish(&mut self) -> (w: Option<FinalizeWarning>) {
        match self {
            AnyEncoder::Frames(e) => e.finish(),
            AnyEncoder::Gif(e) => e.finish(),
            AnyEncoder::Mp4Cli(e) => e.finish(),
            AnyEncoder::Mp4(e) => e.finish(),
        }
    }
}

} // verus!
