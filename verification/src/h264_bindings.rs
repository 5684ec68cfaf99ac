//! Trusted bindings to the openh264 software video encoder.
//!
//! The codec object and its configuration are held opaquely; encoding is a
//! pure in-memory computation from RGBA pixels to a start-code-separated
//! bitstream.

use vstd::prelude::*;

use crate::errors::{ConstructionError, EncodeError};
use openh264::encoder::FrameType;
use openh264::formats::{RgbaSliceU8, YUVBuffer};
use openh264::Timestamp;

verus! {

/// Holds an openh264 encoder configuration. Opaque.
#[verifier::external_body]
pub struct H264Config {
    inner: openh264::encoder::EncoderConfig,
}

/// Holds the openh264 software encoder. Opaque.
#[verifier::external_body]
pub struct H264Codec {
    inner: openh264::encoder::Encoder,
}

/// Relies on `openh264::encoder::EncoderConfig::new`: the default encoder
/// configuration.
#[verifier::external_body]
pub fn h264_config_default() -> (r: H264Config) {
    H264Config { inner: openh264::encoder::EncoderConfig::new() }
}

/// Relies on `openh264::encoder::Encoder::with_api_config` over the
/// built-from-source codec: initialises a software encoder, failing if the
/// codec backend rejects the configuration.
#[verifier::external_body]
pub(crate) fn h264_codec_new(config: H264Config) -> (r: Result<H264Codec, ConstructionError>)
    ensures
        r matches Err(e) ==> e == ConstructionError::CodecUnavailable,
{
    match openh264::encoder::Encoder::with_api_config(
        openh264::OpenH264API::from_source(),
        config.inner,
    ) {
        Ok(inner) => Ok(H264Codec { inner }),
        Err(_) => Err(ConstructionError::CodecUnavailable),
    }
}

/// Relies on `openh264::encoder::Encoder::encode_at` over a YUV conversion
/// of the given RGBA pixels: returns, per bitstream layer in order, the
/// layer's access units as one start-code-separated byte run together with
/// its video-layer flag, and whether the codec flagged the frame as a full
/// or key frame. The conversion panics on odd dimensions or a pixel buffer
/// of the wrong size, and the timestamp conversion panics beyond the signed
/// sixty-four-bit range, so those inputs are required away.
#[verifier::external_body]
pub(crate) fn h264_encode_frame(
    codec: &mut H264Codec,
    rgba: &Vec<u8>,
    width: usize,
    height: usize,
    timestamp_ms: u64,
) -> (r: Result<(Vec<(Vec<u8>, bool)>, bool), EncodeError>)
    requires
        rgba@.len() == width * height * 4,
        width % 2 == 0,
        height % 2 == 0,
        timestamp_ms <= i64::MAX as u64,
    ensures
        r matches Err(e) ==> e == EncodeError::Codec,
{
    let src = RgbaSliceU8::new(rgba.as_slice(), (width, height));
    let yuv = YUVBuffer::from_rgb_source(src);
    match codec.inner.encode_at(&yuv, Timestamp::from_millis(timestamp_ms)) {
        Ok(bs) => {
            let layers: Vec<(Vec<u8>, bool)> = (0..bs.num_layers()).map(|l| {
                let layer = bs.layer(l).unwrap();
                let nals = (0..layer.nal_count()).flat_map(|n| layer.nal_unit(n).unwrap().to_vec());
                (nals.collect(), layer.is_video())
            }).collect();
            Ok((layers, matches!(bs.frame_type(), FrameType::IDR | FrameType::I)))
        },
        Err(_) => Err(EncodeError::Codec),
    }
}

} // verus!
