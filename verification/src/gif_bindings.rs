//! Trusted bindings to the `image` crate's GIF encoder.
//!
//! The encoder object is held opaquely: these bindings only carry frames
//! and settings into it. It writes into an in-memory buffer borrowed from
//! the caller, so no binding performs I/O.

use vstd::prelude::*;

use crate::errors::EncodeError;
use crate::gif::RepeatMode;

verus! {

/// Holds the `image` crate's GIF encoder, writing into the caller's byte
/// buffer. Opaque: nothing is known of the value inside.
#[verifier::external_body]
pub struct GifSink<'a> {
    inner: image::codecs::gif::GifEncoder<&'a mut Vec<u8>>,
}

/// Relies on `image::codecs::gif::GifEncoder::new_with_speed`, which writes
/// into the given in-memory buffer; it panics unless the speed lies in
/// 1 to 30, so that range is required.
#[verifier::external_body]
pub(crate) fn gif_sink_new<'a>(sink: &'a mut Vec<u8>, speed: i32) -> (r: GifSink<'a>)
    requires
        1 <= speed <= 30,
{
    GifSink { inner: image::codecs::gif::GifEncoder::new_with_speed(sink, speed) }
}

/// Relies on `image::codecs::gif::GifEncoder::set_repeat`: it records the
/// repeat policy and, once the stream has started, writes the loop
/// extension. Both paths write only into the in-memory buffer, which never
/// fails, so the call always succeeds.
#[verifier::external_body]
pub(crate) fn gif_sink_set_repeat(enc: &mut GifSink<'_>, repeat: RepeatMode) -> (r: Result<
    (),
    EncodeError,
>)
    ensures
        r is Ok,
{
    let conv = match repeat {
        RepeatMode::Finite(n) => image::codecs::gif::Repeat::Finite(n),
        RepeatMode::Infinite => image::codecs::gif::Repeat::Infinite,
    };
    enc.inner.set_repeat(conv).map_err(|_| EncodeError::Codec)
}

/// Relies on `image::codecs::gif::GifEncoder::encode_frame`: it appends one
/// RGBA frame to the stream growing in the in-memory buffer. Appending
/// fails exactly on a dimension beyond what the format's sixteen-bit sizes
/// can hold; every other path writes only into the buffer and is
/// infallible.
#[verifier::external_body]
pub(crate) fn gif_sink_append(
    enc: &mut GifSink<'_>,
    rgba: &Vec<u8>,
    width: u32,
    height: u32,
) -> (r: Result<(), EncodeError>)
    requires
        rgba@.len() == width as int * height as int * 4,
    ensures
        width <= 0xFFFF && height <= 0xFFFF ==> r is Ok,
        width > 0xFFFF || height > 0xFFFF ==> r is Err,
{
    let img = match image::RgbaImage::from_raw(width, height, rgba.clone()) {
        Some(img) => img,
        None => {
            return Err(EncodeError::DimensionMismatch);
        },
    };
    match enc.inner.encode_frame(image::Frame::new(img)) {
        Ok(()) => Ok(()),
        Err(_) => Err(EncodeError::UnsupportedDimensions),
    }
}

} // verus!
