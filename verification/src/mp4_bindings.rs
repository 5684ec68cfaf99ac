//! Trusted bindings to the `mp4` crate's container writer.
//!
//! The writer is held opaquely and grows the container in a byte buffer
//! borrowed from the caller, so no binding performs I/O.

use vstd::prelude::*;

use crate::errors::{ConstructionError, EncodeError};

verus! {

/// Whether a character is plain ASCII, and so one byte of a brand code.
pub open spec fn spec_ascii_char(c: char) -> bool {
    (c as u32) < 128
}

/// Whether a string can become a four-byte brand code: exactly four ASCII
/// characters.
pub open spec fn spec_brand_ok(s: Seq<char>) -> bool {
    &&& s.len() == 4
    &&& forall|j: int| 0 <= j < 4 ==> #[trigger] spec_ascii_char(s[j])
}

/// Holds the `mp4` crate's container writer, writing into the caller's byte
/// buffer. Opaque: nothing is known of the value inside.
#[verifier::external_body]
pub struct Mp4Sink<'a> {
    writer: mp4::Mp4Writer<std::io::Cursor<&'a mut Vec<u8>>>,
}

/// Relies on `mp4::Mp4Writer::write_start`: writes the opening file-type
/// box for the given brand metadata into the buffer. A brand code parses
/// exactly when it is four bytes; with every brand four ASCII characters,
/// the start succeeds, since writing into the in-memory buffer never
/// fails.
#[verifier::external_body]
pub(crate) fn mp4_sink_start<'a>(
    sink: &'a mut Vec<u8>,
    major_brand: &str,
    minor_version: u32,
    compatible_brands: &Vec<String>,
    timescale: u32,
) -> (r: Result<Mp4Sink<'a>, ConstructionError>)
    ensures
        (spec_brand_ok(major_brand@) && (forall|i: int|
            0 <= i < compatible_brands@.len() ==> spec_brand_ok(
                (#[trigger] compatible_brands@[i])@,
            ))) ==> r is Ok,
{
    let major = major_brand.parse().map_err(|_| ConstructionError::InvalidParameter)?;
    let compat: Vec<mp4::FourCC> = compatible_brands
        .iter()
        .map(|b| b.as_str().parse())
        .collect::<Result<Vec<mp4::FourCC>, mp4::Error>>()
        .map_err(|_| ConstructionError::InvalidParameter)?;
    let config =
        mp4::Mp4Config { major_brand: major, minor_version, compatible_brands: compat, timescale };
    match mp4::Mp4Writer::write_start(std::io::Cursor::new(sink), &config) {
        Ok(writer) => Ok(Mp4Sink { writer }),
        Err(_) => Err(ConstructionError::ContainerStart),
    }
}

/// Relies on `mp4::Mp4Writer::add_track`: registers one video track with
/// the given dimensions and codec parameter-set records. The codec record
/// reads the profile bytes at positions 1 to 3 of the sequence parameter
/// set, so at least four bytes are required; sample durations are later
/// divided by the track timescale, so it must not be zero.
#[verifier::external_body]
pub(crate) fn mp4_sink_add_track(
    sink: &mut Mp4Sink<'_>,
    width: u16,
    height: u16,
    seq_param_set: &Vec<u8>,
    pic_param_set: &Vec<u8>,
    timescale: u32,
    language: &str,
) -> (r: Result<(), EncodeError>)
    requires
        seq_param_set@.len() >= 4,
        timescale >= 1,
    ensures
        r matches Err(e) ==> e == EncodeError::Container,
{
    let config = mp4::TrackConfig {
        track_type: mp4::TrackType::Video,
        timescale,
        language: language.to_string(),
        media_conf: mp4::MediaConfig::AvcConfig(mp4::AvcConfig {
            width,
            height,
            seq_param_set: seq_param_set.clone(),
            pic_param_set: pic_param_set.clone(),
        }),
    };
    sink.writer.add_track(&config).map_err(|_| EncodeError::Container)
}

/// Relies on `mp4::Mp4Writer::write_sample`: appends one timed sample with
/// the given timestamp, duration, rendering offset and sync marking to the
/// given track.
#[verifier::external_body]
pub(crate) fn mp4_sink_write_sample(
    sink: &mut Mp4Sink<'_>,
    track_id: u32,
    start_time: u64,
    duration: u32,
    rendering_offset: i32,
    is_sync: bool,
    bytes: &Vec<u8>,
) -> (r: Result<(), EncodeError>)
    ensures
        r matches Err(e) ==> e == EncodeError::Container,
{
    let sample = mp4::Mp4Sample {
        start_time,
        duration,
        rendering_offset,
        is_sync,
        bytes: bytes.clone().into(),
    };
    sink.writer.write_sample(track_id, &sample).map_err(|_| EncodeError::Container)
}

/// Relies on `mp4::Mp4Writer::write_end`: writes the container's trailing
/// index structures into the buffer.
#[verifier::external_body]
pub(crate) fn mp4_sink_write_end(sink: &mut Mp4Sink<'_>) -> (r: Result<(), EncodeError>) {
    sink.writer.write_end().map_err(|_| EncodeError::Container)
}

} // verus!
