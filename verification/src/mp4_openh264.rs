//! Encodes frames into an MP4 file with an in-process software codec.
//!
//! Per frame the pixel buffer is converted to the codec's native
//! chroma-subsampled color format and encoded at a monotonically increasing
//! fixed-tick presentation timestamp. On the very first encoded frame the
//! video track is registered, exactly once, from the parameter-set records
//! of that first bitstream, start codes stripped. Every access unit is then
//! repackaged with one big-endian length prefix per unit and written as a
//! timed sample, marked as a sync point whenever the codec flags the frame
//! as a full or key frame. Finalize writes the container's trailing index
//! structures. The container grows in a byte buffer borrowed from the
//! caller.

use vstd::prelude::*;

use crate::encoder::Encoder;
use crate::errors::{ConstructionError, EncodeError, FinalizeWarning};
use crate::h264_bindings::{h264_codec_new, h264_config_default, h264_encode_frame, H264Codec,
    H264Config};
use crate::image_buffer::ImageBuffer;
use crate::mp4_bindings::{mp4_sink_add_track, mp4_sink_start, mp4_sink_write_end,
    mp4_sink_write_sample, Mp4Sink};
use crate::mp4_bindings::spec_brand_ok;
use crate::nal::{pack_video_layers, split_units};
use vstd::string::StringExecFns;

verus! {

/// The fixed timestamp step between consecutive samples, in container
/// ticks.
pub const SAMPLE_TICKS: u64 = 100;

/// The container timescale: ticks per second.
pub const MP4_TIMESCALE: u32 = 1000;

/// The container's opening configuration, as recorded at construction: the
/// brand metadata and timescale the header was written with.
pub struct Mp4ContainerConfig {
    /// The major brand code.
    pub major_brand: Seq<char>,
    /// The minor version.
    pub minor_version: u32,
    /// The compatible brand codes, in order.
    pub compatible_brands: Seq<Seq<char>>,
    /// Ticks per second.
    pub timescale: u32,
}

/// What one written sample looked like: its timestamp, duration and sync
/// marking.
pub struct SampleRecord {
    /// Presentation timestamp in container ticks.
    pub start_time: u64,
    /// Duration in container ticks.
    pub duration: u32,
    /// Whether the sample was marked as a seekable sync point.
    pub is_sync: bool,
}

/// An encoder that encodes a sequence of images into an MP4 container
/// growing in the caller's byte buffer, using an in-process software video
/// codec.
pub struct Mp4Openh264Encoder<'a> {
    sink: Mp4Sink<'a>,
    codec: H264Codec,
    track_added: bool,
    frame: u64,
    width: u16,
    height: u16,
    done: bool,
    first_sync: Option<bool>,
    samples: Ghost<Seq<SampleRecord>>,
    registrations: Ghost<nat>,
    config: Ghost<Mp4ContainerConfig>,
}

impl<'a> Mp4Openh264Encoder<'a> {
    /// Every sample written so far, in writing order.
    pub closed spec fn spec_samples(&self) -> Seq<SampleRecord> {
        self.samples@
    }

    /// How often the video track was registered.
    pub closed spec fn spec_registrations(&self) -> nat {
        self.registrations@
    }

    /// Whether the video track has been registered.
    pub closed spec fn track_registered(&self) -> bool {
        self.track_added
    }

    /// The video width the encoder was built for.
    pub closed spec fn spec_width(&self) -> u16 {
        self.width
    }

    /// The video height the encoder was built for.
    pub closed spec fn spec_height(&self) -> u16 {
        self.height
    }

    /// The number of samples written so far.
    pub closed spec fn frame_counter(&self) -> nat {
        self.frame as nat
    }

    /// Whether the first written sample was marked as a sync point, once
    /// one exists.
    pub closed spec fn spec_first_sync(&self) -> Option<bool> {
        self.first_sync
    }

    /// The brand metadata and timescale the container was opened with.
    pub closed spec fn container_config(&self) -> Mp4ContainerConfig {
        self.config@
    }

    /// The fixed brand metadata of every container this encoder opens:
    /// major brand `isom`, minor version 512, the four compatible brands,
    /// and a timescale of 1000 ticks per second.
    pub open spec fn spec_fixed_config() -> Mp4ContainerConfig {
        Mp4ContainerConfig {
            major_brand: "isom"@,
            minor_version: 512,
            compatible_brands: seq!["isom"@, "iso2"@, "avc1"@, "mp41"@],
            timescale: MP4_TIMESCALE,
        }
    }

    /// The sample cadence and the register-once discipline: the track is
    /// registered at most once, samples are written only with a registered
    /// track, there are as many samples as encoded frames, and sample `i`
    /// starts at tick `i * SAMPLE_TICKS` with a fixed duration.
    pub open spec fn mp4_wf(&self) -> bool {
        &&& self.spec_width() % 2 == 0
        &&& self.spec_height() % 2 == 0
        &&& self.spec_registrations() <= 1
        &&& self.track_registered() <==> self.spec_registrations() == 1
        &&& self.spec_samples().len() == self.frame_counter()
        &&& self.frame_counter() > 0 ==> self.track_registered()
        &&& forall|i: int|
            0 <= i < self.spec_samples().len() ==> (#[trigger] self.spec_samples()[i]).start_time
                == i * SAMPLE_TICKS
        &&& forall|i: int|
            0 <= i < self.spec_samples().len() ==> (#[trigger] self.spec_samples()[i]).duration
                == SAMPLE_TICKS
        &&& self.spec_samples().len() == 0 <==> self.spec_first_sync() is None
        &&& self.spec_samples().len() > 0 ==> self.spec_first_sync() == Some(
            self.spec_samples()[0].is_sync,
        )
    }

    /// Creates an in-process MP4 encoder writing into the given buffer,
    /// with the default codec configuration. The dimensions must match the
    /// delivered images and be even, as the codec's color format demands.
    pub fn new(sink: &'a mut Vec<u8>, width: u16, height: u16) -> (r: Result<
        Mp4Openh264Encoder<'a>,
        ConstructionError,
    >)
        ensures
            (width % 2 != 0 || height % 2 != 0) <==> r == Result::<
                Mp4Openh264Encoder<'a>,
                ConstructionError,
            >::Err(ConstructionError::InvalidParameter),
            width % 2 == 0 && height % 2 == 0 ==> (r is Ok || r == Result::<
                Mp4Openh264Encoder<'a>,
                ConstructionError,
            >::Err(ConstructionError::CodecUnavailable)),
            r matches Ok(e) ==> e.mp4_wf() && !e.finished() && e.frame_counter() == 0
                && !e.track_registered() && e.spec_width() == width && e.spec_height() == height
                && e.container_config() == Mp4Openh264Encoder::spec_fixed_config(),
    {
        Mp4Openh264Encoder::new_with_config(sink, width, height, h264_config_default())
    }

    /// Creates an in-process MP4 encoder writing into the given buffer,
    /// with the given codec configuration. The container is opened with its
    /// fixed brand metadata; odd dimensions are rejected before anything is
    /// written.
    pub fn new_with_config(sink: &'a mut Vec<u8>, width: u16, height: u16, config: H264Config)
        -> (r: Result<Mp4Openh264Encoder<'a>, ConstructionError>)
        ensures
            (width % 2 != 0 || height % 2 != 0) <==> r == Result::<
                Mp4Openh264Encoder<'a>,
                ConstructionError,
            >::Err(ConstructionError::InvalidParameter),
            width % 2 == 0 && height % 2 == 0 ==> (r is Ok || r == Result::<
                Mp4Openh264Encoder<'a>,
                ConstructionError,
            >::Err(ConstructionError::CodecUnavailable)),
            r matches Ok(e) ==> e.mp4_wf() && !e.finished() && e.frame_counter() == 0
                && !e.track_registered() && e.spec_width() == width && e.spec_height() == height
                && e.container_config() == Mp4Openh264Encoder::spec_fixed_config(),
    {
        if width % 2 != 0 || height % 2 != 0 {
            return Err(ConstructionError::InvalidParameter);
        }
        let mut brands: Vec<String> = Vec::new();
        brands.push("isom".to_owned());
        brands.push("iso2".to_owned());
        brands.push("avc1".to_owned());
        brands.push("mp41".to_owned());
        proof {
            reveal_strlit("isom");
            reveal_strlit("iso2");
            reveal_strlit("avc1");
            reveal_strlit("mp41");
            assert forall|i: int| 0 <= i < brands@.len() implies spec_brand_ok(
                (#[trigger] brands@[i])@,
            ) by {
                assert(spec_brand_ok("isom"@));
                assert(spec_brand_ok("iso2"@));
                assert(spec_brand_ok("avc1"@));
                assert(spec_brand_ok("mp41"@));
            }
        }
        let container = match mp4_sink_start(sink, "isom", 512, &brands, MP4_TIMESCALE) {
            Ok(container) => container,
            Err(e) => {
                return Err(e);
            },
        };
        let codec = match h264_codec_new(config) {
            Ok(codec) => codec,
            Err(e) => {
                return Err(e);
            },
        };
        Ok(
            Mp4Openh264Encoder {
                sink: container,
                codec,
                track_added: false,
                frame: 0,
                width,
                height,
                done: false,
                first_sync: None,
                samples: Ghost(Seq::empty()),
                registrations: Ghost(0nat),
                config: Ghost(Mp4Openh264Encoder::spec_fixed_config()),
            },
        )
    }

    /// The number of samples written so far.
    pub fn frames_encoded(&self) -> (n: u64)
        ensures
            n == self.frame_counter(),
    {
        self.frame
    }

    /// Whether the video track has been registered yet.
    pub fn is_track_registered(&self) -> (r: bool)
        ensures
            r == self.track_registered(),
    {
        self.track_added
    }

    /// Whether the first written sample was marked as a sync point, once
    /// one exists: the codec opens every stream with a frame it flags as a
    /// full frame, so a capture's first sample is seekable.
    pub fn first_sample_sync(&self) -> (r: Option<bool>)
        ensures
            r == self.spec_first_sync(),
    {
        self.first_sync
    }

    /// Encodes one image as the next sample. Exactly when the image does
    /// not match the encoder's dimensions, it is rejected; otherwise, on
    /// success, the track is registered if this was the first frame and one
    /// sample is appended at the next fixed-tick timestamp.
    pub fn encode_frame(&mut self, image: &ImageBuffer) -> (r: Result<(), EncodeError>)
        requires
            old(self).mp4_wf(),
            old(self).frame_counter() < i64::MAX as u64 / SAMPLE_TICKS,
            image.wf(),
        ensures
            final(self).mp4_wf(),
            final(self).finished() == old(self).finished(),
            final(self).spec_width() == old(self).spec_width(),
            final(self).spec_height() == old(self).spec_height(),
            final(self).container_config() == old(self).container_config(),
            old(self).track_registered() ==> final(self).track_registered(),
            (image.width != old(self).spec_width() as u32 || image.height != old(
                self,
            ).spec_height() as u32) <==> r == Result::<(), EncodeError>::Err(
                EncodeError::DimensionMismatch,
            ),
            r is Ok ==> {
                &&& final(self).frame_counter() == old(self).frame_counter() + 1
                &&& final(self).track_registered()
                &&& final(self).spec_samples() == old(self).spec_samples().push(
                    final(self).spec_samples().last(),
                )
                &&& final(self).spec_samples().last().start_time == old(self).frame_counter()
                    * SAMPLE_TICKS
                &&& final(self).spec_samples().last().duration == SAMPLE_TICKS
            },
            r is Err ==> {
                &&& final(self).frame_counter() == old(self).frame_counter()
                &&& final(self).spec_samples() == old(self).spec_samples()
            },
    {
        if image.width != self.width as u32 || image.height != self.height as u32 {
            return Err(EncodeError::DimensionMismatch);
        }
        let rgba = image.to_rgba8();
        let ts: u64 = self.frame * SAMPLE_TICKS;
        let encoded = h264_encode_frame(
            &mut self.codec,
            &rgba,
            self.width as usize,
            self.height as usize,
            ts,
        );
        let (layers, is_key) = match encoded {
            Ok(p) => p,
            Err(e) => {
                return Err(e);
            },
        };
        if !self.track_added {
            // The codec's first layer carries the parameter sets: the
            // sequence parameter set must hold at least its profile bytes.
            if layers.len() == 0 {
                return Err(EncodeError::MalformedBitstream);
            }
            let units = split_units(&layers[0].0);
            if units.len() < 2 {
                return Err(EncodeError::MalformedBitstream);
            }
            if units[0].len() < 4 {
                return Err(EncodeError::MalformedBitstream);
            }
            let outcome = mp4_sink_add_track(
                &mut self.sink,
                self.width,
                self.height,
                &units[0],
                &units[1],
                MP4_TIMESCALE,
                "und",
            );
            match outcome {
                Ok(()) => {
                    self.track_added = true;
                    self.registrations = Ghost(self.registrations@ + 1);
                },
                Err(e) => {
                    return Err(e);
                },
            }
        }
        let sample_bytes = match pack_video_layers(&layers) {
            Ok(b) => b,
            Err(e) => {
                return Err(e);
            },
        };
        let outcome = mp4_sink_write_sample(
            &mut self.sink,
            1,
            ts,
            SAMPLE_TICKS as u32,
            0,
            is_key,
            &sample_bytes,
        );
        match outcome {
            Ok(()) => {
                if self.frame == 0 {
                    self.first_sync = Some(is_key);
                }
                let ghost record = SampleRecord {
                    start_time: ts,
                    duration: SAMPLE_TICKS as u32,
                    is_sync: is_key,
                };
                self.samples = Ghost(self.samples@.push(record));
                self.frame = self.frame + 1;
                Ok(())
            },
            Err(e) => Err(e),
        }
    }
}

impl<'a> Encoder for Mp4Openh264Encoder<'a> {
    open spec fn inv(&self) -> bool {
        self.mp4_wf()
    }

    open spec fn frames(&self) -> nat {
        self.frame_counter()
    }

    closed spec fn finished(&self) -> bool {
        self.done
    }

    open spec fn encode_succeeds(&self, image: &ImageBuffer) -> bool {
        false
    }

    open spec fn encode_fails(&self, image: &ImageBuffer) -> bool {
        ||| image.width != self.spec_width() as u32
        ||| image.height != self.spec_height() as u32
        ||| self.frame_counter() >= i64::MAX as u64 / SAMPLE_TICKS
    }

    fn encode(&mut self, image: &ImageBuffer) -> (r: Result<(), EncodeError>) {
        if self.frame >= i64::MAX as u64 / SAMPLE_TICKS {
            return Err(EncodeError::IndexSpaceExhausted);
        }
        self.encode_frame(image)
    }

    fn finish(&mut self) -> (w: Option<FinalizeWarning>) {
        self.done = true;
        match mp4_sink_write_end(&mut self.sink) {
            Ok(()) => None,
            Err(_) => Some(FinalizeWarning::ContainerTrailer),
        }
    }
}

/// The in-process container discipline, as it holds of any consistent
/// encoder: the video track is registered at most once and only from the
/// first encoded frame on; sample timestamps strictly increase by the fixed
/// tick amount, starting at zero.
pub proof fn lemma_sample_cadence(e: &Mp4Openh264Encoder<'_>)
    requires
        e.mp4_wf(),
    ensures
        e.spec_registrations() <= 1,
        e.spec_samples().len() > 0 ==> e.spec_registrations() == 1,
        e.spec_samples().len() == e.frame_counter(),
        forall|i: int|
            0 <= i < e.spec_samples().len() ==> (#[trigger] e.spec_samples()[i]).start_time == i
                * SAMPLE_TICKS,
        forall|i: int, j: int|
            0 <= i < j < e.spec_samples().len() ==> e.spec_samples()[i].start_time
                < e.spec_samples()[j].start_time,
{
    assert forall|i: int, j: int| 0 <= i < j < e.spec_samples().len() implies e.spec_samples()[i].start_time
        < e.spec_samples()[j].start_time by {
        assert(e.spec_samples()[i].start_time == i * SAMPLE_TICKS);
        assert(e.spec_samples()[j].start_time == j * SAMPLE_TICKS);
        assert(i * SAMPLE_TICKS < j * SAMPLE_TICKS) by (nonlinear_arith)
            requires
                0 <= i < j,
                SAMPLE_TICKS > 0,
        ;
    }
}

} // verus!
