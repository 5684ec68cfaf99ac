//! Encodes frames into a single growing animated-image container.
//!
//! Every received frame is appended, strictly in arrival order, to one GIF
//! stream growing in the caller's byte buffer, with a configurable
//! encoding-speed parameter and a repeat-count policy.

use vstd::prelude::*;

use crate::encoder::Encoder;
use crate::errors::{EncodeError, FinalizeWarning};
use crate::gif_bindings::{gif_sink_append, gif_sink_new, gif_sink_set_repeat, GifSink};
use crate::image_buffer::ImageBuffer;

verus! {

/// How often the finished animation repeats.
#[derive(Clone, Copy, Debug, PartialEq, Eq, Structural)]
pub enum RepeatMode {
    /// Repeat a fixed number of times after the first playback.
    Finite(u16),
    /// Loop forever.
    Infinite,
}

/// An encoder that appends every received frame, in arrival order, to one
/// animated GIF growing in the caller's byte buffer. The buffer holds a
/// complete GIF after every appended frame; nothing remains to write at
/// finalize time.
pub struct GifEncoder<'a> {
    inner: GifSink<'a>,
    frames_done: u32,
    repeat: Option<RepeatMode>,
    done: bool,
}

impl<'a> GifEncoder<'a> {
    /// The number of frames appended so far.
    pub closed spec fn frame_counter(&self) -> nat {
        self.frames_done as nat
    }

    /// The repeat policy set for the animation, if any was chosen.
    pub closed spec fn spec_repeat(&self) -> Option<RepeatMode> {
        self.repeat
    }

    /// The repeat policy set for the animation, if any was chosen.
    pub fn repeat_policy(&self) -> (r: Option<RepeatMode>)
        ensures
            r == self.spec_repeat(),
    {
        self.repeat
    }

    /// Creates a GIF encoder writing into the given buffer, at the slowest,
    /// highest-quality encoding speed.
    pub fn new(sink: &'a mut Vec<u8>) -> (r: GifEncoder<'a>)
        ensures
            r.frame_counter() == 0,
            r.spec_repeat() is None,
            !r.finished(),
    {
        GifEncoder { inner: gif_sink_new(sink, 1), frames_done: 0, repeat: None, done: false }
    }

    /// Creates a GIF encoder writing into the given buffer with the given
    /// encoding speed, which trades quality for throughput and must lie in
    /// 1 to 30.
    pub fn new_with_speed(sink: &'a mut Vec<u8>, speed: i32) -> (r: GifEncoder<'a>)
        requires
            1 <= speed <= 30,
        ensures
            r.frame_counter() == 0,
            r.spec_repeat() is None,
            !r.finished(),
    {
        GifEncoder { inner: gif_sink_new(sink, speed), frames_done: 0, repeat: None, done: false }
    }

    /// The number of frames appended so far.
    pub fn frames_encoded(&self) -> (n: u32)
        ensures
            n == self.frame_counter(),
    {
        self.frames_done
    }

    /// Sets the repeat policy of the animation: a finite repeat count or an
    /// infinite loop. Recording the policy in the in-memory stream always
    /// succeeds, so nothing is left to surface.
    pub fn with_repeat(self, repeat: RepeatMode) -> (r: GifEncoder<'a>)
        ensures
            r.spec_repeat() == Some(repeat),
            r.frame_counter() == self.frame_counter(),
            r.finished() == self.finished(),
    {
        let mut this = self;
        let outcome = gif_sink_set_repeat(&mut this.inner, repeat);
        proof {
            assert(outcome is Ok);
        }
        this.repeat = Some(repeat);
        this
    }

    /// Appends one image to the animation, strictly in arrival order: it
    /// succeeds exactly when both dimensions fit the format's sixteen-bit
    /// sizes.
    pub fn encode_frame(&mut self, image: &ImageBuffer) -> (r: Result<(), EncodeError>)
        requires
            old(self).frame_counter() < u32::MAX,
            image.wf(),
        ensures
            final(self).finished() == old(self).finished(),
            final(self).spec_repeat() == old(self).spec_repeat(),
            r is Ok <==> image.width <= 0xFFFF && image.height <= 0xFFFF,
            r is Ok ==> final(self).frame_counter() == old(self).frame_counter() + 1,
            r is Err ==> final(self).frame_counter() == old(self).frame_counter(),
    {
        let rgba = image.to_rgba8();
        match gif_sink_append(&mut self.inner, &rgba, image.width, image.height) {
            Ok(()) => {
                self.frames_done = self.frames_done + 1;
                Ok(())
            },
            Err(e) => Err(e),
        }
    }
}

impl<'a> Encoder for GifEncoder<'a> {
    open spec fn inv(&self) -> bool {
        true
    }

    open spec fn frames(&self) -> nat {
        self.frame_counter()
    }

    closed spec fn finished(&self) -> bool {
        self.done
    }

    open spec fn encode_succeeds(&self, image: &ImageBuffer) -> bool {
        image.width <= 0xFFFF && image.height <= 0xFFFF && self.frame_counter() < u32::MAX
    }

    open spec fn encode_fails(&self, image: &ImageBuffer) -> bool {
        image.width > 0xFFFF || image.height > 0xFFFF || self.frame_counter() >= u32::MAX
    }

    fn encode(&mut self, image: &ImageBuffer) -> (r: Result<(), EncodeError>) {
        if self.frames_done == u32::MAX {
            return Err(EncodeError::IndexSpaceExhausted);
        }
        self.encode_frame(image)
    }

    fn finish(&mut self) -> (w: Option<FinalizeWarning>) {
        self.done = true;
        None
    }
}

} // verus!
