//! Encodes frames into an MP4 file through an external transcoding tool.
//!
//! During capture every frame is buffered as an individual PNG file inside
//! a private staging directory; after finalize the host invokes one
//! external `ffmpeg` process over the full buffered sequence, with an
//! explicit output framerate and a fixed quality parameter (lower value
//! means higher quality). The encoder produces the staged files and the
//! exact argument list; the host writes the files, runs the process and
//! logs a failure without raising it, because finalize cannot propagate
//! errors.

use vstd::prelude::*;

use crate::encoder::{Encoder, FrameFile};
use crate::errors::{EncodeError, FinalizeWarning};
use crate::frames::{encode_png_rgba, frame_file_name, png_encoding_of, spec_frame_file_name};
use crate::image_buffer::ImageBuffer;
use crate::text::{spec_decimal, u32_to_decimal};
use vstd::string::StringExecFns;

verus! {

/// The argument list of the one external transcoding invocation: the
/// program, the output framerate, the staged-frame pattern inside the
/// staging directory, the codec and pixel-format choices, the quality
/// parameter, and the output path.
pub open spec fn spec_ffmpeg_command(
    framerate: int,
    crf: int,
    dir: Seq<char>,
    out: Seq<char>,
) -> Seq<Seq<char>> {
    seq![
        "ffmpeg"@,
        "-framerate"@,
        spec_decimal(framerate),
        "-i"@,
        dir + "/frame_%06d.png"@,
        "-c:v"@,
        "libx264"@,
        "-pix_fmt"@,
        "yuv420p"@,
        "-crf"@,
        spec_decimal(crf),
        out,
    ]
}

/// An encoder that buffers frames as PNG files in a staging directory and,
/// once finalized, hands the host one external-tool invocation producing a
/// single compressed container from the full sequence.
pub struct Mp4FfmpegCliEncoder {
    dir: String,
    path: String,
    frame: u32,
    framerate: u32,
    crf: u32,
    done: bool,
    outbox: Vec<FrameFile>,
    history: Ghost<Seq<FrameFile>>,
}

impl Mp4FfmpegCliEncoder {
    /// Every staged file emitted since construction, oldest first.
    pub closed spec fn emitted(&self) -> Seq<FrameFile> {
        self.history@
    }

    /// Staged files emitted but not yet handed to the host.
    pub closed spec fn spec_outbox(&self) -> Seq<FrameFile> {
        self.outbox@
    }

    /// The private staging directory.
    pub closed spec fn spec_dir(&self) -> Seq<char> {
        self.dir@
    }

    /// The output container path.
    pub closed spec fn spec_path(&self) -> Seq<char> {
        self.path@
    }

    /// The configured output framerate.
    pub closed spec fn spec_framerate(&self) -> u32 {
        self.framerate
    }

    /// The configured quality parameter.
    pub closed spec fn spec_crf(&self) -> u32 {
        self.crf
    }

    /// The number of frames staged so far.
    pub closed spec fn frame_counter(&self) -> nat {
        self.frame as nat
    }

    /// After `n` encode calls exactly `n` files were staged, and the file
    /// at position `i` is named with index `i`.
    pub open spec fn files_wf(&self) -> bool {
        &&& self.emitted().len() == self.frame_counter()
        &&& forall|i: int|
            0 <= i < self.emitted().len() ==> (#[trigger] self.emitted()[i]).name@
                == spec_frame_file_name(i)
        &&& self.spec_outbox() == self.emitted().skip(
            self.emitted().len() - self.spec_outbox().len(),
        )
        &&& self.spec_outbox().len() <= self.emitted().len()
    }

    /// Creates a new encoder staging frames in `staging_dir` and producing
    /// the container at `path`, with a framerate of 60 and a quality
    /// parameter of 23.
    pub fn new(staging_dir: String, path: String) -> (r: Mp4FfmpegCliEncoder)
        ensures
            r.files_wf(),
            r.frame_counter() == 0,
            r.spec_outbox().len() == 0,
            r.spec_dir() == staging_dir@,
            r.spec_path() == path@,
            r.spec_framerate() == 60,
            r.spec_crf() == 23,
            !r.finished(),
    {
        let r = Mp4FfmpegCliEncoder {
            dir: staging_dir,
            path,
            frame: 0,
            framerate: 60,
            crf: 23,
            done: false,
            outbox: Vec::new(),
            history: Ghost(Seq::empty()),
        };
        proof {
            assert(r.spec_outbox() =~= r.emitted().skip(0));
        }
        r
    }

    /// Sets the framerate of the video.
    pub fn with_framerate(self, framerate: u32) -> (r: Mp4FfmpegCliEncoder)
        ensures
            r.spec_framerate() == framerate,
            r.spec_crf() == self.spec_crf(),
            r.spec_dir() == self.spec_dir(),
            r.spec_path() == self.spec_path(),
            r.emitted() == self.emitted(),
            r.spec_outbox() == self.spec_outbox(),
            r.frame_counter() == self.frame_counter(),
            r.finished() == self.finished(),
    {
        Mp4FfmpegCliEncoder { framerate, ..self }
    }

    /// Sets the quality parameter of the video: a lower value means higher
    /// quality.
    pub fn with_crf(self, crf: u32) -> (r: Mp4FfmpegCliEncoder)
        ensures
            r.spec_crf() == crf,
            r.spec_framerate() == self.spec_framerate(),
            r.spec_dir() == self.spec_dir(),
            r.spec_path() == self.spec_path(),
            r.emitted() == self.emitted(),
            r.spec_outbox() == self.spec_outbox(),
            r.frame_counter() == self.frame_counter(),
            r.finished() == self.finished(),
    {
        Mp4FfmpegCliEncoder { crf, ..self }
    }

    /// Stages one image: emits exactly one new PNG file, named with the
    /// next index.
    pub fn encode_frame(&mut self, image: &ImageBuffer) -> (r: Result<(), EncodeError>)
        requires
            old(self).files_wf(),
            old(self).frame_counter() < u32::MAX,
            image.wf(),
        ensures
            final(self).files_wf(),
            final(self).spec_dir() == old(self).spec_dir(),
            final(self).spec_path() == old(self).spec_path(),
            final(self).finished() == old(self).finished(),
            r is Ok <==> image.width >= 1 && image.height >= 1,
            r is Ok ==> {
                &&& final(self).frame_counter() == old(self).frame_counter() + 1
                &&& final(self).emitted() == old(self).emitted().push(
                    final(self).emitted().last(),
                )
                &&& final(self).emitted().last().name@ == spec_frame_file_name(
                    old(self).frame_counter() as int,
                )
                &&& final(self).emitted().last().bytes@ == png_encoding_of(
                    crate::image_buffer::spec_rgba_bytes(image.data@, image.format),
                    image.width as int,
                    image.height as int,
                )
            },
            r is Err ==> *final(self) == *old(self),
    {
        let rgba = image.to_rgba8();
        match encode_png_rgba(&rgba, image.width, image.height) {
            Ok(bytes) => {
                let name = frame_file_name(self.frame);
                let file = FrameFile { name, bytes };
                self.history = Ghost(self.history@.push(file));
                self.outbox.push(file);
                self.frame = self.frame + 1;
                proof {
                    assert(self.outbox@ =~= self.history@.skip(
                        self.history@.len() - self.outbox@.len(),
                    ));
                }
                Ok(())
            },
            Err(e) => Err(e),
        }
    }

    /// The private staging directory the staged files belong in.
    pub fn staging_dir(&self) -> (p: &String)
        ensures
            p@ == self.spec_dir(),
    {
        &self.dir
    }

    /// The number of frames staged so far.
    pub fn frames_encoded(&self) -> (n: u32)
        ensures
            n == self.frame_counter(),
    {
        self.frame
    }

    /// Hands the staged files emitted since the last call to the host,
    /// oldest first, for writing into the staging directory.
    pub fn take_output(&mut self) -> (files: Vec<FrameFile>)
        requires
            old(self).files_wf(),
        ensures
            final(self).files_wf(),
            final(self).emitted() == old(self).emitted(),
            final(self).frame_counter() == old(self).frame_counter(),
            final(self).spec_dir() == old(self).spec_dir(),
            final(self).spec_path() == old(self).spec_path(),
            final(self).finished() == old(self).finished(),
            files@ == old(self).spec_outbox(),
            final(self).spec_outbox().len() == 0,
    {
        let mut files: Vec<FrameFile> = Vec::new();
        core::mem::swap(&mut files, &mut self.outbox);
        proof {
            assert(self.outbox@ =~= self.history@.skip(self.history@.len() as int));
        }
        files
    }

    /// The exact invocation the host must run after finalize: program name
    /// first, then its arguments, producing the container from the full
    /// staged sequence.
    pub fn build_command(&self) -> (r: Vec<String>)
        ensures
            r@.map_values(|s: String| s@) == spec_ffmpeg_command(
                self.spec_framerate() as int,
                self.spec_crf() as int,
                self.spec_dir(),
                self.spec_path(),
            ),
    {
        let mut args: Vec<String> = Vec::new();
        args.push("ffmpeg".to_owned());
        args.push("-framerate".to_owned());
        args.push(u32_to_decimal(self.framerate));
        args.push("-i".to_owned());
        let mut pattern = self.dir.clone();
        pattern.append("/frame_%06d.png");
        args.push(pattern);
        args.push("-c:v".to_owned());
        args.push("libx264".to_owned());
        args.push("-pix_fmt".to_owned());
        args.push("yuv420p".to_owned());
        args.push("-crf".to_owned());
        args.push(u32_to_decimal(self.crf));
        args.push(self.path.clone());
        proof {
            assert(args@.map_values(|s: String| s@) =~= spec_ffmpeg_command(
                self.spec_framerate() as int,
                self.spec_crf() as int,
                self.spec_dir(),
                self.spec_path(),
            ));
        }
        args
    }
}

impl Encoder for Mp4FfmpegCliEncoder {
    open spec fn inv(&self) -> bool {
        self.files_wf()
    }

    open spec fn frames(&self) -> nat {
        self.frame_counter()
    }

    closed spec fn finished(&self) -> bool {
        self.done
    }

    open spec fn encode_succeeds(&self, image: &ImageBuffer) -> bool {
        image.width >= 1 && image.height >= 1 && self.frame_counter() < u32::MAX
    }

    open spec fn encode_fails(&self, image: &ImageBuffer) -> bool {
        image.width == 0 || image.height == 0 || self.frame_counter() >= u32::MAX
    }

    fn encode(&mut self, image: &ImageBuffer) -> (r: Result<(), EncodeError>) {
        if self.frame == u32::MAX {
            return Err(EncodeError::IndexSpaceExhausted);
        }
        self.encode_frame(image)
    }

    fn finish(&mut self) -> (w: Option<FinalizeWarning>) {
        self.done = true;
        None
    }
}

} // verus!
