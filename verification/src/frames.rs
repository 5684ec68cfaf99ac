//! Encodes frames into individually numbered image files.
//!
//! Each received image becomes one PNG file whose name carries a strictly
//! increasing, gapless, zero-padded index starting at zero. The encoder
//! produces the file names and contents; the host writes them out.

use vstd::prelude::*;

use crate::encoder::{Encoder, FrameFile};
use crate::errors::{EncodeError, FinalizeWarning};
use crate::image_buffer::ImageBuffer;
use crate::text::{lemma_padded6_injective, spec_zero_padded6, u32_to_zero_padded6};
use vstd::string::StringExecFns;

verus! {

/// The PNG encoding of the given RGBA pixels at the given dimensions: a
/// function of the pixels and dimensions alone.
pub uninterp spec fn png_encoding_of(rgba: Seq<u8>, width: int, height: int) -> Seq<u8>;

/// Relies on the `image` crate's PNG encoder writing into an in-memory
/// buffer: pure encoding, no I/O. Writing into memory fails exactly on a
/// zero dimension; for eight-bit RGBA data of the right length every other
/// path is infallible.
#[verifier::external_body]
pub(crate) fn encode_png_rgba(rgba: &Vec<u8>, width: u32, height: u32) -> (r: Result<
    Vec<u8>,
    EncodeError,
>)
    requires
        rgba@.len() == width as int * height as int * 4,
    ensures
        r matches Ok(b) ==> b@ == png_encoding_of(rgba@, width as int, height as int),
        width >= 1 && height >= 1 ==> r is Ok,
        width == 0 || height == 0 ==> r is Err,
{
    let mut out: Vec<u8> = Vec::new();
    let enc = image::codecs::png::PngEncoder::new(&mut out);
    match image::ImageEncoder::write_image(
        enc,
        rgba.as_slice(),
        width,
        height,
        image::ExtendedColorType::Rgba8,
    ) {
        Ok(()) => Ok(out),
        Err(_) => Err(EncodeError::Codec),
    }
}

/// The file name of the frame with the given index.
pub open spec fn spec_frame_file_name(index: int) -> Seq<char> {
    "frame_"@ + spec_zero_padded6(index) + ".png"@
}

/// Builds the file name of the frame with the given index.
pub fn frame_file_name(index: u32) -> (r: String)
    ensures
        r@ == spec_frame_file_name(index as int),
{
    let mut s: String = "frame_".to_owned();
    let padded = u32_to_zero_padded6(index);
    s.append(padded.as_str());
    s.append(".png");
    proof {
        assert(s@ =~= spec_frame_file_name(index as int));
    }
    s
}

/// An encoder that writes each received image as an independently numbered
/// PNG file in a directory. File `i` of `n` emitted files carries index
/// `i`: the indices are gapless, strictly increasing and start at zero.
pub struct FramesEncoder {
    path: String,
    frame: u32,
    done: bool,
    outbox: Vec<FrameFile>,
    history: Ghost<Seq<FrameFile>>,
}

impl FramesEncoder {
    /// Every file emitted since construction, oldest first.
    pub closed spec fn emitted(&self) -> Seq<FrameFile> {
        self.history@
    }

    /// Files emitted but not yet handed to the host.
    pub closed spec fn spec_outbox(&self) -> Seq<FrameFile> {
        self.outbox@
    }

    /// The directory the host writes the files into.
    pub closed spec fn spec_path(&self) -> Seq<char> {
        self.path@
    }

    /// The number of frames encoded so far.
    pub closed spec fn frame_counter(&self) -> nat {
        self.frame as nat
    }

    /// After `n` encode calls exactly `n` files were emitted, and the file
    /// at position `i` is named with index `i`.
    pub open spec fn files_wf(&self) -> bool {
        &&& self.emitted().len() == self.frame_counter()
        &&& forall|i: int|
            0 <= i < self.emitted().len() ==> (#[trigger] self.emitted()[i]).name@
                == spec_frame_file_name(i)
        &&& self.spec_outbox() == self.emitted().skip(
            self.emitted().len() - self.spec_outbox().len(),
        )
        &&& self.spec_outbox().len() <= self.emitted().len()
    }

    /// Creates a new frames encoder that writes frames into the given
    /// directory.
    pub fn new(path: String) -> (r: FramesEncoder)
        ensures
            r.files_wf(),
            r.frame_counter() == 0,
            r.emitted().len() == 0,
            r.spec_outbox().len() == 0,
            r.spec_path() == path@,
            !r.finished(),
    {
        let r = FramesEncoder {
            path,
            frame: 0,
            done: false,
            outbox: Vec::new(),
            history: Ghost(Seq::empty()),
        };
        proof {
            assert(r.spec_outbox() =~= r.emitted().skip(0));
        }
        r
    }

    /// Encodes one image: emits exactly one new file, named with the next
    /// index and holding the PNG encoding of the image's pixels.
    pub fn encode_frame(&mut self, image: &ImageBuffer) -> (r: Result<(), EncodeError>)
        requires
            old(self).files_wf(),
            old(self).frame_counter() < u32::MAX,
            image.wf(),
        ensures
            final(self).files_wf(),
            final(self).spec_path() == old(self).spec_path(),
            final(self).finished() == old(self).finished(),
            r is Ok <==> image.width >= 1 && image.height >= 1,
            r is Ok ==> {
                &&& final(self).frame_counter() == old(self).frame_counter() + 1
                &&& final(self).emitted() == old(self).emitted().push(
                    final(self).emitted().last(),
                )
                &&& final(self).emitted().last().name@ == spec_frame_file_name(
                    old(self).frame_counter() as int,
                )
                &&& final(self).emitted().last().bytes@ == png_encoding_of(
                    crate::image_buffer::spec_rgba_bytes(image.data@, image.format),
                    image.width as int,
                    image.height as int,
                )
            },
            r is Err ==> *final(self) == *old(self),
    {
        let rgba = image.to_rgba8();
        match encode_png_rgba(&rgba, image.width, image.height) {
            Ok(bytes) => {
                let name = frame_file_name(self.frame);
                let file = FrameFile { name, bytes };
                self.history = Ghost(self.history@.push(file));
                self.outbox.push(file);
                self.frame = self.frame + 1;
                proof {
                    assert(self.outbox@ =~= self.history@.skip(
                        self.history@.len() - self.outbox@.len(),
                    ));
                }
                Ok(())
            },
            Err(e) => Err(e),
        }
    }

    /// The directory the emitted files belong in.
    pub fn path(&self) -> (p: &String)
        ensures
            p@ == self.spec_path(),
    {
        &self.path
    }

    /// The number of frames encoded so far.
    pub fn frames_encoded(&self) -> (n: u32)
        ensures
            n == self.frame_counter(),
    {
        self.frame
    }

    /// Hands the files emitted since the last call to the host, oldest
    /// first, for writing into the directory.
    pub fn take_output(&mut self) -> (files: Vec<FrameFile>)
        requires
            old(self).files_wf(),
        ensures
            final(self).files_wf(),
            final(self).emitted() == old(self).emitted(),
            final(self).frame_counter() == old(self).frame_counter(),
            final(self).spec_path() == old(self).spec_path(),
            files@ == old(self).spec_outbox(),
            final(self).spec_outbox().len() == 0,
    {
        let mut files: Vec<FrameFile> = Vec::new();
        core::mem::swap(&mut files, &mut self.outbox);
        proof {
            assert(self.outbox@ =~= self.history@.skip(self.history@.len() as int));
        }
        files
    }
}

impl Encoder for FramesEncoder {
    open spec fn inv(&self) -> bool {
        self.files_wf()
    }

    open spec fn frames(&self) -> nat {
        self.frame_counter()
    }

    closed spec fn finished(&self) -> bool {
        self.done
    }

    open spec fn encode_succeeds(&self, image: &ImageBuffer) -> bool {
        image.width >= 1 && image.height >= 1 && self.frame_counter() < u32::MAX
    }

    open spec fn encode_fails(&self, image: &ImageBuffer) -> bool {
        image.width == 0 || image.height == 0 || self.frame_counter() >= u32::MAX
    }

    fn encode(&mut self, image: &ImageBuffer) -> (r: Result<(), EncodeError>) {
        if self.frame == u32::MAX {
            return Err(EncodeError::IndexSpaceExhausted);
        }
        self.encode_frame(image)
    }

    fn finish(&mut self) -> (w: Option<FinalizeWarning>) {
        self.done = true;
        None
    }
}

/// Distinct frame indices give distinct file names: the shared prefix and
/// suffix around the zero-padded index never make two names collide.
pub proof fn lemma_frame_file_names_distinct(a: int, b: int)
    requires
        0 <= a,
        0 <= b,
        a != b,
    ensures
        spec_frame_file_name(a) != spec_frame_file_name(b),
{
    reveal_strlit("frame_");
    reveal_strlit(".png");
    lemma_padded6_injective(a, b);
    let pa = spec_zero_padded6(a);
    let pb = spec_zero_padded6(b);
    if spec_frame_file_name(a) == spec_frame_file_name(b) {
        assert(("frame_"@).len() == 6);
        assert((".png"@).len() == 4);
        assert(spec_frame_file_name(a).len() == 10 + pa.len());
        assert(spec_frame_file_name(b).len() == 10 + pb.len());
        assert(pa.len() == pb.len());
        assert forall|i: int| 0 <= i < pa.len() implies pa[i] == pb[i] by {
            assert(spec_frame_file_name(a)[6 + i] == pa[i]);
            assert(spec_frame_file_name(b)[6 + i] == pb[i]);
        }
        assert(pa =~= pb);
        assert(false);
    }
}

/// After `n` encode calls exactly `n` files were emitted: file `i` carries
/// the zero-padded index `i` — the indices are gapless, strictly increasing
/// and start at zero — and no two files share a name.
pub proof fn lemma_emitted_files_gapless(e: &FramesEncoder)
    requires
        e.files_wf(),
    ensures
        e.emitted().len() == e.frame_counter(),
        forall|i: int|
            0 <= i < e.emitted().len() ==> (#[trigger] e.emitted()[i]).name@
                == spec_frame_file_name(i),
        forall|i: int, j: int|
            0 <= i < j < e.emitted().len() ==> e.emitted()[i].name@ != e.emitted()[j].name@,
{
    assert forall|i: int, j: int| 0 <= i < j < e.emitted().len() implies e.emitted()[i].name@
        != e.emitted()[j].name@ by {
        lemma_frame_file_names_distinct(i, j);
    }
}

} // verus!
