//! The encoder capability and the fan-out set.
//!
//! An encoder turns a sequence of delivered images into one media artifact.
//! An [`EncoderSet`] owns an ordered, non-empty list of encoders; each frame
//! is delivered to every member in insertion order, one member's failure
//! never blocks another, and on leaving the capturing state every member is
//! finalized exactly once, in insertion order.

use vstd::prelude::*;

use crate::errors::{EncodeError, FinalizeWarning};
use crate::image_buffer::ImageBuffer;

verus! {

/// One file the host must write out: produced by encoders that stage frames
/// as individual images.
pub struct FrameFile {
    /// File name relative to the encoder's directory.
    pub name: String,
    /// Encoded file contents.
    pub bytes: Vec<u8>,
}

/// An encoder that encodes a sequence of images into a custom format.
///
/// `frames()` counts the successfully encoded images; `finished()` says
/// whether the encoder has been finalized. Encoding never runs on a
/// finalized encoder, and finalizing happens exactly once: at most once
/// because `finish` demands an unfinished encoder, at least once because the
/// owning [`EncoderSet`] finalizes every member on release.
pub trait Encoder: Sized {
    /// Internal consistency of the encoder's state.
    spec fn inv(&self) -> bool;

    /// How many images this encoder has successfully encoded.
    spec fn frames(&self) -> nat;

    /// Whether the encoder has been finalized.
    spec fn finished(&self) -> bool;

    /// Inputs on which this encoder owes a successful encode.
    spec fn encode_succeeds(&self, image: &ImageBuffer) -> bool;

    /// Inputs on which this encoder is sure to reject the frame.
    spec fn encode_fails(&self, image: &ImageBuffer) -> bool;

    /// Encodes the given image. On failure the encoder is unchanged in
    /// model terms and stays usable: a per-frame failure is isolated.
    fn encode(&mut self, image: &ImageBuffer) -> (r: Result<(), EncodeError>)
        requires
            old(self).inv(),
            !old(self).finished(),
            image.wf(),
        ensures
            final(self).inv(),
            !final(self).finished(),
            r is Ok ==> final(self).frames() == old(self).frames() + 1,
            r is Err ==> final(self).frames() == old(self).frames(),
            old(self).encode_succeeds(image) ==> r is Ok,
            old(self).encode_fails(image) ==> r is Err,
    ;

    /// Finishes the encoding process, writing any trailing data. Failures
    /// are reported as a warning for logging, never as an error: finalize
    /// commonly runs during teardown with no recovery path.
    fn finish(&mut self) -> (w: Option<FinalizeWarning>)
        requires
            old(self).inv(),
            !old(self).finished(),
        ensures
            final(self).inv(),
            final(self).finished(),
            final(self).frames() == old(self).frames(),
    ;
}

/// Converts a value into an ordered list of encoders.
pub trait IntoEncoders<E: Encoder>: Sized {
    /// The list the value stands for.
    spec fn as_encoder_seq(&self) -> Seq<E>;

    /// Converts the value into the list of encoders.
    fn into_encoders(self) -> (r: Vec<E>)
        ensures
            r@ == self.as_encoder_seq(),
    ;
}

impl<E: Encoder> IntoEncoders<E> for E {
    open spec fn as_encoder_seq(&self) -> Seq<E> {
        seq![*self]
    }

    fn into_encoders(self) -> (r: Vec<E>) {
        let mut v: Vec<E> = Vec::new();
        v.push(self);
        proof {
            assert(v@ =~= seq![v@[0]]);
        }
        v
    }
}

impl<E: Encoder> IntoEncoders<E> for Vec<E> {
    open spec fn as_encoder_seq(&self) -> Seq<E> {
        self@
    }

    fn into_encoders(self) -> (r: Vec<E>) {
        self
    }
}

/// An ordered, non-empty set of active encoders. Exclusively owned by the
/// capturing state; on release every member receives exactly one finalize
/// call, in original insertion order.
pub struct EncoderSet<E> {
    encoders: Vec<E>,
}

impl<E: Encoder> EncoderSet<E> {
    /// The members, in insertion order.
    pub closed spec fn members(&self) -> Seq<E> {
        self.encoders@
    }

    /// Non-empty, and every member internally consistent.
    pub open spec fn wf(&self) -> bool {
        &&& self.members().len() > 0
        &&& forall|i: int| 0 <= i < self.members().len() ==> (#[trigger] self.members()[i]).inv()
    }

    /// No member finalized yet: the state of a set while capturing.
    pub open spec fn live(&self) -> bool {
        forall|i: int| 0 <= i < self.members().len() ==> !(#[trigger] self.members()[i]).finished()
    }

    /// Every member finalized: the state of a set after release.
    pub open spec fn all_finished(&self) -> bool {
        forall|i: int| 0 <= i < self.members().len() ==> (#[trigger] self.members()[i]).finished()
    }

    /// Builds a set from an already-validated, non-empty ordered list.
    pub fn new(encoders: Vec<E>) -> (r: EncoderSet<E>)
        requires
            encoders@.len() > 0,
            forall|i: int| 0 <= i < encoders@.len() ==> (#[trigger] encoders@[i]).inv(),
            forall|i: int| 0 <= i < encoders@.len() ==> !(#[trigger] encoders@[i]).finished(),
        ensures
            r.members() == encoders@,
            r.wf(),
            r.live(),
    {
        EncoderSet { encoders }
    }

    /// How many encoders the set holds.
    pub fn len(&self) -> (n: usize)
        ensures
            n == self.members().len(),
    {
        self.encoders.len()
    }

    /// The member at the given position.
    pub fn get(&self, i: usize) -> (e: &E)
        requires
            i < self.members().len(),
        ensures
            *e == self.members()[i as int],
    {
        &self.encoders[i]
    }

    /// Mutable access to the member at the given position, for retrieving
    /// its pending output.
    pub fn get_mut(&mut self, i: usize) -> (e: &mut E)
        requires
            i < old(self).members().len(),
        ensures
            *e == old(self).members()[i as int],
            final(self).members() == old(self).members().update(i as int, *final(e)),
    {
        &mut self.encoders[i]
    }

    /// Delivers one image to every member, in insertion order. The same
    /// image goes to each member read-only; a member's failure is recorded
    /// and delivery continues with the remaining members: `outcomes[i]`
    /// tells whether member `i` encoded the frame, and exactly the
    /// successful members count one more frame.
    pub fn encode_all(&mut self, image: &ImageBuffer) -> (outcomes: Vec<bool>)
        requires
            old(self).wf(),
            old(self).live(),
            image.wf(),
        ensures
            final(self).wf(),
            final(self).live(),
            final(self).members().len() == old(self).members().len(),
            outcomes@.len() == old(self).members().len(),
            forall|i: int|
                0 <= i < outcomes@.len() ==> (#[trigger] final(self).members()[i]).frames()
                    == old(self).members()[i].frames() + (if outcomes@[i] {
                    1int
                } else {
                    0int
                }),
            forall|i: int|
                0 <= i < outcomes@.len() && (#[trigger] old(self).members()[i]).encode_succeeds(
                    image,
                ) ==> outcomes@[i],
            forall|i: int|
                0 <= i < outcomes@.len() && (#[trigger] old(self).members()[i]).encode_fails(image)
                    ==> !outcomes@[i],
    {
        let ghost orig = self.encoders@;
        let mut outcomes: Vec<bool> = Vec::new();
        let mut i: usize = 0;
        let n = self.encoders.len();
        while i < n
            invariant
                i <= n,
                n == self.encoders@.len(),
                orig.len() == n,
                outcomes@.len() == i,
                image.wf(),
                forall|j: int| i <= j < n ==> self.encoders@[j] == orig[j],
                forall|j: int| 0 <= j < n ==> (#[trigger] orig[j]).inv() && !orig[j].finished(),
                forall|j: int|
                    0 <= j < n ==> (#[trigger] self.encoders@[j]).inv()
                        && !self.encoders@[j].finished(),
                forall|j: int|
                    0 <= j < i ==> (#[trigger] self.encoders@[j]).frames() == orig[j].frames() + (
                    if outcomes@[j] {
                        1int
                    } else {
                        0int
                    }),
                forall|j: int|
                    0 <= j < i && (#[trigger] orig[j]).encode_succeeds(image) ==> outcomes@[j],
                forall|j: int|
                    0 <= j < i && (#[trigger] orig[j]).encode_fails(image) ==> !outcomes@[j],
            decreases n - i,
        {
            let r = self.encoders[i].encode(image);
            outcomes.push(r.is_ok());
            i = i + 1;
        }
        outcomes
    }

    /// Finalizes every member, in insertion order, exactly once each. The
    /// first returned vector records which member each finalize call went
    /// to: it is always `0, 1, ..., len - 1`. The second collects each
    /// member's warning for the host to log; warnings never block the
    /// release.
    pub fn finalize_all(&mut self) -> (r: (Vec<usize>, Vec<Option<FinalizeWarning>>))
        requires
            old(self).wf(),
            old(self).live(),
        ensures
            final(self).wf(),
            final(self).all_finished(),
            final(self).members().len() == old(self).members().len(),
            forall|i: int|
                0 <= i < final(self).members().len() ==> (#[trigger] final(self).members()[i]).frames()
                    == old(self).members()[i].frames(),
            r.0@ == Seq::new(old(self).members().len(), |i: int| i as usize),
            r.1@.len() == old(self).members().len(),
    {
        let ghost orig = self.encoders@;
        let mut order: Vec<usize> = Vec::new();
        let mut warnings: Vec<Option<FinalizeWarning>> = Vec::new();
        let mut i: usize = 0;
        let n = self.encoders.len();
        while i < n
            invariant
                i <= n,
                n == self.encoders@.len(),
                orig.len() == n,
                order@.len() == i,
                warnings@.len() == i,
                forall|j: int| i <= j < n ==> self.encoders@[j] == orig[j],
                forall|j: int| 0 <= j < n ==> (#[trigger] orig[j]).inv() && !orig[j].finished(),
                forall|j: int| 0 <= j < n ==> (#[trigger] self.encoders@[j]).inv(),
                forall|j: int| i <= j < n ==> !(#[trigger] self.encoders@[j]).finished(),
                forall|j: int| 0 <= j < i ==> (#[trigger] self.encoders@[j]).finished(),
                forall|j: int|
                    0 <= j < i ==> (#[trigger] self.encoders@[j]).frames() == orig[j].frames(),
                forall|j: int| 0 <= j < i ==> order@[j] == j,
            decreases n - i,
        {
            let warning = self.encoders[i].finish();
            order.push(i);
            warnings.push(warning);
            i = i + 1;
        }
        proof {
            assert(order@ =~= Seq::new(orig.len(), |i: int| i as usize));
        }
        (order, warnings)
    }
}

} // verus!
