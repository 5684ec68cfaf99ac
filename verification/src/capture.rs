//! The per-target capture state machine.
//!
//! A capturable target is `Idle` or `Capturing { paused }`. While capturing
//! it exclusively owns an encoder set; on any transition away from
//! capturing — an explicit stop or a replacement by a new start — every
//! member of the owned set is finalized exactly once, in insertion order,
//! before the set is released. Control calls may originate outside the
//! scheduler's tick, so the not-yet-activated set sits in a take-once cell
//! that the scheduler empties exactly once.

use vstd::prelude::*;

use crate::encoder::{Encoder, EncoderSet, IntoEncoders};
use crate::errors::FinalizeWarning;

verus! {

/// Which render surface a capture observes. Immutable once attached.
#[derive(Clone, Copy, Debug, PartialEq, Eq, Structural)]
pub enum CaptureSource {
    /// Observe the camera of the entity the capture itself is attached to.
    ThisCamera,
    /// Observe the camera of the given entity.
    Camera(u64),
}

impl Default for CaptureSource {
    /// By default a capture observes its own entity's camera.
    fn default() -> (r: CaptureSource)
        ensures
            r == CaptureSource::ThisCamera,
    {
        CaptureSource::ThisCamera
    }
}

impl CaptureSource {
    /// The entity whose camera is observed, given the entity the capture is
    /// attached to.
    pub fn camera_entity(&self, own_entity: u64) -> (r: u64)
        ensures
            self is ThisCamera ==> r == own_entity,
            self matches CaptureSource::Camera(e) ==> r == e,
    {
        match self {
            CaptureSource::ThisCamera => own_entity,
            CaptureSource::Camera(e) => *e,
        }
    }
}

/// The capture states: idle, or capturing with a pause flag. The take-once
/// cell holds the encoder set between the control call that built it and
/// the scheduler tick that activates it.
pub enum CaptureState<E> {
    /// Not capturing. Initial and terminal.
    Idle,
    /// Capturing. The encoder set sits in `pending` until the scheduler
    /// takes it, exactly once.
    Capturing {
        /// The take-once cell with the not-yet-activated encoder set.
        pending: Option<EncoderSet<E>>,
        /// While paused, frames are not delivered, but the capture stays
        /// active and the encoders are kept as they are.
        paused: bool,
    },
}

/// The capture component of one target: a state machine driven only by the
/// explicit control calls `start`, `pause`, `resume` and `stop`.
pub struct Capture<E> {
    state: CaptureState<E>,
}

impl<E: Encoder> Capture<E> {
    /// Whether the capture is currently capturing frames.
    pub closed spec fn spec_is_capturing(&self) -> bool {
        self.state is Capturing
    }

    /// Whether the capture is currently paused.
    pub closed spec fn spec_is_paused(&self) -> bool {
        match self.state {
            CaptureState::Capturing { paused, .. } => paused,
            CaptureState::Idle => false,
        }
    }

    /// The content of the take-once cell: the encoder set no scheduler tick
    /// has activated yet.
    pub closed spec fn pending(&self) -> Option<EncoderSet<E>> {
        match self.state {
            CaptureState::Capturing { pending, .. } => pending,
            CaptureState::Idle => None,
        }
    }

    /// A pending set is well-formed and not yet finalized, and only a
    /// capturing state holds one.
    pub open spec fn wf(&self) -> bool {
        &&& match self.pending() {
            Some(s) => s.wf() && s.live(),
            None => true,
        }
        &&& !self.spec_is_capturing() ==> self.pending() is None
    }

    /// A new, idle capture.
    pub fn new() -> (r: Capture<E>)
        ensures
            r.wf(),
            !r.spec_is_capturing(),
            !r.spec_is_paused(),
            r.pending() is None,
    {
        Capture { state: CaptureState::Idle }
    }

    /// Starts capturing frames with the given encoders, which must form a
    /// validated, non-empty ordered list. If the capture was already
    /// capturing with a set no scheduler had activated, that set is
    /// finalized — every member exactly once, in insertion order — and
    /// returned for the host to log warnings from; the new set replaces it.
    /// The new capture is not paused.
    pub fn start<I: IntoEncoders<E>>(&mut self, encoders: I) -> (released: Option<
        ReleasedEncoders<E>,
    >)
        requires
            old(self).wf(),
            encoders.as_encoder_seq().len() > 0,
            forall|i: int|
                0 <= i < encoders.as_encoder_seq().len() ==> (#[trigger] encoders.as_encoder_seq()[i]).inv(),
            forall|i: int|
                0 <= i < encoders.as_encoder_seq().len()
                    ==> !(#[trigger] encoders.as_encoder_seq()[i]).finished(),
        ensures
            final(self).wf(),
            final(self).spec_is_capturing(),
            !final(self).spec_is_paused(),
            final(self).pending() matches Some(s) && s.members() == encoders.as_encoder_seq(),
            released_finalized(old(self).pending(), released),
    {
        let released = self.release_pending();
        let v = encoders.into_encoders();
        self.state = CaptureState::Capturing { pending: Some(EncoderSet::new(v)), paused: false };
        released
    }

    /// Pauses the capture: delivery is suppressed, the capture stays
    /// active, the encoders are untouched. No-op while idle.
    pub fn pause(&mut self)
        requires
            old(self).wf(),
        ensures
            final(self).wf(),
            final(self).spec_is_capturing() == old(self).spec_is_capturing(),
            final(self).pending() == old(self).pending(),
            old(self).spec_is_capturing() ==> final(self).spec_is_paused(),
            !old(self).spec_is_capturing() ==> *final(self) == *old(self),
    {
        match &mut self.state {
            CaptureState::Capturing { paused, .. } => {
                *paused = true;
            },
            CaptureState::Idle => {},
        }
    }

    /// Resumes the capture: delivery is restored with the same encoders,
    /// none reconstructed. No-op while idle.
    pub fn resume(&mut self)
        requires
            old(self).wf(),
        ensures
            final(self).wf(),
            final(self).spec_is_capturing() == old(self).spec_is_capturing(),
            final(self).pending() == old(self).pending(),
            old(self).spec_is_capturing() ==> !final(self).spec_is_paused(),
            !old(self).spec_is_capturing() ==> *final(self) == *old(self),
    {
        match &mut self.state {
            CaptureState::Capturing { paused, .. } => {
                *paused = false;
            },
            CaptureState::Idle => {},
        }
    }

    /// Stops the capture and becomes idle; idempotent. A pending encoder
    /// set is finalized — every member exactly once, in insertion order —
    /// and returned for the host to log warnings from. A set the scheduler
    /// has already taken is finalized by the scheduler when it next
    /// reconciles this target.
    pub fn stop(&mut self) -> (released: Option<ReleasedEncoders<E>>)
        requires
            old(self).wf(),
        ensures
            final(self).wf(),
            !final(self).spec_is_capturing(),
            !final(self).spec_is_paused(),
            final(self).pending() is None,
            released_finalized(old(self).pending(), released),
    {
        let released = self.release_pending();
        self.state = CaptureState::Idle;
        released
    }

    /// Whether the capture is currently capturing frames.
    pub fn is_capturing(&self) -> (r: bool)
        ensures
            r == self.spec_is_capturing(),
    {
        match &self.state {
            CaptureState::Capturing { .. } => true,
            CaptureState::Idle => false,
        }
    }

    /// Whether the capture is currently paused.
    pub fn is_paused(&self) -> (r: bool)
        ensures
            r == self.spec_is_paused(),
    {
        match &self.state {
            CaptureState::Capturing { paused, .. } => *paused,
            CaptureState::Idle => false,
        }
    }

    /// Empties the take-once cell: the scheduler activates the returned set
    /// exactly once, independent of timing relative to the control call
    /// that filled it.
    pub fn take_pending(&mut self) -> (r: Option<EncoderSet<E>>)
        requires
            old(self).wf(),
        ensures
            final(self).wf(),
            r == old(self).pending(),
            final(self).pending() is None,
            final(self).spec_is_capturing() == old(self).spec_is_capturing(),
            final(self).spec_is_paused() == old(self).spec_is_paused(),
            r matches Some(s) ==> s.wf() && s.live(),
    {
        match &mut self.state {
            CaptureState::Capturing { pending, .. } => pending.take(),
            CaptureState::Idle => None,
        }
    }

    /// Takes the pending set, if any, and finalizes it: the release path of
    /// the capture's exclusively owned resource.
    fn release_pending(&mut self) -> (released: Option<ReleasedEncoders<E>>)
        requires
            old(self).wf(),
        ensures
            final(self).wf(),
            final(self).pending() is None,
            final(self).spec_is_capturing() == old(self).spec_is_capturing(),
            released_finalized(old(self).pending(), released),
    {
        let pending = self.take_pending();
        match pending {
            Some(mut s) => {
                let (order, warnings) = s.finalize_all();
                Some(ReleasedEncoders { set: s, order, warnings })
            },
            None => None,
        }
    }
}

impl<E: Encoder> Default for Capture<E> {
    /// A capture starts out idle.
    fn default() -> (r: Capture<E>)
        ensures
            r.wf(),
            !r.spec_is_capturing(),
            !r.spec_is_paused(),
            r.pending() is None,
    {
        Capture::new()
    }
}

/// An encoder set on its way out: every member finalized, with the record
/// of the finalize fan-out for the host.
pub struct ReleasedEncoders<E> {
    /// The released set, every member finalized.
    pub set: EncoderSet<E>,
    /// Which member each finalize call went to, in call order: always the
    /// insertion order `0, 1, ..., len - 1`.
    pub order: Vec<usize>,
    /// Each member's finalize warning, by member index, for the host to
    /// log; warnings never block the release.
    pub warnings: Vec<Option<FinalizeWarning>>,
}

/// What leaving the capturing state guarantees of the owned encoder set:
/// nothing was owned and nothing is released, or the owned set is released
/// with every member finalized exactly once, in insertion order, its frame
/// count intact, together with one finalize warning slot per member.
pub open spec fn released_finalized<E: Encoder>(
    owned: Option<EncoderSet<E>>,
    released: Option<ReleasedEncoders<E>>,
) -> bool {
    match owned {
        None => released is None,
        Some(s) => match released {
            Some(r) => {
                &&& r.set.wf()
                &&& r.set.all_finished()
                &&& r.set.members().len() == s.members().len()
                &&& r.order@ == Seq::new(s.members().len(), |i: int| i as usize)
                &&& r.warnings@.len() == s.members().len()
                &&& forall|i: int|
                    0 <= i < s.members().len() ==> (#[trigger] r.set.members()[i]).frames()
                        == s.members()[i].frames()
            },
            None => false,
        },
    }
}

} // verus!
