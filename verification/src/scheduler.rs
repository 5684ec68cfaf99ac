//! The per-frame orchestration of one capturing target.
//!
//! Each render frame, for every capturing target: the control state is
//! mirrored into the render world, activating a pending encoder set exactly
//! once and finalizing a replaced or stopped set at that very transition;
//! the readback session is reused while the observed source keeps its
//! identity and rebuilt when it changes; a device copy is requested unless
//! the capture is paused; and the mapped bytes, stripped of row padding,
//! are delivered to every encoder of the set. A target whose render surface
//! cannot be resolved, or whose mapping failed, produces no image and no
//! encoder call that frame, and stays active for the next.

use vstd::prelude::*;

use crate::capture::{released_finalized, Capture, ReleasedEncoders};
use crate::encoder::{Encoder, EncoderSet};
use crate::errors::ReadbackError;
use crate::image_buffer::{ImageBuffer, PixelFormat};
use crate::readback::{align_copy_bytes_per_row, spec_aligned_row_bytes, strip_row_padding};

verus! {

/// The resolved render surface of a target: its identity and its current
/// dimensions and format.
pub struct SourceInfo {
    /// Identity of the source image asset.
    pub id: u64,
    /// Width in pixels.
    pub width: u32,
    /// Height in pixels.
    pub height: u32,
    /// Pixel format of the surface.
    pub format: PixelFormat,
}

impl SourceInfo {
    /// Machine limits under which a transfer buffer for this surface can be
    /// sized.
    pub open spec fn sizable(&self) -> bool {
        &&& self.width * 4 + 255 <= usize::MAX
        &&& spec_aligned_row_bytes(self.width * 4) * self.height <= u64::MAX
    }

    /// Tests the machine limits, so a host can reject a surface too large
    /// for a transfer buffer instead of assuming one fits.
    pub fn is_sizable(&self) -> (b: bool)
        ensures
            b == self.sizable(),
    {
        let row: u64 = self.width as u64 * 4;
        if !(row + 255 <= usize::MAX as u64) {
            return false;
        }
        let aligned: u64 = if row % 256 == 0 {
            row
        } else {
            row + (256 - row % 256)
        };
        proof {
            assert((aligned as u128) * (self.height as u128) <= u128::MAX) by (nonlinear_arith)
                requires
                    aligned <= u64::MAX,
                    self.height <= u32::MAX,
            ;
        }
        (aligned as u128) * (self.height as u128) <= u64::MAX as u128
    }
}

/// The per-target cached readback resources, as the core sees them: which
/// source they were built for, the tight and padded row widths, and the
/// transfer-buffer size the host must allocate.
pub struct RenderSession {
    /// Identity of the observed source image.
    pub source: u64,
    /// Width of the source in pixels.
    pub width: u32,
    /// Height of the source in pixels.
    pub height: u32,
    /// Pixel format of the source.
    pub format: PixelFormat,
    /// The tight row width: four bytes per pixel, no padding.
    pub unpadded_row_bytes: usize,
    /// The padded row width of the device copy.
    pub aligned_row_bytes: usize,
    /// The transfer buffer's size in bytes: the padded row width times the
    /// height.
    pub buffer_size: u64,
}

impl RenderSession {
    /// The session's derived sizes follow from its dimensions.
    pub open spec fn wf(&self) -> bool {
        &&& self.unpadded_row_bytes == self.width * 4
        &&& self.aligned_row_bytes == spec_aligned_row_bytes(self.width * 4)
        &&& self.buffer_size == self.aligned_row_bytes * self.height
        &&& self.width > 0
    }
}

/// Builds the readback session for a resolved source: the transfer buffer
/// is sized for the padded, not the tight, row width.
pub fn init_session(info: &SourceInfo) -> (r: RenderSession)
    requires
        info.sizable(),
        info.width > 0,
    ensures
        r.wf(),
        r.source == info.id,
        r.width == info.width,
        r.height == info.height,
        r.format == info.format,
{
    let unpadded: usize = (info.width as usize) * 4;
    let aligned: usize = align_copy_bytes_per_row(unpadded);
    let buffer_size: u64 = (aligned as u64) * (info.height as u64);
    RenderSession {
        source: info.id,
        width: info.width,
        height: info.height,
        format: info.format,
        unpadded_row_bytes: unpadded,
        aligned_row_bytes: aligned,
        buffer_size,
    }
}

/// One capturing target as mirrored into the render world: its activated
/// encoder set, the pause flag, and the readback session if the render
/// surface was resolved.
pub struct ExtractedCapture<E> {
    /// The activated encoder set.
    pub encoders: EncoderSet<E>,
    /// Whether delivery (and the device copy) is suppressed this frame.
    pub paused: bool,
    /// The cached readback resources, absent while the surface cannot be
    /// resolved.
    pub session: Option<RenderSession>,
}

impl<E: Encoder> ExtractedCapture<E> {
    /// A live, well-formed set and a well-formed session.
    pub open spec fn wf(&self) -> bool {
        &&& self.encoders.wf()
        &&& self.encoders.live()
        &&& match self.session {
            Some(s) => s.wf(),
            None => true,
        }
    }
}

/// One device copy to submit: which source to copy and the layout of the
/// transfer buffer.
pub struct CopyRequest {
    /// Identity of the source image to copy from.
    pub source: u64,
    /// Width of the copied texture in pixels.
    pub width: u32,
    /// Height of the copied texture in pixels.
    pub height: u32,
    /// The padded byte stride between rows in the transfer buffer.
    pub bytes_per_row: usize,
    /// The transfer buffer's size in bytes.
    pub buffer_size: u64,
}

/// Mirrors one target's control state into the render world. A pending
/// encoder set is activated exactly once; a previously active set is
/// finalized — every member exactly once, in insertion order — at the very
/// transition that releases it: a stop, or a replacement by a newly started
/// set. The session is reused while the source identity is unchanged and
/// rebuilt when it differs or none exists; an unresolved surface leaves the
/// entry without a session, and the capture stays active.
pub fn reconcile_target<E: Encoder>(
    capture: &mut Capture<E>,
    prev: Option<ExtractedCapture<E>>,
    resolved: Option<SourceInfo>,
) -> (r: (Option<ExtractedCapture<E>>, Option<ReleasedEncoders<E>>))
    requires
        old(capture).wf(),
        prev matches Some(p) ==> p.wf(),
        old(capture).spec_is_capturing() && old(capture).pending() is None ==> prev is Some,
        resolved matches Some(info) ==> info.sizable() && info.width > 0,
    ensures
        final(capture).wf(),
        final(capture).pending() is None,
        final(capture).spec_is_capturing() == old(capture).spec_is_capturing(),
        final(capture).spec_is_paused() == old(capture).spec_is_paused(),
        r.0 is Some <==> old(capture).spec_is_capturing(),
        !old(capture).spec_is_capturing() ==> released_finalized(
            match prev {
                Some(p) => Some(p.encoders),
                None => None,
            },
            r.1,
        ),
        r.0 matches Some(entry) ==> {
            &&& entry.wf()
            &&& entry.paused == old(capture).spec_is_paused()
            &&& (match old(capture).pending() {
                Some(pending) => entry.encoders.members() == pending.members()
                    && released_finalized(
                    match prev {
                        Some(p) => Some(p.encoders),
                        None => None,
                    },
                    r.1,
                ),
                None => prev matches Some(p) && entry.encoders.members() == p.encoders.members()
                    && r.1 is None,
            })
            &&& (match resolved {
                Some(info) => entry.session matches Some(s) && s.source == info.id && s.width
                    == info.width && s.height == info.height && s.format == info.format,
                None => entry.session is None,
            })
            &&& (match (prev, resolved) {
                (Some(p), Some(info)) => match p.session {
                    Some(ps) => (ps.source == info.id && ps.width == info.width && ps.height
                        == info.height && ps.format == info.format) ==> entry.session == Some(ps),
                    None => true,
                },
                _ => true,
            })
        },
{
    let is_capturing = capture.is_capturing();
    let paused = capture.is_paused();
    let pending = capture.take_pending();
    if !is_capturing {
        let released = match prev {
            Some(p) => {
                let mut set = p.encoders;
                let (order, warnings) = set.finalize_all();
                Some(ReleasedEncoders { set, order, warnings })
            },
            None => None,
        };
        return (None, released);
    }
    let (encoders, released, prev_session) = match (pending, prev) {
        (Some(new_set), Some(p)) => {
            let mut old_set = p.encoders;
            let (order, warnings) = old_set.finalize_all();
            (new_set, Some(ReleasedEncoders { set: old_set, order, warnings }), p.session)
        },
        (Some(new_set), None) => (new_set, None, None),
        (None, Some(p)) => (p.encoders, None, p.session),
        (None, None) => {
            proof {
                assert(false);
            }
            vstd::pervasive::unreached()
        },
    };
    let session = match resolved {
        Some(info) => {
            let reuse = match &prev_session {
                Some(ps) => ps.source == info.id && ps.width == info.width && ps.height
                    == info.height && ps.format == info.format,
                None => false,
            };
            if reuse {
                prev_session
            } else {
                Some(init_session(&info))
            }
        },
        None => None,
    };
    (Some(ExtractedCapture { encoders, paused, session }), released)
}

/// Step one of the tick: the device copy to submit for one target, if any.
/// While paused the copy is skipped entirely, and without a resolved
/// session nothing can be copied. The layout pads each row to the hardware
/// alignment.
pub fn copy_request<E: Encoder>(entry: &ExtractedCapture<E>) -> (r: Option<CopyRequest>)
    requires
        entry.wf(),
    ensures
        r is Some <==> (entry.session is Some && !entry.paused),
        r matches Some(req) ==> entry.session matches Some(s) && req.source == s.source
            && req.width == s.width && req.height == s.height && req.bytes_per_row
            == s.aligned_row_bytes && req.buffer_size == s.buffer_size,
    {
    if entry.paused {
        return None;
    }
    match &entry.session {
        Some(s) => Some(
            CopyRequest {
                source: s.source,
                width: s.width,
                height: s.height,
                bytes_per_row: s.aligned_row_bytes,
                buffer_size: s.buffer_size,
            },
        ),
        None => None,
    }
}

/// Step two of the tick: delivery of one readback to the target's encoder
/// set. Without a session, without a device copy (an unresolved surface or
/// a skipped copy), on a device-level mapping error — fatal for this frame
/// only — or while paused, no image is built and no encoder is called:
/// every member's frame count stays and the capture stays active. Otherwise
/// the mapped bytes are stripped of their row padding and the resulting
/// image is delivered to every member in insertion order, failures isolated
/// per member.
pub fn deliver_frame<E: Encoder>(
    entry: &mut ExtractedCapture<E>,
    readback: Option<Result<Vec<u8>, ReadbackError>>,
) -> (r: Option<Vec<bool>>)
    requires
        old(entry).wf(),
        readback matches Some(Ok(bytes)) ==> old(entry).session matches Some(s) && bytes@.len()
            == s.buffer_size,
    ensures
        final(entry).wf(),
        final(entry).paused == old(entry).paused,
        final(entry).session == old(entry).session,
        final(entry).encoders.members().len() == old(entry).encoders.members().len(),
        (old(entry).paused || old(entry).session is None || readback is None || (
        readback matches Some(outcome) && outcome is Err)) <==> r is None,
        r is None ==> final(entry).encoders.members() == old(entry).encoders.members(),
        r matches Some(outcomes) ==> {
            &&& outcomes@.len() == old(entry).encoders.members().len()
            &&& forall|i: int|
                0 <= i < outcomes@.len() ==> (#[trigger] final(entry).encoders.members()[i]).frames()
                    == old(entry).encoders.members()[i].frames() + (if outcomes@[i] {
                    1int
                } else {
                    0int
                })
        },
{
    if entry.paused {
        return None;
    }
    let bytes = match readback {
        Some(Ok(bytes)) => bytes,
        Some(Err(_)) => {
            return None;
        },
        None => {
            return None;
        },
    };
    let (width, height, format, aligned, unpadded) = match &entry.session {
        Some(s) => (s.width, s.height, s.format, s.aligned_row_bytes, s.unpadded_row_bytes),
        None => {
            return None;
        },
    };
    let data = strip_row_padding(&bytes, aligned, unpadded, height as usize);
    proof {
        assert(unpadded as int * height as int == width as int * height as int * 4)
            by (nonlinear_arith)
            requires
                unpadded == width as int * 4,
        ;
    }
    let image = ImageBuffer::new(width, height, format, data);
    Some(entry.encoders.encode_all(&image))
}

} // verus!
