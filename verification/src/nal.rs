//! Access-unit handling for the in-process video path.
//!
//! A software bitstream encoder emits access units separated by three- or
//! four-byte start codes. Container tracks instead expect each unit
//! normalized: the start code stripped, and one big-endian length prefix in
//! front of every unit.

use vstd::prelude::*;

use crate::errors::EncodeError;
use vstd::slice::{slice_index_get, slice_subrange};

verus! {

/// Whether a four-byte start code begins at position `i`.
pub open spec fn is_start4(b: Seq<u8>, i: int) -> bool {
    &&& 0 <= i
    &&& i + 4 <= b.len()
    &&& b[i] == 0u8
    &&& b[i + 1] == 0u8
    &&& b[i + 2] == 0u8
    &&& b[i + 3] == 1u8
}

/// Whether a three-byte start code begins at position `i`.
pub open spec fn is_start3(b: Seq<u8>, i: int) -> bool {
    &&& 0 <= i
    &&& i + 3 <= b.len()
    &&& b[i] == 0u8
    &&& b[i + 1] == 0u8
    &&& b[i + 2] == 1u8
}

/// The access units of the stream from position `i` on, given the unit
/// bytes `cur` collected since the last start code: every later start code
/// ends the unit before it, four-byte codes taking precedence over
/// three-byte ones.
pub open spec fn spec_units_acc(b: Seq<u8>, i: int, cur: Seq<u8>) -> Seq<Seq<u8>>
    recommends
        0 <= i,
    decreases b.len() - i,
{
    if i >= b.len() {
        seq![cur]
    } else if is_start4(b, i) {
        seq![cur] + spec_units_acc(b, i + 4, seq![])
    } else if is_start3(b, i) {
        seq![cur] + spec_units_acc(b, i + 3, seq![])
    } else {
        spec_units_acc(b, i + 1, cur.push(b[i]))
    }
}

/// The access units of a start-code-separated stream: empty for an empty
/// stream; otherwise the leading start code (if any) is consumed and the
/// units are the byte runs between start codes.
pub open spec fn spec_split_units(b: Seq<u8>) -> Seq<Seq<u8>> {
    if b.len() == 0 {
        seq![]
    } else if is_start4(b, 0) {
        spec_units_acc(b, 4, seq![])
    } else if is_start3(b, 0) {
        spec_units_acc(b, 3, seq![])
    } else {
        spec_units_acc(b, 0, seq![])
    }
}

/// The unit with a leading start code stripped, if one is there.
pub open spec fn spec_without_start_code(nal: Seq<u8>) -> Seq<u8> {
    if is_start4(nal, 0) {
        nal.subrange(4, nal.len() as int)
    } else if is_start3(nal, 0) {
        nal.subrange(3, nal.len() as int)
    } else {
        nal
    }
}

/// Strips the start-code prefix from one access unit, so the bytes match
/// container expectations.
pub fn remove_nal_start_code<'a>(nal: &'a [u8]) -> (r: &'a [u8])
    ensures
        r@ == spec_without_start_code(nal@),
{
    if nal.len() >= 4 && *slice_index_get(nal, 0) == 0 && *slice_index_get(nal, 1) == 0
        && *slice_index_get(nal, 2) == 0 && *slice_index_get(nal, 3) == 1 {
        slice_subrange(nal, 4, nal.len())
    } else if nal.len() >= 3 && *slice_index_get(nal, 0) == 0 && *slice_index_get(nal, 1) == 0
        && *slice_index_get(nal, 2) == 1 {
        slice_subrange(nal, 3, nal.len())
    } else {
        nal
    }
}

/// Splits a start-code-separated stream into its access units, start codes
/// consumed.
pub fn split_units(bytes: &Vec<u8>) -> (units: Vec<Vec<u8>>)
    ensures
        units@.map_values(|u: Vec<u8>| u@) == spec_split_units(bytes@),
{
    let n = bytes.len();
    let mut units: Vec<Vec<u8>> = Vec::new();
    if n == 0 {
        proof {
            assert(units@.map_values(|u: Vec<u8>| u@) =~= spec_split_units(bytes@));
        }
        return units;
    }
    let mut i: usize = 0;
    if n >= 4 && bytes[0] == 0 && bytes[1] == 0 && bytes[2] == 0 && bytes[3] == 1 {
        i = 4;
    } else if n >= 3 && bytes[0] == 0 && bytes[1] == 0 && bytes[2] == 1 {
        i = 3;
    }
    let mut cur: Vec<u8> = Vec::new();
    proof {
        assert(units@.map_values(|u: Vec<u8>| u@) + spec_units_acc(bytes@, i as int, cur@)
            =~= spec_units_acc(bytes@, i as int, cur@));
    }
    while i < n
        invariant
            i <= n,
            n == bytes@.len(),
            spec_split_units(bytes@) == units@.map_values(|u: Vec<u8>| u@) + spec_units_acc(
                bytes@,
                i as int,
                cur@,
            ),
        decreases n - i,
    {
        let ghost pre_units = units@.map_values(|u: Vec<u8>| u@);
        if n - i >= 4 && bytes[i] == 0 && bytes[i + 1] == 0 && bytes[i + 2] == 0 && bytes[i + 3]
            == 1 {
            units.push(cur);
            cur = Vec::new();
            proof {
                assert(units@.map_values(|u: Vec<u8>| u@) =~= pre_units + seq![
                    units@.last()@,
                ]);
                assert(pre_units + (seq![units@.last()@] + spec_units_acc(
                    bytes@,
                    i + 4,
                    Seq::empty(),
                )) =~= (pre_units + seq![units@.last()@]) + spec_units_acc(
                    bytes@,
                    i + 4,
                    Seq::empty(),
                ));
            }
            i = i + 4;
        } else if n - i >= 3 && bytes[i] == 0 && bytes[i + 1] == 0 && bytes[i + 2] == 1 {
            units.push(cur);
            cur = Vec::new();
            proof {
                assert(units@.map_values(|u: Vec<u8>| u@) =~= pre_units + seq![
                    units@.last()@,
                ]);
                assert(pre_units + (seq![units@.last()@] + spec_units_acc(
                    bytes@,
                    i + 3,
                    Seq::empty(),
                )) =~= (pre_units + seq![units@.last()@]) + spec_units_acc(
                    bytes@,
                    i + 3,
                    Seq::empty(),
                ));
            }
            i = i + 3;
        } else {
            cur.push(bytes[i]);
            i = i + 1;
        }
    }
    units.push(cur);
    proof {
        assert(units@.map_values(|u: Vec<u8>| u@) =~= spec_split_units(bytes@));
    }
    units
}

/// The four big-endian bytes of a unit length.
pub open spec fn spec_be32(n: u32) -> Seq<u8> {
    seq![(n >> 24) as u8, (n >> 16) as u8, (n >> 8) as u8, n as u8]
}

/// One big-endian length prefix per unit, each start code stripped, units
/// concatenated in order, from position `i` on.
pub open spec fn spec_prefixed_from(units: Seq<Seq<u8>>, i: int) -> Seq<u8>
    recommends
        0 <= i,
    decreases units.len() - i,
{
    if i >= units.len() {
        seq![]
    } else {
        let body = spec_without_start_code(units[i]);
        spec_be32(body.len() as u32) + body + spec_prefixed_from(units, i + 1)
    }
}

/// Repackages access units for a container track: every unit's start code
/// is stripped and one big-endian length prefix is written per unit. Errs
/// only on a unit too large for a four-byte length.
pub fn length_prefixed_units(units: &Vec<Vec<u8>>) -> (r: Result<Vec<u8>, EncodeError>)
    ensures
        r matches Ok(bytes) ==> bytes@ == spec_prefixed_from(
            units@.map_values(|u: Vec<u8>| u@),
            0,
        ),
        r is Err ==> r == Result::<Vec<u8>, EncodeError>::Err(EncodeError::MalformedBitstream),
{
    let ghost uview = units@.map_values(|u: Vec<u8>| u@);
    let mut out: Vec<u8> = Vec::new();
    let n = units.len();
    let mut i: usize = 0;
    proof {
        assert(out@ + spec_prefixed_from(uview, 0) =~= spec_prefixed_from(uview, 0));
    }
    while i < n
        invariant
            i <= n,
            n == units@.len(),
            uview == units@.map_values(|u: Vec<u8>| u@),
            spec_prefixed_from(uview, 0) == out@ + spec_prefixed_from(uview, i as int),
        decreases n - i,
    {
        let ghost pre = out@;
        let body = remove_nal_start_code(units[i].as_slice());
        if body.len() > u32::MAX as usize {
            return Err(EncodeError::MalformedBitstream);
        }
        let len32: u32 = body.len() as u32;
        out.push((len32 >> 24) as u8);
        out.push((len32 >> 16) as u8);
        out.push((len32 >> 8) as u8);
        out.push(len32 as u8);
        proof {
            assert(out@ =~= pre + spec_be32(len32) + body@.take(0));
        }
        let mut k: usize = 0;
        while k < body.len()
            invariant
                k <= body@.len(),
                out@ == pre + spec_be32(len32) + body@.take(k as int),
                len32 == body@.len(),
                body@ == spec_without_start_code(uview[i as int]),
                i < n == uview.len(),
                pre == out@.take(out@.len() - 4 - k),
            decreases body@.len() - k,
        {
            out.push(*slice_index_get(body, k));
            proof {
                assert(out@ =~= pre + spec_be32(len32) + body@.take(k + 1));
            }
            k = k + 1;
        }
        proof {
            assert(body@.take(body@.len() as int) =~= body@);
            assert(body@ == spec_without_start_code(uview[i as int]));
            assert(out@ =~= pre + (spec_be32(len32) + body@));
            assert(spec_prefixed_from(uview, i as int) == (spec_be32(len32) + body@)
                + spec_prefixed_from(uview, i + 1));
            assert(pre + ((spec_be32(len32) + body@) + spec_prefixed_from(uview, i + 1)) =~= (pre
                + (spec_be32(len32) + body@)) + spec_prefixed_from(uview, i + 1));
        }
        i = i + 1;
    }
    proof {
        assert(out@ =~= out@ + spec_prefixed_from(uview, n as int));
    }
    Ok(out)
}

/// The container sample built from the encoded layers: the concatenation,
/// over the video layers in order, of their repackaged access units, from
/// layer `i` on. Non-video layers — the codec's parameter-set output —
/// contribute nothing to a sample.
pub open spec fn spec_video_sample_bytes(layers: Seq<(Seq<u8>, bool)>, i: int) -> Seq<u8>
    recommends
        0 <= i,
    decreases layers.len() - i,
{
    if i >= layers.len() {
        seq![]
    } else if layers[i].1 {
        spec_prefixed_from(spec_split_units(layers[i].0), 0) + spec_video_sample_bytes(
            layers,
            i + 1,
        )
    } else {
        spec_video_sample_bytes(layers, i + 1)
    }
}

/// Packs the encoded layers into one container sample: only video layers
/// contribute, each of their access units stripped of its start code and
/// given one big-endian length prefix, in order. Errs only on a unit too
/// large for a four-byte length.
pub fn pack_video_layers(layers: &Vec<(Vec<u8>, bool)>) -> (r: Result<Vec<u8>, EncodeError>)
    ensures
        r matches Ok(bytes) ==> bytes@ == spec_video_sample_bytes(
            layers@.map_values(|p: (Vec<u8>, bool)| (p.0@, p.1)),
            0,
        ),
        r is Err ==> r == Result::<Vec<u8>, EncodeError>::Err(EncodeError::MalformedBitstream),
{
    let ghost lv = layers@.map_values(|p: (Vec<u8>, bool)| (p.0@, p.1));
    let mut out: Vec<u8> = Vec::new();
    let n = layers.len();
    let mut i: usize = 0;
    proof {
        assert(out@ + spec_video_sample_bytes(lv, 0) =~= spec_video_sample_bytes(lv, 0));
    }
    while i < n
        invariant
            i <= n,
            n == layers@.len(),
            lv == layers@.map_values(|p: (Vec<u8>, bool)| (p.0@, p.1)),
            spec_video_sample_bytes(lv, 0) == out@ + spec_video_sample_bytes(lv, i as int),
        decreases n - i,
    {
        let ghost pre = out@;
        if layers[i].1 {
            let units = split_units(&layers[i].0);
            let mut packed = match length_prefixed_units(&units) {
                Ok(packed) => packed,
                Err(e) => {
                    return Err(e);
                },
            };
            proof {
                assert(lv[i as int] == (layers@[i as int].0@, layers@[i as int].1));
                assert(packed@ == spec_prefixed_from(spec_split_units(lv[i as int].0), 0));
            }
            out.append(&mut packed);
            proof {
                assert(spec_video_sample_bytes(lv, i as int) == spec_prefixed_from(
                    spec_split_units(lv[i as int].0),
                    0,
                ) + spec_video_sample_bytes(lv, i + 1));
                assert(pre + (spec_prefixed_from(spec_split_units(lv[i as int].0), 0)
                    + spec_video_sample_bytes(lv, i + 1)) =~= (pre + spec_prefixed_from(
                    spec_split_units(lv[i as int].0),
                    0,
                )) + spec_video_sample_bytes(lv, i + 1));
            }
        } else {
            proof {
                assert(lv[i as int] == (layers@[i as int].0@, layers@[i as int].1));
            }
        }
        i = i + 1;
    }
    proof {
        assert(out@ =~= out@ + spec_video_sample_bytes(lv, n as int));
    }
    Ok(out)
}

} // verus!
