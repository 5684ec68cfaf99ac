//! The per-frame device-to-host readback, as pure data transformations.
//!
//! A device copy writes each pixel row at a padded byte pitch; the host side
//! must strip that padding before any encoder sees the bytes. The stripping
//! is a pure, lossless function of the mapped bytes and the two row widths,
//! independent of any device interface.

use vstd::prelude::*;

verus! {

/// The fixed hardware row-copy alignment in bytes.
pub const COPY_BYTES_PER_ROW_ALIGNMENT: usize = 256;

/// The padded byte width of one copied row: the least multiple of the
/// hardware copy alignment that is at least `row_bytes`.
pub open spec fn spec_aligned_row_bytes(row_bytes: int) -> int {
    if row_bytes % 256 == 0 {
        row_bytes
    } else {
        row_bytes + (256 - row_bytes % 256)
    }
}

/// Rounds `row_bytes` up to the fixed alignment that device-to-host row
/// copies require.
pub fn align_copy_bytes_per_row(row_bytes: usize) -> (r: usize)
    requires
        row_bytes + 255 <= usize::MAX,
    ensures
        r == spec_aligned_row_bytes(row_bytes as int),
        r >= row_bytes,
        r % 256 == 0,
{
    if row_bytes % 256 == 0 {
        row_bytes
    } else {
        row_bytes + (256 - row_bytes % 256)
    }
}

/// The mapped bytes with the trailing pad of every row removed: row `r` of
/// the result is the first `unpadded` bytes of row `r` of the input, whose
/// rows are `aligned` bytes wide.
pub open spec fn spec_stripped(bytes: Seq<u8>, aligned: int, unpadded: int, height: int) -> Seq<
    u8,
> {
    Seq::new((unpadded * height) as nat, |k: int| bytes[(k / unpadded) * aligned + k % unpadded])
}

/// Stripping at equal row widths is the identity: when no padding was added,
/// the output equals the raw mapped bytes.
pub proof fn lemma_stripped_identity(bytes: Seq<u8>, row_bytes: int, height: int)
    requires
        0 < row_bytes,
        0 <= height,
        bytes.len() == row_bytes * height,
    ensures
        spec_stripped(bytes, row_bytes, row_bytes, height) == bytes,
{
    assert forall|k: int| 0 <= k < bytes.len() implies spec_stripped(
        bytes,
        row_bytes,
        row_bytes,
        height,
    )[k] == bytes[k] by {
        vstd::arithmetic::div_mod::lemma_fundamental_div_mod(k, row_bytes);
        assert(k == row_bytes * (k / row_bytes) + (k % row_bytes));
        assert((k / row_bytes) * row_bytes == row_bytes * (k / row_bytes)) by (nonlinear_arith);
        assert((k / row_bytes) * row_bytes + k % row_bytes == k);
    }
    assert(spec_stripped(bytes, row_bytes, row_bytes, height) =~= bytes);
}

/// Copies the mapped transfer-buffer bytes into a tight buffer, keeping only
/// the first `unpadded` bytes of each `aligned`-byte row and discarding the
/// trailing pad. A pure, lossless transformation: the result has exactly
/// `unpadded * height` bytes.
pub fn strip_row_padding(bytes: &Vec<u8>, aligned: usize, unpadded: usize, height: usize) -> (out:
    Vec<u8>)
    requires
        0 < unpadded <= aligned,
        bytes@.len() == aligned * height,
    ensures
        out@ == spec_stripped(bytes@, aligned as int, unpadded as int, height as int),
        out@.len() == unpadded * height,
{
    let total: usize = bytes.len();
    let mut out: Vec<u8> = Vec::new();
    let mut r: usize = 0;
    while r < height
        invariant
            r <= height,
            0 < unpadded <= aligned,
            bytes@.len() == aligned * height,
            bytes@.len() == total,
            out@.len() == r * unpadded,
            out@.len() <= unpadded * height,
            forall|k: int|
                0 <= k < r * unpadded ==> out@[k] == spec_stripped(
                    bytes@,
                    aligned as int,
                    unpadded as int,
                    height as int,
                )[k],
        decreases height - r,
    {
        proof {
            lemma_row_bounds(aligned as int, unpadded as int, height as int, r as int);
        }
        let row_start: usize = r * aligned;
        let mut c: usize = 0;
        while c < unpadded
            invariant
                c <= unpadded,
                r < height,
                0 < unpadded <= aligned,
                bytes@.len() == aligned * height,
                bytes@.len() == total,
                row_start == r * aligned,
                row_start + aligned <= bytes@.len(),
                out@.len() == r * unpadded + c,
                r * unpadded + unpadded <= unpadded * height,
                forall|k: int|
                    0 <= k < r * unpadded + c ==> out@[k] == spec_stripped(
                        bytes@,
                        aligned as int,
                        unpadded as int,
                        height as int,
                    )[k],
            decreases unpadded - c,
        {
            out.push(bytes[row_start + c]);
            proof {
                let k = r as int * unpadded as int + c as int;
                lemma_flat_index(aligned as int, unpadded as int, r as int, c as int);
                assert(out@[k] == spec_stripped(
                    bytes@,
                    aligned as int,
                    unpadded as int,
                    height as int,
                )[k]);
            }
            c = c + 1;
        }
        proof {
            assert((r + 1) * unpadded == r * unpadded + unpadded) by (nonlinear_arith);
            assert((r + 1) * unpadded <= unpadded * height) by (nonlinear_arith)
                requires
                    0 < unpadded,
                    r < height,
            ;
        }
        r = r + 1;
    }
    proof {
        vstd::arithmetic::mul::lemma_mul_is_commutative(unpadded as int, height as int);
        assert(out@ =~= spec_stripped(bytes@, aligned as int, unpadded as int, height as int));
    }
    out
}

/// Bounds of one padded row inside the mapped buffer, and of one tight row
/// inside the output.
proof fn lemma_row_bounds(aligned: int, unpadded: int, height: int, r: int)
    requires
        0 < unpadded <= aligned,
        0 <= r < height,
    ensures
        r * aligned + aligned <= aligned * height,
        r * unpadded + unpadded <= unpadded * height,
        r * aligned >= 0,
        r * unpadded >= 0,
{
    assert(r * aligned + aligned <= aligned * height) by (nonlinear_arith)
        requires
            0 < aligned,
            0 <= r < height,
    ;
    assert(r * unpadded + unpadded <= unpadded * height) by (nonlinear_arith)
        requires
            0 < unpadded,
            0 <= r < height,
    ;
    assert(r * aligned >= 0 && r * unpadded >= 0) by (nonlinear_arith)
        requires
            0 < unpadded <= aligned,
            0 <= r,
    ;
}

/// The flat output position `r * unpadded + c` reads the input byte at
/// `r * aligned + c`.
proof fn lemma_flat_index(aligned: int, unpadded: int, r: int, c: int)
    requires
        0 < unpadded <= aligned,
        0 <= r,
        0 <= c < unpadded,
    ensures
        (r * unpadded + c) / unpadded == r,
        (r * unpadded + c) % unpadded == c,
{
    vstd::arithmetic::div_mod::lemma_fundamental_div_mod_converse(
        r * unpadded + c,
        unpadded,
        r,
        c,
    );
}

} // verus!
