//! Uploads to the GPU. Rows of RGBA pixels must start at multiples of 256
//! bytes, so images whose rows are not already aligned are copied into a
//! padded scratch buffer first; vertex and index buffers grow in powers of
//! two.

use vstd::prelude::*;
use crate::frame_copy::{copy_rows, rows_copied};

verus! {

/// The row alignment texture copies require (`COPY_BYTES_PER_ROW_ALIGNMENT`).
pub const COPY_BYTES_PER_ROW_ALIGNMENT: u32 = 256;

/// `n` rounded up to a multiple of 256.
pub open spec fn spec_align_up(n: int) -> int {
    ((n + 255) / 256) * 256
}

/// Bytes per padded row for an RGBA image `width` pixels wide.
pub fn padded_bytes_per_row(width: u32) -> (r: u32)
    requires
        width * 4 + 255 <= u32::MAX,
    ensures
        r == spec_align_up(width * 4),
        r >= width * 4,
        r < width * 4 + 256,
{
    let unpadded = width * 4;
    let x = unpadded + (COPY_BYTES_PER_ROW_ALIGNMENT - 1);
    let r = x & !(COPY_BYTES_PER_ROW_ALIGNMENT - 1);
    assert(x & !255u32 == (x / 256) * 256) by (bit_vector);
    r
}

/// The scratch buffer after it has been grown (zero-filled) to `required`.
pub open spec fn spec_grown(buf: Seq<u8>, required: int) -> Seq<u8> {
    if buf.len() < required {
        buf + Seq::new((required - buf.len()) as nat, |i: int| 0u8)
    } else {
        buf
    }
}

/// Prepares an upload of `data` (`height` tightly packed rows of `width`
/// RGBA pixels). When rows are already aligned, nothing is done and `None`
/// says to upload `data` as it is. Otherwise the scratch buffer is grown
/// (never shrunk) to the padded size, the rows are copied to their aligned
/// positions, and the padded row size and the number of bytes to upload are
/// returned.
pub fn pad_rows_for_upload(pad_buffer: &mut Vec<u8>, data: &[u8], width: u32, height: u32) -> (r:
    Option<(u32, usize)>)
    requires
        width * 4 + 255 <= u32::MAX,
        spec_align_up(width * 4) * height <= u32::MAX,
    ensures
        spec_align_up(width * 4) == width * 4 ==> r.is_none() && final(pad_buffer)@ == old(
            pad_buffer,
        )@,
        spec_align_up(width * 4) != width * 4 ==> {
            let padded = spec_align_up(width * 4);
            let required = padded * height;
            let rows = if height < (data@.len() as int) / (width * 4) {
                height as int
            } else {
                (data@.len() as int) / (width * 4)
            };
            &&& r == Some((padded as u32, required as usize))
            &&& rows_copied(
                spec_grown(old(pad_buffer)@, required),
                final(pad_buffer)@,
                data@,
                padded,
                width * 4,
                width * 4,
                rows,
            )
        },
{
    let unpadded = width * 4;
    let padded = padded_bytes_per_row(width);
    if unpadded == padded {
        return None;
    }
    let required = (padded * height) as usize;
    if pad_buffer.len() < required {
        let ghost before = pad_buffer@;
        pad_buffer.resize(required, 0u8);
        proof {
            assert forall|i: int| before.len() <= i < required implies pad_buffer@[i] == 0u8 by {
                assert(vstd::pervasive::cloned::<u8>(0u8, pad_buffer@[i]));
            }
            assert(pad_buffer@ =~= spec_grown(before, required as int));
        }
    }
    let ghost grown = pad_buffer@;
    let row = unpadded as usize;
    let data_rows = data.len() / row;
    let rows = if (height as usize) < data_rows { height as usize } else { data_rows };
    if rows > 0 {
        proof {
            let p = padded as int;
            let u = row as int;
            vstd::arithmetic::mul::lemma_mul_inequality(rows as int, height as int, p);
            vstd::arithmetic::mul::lemma_mul_is_distributive_sub_other_way(p, rows as int, 1);
            vstd::arithmetic::mul::lemma_mul_is_commutative(p, rows as int);
            vstd::arithmetic::mul::lemma_mul_is_commutative(p, height as int);
            assert((rows - 1) * p + u <= rows * p);
            vstd::arithmetic::div_mod::lemma_fundamental_div_mod(data@.len() as int, u);
            vstd::arithmetic::mul::lemma_mul_inequality(rows as int, data_rows as int, u);
            vstd::arithmetic::mul::lemma_mul_is_distributive_sub_other_way(u, rows as int, 1);
            vstd::arithmetic::mul::lemma_mul_is_commutative(u, rows as int);
            vstd::arithmetic::mul::lemma_mul_is_commutative(u, data_rows as int);
        }
    }
    copy_rows(pad_buffer, padded as usize, data, row, row, rows);
    Some((padded, required))
}

/// Whether `p` is a power of two.
pub open spec fn is_pow2(p: nat) -> bool
    decreases p,
{
    if p <= 1 {
        p == 1
    } else {
        p % 2 == 0 && is_pow2(p / 2)
    }
}

/// The smallest power of two that is at least `n` (1 for 0).
pub fn next_power_of_two(n: usize) -> (p: usize)
    requires
        n <= usize::MAX / 2 + 1,
    ensures
        is_pow2(p as nat),
        p >= n,
        p == 1 || p / 2 < n,
{
    let mut p: usize = 1;
    while p < n
        invariant
            is_pow2(p as nat),
            p == 1 || p / 2 < n,
            n <= usize::MAX / 2 + 1,
            p >= 1,
        decreases usize::MAX - p,
    {
        p = p * 2;
    }
    p
}

/// A GPU buffer's capacity (in elements) after making room for `needed`:
/// unchanged while it suffices, otherwise the next power of two, so that
/// growing text does not reallocate on every frame.
pub fn grown_capacity(capacity: usize, needed: usize) -> (r: usize)
    requires
        needed <= usize::MAX / 2 + 1,
    ensures
        r >= needed,
        r >= capacity,
        capacity >= needed ==> r == capacity,
        capacity < needed ==> is_pow2(r as nat) && r / 2 < needed,
{
    if capacity < needed {
        next_power_of_two(needed)
    } else {
        capacity
    }
}

} // verus!
