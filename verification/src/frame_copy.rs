//! Copying pixel rows between buffers of different row strides: decoded
//! video frames padded by the decoder, and textures padded for upload.

use vstd::prelude::*;
use vstd::arithmetic::div_mod::lemma_fundamental_div_mod_converse;
use vstd::arithmetic::mul::{lemma_mul_inequality, lemma_mul_is_distributive_add_other_way};

verus! {

/// Byte `idx` of a buffer with rows `dst_stride` apart lies in the first
/// `row_bytes` bytes of one of its first `rows` rows.
pub open spec fn in_copied_rows(idx: int, dst_stride: int, rows: int, row_bytes: int) -> bool {
    idx / dst_stride < rows && idx % dst_stride < row_bytes
}

/// The source byte that lands on destination byte `idx`.
pub open spec fn source_index(idx: int, dst_stride: int, src_stride: int) -> int {
    (idx / dst_stride) * src_stride + idx % dst_stride
}

/// `new` is `old` with the first `row_bytes` bytes of each of the first
/// `rows` rows taken from `src`.
pub open spec fn rows_copied(
    old: Seq<u8>,
    new: Seq<u8>,
    src: Seq<u8>,
    dst_stride: int,
    src_stride: int,
    row_bytes: int,
    rows: int,
) -> bool {
    &&& new.len() == old.len()
    &&& forall|idx: int|
        0 <= idx < new.len() ==> #[trigger] new[idx] == if in_copied_rows(
            idx,
            dst_stride,
            rows,
            row_bytes,
        ) {
            src[source_index(idx, dst_stride, src_stride)]
        } else {
            old[idx]
        }
}

proof fn lemma_row_bound(k: int, rows: int, stride: int, row_bytes: int, len: int)
    requires
        0 <= k < rows,
        stride >= 0,
        (rows - 1) * stride + row_bytes <= len,
    ensures
        k * stride + row_bytes <= len,
{
    lemma_mul_inequality(k, rows - 1, stride);
}

/// Copies `rows` rows of `row_bytes` bytes from `src` (rows `src_stride`
/// apart) into `dst` (rows `dst_stride` apart); the rest of `dst` is left
/// as it was.
pub fn copy_rows(
    dst: &mut Vec<u8>,
    dst_stride: usize,
    src: &[u8],
    src_stride: usize,
    row_bytes: usize,
    rows: usize,
)
    requires
        0 < row_bytes <= dst_stride,
        rows > 0 ==> (rows - 1) * dst_stride + row_bytes <= old(dst)@.len(),
        rows > 0 ==> (rows - 1) * src_stride + row_bytes <= src@.len(),
    ensures
        rows_copied(
            old(dst)@,
            final(dst)@,
            src@,
            dst_stride as int,
            src_stride as int,
            row_bytes as int,
            rows as int,
        ),
{
    let ghost old_dst = dst@;
    let dlen = dst.len();
    let slen = src.len();
    let mut k: usize = 0;
    while k < rows
        invariant
            0 < row_bytes <= dst_stride,
            rows > 0 ==> (rows - 1) * dst_stride + row_bytes <= old_dst.len(),
            rows > 0 ==> (rows - 1) * src_stride + row_bytes <= src@.len(),
            k <= rows,
            dlen == old_dst.len(),
            slen == src@.len(),
            dst@.len() == old_dst.len(),
            forall|idx: int|
                0 <= idx < dst@.len() ==> #[trigger] dst@[idx] == if in_copied_rows(
                    idx,
                    dst_stride as int,
                    k as int,
                    row_bytes as int,
                ) {
                    src@[source_index(idx, dst_stride as int, src_stride as int)]
                } else {
                    old_dst[idx]
                },
        decreases rows - k,
    {
        proof {
            lemma_row_bound(k as int, rows as int, dst_stride as int, row_bytes as int, old_dst.len() as int);
            lemma_row_bound(k as int, rows as int, src_stride as int, row_bytes as int, src@.len() as int);
        }
        let dbase = k * dst_stride;
        let sbase = k * src_stride;
        let mut j: usize = 0;
        while j < row_bytes
            invariant
                0 < row_bytes <= dst_stride,
                k < rows,
                dbase == k * dst_stride,
                sbase == k * src_stride,
                dbase + row_bytes <= old_dst.len(),
                sbase + row_bytes <= src@.len(),
                j <= row_bytes,
                dlen == old_dst.len(),
                slen == src@.len(),
                dst@.len() == old_dst.len(),
                forall|idx: int|
                    0 <= idx < dst@.len() ==> #[trigger] dst@[idx] == if in_copied_rows(
                        idx,
                        dst_stride as int,
                        k as int,
                        row_bytes as int,
                    ) || (idx / (dst_stride as int) == k && idx % (dst_stride as int) < j) {
                        src@[source_index(idx, dst_stride as int, src_stride as int)]
                    } else {
                        old_dst[idx]
                    },
            decreases row_bytes - j,
        {
            let p = dbase + j;
            proof {
                lemma_fundamental_div_mod_converse(p as int, dst_stride as int, k as int, j as int);
            }
            dst.set(p, src[sbase + j]);
            proof {
                assert forall|idx: int| 0 <= idx < dst@.len() implies #[trigger] dst@[idx] == if in_copied_rows(
                    idx,
                    dst_stride as int,
                    k as int,
                    row_bytes as int,
                ) || (idx / (dst_stride as int) == k && idx % (dst_stride as int) < j + 1) {
                    src@[source_index(idx, dst_stride as int, src_stride as int)]
                } else {
                    old_dst[idx]
                } by {
                    if idx == p {
                        assert(source_index(idx, dst_stride as int, src_stride as int) == sbase + j);
                    } else if idx / (dst_stride as int) == k && idx % (dst_stride as int) == j {
                        vstd::arithmetic::div_mod::lemma_fundamental_div_mod(idx, dst_stride as int);
                        vstd::arithmetic::mul::lemma_mul_is_commutative(k as int, dst_stride as int);
                        assert(idx == p);
                    }
                }
            }
            j = j + 1;
        }
        proof {
            assert forall|idx: int| 0 <= idx < dst@.len() implies #[trigger] dst@[idx] == if in_copied_rows(
                idx,
                dst_stride as int,
                (k + 1) as int,
                row_bytes as int,
            ) {
                src@[source_index(idx, dst_stride as int, src_stride as int)]
            } else {
                old_dst[idx]
            } by {
            }
        }
        k = k + 1;
    }
}

} // verus!
