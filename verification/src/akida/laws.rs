//! Laws of the AKD1500 pre-flight validation.

use vstd::prelude::*;
use crate::akida::validate::{blob_nonfinite, nonfinite_count, nonfinite_le};
use crate::codec::base64_decode_text;

verus! {

/// The 8-bit exponent field of the little-endian binary32 value `k` of
/// `bytes`: the low 7 bits of its byte 3 followed by the top bit of its
/// byte 2.
pub open spec fn f32_exponent(bytes: Seq<u8>, k: int) -> int {
    (bytes[4 * k + 3] % 128) as int * 2 + (bytes[4 * k + 2] / 128) as int
}

/// Value `k` of `bytes` is NaN or infinite: its exponent is all ones.
pub open spec fn f32_is_nonfinite(bytes: Seq<u8>, k: int) -> bool {
    f32_exponent(bytes, k) == 255
}

proof fn lemma_exponent_bits(b2: u8, b3: u8)
    ensures
        nonfinite_le(b2, b3) <==> (b3 % 128) as int * 2 + (b2 / 128) as int == 255,
{
    assert(((b3 & 0x7f) == 0x7f && (b2 & 0x80) == 0x80) <==> (b3 % 128 == 127 && b2 / 128 == 1))
        by (bit_vector);
}

/// The count of non-finite values runs over every value of the blob: it is
/// zero before the first, and each value `k` adds one exactly when it is NaN
/// or infinite.
pub proof fn law_nonfinite_count_counts_every_value(bytes: Seq<u8>, k: int)
    requires
        0 <= k,
        4 * (k + 1) <= bytes.len(),
    ensures
        nonfinite_count(bytes, 0) == 0,
        nonfinite_count(bytes, k + 1) == nonfinite_count(bytes, k) + if f32_is_nonfinite(
            bytes,
            k,
        ) {
            1int
        } else {
            0int
        },
{
    lemma_exponent_bits(bytes[4 * k + 2], bytes[4 * k + 3]);
}

/// Counting more values never counts fewer non-finite ones, and never more
/// than the values counted.
proof fn lemma_count_monotone(bytes: Seq<u8>, i: int, j: int)
    requires
        0 <= i <= j,
    ensures
        nonfinite_count(bytes, i) <= nonfinite_count(bytes, j),
        nonfinite_count(bytes, j) <= nonfinite_count(bytes, i) + (j - i),
    decreases j - i,
{
    if i < j {
        lemma_count_monotone(bytes, i, j - 1);
    }
}

/// A weight blob holding a NaN or infinite value counts at least one
/// non-finite value, and never more than it holds values.
pub proof fn law_blob_with_nonfinite_value_counts_it(b64: Seq<char>, k: int)
    requires
        base64_decode_text(b64) is Ok,
        0 <= k,
        4 * (k + 1) <= base64_decode_text(b64)->Ok_0.len(),
        f32_is_nonfinite(base64_decode_text(b64)->Ok_0, k),
    ensures
        blob_nonfinite(b64) >= 1,
        blob_nonfinite(b64) <= base64_decode_text(b64)->Ok_0.len() / 4,
{
    let bytes = base64_decode_text(b64)->Ok_0;
    let n = (bytes.len() / 4) as int;
    law_nonfinite_count_counts_every_value(bytes, k);
    assert(k + 1 <= n);
    lemma_count_monotone(bytes, k + 1, n);
    lemma_count_monotone(bytes, 0, n);
}

} // verus!
