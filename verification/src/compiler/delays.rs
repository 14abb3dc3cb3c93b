//! Per-connection delay codecs and the target's delay cap.
//!
//! Dense delays are little-endian `u16`s, one per connection; sparse delays
//! are little-endian `(u32 connection_index, u16 delay_steps)` pairs. Both are
//! carried as standard base64.

use vstd::prelude::*;
use crate::codec::{b64_decode, b64_encode, base64_decode_text, base64_encode_bytes};
use crate::compiler::error::CompileError;
use crate::compiler::lower::DelayFallback;
use crate::ir::Delays;
use crate::text::{decimal_digits, push_decimal};

verus! {

/// The delay capability of a target.
#[derive(Debug, Clone, Copy, PartialEq, Eq, Structural)]
pub struct DelayPolicy {
    /// Maximum delay in timesteps routed natively (0: no native support).
    pub native_delay_max_steps: u16,
    /// What to do with a delay the target cannot route natively.
    pub delay_fallback: DelayFallback,
}

/// Little-endian `u16` of two bytes.
pub open spec fn le_u16(lo: u8, hi: u8) -> u16 {
    (lo as int + 256 * hi as int) as u16
}

/// Little-endian `u32` of four bytes.
pub open spec fn le_u32(b0: u8, b1: u8, b2: u8, b3: u8) -> u32 {
    (b0 as int + 256 * b1 as int + 65536 * b2 as int + 16777216 * b3 as int) as u32
}

/// The `u16`s of a byte string read two bytes at a time, little-endian.
pub open spec fn u16s_of_bytes(b: Seq<u8>) -> Seq<u16> {
    Seq::new(b.len() / 2, |i: int| le_u16(b[2 * i], b[2 * i + 1]))
}

/// The little-endian bytes of a `u16` sequence.
pub open spec fn bytes_of_u16s(s: Seq<u16>) -> Seq<u8> {
    Seq::new(
        2 * s.len(),
        |j: int|
            if j % 2 == 0 {
                (s[j / 2] % 256) as u8
            } else {
                (s[j / 2] / 256) as u8
            },
    )
}

/// The `(u32, u16)` pairs of a byte string read six bytes at a time,
/// little-endian.
pub open spec fn pairs_of_bytes(b: Seq<u8>) -> Seq<(u32, u16)> {
    Seq::new(
        b.len() / 6,
        |i: int|
            (le_u32(b[6 * i], b[6 * i + 1], b[6 * i + 2], b[6 * i + 3]), le_u16(
                b[6 * i + 4],
                b[6 * i + 5],
            )),
    )
}

/// Byte `k` (0 to 3) of a `u32`, little-endian.
pub open spec fn u32_byte(x: u32, k: int) -> u8 {
    if k == 0 {
        (x % 256) as u8
    } else if k == 1 {
        ((x / 256) % 256) as u8
    } else if k == 2 {
        ((x / 65536) % 256) as u8
    } else {
        (x / 16777216) as u8
    }
}

/// The little-endian bytes of a pair sequence.
pub open spec fn bytes_of_pairs(p: Seq<(u32, u16)>) -> Seq<u8> {
    Seq::new(
        6 * p.len(),
        |j: int|
            {
                let i = j / 6;
                let k = j % 6;
                if k < 4 {
                    u32_byte(p[i].0, k)
                } else if k == 4 {
                    (p[i].1 % 256) as u8
                } else {
                    (p[i].1 / 256) as u8
                }
            },
    )
}

/// The cap check's verdict on one delay: `None` when it may stay.
pub open spec fn cap_verdict(steps: u16, layer_idx: usize, conn_idx: u32, policy: DelayPolicy) -> Option<
    CompileError,
> {
    if policy.native_delay_max_steps == 0 {
        if policy.delay_fallback == DelayFallback::Reject {
            Some(CompileError::NoNativeDelaySupport { layer_idx })
        } else {
            None
        }
    } else if steps > policy.native_delay_max_steps {
        if policy.delay_fallback == DelayFallback::Reject {
            Some(
                CompileError::DelayExceedsTargetMax {
                    layer_idx,
                    conn_idx,
                    delay_steps: steps,
                    max_steps: policy.native_delay_max_steps,
                },
            )
        } else {
            None
        }
    } else {
        None
    }
}

/// Check a delay against the target's declared maximum: with no native
/// support and no emulation every delay is refused (E0104); a delay over a
/// nonzero cap is refused when the target rejects (E0103).
pub fn check_cap(steps: u16, layer_idx: usize, conn_idx: u32, policy: &DelayPolicy) -> (r: Result<
    (),
    CompileError,
>)
    ensures
        match cap_verdict(steps, layer_idx, conn_idx, *policy) {
            None => r is Ok,
            Some(e) => r == Err::<(), CompileError>(e),
        },
{
    if policy.native_delay_max_steps == 0 {
        match policy.delay_fallback {
            DelayFallback::Reject => {
                return Err(CompileError::NoNativeDelaySupport { layer_idx });
            },
            DelayFallback::Emulate => {},
        }
    } else if steps > policy.native_delay_max_steps {
        match policy.delay_fallback {
            DelayFallback::Reject => {
                return Err(
                    CompileError::DelayExceedsTargetMax {
                        layer_idx,
                        conn_idx,
                        delay_steps: steps,
                        max_steps: policy.native_delay_max_steps,
                    },
                );
            },
            DelayFallback::Emulate => {},
        }
    }
    Ok(())
}

/// The message for a byte count that is not a multiple of the record size.
pub open spec fn byte_count_message(layer_idx: usize, what: Seq<char>) -> Seq<char> {
    "layer "@ + decimal_digits(layer_idx as nat) + what
}

/// Read little-endian `u16`s; a byte count that is not even is an E0108
/// error.
pub fn parse_u16_le(bytes: &[u8], layer_idx: usize) -> (r: Result<Vec<u16>, CompileError>)
    ensures
        r is Ok <==> bytes@.len() % 2 == 0,
        r matches Ok(v) ==> v@ == u16s_of_bytes(bytes@),
        r matches Err(e) ==> (e matches CompileError::IrJsonParseError { detail } && detail@
            == byte_count_message(layer_idx, ": delay byte count not divisible by 2"@)),
{
    let len = bytes.len();
    if len % 2 != 0 {
        let mut d = "layer ".to_owned();
        push_decimal(&mut d, layer_idx as u64);
        d.append(": delay byte count not divisible by 2");
        return Err(CompileError::IrJsonParseError { detail: d });
    }
    let n = len / 2;
    let mut out: Vec<u16> = Vec::new();
    let mut i: usize = 0;
    while i < n
        invariant
            len == bytes@.len(),
            n == len / 2,
            i <= n,
            out@.len() == i,
            forall|k: int| 0 <= k < i ==> #[trigger] out@[k] == le_u16(bytes@[2 * k], bytes@[2 * k + 1]),
        decreases n - i,
    {
        let lo = bytes[2 * i];
        let hi = bytes[2 * i + 1];
        out.push(lo as u16 + (hi as u16) * 256);
        i = i + 1;
    }
    proof {
        assert(out@ =~= u16s_of_bytes(bytes@));
    }
    Ok(out)
}

/// Read little-endian `(u32, u16)` pairs; a byte count that is not a multiple
/// of 6 is an E0108 error.
pub fn parse_sparse_pairs(bytes: &[u8], layer_idx: usize) -> (r: Result<Vec<(u32, u16)>, CompileError>)
    ensures
        r is Ok <==> bytes@.len() % 6 == 0,
        r matches Ok(v) ==> v@ == pairs_of_bytes(bytes@),
        r matches Err(e) ==> (e matches CompileError::IrJsonParseError { detail } && detail@
            == byte_count_message(layer_idx, ": sparse delay byte count not divisible by 6"@)),
{
    let len = bytes.len();
    if len % 6 != 0 {
        let mut d = "layer ".to_owned();
        push_decimal(&mut d, layer_idx as u64);
        d.append(": sparse delay byte count not divisible by 6");
        return Err(CompileError::IrJsonParseError { detail: d });
    }
    let n = len / 6;
    let mut out: Vec<(u32, u16)> = Vec::new();
    let mut i: usize = 0;
    while i < n
        invariant
            len == bytes@.len(),
            n == len / 6,
            i <= n,
            out@.len() == i,
            forall|k: int|
                0 <= k < i ==> #[trigger] out@[k] == (
                    le_u32(bytes@[6 * k], bytes@[6 * k + 1], bytes@[6 * k + 2], bytes@[6 * k + 3]),
                    le_u16(bytes@[6 * k + 4], bytes@[6 * k + 5]),
                ),
        decreases n - i,
    {
        let b = 6 * i;
        let idx = bytes[b] as u32 + (bytes[b + 1] as u32) * 256 + (bytes[b + 2] as u32) * 65536
            + (bytes[b + 3] as u32) * 16777216;
        let steps = bytes[b + 4] as u16 + (bytes[b + 5] as u16) * 256;
        out.push((idx, steps));
        i = i + 1;
    }
    proof {
        assert(out@ =~= pairs_of_bytes(bytes@));
    }
    Ok(out)
}

/// The little-endian bytes of a `u16` slice.
fn u16s_to_bytes(steps: &[u16]) -> (bytes: Vec<u8>)
    ensures
        bytes@ == bytes_of_u16s(steps@),
{
    let mut bytes: Vec<u8> = Vec::new();
    let mut i: usize = 0;
    while i < steps.len()
        invariant
            i <= steps@.len(),
            bytes@ =~= bytes_of_u16s(steps@.subrange(0, i as int)),
        decreases steps.len() - i,
    {
        let s = steps[i];
        bytes.push((s % 256) as u8);
        bytes.push((s / 256) as u8);
        proof {
            assert(bytes@ =~= bytes_of_u16s(steps@.subrange(0, i + 1)));
        }
        i = i + 1;
    }
    proof {
        assert(steps@.subrange(0, steps@.len() as int) =~= steps@);
    }
    bytes
}

/// The little-endian bytes of a pair slice.
fn pairs_to_bytes(pairs: &[(u32, u16)]) -> (bytes: Vec<u8>)
    ensures
        bytes@ == bytes_of_pairs(pairs@),
{
    let mut bytes: Vec<u8> = Vec::new();
    let mut i: usize = 0;
    while i < pairs.len()
        invariant
            i <= pairs@.len(),
            bytes@ =~= bytes_of_pairs(pairs@.subrange(0, i as int)),
        decreases pairs.len() - i,
    {
        let (x, s) = pairs[i];
        bytes.push((x % 256) as u8);
        bytes.push(((x / 256) % 256) as u8);
        bytes.push(((x / 65536) % 256) as u8);
        bytes.push((x / 16777216) as u8);
        bytes.push((s % 256) as u8);
        bytes.push((s / 256) as u8);
        proof {
            assert(bytes@ =~= bytes_of_pairs(pairs@.subrange(0, i + 1)));
        }
        i = i + 1;
    }
    proof {
        assert(pairs@.subrange(0, pairs@.len() as int) =~= pairs@);
    }
    bytes
}

/// Standard base64 of the little-endian bytes of a `u16` slice.
pub fn encode_u16_le(steps: &[u16]) -> (b64: String)
    ensures
        b64@ == base64_encode_bytes(bytes_of_u16s(steps@)),
        base64_decode_text(b64@) == Ok::<Seq<u8>, Seq<char>>(bytes_of_u16s(steps@)),
{
    let bytes = u16s_to_bytes(steps);
    b64_encode(bytes.as_slice())
}

/// Standard base64 of the little-endian bytes of a pair slice.
pub fn encode_sparse_pairs(pairs: &[(u32, u16)]) -> (b64: String)
    ensures
        b64@ == base64_encode_bytes(bytes_of_pairs(pairs@)),
        base64_decode_text(b64@) == Ok::<Seq<u8>, Seq<char>>(bytes_of_pairs(pairs@)),
{
    let bytes = pairs_to_bytes(pairs);
    b64_encode(bytes.as_slice())
}

/// The first cap refusal among dense delays from position `i` on; the
/// connection index of delay `k` is `k`, as a `u32`.
pub open spec fn first_dense_refusal(steps: Seq<u16>, layer_idx: usize, policy: DelayPolicy, i: int) -> Option<
    CompileError,
>
    decreases steps.len() - i,
{
    if i < 0 || i >= steps.len() {
        None
    } else {
        match cap_verdict(steps[i], layer_idx, i as u32, policy) {
            Some(e) => Some(e),
            None => first_dense_refusal(steps, layer_idx, policy, i + 1),
        }
    }
}

/// The first cap refusal among sparse delays from position `i` on.
pub open spec fn first_sparse_refusal(
    pairs: Seq<(u32, u16)>,
    layer_idx: usize,
    policy: DelayPolicy,
    i: int,
) -> Option<CompileError>
    decreases pairs.len() - i,
{
    if i < 0 || i >= pairs.len() {
        None
    } else {
        match cap_verdict(pairs[i].1, layer_idx, pairs[i].0, policy) {
            Some(e) => Some(e),
            None => first_sparse_refusal(pairs, layer_idx, policy, i + 1),
        }
    }
}

/// The E0108 message for a delay payload that is not valid base64.
pub open spec fn delay_decode_message(layer_idx: usize, err: Seq<char>) -> Seq<char> {
    "layer "@ + decimal_digits(layer_idx as nat) + ": base64 decode failed: "@ + err
}

/// Decode a base64 delay payload; a payload that is not valid base64 is an
/// E0108 error.
pub fn decode_b64(b64: &str, layer_idx: usize) -> (r: Result<Vec<u8>, CompileError>)
    ensures
        match base64_decode_text(b64@) {
            Ok(bytes) => r matches Ok(v) && v@ == bytes,
            Err(m) => r matches Err(CompileError::IrJsonParseError { detail }) && detail@
                == delay_decode_message(layer_idx, m),
        },
{
    match b64_decode(b64) {
        Ok(v) => Ok(v),
        Err(m) => {
            let mut d = "layer ".to_owned();
            push_decimal(&mut d, layer_idx as u64);
            d.append(": base64 decode failed: ");
            d.append(m.as_str());
            Err(CompileError::IrJsonParseError { detail: d })
        },
    }
}

/// Lower a dense delay payload at an unchanged timestep: passed through when
/// the target routes every `u16` delay natively, otherwise decoded, checked
/// delay by delay against the target cap, and re-encoded.
pub fn lower_dense_delays(b64: &str, layer_idx: usize, policy: &DelayPolicy) -> (r: Result<
    String,
    CompileError,
>)
    ensures
        dense_lowering(b64@, layer_idx, *policy, r),
{
    if policy.native_delay_max_steps == 0xffff {
        return Ok(b64.to_owned());
    }
    let raw = decode_b64(b64, layer_idx)?;
    let steps = parse_u16_le(raw.as_slice(), layer_idx)?;
    let mut i: usize = 0;
    while i < steps.len()
        invariant
            i <= steps@.len(),
            policy.native_delay_max_steps != 0xffff,
            base64_decode_text(b64@) == Ok::<Seq<u8>, Seq<char>>(raw@),
            raw@.len() % 2 == 0,
            steps@ == u16s_of_bytes(raw@),
            first_dense_refusal(steps@, layer_idx, *policy, 0) == first_dense_refusal(
                steps@,
                layer_idx,
                *policy,
                i as int,
            ),
        decreases steps.len() - i,
    {
        check_cap(steps[i], layer_idx, #[verifier::truncate] (i as u32), policy)?;
        i = i + 1;
    }
    Ok(encode_u16_le(steps.as_slice()))
}

/// Lower a sparse delay payload at an unchanged timestep: passed through when
/// the target routes every `u16` delay natively, otherwise decoded, checked
/// pair by pair against the target cap, and re-encoded.
pub fn lower_sparse_delays(b64: &str, layer_idx: usize, policy: &DelayPolicy) -> (r: Result<
    String,
    CompileError,
>)
    ensures
        sparse_lowering(b64@, layer_idx, *policy, r),
{
    if policy.native_delay_max_steps == 0xffff {
        return Ok(b64.to_owned());
    }
    let raw = decode_b64(b64, layer_idx)?;
    let pairs = parse_sparse_pairs(raw.as_slice(), layer_idx)?;
    let mut i: usize = 0;
    while i < pairs.len()
        invariant
            i <= pairs@.len(),
            policy.native_delay_max_steps != 0xffff,
            base64_decode_text(b64@) == Ok::<Seq<u8>, Seq<char>>(raw@),
            raw@.len() % 6 == 0,
            pairs@ == pairs_of_bytes(raw@),
            first_sparse_refusal(pairs@, layer_idx, *policy, 0) == first_sparse_refusal(
                pairs@,
                layer_idx,
                *policy,
                i as int,
            ),
        decreases pairs.len() - i,
    {
        let (conn, steps) = pairs[i];
        check_cap(steps, layer_idx, conn, policy)?;
        i = i + 1;
    }
    Ok(encode_sparse_pairs(pairs.as_slice()))
}

/// Lower a layer's delays at an unchanged timestep, returning the payload and
/// its encoding name (`"dense"` or `"sparse"`).
pub fn lower_delays(delays: &Delays, layer_idx: usize, policy: &DelayPolicy) -> (r: Result<
    (String, String),
    CompileError,
>)
    ensures
        match *delays {
            Delays::Dense { delays_b64 } => (r matches Ok(p) ==> p.1@ == "dense"@) && dense_lowering(
                delays_b64@,
                layer_idx,
                *policy,
                payload_of(r),
            ),
            Delays::Sparse { delays_b64 } => (r matches Ok(p) ==> p.1@ == "sparse"@) && sparse_lowering(
                delays_b64@,
                layer_idx,
                *policy,
                payload_of(r),
            ),
        },
{
    match delays {
        Delays::Dense { delays_b64 } => match lower_dense_delays(delays_b64.as_str(), layer_idx, policy) {
            Ok(out) => Ok((out, "dense".to_owned())),
            Err(e) => Err(e),
        },
        Delays::Sparse { delays_b64 } => match lower_sparse_delays(delays_b64.as_str(), layer_idx, policy) {
            Ok(out) => Ok((out, "sparse".to_owned())),
            Err(e) => Err(e),
        },
    }
}

/// The payload of a lowering result, without its encoding name.
pub open spec fn payload_of(r: Result<(String, String), CompileError>) -> Result<String, CompileError> {
    match r {
        Ok(p) => Ok(p.0),
        Err(e) => Err(e),
    }
}

/// `r` is the lowering of a dense delay payload: passed through unchanged
/// when the policy accepts every `u16` delay; otherwise decoded (E0108 when
/// it does not decode or has an odd byte count), checked against the policy
/// (the first refused connection's error) and re-encoded.
pub open spec fn dense_lowering(
    b64: Seq<char>,
    layer_idx: usize,
    policy: DelayPolicy,
    r: Result<String, CompileError>,
) -> bool {
    if policy.native_delay_max_steps == 0xffff {
        r matches Ok(out) && out@ == b64
    } else {
        match base64_decode_text(b64) {
            Err(m) => r matches Err(CompileError::IrJsonParseError { detail }) && detail@
                == delay_decode_message(layer_idx, m),
            Ok(bytes) => if bytes.len() % 2 != 0 {
                r matches Err(CompileError::IrJsonParseError { detail }) && detail@
                    == byte_count_message(layer_idx, ": delay byte count not divisible by 2"@)
            } else {
                match first_dense_refusal(u16s_of_bytes(bytes), layer_idx, policy, 0) {
                    Some(e) => r == Err::<String, CompileError>(e),
                    None => r matches Ok(out) && out@ == base64_encode_bytes(
                        bytes_of_u16s(u16s_of_bytes(bytes)),
                    ),
                }
            },
        }
    }
}

/// `r` is the lowering of a sparse delay payload, as for a dense one with
/// 6-byte `(connection, steps)` records.
pub open spec fn sparse_lowering(
    b64: Seq<char>,
    layer_idx: usize,
    policy: DelayPolicy,
    r: Result<String, CompileError>,
) -> bool {
    if policy.native_delay_max_steps == 0xffff {
        r matches Ok(out) && out@ == b64
    } else {
        match base64_decode_text(b64) {
            Err(m) => r matches Err(CompileError::IrJsonParseError { detail }) && detail@
                == delay_decode_message(layer_idx, m),
            Ok(bytes) => if bytes.len() % 6 != 0 {
                r matches Err(CompileError::IrJsonParseError { detail }) && detail@
                    == byte_count_message(layer_idx, ": sparse delay byte count not divisible by 6"@)
            } else {
                match first_sparse_refusal(pairs_of_bytes(bytes), layer_idx, policy, 0) {
                    Some(e) => r == Err::<String, CompileError>(e),
                    None => r matches Ok(out) && out@ == base64_encode_bytes(
                        bytes_of_pairs(pairs_of_bytes(bytes)),
                    ),
                }
            },
        }
    }
}

} // verus!
