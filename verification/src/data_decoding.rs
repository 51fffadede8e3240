use vstd::prelude::*;
use crate::error::GribError;
use crate::utils::{be_bytes_to_nat, bit_array_from_bytes, byte_bit, pow2_nat};

verus! {

/// Bit `b` of the byte stream `s`, counting from the most significant bit
/// of the first byte.
pub open spec fn stream_bit(s: Seq<u8>, b: int) -> u8 {
    byte_bit(s[b / 8], b % 8)
}

/// The unsigned value of the `width` bits of the stream that start at bit
/// `start`: the per-point packed integer of the simple packing scheme.
pub open spec fn packed_value(s: Seq<u8>, start: int, width: int) -> nat
    decreases width,
{
    if width <= 0 {
        0
    } else {
        packed_value(s, start, width - 1) * 2 + (stream_bit(s, start + width - 1) as nat)
    }
}

proof fn lemma_pow2_nat_le(a: int, b: int)
    requires
        a <= b,
    ensures
        pow2_nat(a) <= pow2_nat(b),
    decreases b - a,
{
    if a < b {
        lemma_pow2_nat_le(a, b - 1);
    }
}

proof fn lemma_packed_value_bound(s: Seq<u8>, start: int, width: int)
    ensures
        (packed_value(s, start, width) as int) < pow2_nat(width),
    decreases width,
{
    if width > 0 {
        lemma_packed_value_bound(s, start, width - 1);
    }
}

/// Unpacks `count` consecutive fixed-width unsigned integers from a packed
/// big-endian bit stream. Succeeds when and only when the width fits a
/// 64-bit value and the stream holds enough bits.
pub fn unpack_simple_values(data: &[u8], bit_width: usize, count: usize) -> (r: Result<
    Vec<u64>,
    GribError,
>)
    ensures
        r is Ok <==> bit_width <= 64 && count * bit_width <= data@.len() * 8,
        r matches Ok(v) ==> {
            &&& v@.len() == count
            &&& forall|i: int|
                0 <= i < count ==> (#[trigger] v@[i]) as nat == packed_value(
                    data@,
                    i * bit_width,
                    bit_width as int,
                )
        },
{
    if bit_width > 64 {
        return Err(GribError::Malformed(0, "packed values wider than 64 bits"));
    }
    assert((count as int) * (bit_width as int) < 0x1_0000_0000_0000_0000_0000_0000_0000_0000int)
        by (nonlinear_arith)
        requires
            0 <= count < 0x1_0000_0000_0000_0000int,
            0 <= bit_width < 0x1_0000_0000_0000_0000int,
    ;
    let need: u128 = (count as u128) * (bit_width as u128);
    let have: u128 = (data.len() as u128) * 8;
    if need > have {
        return Err(GribError::Malformed(0, "packed data too short for the declared points"));
    }
    let bits = bit_array_from_bytes(data);
    let bits_len = bits.len();
    let mut out: Vec<u64> = Vec::new();
    let mut i: usize = 0;
    while i < count
        invariant
            i <= count,
            out@.len() == i,
            bit_width <= 64,
            count * bit_width <= data@.len() * 8,
            bits_len == bits@.len(),
            bits@.len() == data@.len() * 8,
            forall|k: int|
                0 <= k < bits@.len() ==> #[trigger] bits@[k] == byte_bit(data@[k / 8], k % 8),
            forall|j: int|
                0 <= j < i ==> (#[trigger] out@[j]) as nat == packed_value(
                    data@,
                    j * bit_width,
                    bit_width as int,
                ),
        decreases count - i,
    {
        assert((i + 1) * bit_width == i * bit_width + bit_width && (i + 1) * bit_width <= count
            * bit_width) by (nonlinear_arith)
            requires
                0 <= i < count,
                0 <= bit_width,
        ;
        let base = i * bit_width;
        let mut v: u64 = 0;
        let mut j: usize = 0;
        while j < bit_width
            invariant
                j <= bit_width <= 64,
                base == i * bit_width,
                base + bit_width <= bits@.len(),
                bits_len == bits@.len(),
                v as nat == packed_value(data@, base as int, j as int),
                (v as int) < pow2_nat(j as int),
                forall|k: int|
                    0 <= k < bits@.len() ==> #[trigger] bits@[k] == byte_bit(data@[k / 8], k % 8),
            decreases bit_width - j,
        {
            let bit = bits[base + j];
            proof {
                lemma_pow2_nat_le(j as int + 1, 64);
                assert(pow2_nat(64) == 0x1_0000_0000_0000_0000) by {
                    reveal_with_fuel(pow2_nat, 65);
                }
                assert(bits@[base + j] == byte_bit(data@[(base + j) as int / 8], (base + j) as int
                    % 8));
                assert(byte_bit(data@[(base + j) as int / 8], (base + j) as int % 8) == 0u8
                    || byte_bit(data@[(base + j) as int / 8], (base + j) as int % 8) == 1u8);
            }
            v = v * 2 + (bit as u64);
            j = j + 1;
        }
        out.push(v);
        i = i + 1;
    }
    Ok(out)
}

/// How many of the first `i` bitmap entries are set.
pub open spec fn ones_before(bits: Seq<u8>, i: int) -> int
    decreases i,
{
    if i <= 0 {
        0
    } else {
        ones_before(bits, i - 1) + (if bits[i - 1] == 1u8 {
            1int
        } else {
            0int
        })
    }
}

pub proof fn lemma_ones_before_mono(bits: Seq<u8>, a: int, b: int)
    requires
        a <= b,
    ensures
        ones_before(bits, a) <= ones_before(bits, b),
    decreases b - a,
{
    if a < b {
        lemma_ones_before_mono(bits, a, b - 1);
    }
}

/// Rebuilds the dense per-grid-point array from the packed values and the
/// presence bitmap: a grid point whose bit is set receives the next packed
/// value in order, and a grid point whose bit is clear receives nothing,
/// whatever its payload bits would have been. Succeeds when and only when
/// the packed values cover every set bit.
pub fn expand_with_bitmap(values: &Vec<u64>, bitmap: &Vec<u8>) -> (r: Result<
    Vec<Option<u64>>,
    GribError,
>)
    ensures
        r is Ok <==> ones_before(bitmap@, bitmap@.len() as int) <= values@.len(),
        r matches Ok(d) ==> {
            &&& d@.len() == bitmap@.len()
            &&& forall|i: int|
                0 <= i < d@.len() && bitmap@[i] == 1u8 ==> #[trigger] d@[i] == Some(
                    values@[ones_before(bitmap@, i)],
                )
            &&& forall|i: int| 0 <= i < d@.len() && bitmap@[i] != 1u8 ==> #[trigger] d@[i] is None
        },
{
    let n = bitmap.len();
    let mut out: Vec<Option<u64>> = Vec::new();
    let mut k: usize = 0;
    let mut i: usize = 0;
    while i < n
        invariant
            i <= n,
            n == bitmap@.len(),
            out@.len() == i,
            k as int == ones_before(bitmap@, i as int),
            k <= values@.len(),
            forall|j: int|
                0 <= j < i && bitmap@[j] == 1u8 ==> #[trigger] out@[j] == Some(
                    values@[ones_before(bitmap@, j)],
                ),
            forall|j: int| 0 <= j < i && bitmap@[j] != 1u8 ==> #[trigger] out@[j] is None,
        decreases n - i,
    {
        if bitmap[i] == 1 {
            if k < values.len() {
                out.push(Some(values[k]));
                k = k + 1;
            } else {
                proof {
                    lemma_ones_before_mono(bitmap@, i as int + 1, bitmap@.len() as int);
                }
                return Err(
                    GribError::Malformed(0, "bitmap names more points than packed values"),
                );
            }
        } else {
            out.push(None);
        }
        i = i + 1;
    }
    Ok(out)
}

/// The presence bits of a bitmap section's payload, one per grid point.
pub open spec fn bitmap_bits_of(bm: Seq<u8>) -> Seq<u8> {
    Seq::new(((bm.len() - 6) * 8) as nat, |i: int| byte_bit(bm[6 + i / 8], i % 8))
}

/// The dense per-grid-point array decoded from a data-representation
/// section, a data section, and an optional bitmap section: nothing when
/// the representation template is unregistered or the sections are too
/// short for the declared points, the packed values with the bitmap's mask
/// applied when a bitmap applies, and the packed values alone otherwise.
pub open spec fn dense_values_spec(dr: Seq<u8>, ds: Seq<u8>, bm: Option<Seq<u8>>) -> Option<
    Seq<Option<u64>>,
> {
    let w = dr[19] as int;
    let n = be_bytes_to_nat(dr, 5, 4) as int;
    let payload = ds.subrange(5, ds.len() as int);
    if be_bytes_to_nat(dr, 9, 2) != 0 || dr.len() < 21 || w > 64 || n * w > payload.len() * 8 {
        None
    } else {
        let values = Seq::new(n as nat, |i: int| packed_value(payload, i * w, w) as u64);
        match bm {
            Some(b) => {
                if b[5] == 0 {
                    let bits = bitmap_bits_of(b);
                    if ones_before(bits, bits.len() as int) <= n {
                        Some(
                            Seq::new(
                                bits.len(),
                                |i: int|
                                    if bits[i] == 1u8 {
                                        Some(values[ones_before(bits, i)])
                                    } else {
                                        None::<u64>
                                    },
                            ),
                        )
                    } else {
                        None
                    }
                } else {
                    Some(values.map_values(|v: u64| Some(v)))
                }
            },
            None => Some(values.map_values(|v: u64| Some(v))),
        }
    }
}

} // verus!
