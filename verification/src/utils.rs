use vstd::prelude::*;

verus! {

/// Big-endian unsigned value of the `n` bytes of `s` that start at `offset`.
pub open spec fn be_bytes_to_nat(s: Seq<u8>, offset: int, n: int) -> nat
    decreases n,
{
    if n <= 0 {
        0
    } else {
        be_bytes_to_nat(s, offset, n - 1) * 256 + (s[offset + n - 1] as nat)
    }
}

/// The format stores signed fields as a sign bit plus a magnitude, not as
/// two's complement: a raw word with the high bit set denotes the negated
/// magnitude held in the remaining bits.
pub open spec fn sign_magnitude_val(raw: nat, high_bit: nat) -> int {
    if raw >= high_bit {
        -((raw - high_bit) as int)
    } else {
        raw as int
    }
}

/// 2^k over the naturals.
pub open spec fn pow2_nat(k: int) -> nat
    decreases k,
{
    if k <= 0 {
        1
    } else {
        pow2_nat(k - 1) * 2
    }
}

/// 256^n, the exclusive upper bound of an n-byte big-endian value.
pub open spec fn pow256(n: int) -> nat
    decreases n,
{
    if n <= 0 {
        1
    } else {
        pow256(n - 1) * 256
    }
}

pub proof fn lemma_be_bytes_bound(s: Seq<u8>, offset: int, n: int)
    ensures
        be_bytes_to_nat(s, offset, n) < pow256(n),
    decreases n,
{
    if n > 0 {
        lemma_be_bytes_bound(s, offset, n - 1);
    }
}

/// Bit `k` (0 = most significant) of the byte `b`, as 0 or 1.
pub open spec fn byte_bit(b: u8, k: int) -> u8 {
    if (b as nat) / pow2_nat(7 - k) % 2 == 1 {
        1u8
    } else {
        0u8
    }
}

/// Reads a 2-byte big-endian unsigned integer, or nothing when the range
/// `offset..offset + 2` does not lie inside `data`.
pub fn read_u16_from_bytes(data: &[u8], offset: usize) -> (r: Option<u16>)
    ensures
        offset + 2 <= data@.len() ==> r == Some(
            (be_bytes_to_nat(data@, offset as int, 2) as u16),
        ),
        offset + 2 > data@.len() ==> r is None,
{
    if data.len() >= 2 && offset <= data.len() - 2 {
        let b0 = data[offset] as u16;
        let b1 = data[offset + 1] as u16;
        let v = b0 * 0x100 + b1;
        proof {
            reveal_with_fuel(be_bytes_to_nat, 3);
        }
        Some(v)
    } else {
        None
    }
}

/// Reads a 4-byte big-endian unsigned integer, or nothing when the range
/// `offset..offset + 4` does not lie inside `data`.
pub fn read_u32_from_bytes(data: &[u8], offset: usize) -> (r: Option<u32>)
    ensures
        offset + 4 <= data@.len() ==> r == Some(
            (be_bytes_to_nat(data@, offset as int, 4) as u32),
        ),
        offset + 4 > data@.len() ==> r is None,
{
    if data.len() >= 4 && offset <= data.len() - 4 {
        let b0 = data[offset] as u32;
        let b1 = data[offset + 1] as u32;
        let b2 = data[offset + 2] as u32;
        let b3 = data[offset + 3] as u32;
        let v = b0 * 0x100_0000 + b1 * 0x1_0000 + b2 * 0x100 + b3;
        proof {
            reveal_with_fuel(be_bytes_to_nat, 5);
        }
        Some(v)
    } else {
        None
    }
}

/// Reads an 8-byte big-endian unsigned integer, or nothing when the range
/// `offset..offset + 8` does not lie inside `data`.
pub fn read_u64_from_bytes(data: &[u8], offset: usize) -> (r: Option<u64>)
    ensures
        offset + 8 <= data@.len() ==> r == Some(
            (be_bytes_to_nat(data@, offset as int, 8) as u64),
        ),
        offset + 8 > data@.len() ==> r is None,
{
    if data.len() >= 8 && offset <= data.len() - 8 {
        let b0 = data[offset] as u64;
        let b1 = data[offset + 1] as u64;
        let b2 = data[offset + 2] as u64;
        let b3 = data[offset + 3] as u64;
        let b4 = data[offset + 4] as u64;
        let b5 = data[offset + 5] as u64;
        let b6 = data[offset + 6] as u64;
        let b7 = data[offset + 7] as u64;
        let hi = b0 * 0x100_0000 + b1 * 0x1_0000 + b2 * 0x100 + b3;
        let lo = b4 * 0x100_0000 + b5 * 0x1_0000 + b6 * 0x100 + b7;
        let v = hi * 0x1_0000_0000 + lo;
        proof {
            reveal_with_fuel(be_bytes_to_nat, 9);
        }
        Some(v)
    } else {
        None
    }
}

/// Interprets a raw 32-bit word under the sign-plus-magnitude convention.
pub fn to_signed_i32(raw: u32) -> (r: i32)
    ensures
        r as int == sign_magnitude_val(raw as nat, 0x8000_0000),
{
    if raw >= 0x8000_0000 {
        let mag = raw - 0x8000_0000;
        0i32 - (mag as i32)
    } else {
        raw as i32
    }
}

/// Interprets a raw 16-bit word under the sign-plus-magnitude convention.
pub fn to_signed_i16(raw: u16) -> (r: i16)
    ensures
        r as int == sign_magnitude_val(raw as nat, 0x8000),
{
    if raw >= 0x8000 {
        let mag = raw - 0x8000;
        0i16 - (mag as i16)
    } else {
        raw as i16
    }
}

/// Interprets a raw byte under the sign-plus-magnitude convention.
pub fn to_signed_i8(raw: u8) -> (r: i8)
    ensures
        r as int == sign_magnitude_val(raw as nat, 0x80),
{
    if raw >= 0x80 {
        let mag = raw - 0x80;
        0i8 - (mag as i8)
    } else {
        raw as i8
    }
}

/// Reading a big-endian field inside a slice of `s` is the same as reading
/// it inside `s` at the translated offset.
pub proof fn lemma_be_bytes_subrange(s: Seq<u8>, a: int, b: int, offset: int, n: int)
    requires
        0 <= a <= b <= s.len(),
        0 <= offset,
        0 <= n,
        a + offset + n <= b,
    ensures
        be_bytes_to_nat(s.subrange(a, b), offset, n) == be_bytes_to_nat(s, a + offset, n),
    decreases n,
{
    if n > 0 {
        lemma_be_bytes_subrange(s, a, b, offset, n - 1);
    }
}

/// Reads a 4-byte big-endian field and interprets it under the
/// sign-plus-magnitude convention.
pub fn read_sign_magnitude_i32(data: &[u8], offset: usize) -> (r: i32)
    requires
        offset + 4 <= data@.len(),
    ensures
        r as int == sign_magnitude_val(be_bytes_to_nat(data@, offset as int, 4), 0x8000_0000),
{
    proof {
        lemma_be_bytes_bound(data@, offset as int, 4);
        assert(pow256(4) == 0x1_0000_0000) by {
            reveal_with_fuel(pow256, 5);
        }
    }
    match read_u32_from_bytes(data, offset) {
        Some(v) => to_signed_i32(v),
        None => 0,
    }
}

/// Reads a 2-byte big-endian field and interprets it under the
/// sign-plus-magnitude convention.
pub fn read_sign_magnitude_i16(data: &[u8], offset: usize) -> (r: i16)
    requires
        offset + 2 <= data@.len(),
    ensures
        r as int == sign_magnitude_val(be_bytes_to_nat(data@, offset as int, 2), 0x8000),
{
    proof {
        lemma_be_bytes_bound(data@, offset as int, 2);
        assert(pow256(2) == 0x1_0000) by {
            reveal_with_fuel(pow256, 3);
        }
    }
    match read_u16_from_bytes(data, offset) {
        Some(v) => to_signed_i16(v),
        None => 0,
    }
}

proof fn lemma_pow2_nat_mono(a: int, b: int)
    requires
        a <= b,
    ensures
        pow2_nat(a) <= pow2_nat(b),
    decreases b - a,
{
    if a < b {
        lemma_pow2_nat_mono(a, b - 1);
    }
}

proof fn lemma_pow2_nat_bound(k: int)
    requires
        k <= 31,
    ensures
        pow2_nat(k) <= 0x8000_0000,
{
    lemma_pow2_nat_mono(k, 31);
    assert(pow2_nat(31) == 0x8000_0000) by {
        reveal_with_fuel(pow2_nat, 32);
    }
}

/// 2^k computed at run time, matching `pow2_nat` for 0 <= k <= 31.
pub fn pow2_of(k: usize) -> (r: u32)
    requires
        k <= 31,
    ensures
        r as nat == pow2_nat(k as int),
        r >= 1,
{
    let mut r: u32 = 1;
    let mut i: usize = 0;
    while i < k
        invariant
            i <= k <= 31,
            r as nat == pow2_nat(i as int),
            r >= 1,
        decreases k - i,
    {
        proof {
            lemma_pow2_nat_bound(i as int + 1);
        }
        r = r * 2;
        i = i + 1;
    }
    r
}

/// Expands bytes into individual bits, most significant bit of each byte
/// first; every element of the result is 0 or 1.
pub fn bit_array_from_bytes(data: &[u8]) -> (r: Vec<u8>)
    ensures
        r@.len() == data@.len() * 8,
        forall|i: int|
            0 <= i < r@.len() ==> #[trigger] r@[i] == byte_bit(data@[i / 8], i % 8),
{
    let mut bits: Vec<u8> = Vec::new();
    let mut i: usize = 0;
    while i < data.len()
        invariant
            i <= data@.len(),
            bits@.len() == i * 8,
            forall|k: int|
                0 <= k < bits@.len() ==> #[trigger] bits@[k] == byte_bit(data@[k / 8], k % 8),
        decreases data@.len() - i,
    {
        let b = data[i];
        let mut j: usize = 0;
        while j < 8
            invariant
                j <= 8,
                i < data@.len(),
                b == data@[i as int],
                bits@.len() == i * 8 + j,
                forall|k: int|
                    0 <= k < bits@.len() ==> #[trigger] bits@[k] == byte_bit(data@[k / 8], k % 8),
            decreases 8 - j,
        {
            let shift = pow2_of(7 - j);
            let bit: u8 = if (b as u32) / shift % 2 == 1 {
                1
            } else {
                0
            };
            assert(bit == byte_bit(data@[i as int], j as int));
            assert((i * 8 + j) / 8 == i as int && (i * 8 + j) % 8 == j as int) by (nonlinear_arith)
                requires
                    0 <= j < 8,
                    0 <= i,
            ;
            bits.push(bit);
            j = j + 1;
        }
        i = i + 1;
    }
    bits
}

} // verus!
