use vstd::prelude::*;

verus! {

/// The word that an integer reduces to modulo 2^32.
pub open spec fn w32(x: int) -> u32 {
    (x % 0x1_0000_0000) as u32
}

/// A word read as a two's-complement signed number.
pub open spec fn signed32(x: u32) -> int {
    if x < 0x8000_0000 {
        x as int
    } else {
        x as int - 0x1_0000_0000
    }
}

/// A byte sign-extended to a word.
pub open spec fn sext8(v: u8) -> u32 {
    if v < 0x80 {
        v as u32
    } else {
        (v as int + 0xFFFF_FF00) as u32
    }
}

/// A halfword sign-extended to a word.
pub open spec fn sext16(v: u16) -> u32 {
    if v < 0x8000 {
        v as u32
    } else {
        (v as int + 0xFFFF_0000) as u32
    }
}

/// The number that four bytes spell, least significant first.
pub open spec fn bytes_value(b0: u8, b1: u8, b2: u8, b3: u8) -> int {
    b0 as int + 0x100 * b1 as int + 0x1_0000 * b2 as int + 0x100_0000 * b3 as int
}

// BITWISE

/// Make a value with the selected bit set to 1.
pub fn bit(num: usize) -> (r: u32)
    requires
        num < 32,
    ensures
        r == 1u32 << num as u32,
        r as nat == vstd::arithmetic::power2::pow2(num as nat),
        forall|j: u32| j < 32 ==> (((r >> j) & 1) == 1) == (j == num),
{
    let n = num as u32;
    let r = 1u32 << n;
    assert forall|j: u32| j < 32 implies (((r >> j) & 1) == 1) == (j == n) by {
        assert(n < 32 && r == 1u32 << n ==> ((((r >> j) & 1) == 1) == (j == n))) by (bit_vector);
    }
    proof {
        lemma_shl_is_pow2(n);
    }
    r
}

proof fn lemma_shl_is_pow2(n: u32)
    requires
        n < 32,
    ensures
        (1u32 << n) as nat == vstd::arithmetic::power2::pow2(n as nat),
{
    vstd::arithmetic::power2::lemma2_to64();
    if n < 31 {
        vstd::arithmetic::power2::lemma_pow2_strictly_increases(n as nat, 31);
    }
    vstd::bits::lemma_u32_shl_is_mul(1, n);
}

/// Test if a bit in `val` is set to 1.
pub fn test_bit(val: u32, bit_num: usize) -> (r: bool)
    requires
        bit_num < 32,
    ensures
        r == (((val >> bit_num as u32) & 1) == 1),
{
    let b = bit(bit_num);
    let n = bit_num as u32;
    assert(n < 32 ==> ((val & (1u32 << n)) != 0) == (((val >> n) & 1) == 1)) by (bit_vector);
    (val & b) != 0
}

// BYTEWISE

/// Make a 16-bit value from two 8-bit values.
pub fn make16(lo: u8, hi: u8) -> (r: u16)
    ensures
        r as int == lo as int + 0x100 * hi as int,
{
    let l = lo as u16;
    let h = hi as u16;
    assert(l < 0x100 && h < 0x100 ==> (l | (h << 8u16)) == l + h * 0x100) by (bit_vector);
    l | (h << 8u16)
}

/// Get the low byte of a 16-bit value.
pub fn lo16(val: u16) -> (r: u8)
    ensures
        r as int == val as int % 0x100,
{
    assert((val & 0xFF) == val % 0x100) by (bit_vector);
    (val & 0xFF) as u8
}

/// Get the high byte of a 16-bit value.
pub fn hi16(val: u16) -> (r: u8)
    ensures
        r as int == val as int / 0x100,
{
    assert((val >> 8u16) == val / 0x100) by (bit_vector);
    (val >> 8u16) as u8
}

/// Make a 32-bit value from four 8-bit values.
/// The bytes are in order from least significant to most significant.
pub fn make32(b0: u8, b1: u8, b2: u8, b3: u8) -> (r: u32)
    ensures
        r as int == bytes_value(b0, b1, b2, b3),
{
    let (x0, x1, x2, x3) = (b0 as u32, b1 as u32, b2 as u32, b3 as u32);
    assert(x0 < 0x100 && x1 < 0x100 && x2 < 0x100 && x3 < 0x100 ==> (x0 | (x1 << 8u32) | (x2
        << 16u32) | (x3 << 24u32)) == x0 + x1 * 0x100 + x2 * 0x1_0000 + x3 * 0x100_0000)
        by (bit_vector);
    x0 | (x1 << 8u32) | (x2 << 16u32) | (x3 << 24u32)
}

/// Get the bytes from a 32-bit value.
/// The bytes are in order from least significant to most significant.
pub fn bytes32(val: u32) -> (r: (u8, u8, u8, u8))
    ensures
        r.0 as int == val as int % 0x100,
        r.1 as int == val as int / 0x100 % 0x100,
        r.2 as int == val as int / 0x1_0000 % 0x100,
        r.3 as int == val as int / 0x100_0000,
{
    assert((val & 0xFF) == val % 0x100 && ((val >> 8u32) & 0xFF) == (val / 0x100) % 0x100 && ((val
        >> 16u32) & 0xFF) == (val / 0x1_0000) % 0x100 && (val >> 24u32) == val / 0x100_0000)
        by (bit_vector);
    (
        (val & 0xFF) as u8,
        ((val >> 8u32) & 0xFF) as u8,
        ((val >> 16u32) & 0xFF) as u8,
        (val >> 24u32) as u8,
    )
}

/// Make a 64-bit value from eight 8-bit values.
/// The bytes are in order from least significant to most significant.
pub fn make64(b0: u8, b1: u8, b2: u8, b3: u8, b4: u8, b5: u8, b6: u8, b7: u8) -> (r: u64)
    ensures
        r as int == bytes_value(b0, b1, b2, b3) + 0x1_0000_0000 * bytes_value(b4, b5, b6, b7),
{
    let lo = make32(b0, b1, b2, b3) as u64;
    let hi = make32(b4, b5, b6, b7) as u64;
    assert(lo < 0x1_0000_0000 && hi < 0x1_0000_0000 ==> (lo | (hi << 32u64)) == lo + hi
        * 0x1_0000_0000) by (bit_vector);
    lo | (hi << 32u64)
}

/// Get the bytes from a 64-bit value.
/// The bytes are in order from least significant to most significant.
pub fn bytes64(val: u64) -> (r: (u8, u8, u8, u8, u8, u8, u8, u8))
    ensures
        r.0 as int == val as int % 0x100,
        r.1 as int == val as int / 0x100 % 0x100,
        r.2 as int == val as int / 0x1_0000 % 0x100,
        r.3 as int == val as int / 0x100_0000 % 0x100,
        r.4 as int == val as int / 0x1_0000_0000 % 0x100,
        r.5 as int == val as int / 0x100_0000_0000 % 0x100,
        r.6 as int == val as int / 0x1_0000_0000_0000 % 0x100,
        r.7 as int == val as int / 0x100_0000_0000_0000,
{
    assert((val & 0xFF) == val % 0x100 && ((val >> 8u64) & 0xFF) == (val / 0x100) % 0x100 && ((val
        >> 16u64) & 0xFF) == (val / 0x1_0000) % 0x100 && ((val >> 24u64) & 0xFF) == (val
        / 0x100_0000) % 0x100 && ((val >> 32u64) & 0xFF) == (val / 0x1_0000_0000) % 0x100 && ((val
        >> 40u64) & 0xFF) == (val / 0x100_0000_0000) % 0x100 && ((val >> 48u64) & 0xFF) == (val
        / 0x1_0000_0000_0000) % 0x100 && (val >> 56u64) == val / 0x100_0000_0000_0000)
        by (bit_vector);
    (
        (val & 0xFF) as u8,
        ((val >> 8u64) & 0xFF) as u8,
        ((val >> 16u64) & 0xFF) as u8,
        ((val >> 24u64) & 0xFF) as u8,
        ((val >> 32u64) & 0xFF) as u8,
        ((val >> 40u64) & 0xFF) as u8,
        ((val >> 48u64) & 0xFF) as u8,
        (val >> 56u64) as u8,
    )
}

/// Get the low word of a 64-bit value.
pub fn lo64(val: u64) -> (r: u32)
    ensures
        r as int == val as int % 0x1_0000_0000,
{
    assert((val & 0xFFFF_FFFF) == val % 0x1_0000_0000) by (bit_vector);
    (val & 0xFFFF_FFFF) as u32
}

/// Get the high word of a 64-bit value.
pub fn hi64(val: u64) -> (r: u32)
    ensures
        r as int == val as int / 0x1_0000_0000,
{
    assert((val >> 32u64) == val / 0x1_0000_0000) by (bit_vector);
    (val >> 32u64) as u32
}

/// Sign-extend a 8-bit value.
/// Returns a 32-bit unsigned value.
pub fn sign_extend_8(val: u8) -> (r: u32)
    ensures
        r == sext8(val),
{
    let v = val as u32;
    if val >= 0x80 {
        assert(0x80 <= v < 0x100 ==> (v | 0xFFFF_FF00) == v + 0xFFFF_FF00) by (bit_vector);
        v | 0xFFFF_FF00
    } else {
        v
    }
}

/// Sign-extend a 16-bit value.
/// Returns a 32-bit unsigned value.
pub fn sign_extend_16(val: u16) -> (r: u32)
    ensures
        r == sext16(val),
{
    let v = val as u32;
    if val >= 0x8000 {
        assert(0x8000 <= v < 0x1_0000 ==> (v | 0xFFFF_0000) == v + 0xFFFF_0000) by (bit_vector);
        v | 0xFFFF_0000
    } else {
        v
    }
}

/// Sign-extend a 32-bit value.
/// Returns a 64-bit signed value.
pub fn sign_extend_32(val: u32) -> (r: i64)
    ensures
        r as int == signed32(val),
{
    if val >= 0x8000_0000 {
        val as i64 - 0x1_0000_0000
    } else {
        val as i64
    }
}

} // verus!
