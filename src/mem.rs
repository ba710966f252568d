use vstd::prelude::*;
use crate::common::{bytes_value, make16, make32};

verus! {

/// An address on a 32-bit address bus.
#[derive(Clone, Copy, Debug, PartialEq, Eq)]
pub struct AddrBus {
    pub addr: u32,
}

impl AddrBus {
    pub fn new(val: u32) -> (r: Self)
        ensures
            r.addr == val,
    {
        AddrBus { addr: val }
    }

    /// The next address, wrapping at the top of the address space.
    pub fn inc(self) -> (r: Self)
        ensures
            r.addr == crate::common::w32(self.addr + 1),
    {
        AddrBus { addr: self.addr.wrapping_add(1) }
    }
}

/// Base memory trait: a byte-addressed device on a 32-bit address bus.
///
/// A device is modelled as a deterministic state machine: the spec functions
/// give, for each operation, what it returns and the state it leaves.
pub trait Memory: Sized {
    /// The byte that a read at `addr` returns.
    spec fn byte_at(&self, addr: u32) -> u8;

    /// The state after a read at `addr` (devices may react to reads).
    spec fn after_read_byte(&self, addr: u32) -> Self;

    /// The state after `data` is written at `addr`.
    spec fn after_write_byte(&self, addr: u32, data: u8) -> Self;

    /// Whether multi-byte values are stored least significant byte first.
    spec fn is_little_endian(&self) -> bool;

    /// The interrupt lines raised when the bus is clocked.
    spec fn raised_lines(&self, cycles: u32) -> u8;

    /// The state after the bus is clocked.
    spec fn after_clock(&self, cycles: u32) -> Self;

    /// Read a single byte.
    fn read_byte(&mut self, addr: u32) -> (r: u8)
        ensures
            r == old(self).byte_at(addr),
            *final(self) == old(self).after_read_byte(addr),
    ;

    /// Write a single byte.
    fn write_byte(&mut self, addr: u32, data: u8)
        ensures
            *final(self) == old(self).after_write_byte(addr, data),
    ;

    /// Whether the bus is little-endian.
    fn little_endian(&self) -> (r: bool)
        ensures
            r == self.is_little_endian(),
    ;

    /// Advance the bus by `cycles`; returns a bitmask of raised external interrupts.
    fn clock(&mut self, cycles: u32) -> (r: u8)
        ensures
            r == old(self).raised_lines(cycles),
            *final(self) == old(self).after_clock(cycles),
    ;
}

/// Memory with a 16-bit data bus.
pub trait Mem16: Memory {
    /// The halfword that a read at `addr` returns.
    spec fn halfword_at(&self, addr: u32) -> u16;

    /// The state after a halfword read at `addr`.
    spec fn after_read_halfword(&self, addr: u32) -> Self;

    /// The state after a halfword write at `addr`.
    spec fn after_write_halfword(&self, addr: u32, data: u16) -> Self;

    /// Read a 16-bit value; `addr` must be halfword-aligned.
    fn read_halfword(&mut self, addr: u32) -> (r: u16)
        requires
            addr % 2 == 0,
        ensures
            r == old(self).halfword_at(addr),
            *final(self) == old(self).after_read_halfword(addr),
    ;

    /// Write a 16-bit value; `addr` must be halfword-aligned.
    fn write_halfword(&mut self, addr: u32, data: u16)
        requires
            addr % 2 == 0,
        ensures
            *final(self) == old(self).after_write_halfword(addr, data),
    ;
}

/// Memory with a 32-bit data bus.
pub trait Mem32: Mem16 {
    /// The word that a read at `addr` returns.
    spec fn word_at(&self, addr: u32) -> u32;

    /// The state after a word read at `addr`.
    spec fn after_read_word(&self, addr: u32) -> Self;

    /// The state after a word write at `addr`.
    spec fn after_write_word(&self, addr: u32, data: u32) -> Self;

    /// Read a 32-bit value; `addr` must be word-aligned.
    fn read_word(&mut self, addr: u32) -> (r: u32)
        requires
            addr % 4 == 0,
        ensures
            r == old(self).word_at(addr),
            *final(self) == old(self).after_read_word(addr),
    ;

    /// Write a 32-bit value; `addr` must be word-aligned.
    fn write_word(&mut self, addr: u32, data: u32)
        requires
            addr % 4 == 0,
        ensures
            *final(self) == old(self).after_write_word(addr, data),
    ;
}

/// Memory with a 64-bit data bus.
pub trait Mem64: Mem32 {
    /// The doubleword that a read at `addr` returns.
    spec fn doubleword_at(&self, addr: u32) -> u64;

    /// The state after a doubleword read at `addr`.
    spec fn after_read_doubleword(&self, addr: u32) -> Self;

    /// The state after a doubleword write at `addr`.
    spec fn after_write_doubleword(&self, addr: u32, data: u64) -> Self;

    /// Read a 64-bit value; `addr` must be doubleword-aligned.
    fn read_doubleword(&mut self, addr: u32) -> (r: u64)
        requires
            addr % 8 == 0,
        ensures
            r == old(self).doubleword_at(addr),
            *final(self) == old(self).after_read_doubleword(addr),
    ;

    /// Write a 64-bit value; `addr` must be doubleword-aligned.
    fn write_doubleword(&mut self, addr: u32, data: u64)
        requires
            addr % 8 == 0,
        ensures
            *final(self) == old(self).after_write_doubleword(addr, data),
    ;
}

/// The halfword spelled by byte `b0` at the lower address and `b1` above it.
pub open spec fn halfword_of(b0: u8, b1: u8, little: bool) -> u16 {
    if little {
        (b0 as int + 0x100 * b1 as int) as u16
    } else {
        (b1 as int + 0x100 * b0 as int) as u16
    }
}

/// The word spelled by the bytes `b0`..`b3`, in order of rising address.
pub open spec fn word_of(b0: u8, b1: u8, b2: u8, b3: u8, little: bool) -> u32 {
    if little {
        bytes_value(b0, b1, b2, b3) as u32
    } else {
        bytes_value(b3, b2, b1, b0) as u32
    }
}

/// Byte `k` of `v`, counting from the least significant.
pub open spec fn byte_k(v: int, k: nat) -> u8 {
    (v / vstd::arithmetic::power2::pow2(8 * k) as int % 0x100) as u8
}

/// The bytes a halfword is stored as, in order of rising address.
pub open spec fn halfword_bytes(v: u16, little: bool) -> (u8, u8) {
    if little {
        (byte_k(v as int, 0), byte_k(v as int, 1))
    } else {
        (byte_k(v as int, 1), byte_k(v as int, 0))
    }
}

/// The bytes a word is stored as, in order of rising address.
pub open spec fn word_bytes(v: u32, little: bool) -> (u8, u8, u8, u8) {
    let (x0, x1, x2, x3) = (
        byte_k(v as int, 0),
        byte_k(v as int, 1),
        byte_k(v as int, 2),
        byte_k(v as int, 3),
    );
    if little {
        (x0, x1, x2, x3)
    } else {
        (x3, x2, x1, x0)
    }
}

proof fn lemma_byte_k_values(v: int)
    ensures
        byte_k(v, 0) == (v % 0x100) as u8,
        byte_k(v, 1) == (v / 0x100 % 0x100) as u8,
        byte_k(v, 2) == (v / 0x1_0000 % 0x100) as u8,
        byte_k(v, 3) == (v / 0x100_0000 % 0x100) as u8,
{
    vstd::arithmetic::power2::lemma2_to64();
    assert(v / 1 == v);
}

/// Read a halfword as two byte reads, composed in the bus's byte order.
pub fn read_halfword_bytes<M: Memory>(m: &mut M, addr: u32) -> (r: u16)
    requires
        addr % 2 == 0,
    ensures
        r == halfword_of(
            old(m).byte_at(addr),
            old(m).after_read_byte(addr).byte_at((addr + 1) as u32),
            old(m).is_little_endian(),
        ),
        *final(m) == old(m).after_read_byte(addr).after_read_byte((addr + 1) as u32),
{
    let little = m.little_endian();
    let b0 = m.read_byte(addr);
    let b1 = m.read_byte(addr + 1);
    if little {
        make16(b0, b1)
    } else {
        make16(b1, b0)
    }
}

/// Write a halfword as two byte writes, in the bus's byte order.
pub fn write_halfword_bytes<M: Memory>(m: &mut M, addr: u32, data: u16)
    requires
        addr % 2 == 0,
    ensures
        *final(m) == old(m).after_write_byte(
            addr,
            halfword_bytes(data, old(m).is_little_endian()).0,
        ).after_write_byte((addr + 1) as u32, halfword_bytes(data, old(m).is_little_endian()).1),
{
    let little = m.little_endian();
    let lo = crate::common::lo16(data);
    let hi = crate::common::hi16(data);
    proof {
        lemma_byte_k_values(data as int);
    }
    if little {
        m.write_byte(addr, lo);
        m.write_byte(addr + 1, hi);
    } else {
        m.write_byte(addr, hi);
        m.write_byte(addr + 1, lo);
    }
}

/// Read a word as four byte reads, composed in the bus's byte order.
pub fn read_word_bytes<M: Memory>(m: &mut M, addr: u32) -> (r: u32)
    requires
        addr % 4 == 0,
    ensures
        ({
            let s1 = old(m).after_read_byte(addr);
            let s2 = s1.after_read_byte((addr + 1) as u32);
            let s3 = s2.after_read_byte((addr + 2) as u32);
            &&& r == word_of(
                old(m).byte_at(addr),
                s1.byte_at((addr + 1) as u32),
                s2.byte_at((addr + 2) as u32),
                s3.byte_at((addr + 3) as u32),
                old(m).is_little_endian(),
            )
            &&& *final(m) == s3.after_read_byte((addr + 3) as u32)
        }),
{
    let little = m.little_endian();
    let b0 = m.read_byte(addr);
    let b1 = m.read_byte(addr + 1);
    let b2 = m.read_byte(addr + 2);
    let b3 = m.read_byte(addr + 3);
    if little {
        make32(b0, b1, b2, b3)
    } else {
        make32(b3, b2, b1, b0)
    }
}

/// Write a word as four byte writes, in the bus's byte order.
pub fn write_word_bytes<M: Memory>(m: &mut M, addr: u32, data: u32)
    requires
        addr % 4 == 0,
    ensures
        ({
            let b = word_bytes(data, old(m).is_little_endian());
            *final(m) == old(m).after_write_byte(addr, b.0).after_write_byte(
                (addr + 1) as u32,
                b.1,
            ).after_write_byte((addr + 2) as u32, b.2).after_write_byte((addr + 3) as u32, b.3)
        }),
{
    let little = m.little_endian();
    let b = crate::common::bytes32(data);
    proof {
        lemma_byte_k_values(data as int);
    }
    if little {
        m.write_byte(addr, b.0);
        m.write_byte(addr + 1, b.1);
        m.write_byte(addr + 2, b.2);
        m.write_byte(addr + 3, b.3);
    } else {
        m.write_byte(addr, b.3);
        m.write_byte(addr + 1, b.2);
        m.write_byte(addr + 2, b.1);
        m.write_byte(addr + 3, b.0);
    }
}

/// The bits of the number four bytes spell, as shifted bytes.
pub proof fn lemma_bytes_value_bits(b0: u8, b1: u8, b2: u8, b3: u8)
    ensures
        bytes_value(b0, b1, b2, b3) == ((b0 as u32) | ((b1 as u32) << 8u32) | ((b2 as u32) << 16u32)
            | ((b3 as u32) << 24u32)) as int,
{
    let (x0, x1, x2, x3) = (b0 as u32, b1 as u32, b2 as u32, b3 as u32);
    assert(x0 < 0x100 && x1 < 0x100 && x2 < 0x100 && x3 < 0x100 ==> (x0 | (x1 << 8u32) | (x2
        << 16u32) | (x3 << 24u32)) == x0 + x1 * 0x100 + x2 * 0x1_0000 + x3 * 0x100_0000)
        by (bit_vector);
}

/// Storing a word as bytes and composing them again gives the word back.
pub proof fn lemma_word_bytes_inverse(v: u32, little: bool)
    ensures
        ({
            let b = word_bytes(v, little);
            word_of(b.0, b.1, b.2, b.3, little) == v
        }),
{
    lemma_byte_k_values(v as int);
    assert(v % 0x100 == v & 0xFF) by (bit_vector);
    assert(v / 0x100 % 0x100 == (v >> 8u32) & 0xFF) by (bit_vector);
    assert(v / 0x1_0000 % 0x100 == (v >> 16u32) & 0xFF) by (bit_vector);
    assert(v / 0x100_0000 % 0x100 == (v >> 24u32) & 0xFF) by (bit_vector);
    assert((v & 0xFF) + 0x100 * ((v >> 8u32) & 0xFF) + 0x1_0000 * ((v >> 16u32) & 0xFF)
        + 0x100_0000 * ((v >> 24u32) & 0xFF) == v) by (bit_vector);
}

/// Storing a halfword as bytes and composing them again gives it back.
pub proof fn lemma_halfword_bytes_inverse(v: u16, little: bool)
    ensures
        ({
            let b = halfword_bytes(v, little);
            halfword_of(b.0, b.1, little) == v
        }),
{
    lemma_byte_k_values(v as int);
    assert(v % 0x100 == v & 0xFF) by (bit_vector);
    assert(v / 0x100 % 0x100 == (v >> 8u16) & 0xFF) by (bit_vector);
    assert((v & 0xFF) + 0x100 * ((v >> 8u16) & 0xFF) == v) by (bit_vector);
}

/// The doubleword spelled by two words, `lo_word` at the lower address.
pub open spec fn doubleword_of(lo_word: u32, hi_word: u32, little: bool) -> u64 {
    if little {
        (lo_word as int + 0x1_0000_0000 * hi_word as int) as u64
    } else {
        (hi_word as int + 0x1_0000_0000 * lo_word as int) as u64
    }
}

/// The words a doubleword is stored as, lower address first.
pub open spec fn doubleword_words(v: u64, little: bool) -> (u32, u32) {
    let (lo, hi) = ((v % 0x1_0000_0000) as u32, (v / 0x1_0000_0000) as u32);
    if little {
        (lo, hi)
    } else {
        (hi, lo)
    }
}

/// Read a doubleword as two word reads, composed in the bus's byte order.
pub fn read_doubleword_words<M: Mem32>(m: &mut M, addr: u32) -> (r: u64)
    requires
        addr % 8 == 0,
    ensures
        r == doubleword_of(
            old(m).word_at(addr),
            old(m).after_read_word(addr).word_at((addr + 4) as u32),
            old(m).is_little_endian(),
        ),
        *final(m) == old(m).after_read_word(addr).after_read_word((addr + 4) as u32),
{
    let little = m.little_endian();
    let w0 = m.read_word(addr);
    let w1 = m.read_word(addr + 4);
    let (lo, hi) = if little { (w0, w1) } else { (w1, w0) };
    let (l, h) = (lo as u64, hi as u64);
    assert(l < 0x1_0000_0000 && h < 0x1_0000_0000 ==> (l | (h << 32u64)) == l + h * 0x1_0000_0000)
        by (bit_vector);
    l | (h << 32u64)
}

/// Write a doubleword as two word writes, in the bus's byte order.
pub fn write_doubleword_words<M: Mem32>(m: &mut M, addr: u32, data: u64)
    requires
        addr % 8 == 0,
    ensures
        ({
            let w = doubleword_words(data, old(m).is_little_endian());
            *final(m) == old(m).after_write_word(addr, w.0).after_write_word((addr + 4) as u32, w.1)
        }),
{
    let little = m.little_endian();
    let lo = crate::common::lo64(data);
    let hi = crate::common::hi64(data);
    if little {
        m.write_word(addr, lo);
        m.write_word(addr + 4, hi);
    } else {
        m.write_word(addr, hi);
        m.write_word(addr + 4, lo);
    }
}

/// Plain RAM of `N` bytes at addresses `0..N`, in either byte order.
///
/// Reads outside the array return 0 and writes there are dropped.
pub struct Ram<const N: usize> {
    pub bytes: [u8; N],
    pub little: bool,
}

impl<const N: usize> Ram<N> {
    /// Zero-filled RAM with the given byte order.
    pub fn new(little_endian: bool) -> (r: Self)
        ensures
            forall|a: u32| #[trigger] r.byte_at(a) == 0,
            r.is_little_endian() == little_endian,
    {
        Ram { bytes: [0u8; N], little: little_endian }
    }

    /// The byte stored at `addr`, without any bus traffic.
    pub fn peek(&self, addr: u32) -> (r: u8)
        ensures
            r == self.byte_at(addr),
    {
        if (addr as usize) < N {
            self.bytes[addr as usize]
        } else {
            0
        }
    }
}

impl<const N: usize> Memory for Ram<N> {
    open spec fn byte_at(&self, addr: u32) -> u8 {
        if (addr as int) < N {
            self.bytes@[addr as int]
        } else {
            0
        }
    }

    open spec fn after_read_byte(&self, addr: u32) -> Self {
        *self
    }

    open spec fn after_write_byte(&self, addr: u32, data: u8) -> Self {
        if (addr as int) < N {
            Ram { bytes: vstd::array::spec_array_update(self.bytes, addr as int, data), ..*self }
        } else {
            *self
        }
    }

    open spec fn is_little_endian(&self) -> bool {
        self.little
    }

    open spec fn raised_lines(&self, cycles: u32) -> u8 {
        0
    }

    open spec fn after_clock(&self, cycles: u32) -> Self {
        *self
    }

    fn read_byte(&mut self, addr: u32) -> (r: u8) {
        self.peek(addr)
    }

    fn write_byte(&mut self, addr: u32, data: u8) {
        if (addr as usize) < N {
            self.bytes[addr as usize] = data;
            assert(self.bytes =~= vstd::array::spec_array_update(old(self).bytes, addr as int, data));
        }
    }

    fn little_endian(&self) -> (r: bool) {
        self.little
    }

    fn clock(&mut self, cycles: u32) -> (r: u8) {
        0
    }
}

impl<const N: usize> Mem16 for Ram<N> {
    open spec fn halfword_at(&self, addr: u32) -> u16 {
        halfword_of(self.byte_at(addr), self.byte_at((addr + 1) as u32), self.little)
    }

    open spec fn after_read_halfword(&self, addr: u32) -> Self {
        *self
    }

    open spec fn after_write_halfword(&self, addr: u32, data: u16) -> Self {
        let b = halfword_bytes(data, self.little);
        self.after_write_byte(addr, b.0).after_write_byte((addr + 1) as u32, b.1)
    }

    fn read_halfword(&mut self, addr: u32) -> (r: u16) {
        read_halfword_bytes(self, addr)
    }

    fn write_halfword(&mut self, addr: u32, data: u16) {
        write_halfword_bytes(self, addr, data)
    }
}

impl<const N: usize> Mem32 for Ram<N> {
    open spec fn word_at(&self, addr: u32) -> u32 {
        word_of(
            self.byte_at(addr),
            self.byte_at((addr + 1) as u32),
            self.byte_at((addr + 2) as u32),
            self.byte_at((addr + 3) as u32),
            self.little,
        )
    }

    open spec fn after_read_word(&self, addr: u32) -> Self {
        *self
    }

    open spec fn after_write_word(&self, addr: u32, data: u32) -> Self {
        let b = word_bytes(data, self.little);
        self.after_write_byte(addr, b.0).after_write_byte((addr + 1) as u32, b.1).after_write_byte(
            (addr + 2) as u32,
            b.2,
        ).after_write_byte((addr + 3) as u32, b.3)
    }

    fn read_word(&mut self, addr: u32) -> (r: u32) {
        read_word_bytes(self, addr)
    }

    fn write_word(&mut self, addr: u32, data: u32) {
        write_word_bytes(self, addr, data)
    }
}

impl<const N: usize> Mem64 for Ram<N> {
    open spec fn doubleword_at(&self, addr: u32) -> u64 {
        doubleword_of(self.word_at(addr), self.word_at((addr + 4) as u32), self.little)
    }

    open spec fn after_read_doubleword(&self, addr: u32) -> Self {
        *self
    }

    open spec fn after_write_doubleword(&self, addr: u32, data: u64) -> Self {
        let w = doubleword_words(data, self.little);
        self.after_write_word(addr, w.0).after_write_word((addr + 4) as u32, w.1)
    }

    fn read_doubleword(&mut self, addr: u32) -> (r: u64) {
        read_doubleword_words(self, addr)
    }

    fn write_doubleword(&mut self, addr: u32, data: u64) {
        write_doubleword_words(self, addr, data)
    }
}

impl<const N: usize> Ram<N> {
    /// A word written inside the RAM reads back unchanged.
    pub proof fn lemma_word_round_trip(self, addr: u32, v: u32)
        requires
            addr % 4 == 0,
            addr as int + 3 < N,
        ensures
            self.after_write_word(addr, v).word_at(addr) == v,
    {
        lemma_word_bytes_inverse(v, self.little);
        let b = word_bytes(v, self.little);
        let a = addr as int;
        let m1 = self.after_write_byte(addr, b.0);
        let m2 = m1.after_write_byte((addr + 1) as u32, b.1);
        let m3 = m2.after_write_byte((addr + 2) as u32, b.2);
        let m4 = m3.after_write_byte((addr + 3) as u32, b.3);
        assert(m1.bytes@ == self.bytes@.update(a, b.0));
        assert(m2.bytes@ == m1.bytes@.update(a + 1, b.1));
        assert(m3.bytes@ == m2.bytes@.update(a + 2, b.2));
        assert(m4.bytes@ == m3.bytes@.update(a + 3, b.3));
        assert(m4.byte_at(addr) == b.0);
        assert(m4.byte_at((addr + 1) as u32) == b.1);
        assert(m4.byte_at((addr + 2) as u32) == b.2);
        assert(m4.byte_at((addr + 3) as u32) == b.3);
    }

    /// A halfword written inside the RAM reads back unchanged.
    pub proof fn lemma_halfword_round_trip(self, addr: u32, v: u16)
        requires
            addr % 2 == 0,
            addr as int + 1 < N,
        ensures
            self.after_write_halfword(addr, v).halfword_at(addr) == v,
    {
        lemma_halfword_bytes_inverse(v, self.little);
        let b = halfword_bytes(v, self.little);
        let a = addr as int;
        let m1 = self.after_write_byte(addr, b.0);
        let m2 = m1.after_write_byte((addr + 1) as u32, b.1);
        assert(m1.bytes@ == self.bytes@.update(a, b.0));
        assert(m2.bytes@ == m1.bytes@.update(a + 1, b.1));
        assert(m2.byte_at(addr) == b.0);
        assert(m2.byte_at((addr + 1) as u32) == b.1);
    }
}

} // verus!
