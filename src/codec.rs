//! Little-endian bit reader and writer.
//!
//! Bit 0 of byte 0 is the least significant bit of a frame, and a field of
//! `n` bits starting at bit `p` holds its least significant bit at `p`.
use vstd::arithmetic::power::lemma_pow0;
use vstd::arithmetic::power2::*;
use vstd::arithmetic::div_mod::lemma_div_denominator;
use vstd::arithmetic::div_mod::lemma_fundamental_div_mod_converse_div;
use vstd::arithmetic::div_mod::lemma_mod_breakdown;
use vstd::arithmetic::div_mod::lemma_mod_mod;
use vstd::bits::lemma_u8_shr_is_div;
use vstd::prelude::*;

use crate::text::le_bytes;
use crate::text::lemma_le_bytes_len;

use crate::Error;
use crate::Result;

verus! {

/// Bit `i` of a little-endian bit stream: bit `i % 8` of byte `i / 8`.
pub open spec fn bit_at(bytes: Seq<u8>, i: int) -> nat {
    ((bytes[i / 8] >> ((i % 8) as u8)) & 1u8) as nat
}

/// The unsigned value of the `n` bits that start at bit `pos`.
pub open spec fn bits_value(bytes: Seq<u8>, pos: int, n: nat) -> nat
    decreases n,
{
    if n == 0 {
        0
    } else {
        bit_at(bytes, pos) + 2 * bits_value(bytes, pos + 1, (n - 1) as nat)
    }
}

/// A field of `w` bits at offset `off` from `pos`, as the decoders read it.
pub open spec fn field(bytes: Seq<u8>, pos: int, off: int, w: nat) -> u32 {
    bits_value(bytes, pos + off, w) as u32
}

/// Whether the `n` bits that start at `pos` lie inside `bytes`.
pub open spec fn has_bits(bytes: Seq<u8>, pos: int, n: int) -> bool {
    pos + n <= bytes.len() * 8
}

pub proof fn lemma_bit_at_bound(bytes: Seq<u8>, i: int)
    ensures
        bit_at(bytes, i) <= 1,
{
    let b = bytes[i / 8];
    let s = (i % 8) as u8;
    assert((b >> s) & 1u8 <= 1u8) by (bit_vector);
}

/// An `n`-bit field holds less than `2^n`.
pub proof fn lemma_bits_value_bound(bytes: Seq<u8>, pos: int, n: nat)
    ensures
        bits_value(bytes, pos, n) < pow2(n),
    decreases n,
{
    lemma_pow0(2);
    if n > 0 {
        lemma_bit_at_bound(bytes, pos);
        lemma_bits_value_bound(bytes, pos + 1, (n - 1) as nat);
        lemma_pow2_unfold(n);
    }
}

/// A field of at most 32 bits is read without truncation, and holds less
/// than `2^w`.
pub proof fn lemma_field_bound(bytes: Seq<u8>, pos: int, off: int, w: nat)
    requires
        w <= 32,
    ensures
        field(bytes, pos, off, w) as nat == bits_value(bytes, pos + off, w),
        field(bytes, pos, off, w) < pow2(w),
{
    lemma_bits_value_bound(bytes, pos + off, w);
    lemma2_to64();
    if w < 32 {
        lemma_pow2_strictly_increases(w, 32);
    }
}

/// `2^e` for `e < 128`.
pub fn pow2_u128(e: u32) -> (r: u128)
    requires
        e < 128,
    ensures
        r == pow2(e as nat),
{
    let mut r: u128 = 1;
    let mut i: u32 = 0;
    proof {
        lemma_pow0(2);
    }
    while i < e
        invariant
            i <= e < 128,
            r == pow2(i as nat),
        decreases e - i,
    {
        proof {
            lemma_pow2_unfold((i + 1) as nat);
            lemma_pow2_strictly_increases((i + 1) as nat, 128);
            lemma2_to64();
            lemma2_to64_rest();
            lemma_pow2_adds(64, 64);
        }
        r = r * 2;
        i = i + 1;
    }
    r
}

/// Reads a little-endian bit stream from a borrowed byte buffer.
pub struct BitReader<'a> {
    bytes: &'a [u8],
    pos: usize,
}

impl<'a> BitReader<'a> {
    /// The bytes being read.
    pub closed spec fn data(&self) -> Seq<u8> {
        self.bytes@
    }

    /// The number of bits read or skipped so far.
    pub closed spec fn pos(&self) -> nat {
        self.pos as nat
    }

    pub closed spec fn wf(&self) -> bool {
        &&& self.pos <= self.bytes@.len() * 8
        &&& self.bytes@.len() * 8 <= usize::MAX
    }

    pub fn new(bytes: &'a [u8]) -> (r: Self)
        requires
            bytes@.len() * 8 <= usize::MAX,
        ensures
            r.wf(),
            r.data() == bytes@,
            r.pos() == 0,
    {
        BitReader { bytes, pos: 0 }
    }

    /// The number of bits left to read.
    pub fn remaining(&self) -> (r: usize)
        requires
            self.wf(),
        ensures
            r == self.data().len() * 8 - self.pos(),
    {
        self.bytes.len() * 8 - self.pos
    }

    /// Reads an unsigned field of `n` bits. Past the end of the buffer it
    /// fails and reads nothing.
    pub fn read(&mut self, n: u32) -> (r: Result<u32>)
        requires
            old(self).wf(),
            n <= 32,
        ensures
            final(self).wf(),
            final(self).data() == old(self).data(),
            has_bits(old(self).data(), old(self).pos() as int, n as int) ==> r == Ok::<u32, Error>(
                field(old(self).data(), old(self).pos() as int, 0, n as nat),
            ) && final(self).pos() == old(self).pos() + n,
            !has_bits(old(self).data(), old(self).pos() as int, n as int) ==> r == Err::<u32, Error>(
                Error::UnexpectedEof,
            ) && final(self).pos() == old(self).pos(),
    {
        let remaining = self.bytes.len() * 8 - self.pos;
        if n as usize > remaining {
            return Err(Error::UnexpectedEof);
        }
        let ghost d = self.bytes@;
        let ghost start = self.pos as int;
        let mut v: u64 = 0;
        let mut i: u32 = n;
        proof {
            lemma_pow0(2);
        }
        while i > 0
            invariant
                i <= n <= 32,
                d == self.bytes@,
                d.len() * 8 <= usize::MAX,
                start == self.pos as int,
                start + n <= d.len() * 8,
                v == bits_value(d, start + i, (n - i) as nat),
                v < pow2((n - i) as nat),
            decreases i,
        {
            i = i - 1;
            let p = self.pos + i as usize;
            let b = (self.bytes[p / 8] >> ((p % 8) as u8)) & 1u8;
            proof {
                lemma_bit_at_bound(d, p as int);
                lemma_pow2_unfold((n - i) as nat);
                lemma_pow2_strictly_increases((n - i) as nat, 33);
                lemma2_to64();
                assert(b as nat == bit_at(d, p as int));
            }
            v = 2 * v + b as u64;
        }
        proof {
            lemma2_to64();
            if n < 32 {
                lemma_pow2_strictly_increases(n as nat, 32);
            }
        }
        self.pos = self.pos + n as usize;
        Ok(v as u32)
    }

    /// Reads one bit as a boolean.
    pub fn read_bit(&mut self) -> (r: Result<bool>)
        requires
            old(self).wf(),
        ensures
            final(self).wf(),
            final(self).data() == old(self).data(),
            has_bits(old(self).data(), old(self).pos() as int, 1) ==> r == Ok::<bool, Error>(
                field(old(self).data(), old(self).pos() as int, 0, 1) == 1,
            ) && final(self).pos() == old(self).pos() + 1,
            !has_bits(old(self).data(), old(self).pos() as int, 1) ==> r == Err::<bool, Error>(
                Error::UnexpectedEof,
            ) && final(self).pos() == old(self).pos(),
    {
        let v = self.read(1)?;
        Ok(v == 1)
    }

    /// Skips `n` reserved bits.
    pub fn skip(&mut self, n: u32) -> (r: Result<()>)
        requires
            old(self).wf(),
        ensures
            final(self).wf(),
            final(self).data() == old(self).data(),
            has_bits(old(self).data(), old(self).pos() as int, n as int) ==> r == Ok::<(), Error>(())
                && final(self).pos() == old(self).pos() + n,
            !has_bits(old(self).data(), old(self).pos() as int, n as int) ==> r == Err::<(), Error>(
                Error::UnexpectedEof,
            ) && final(self).pos() == old(self).pos(),
    {
        let remaining = self.bytes.len() * 8 - self.pos;
        if n as usize > remaining {
            return Err(Error::UnexpectedEof);
        }
        self.pos = self.pos + n as usize;
        Ok(())
    }
}

/// Writes a little-endian bit stream into a 128-bit frame.
pub struct BitWriter {
    value: u128,
    pos: u32,
}

impl BitWriter {
    /// The frame written so far, as an integer.
    pub closed spec fn bits(&self) -> nat {
        self.value as nat
    }

    /// The number of bits written so far.
    pub closed spec fn len(&self) -> nat {
        self.pos as nat
    }

    pub closed spec fn wf(&self) -> bool {
        &&& self.pos <= 128
        &&& self.value < pow2(self.pos as nat)
    }

    pub fn new() -> (r: Self)
        ensures
            r.wf(),
            r.bits() == 0,
            r.len() == 0,
    {
        proof {
            lemma_pow2_pos(0);
        }
        BitWriter { value: 0, pos: 0 }
    }

    /// The frame written so far.
    pub fn value(&self) -> (r: u128)
        ensures
            r == self.bits(),
    {
        self.value
    }

    /// Writes `v` into the next `n` bits. A value that needs more than `n`
    /// bits is refused and nothing is written.
    pub fn write(&mut self, n: u32, v: u64) -> (r: Result<()>)
        requires
            old(self).wf(),
            n <= 32,
            old(self).len() + n < 128,
        ensures
            final(self).wf(),
            v < pow2(n as nat) ==> r == Ok::<(), Error>(()) && final(self).bits() == old(
                self,
            ).bits() + v * pow2(old(self).len()) && final(self).len() == old(self).len() + n,
            v >= pow2(n as nat) ==> r == Err::<(), Error>(Error::ValueOutOfRange { bits: n, value: v })
                && *final(self) == *old(self),
    {
        let limit = pow2_u128(n);
        if v as u128 >= limit {
            return Err(Error::ValueOutOfRange { bits: n, value: v });
        }
        let scale = pow2_u128(self.pos);
        proof {
            let p = self.pos as nat;
            lemma_pow2_adds(p, n as nat);
            lemma_pow2_strictly_increases((p + n) as nat, 128);
            lemma2_to64();
            lemma2_to64_rest();
            lemma_pow2_adds(64, 64);
            let a = v as int;
            let b = pow2(n as nat) as int;
            let c = pow2(p) as int;
            assert(a * c <= (b - 1) * c) by (nonlinear_arith)
                requires
                    a <= b - 1,
                    c > 0,
            ;
            assert((b - 1) * c == b * c - c) by (nonlinear_arith);
        }
        self.value = self.value + (v as u128) * scale;
        self.pos = self.pos + n;
        Ok(())
    }

    /// Pads the frame with zero bits up to the next whole byte.
    pub fn byte_align(&mut self)
        requires
            old(self).wf(),
        ensures
            final(self).wf(),
            final(self).bits() == old(self).bits(),
            final(self).len() % 8 == 0,
            old(self).len() <= final(self).len() < old(self).len() + 8,
    {
        let pad = (8 - self.pos % 8) % 8;
        proof {
            if pad > 0 {
                lemma_pow2_strictly_increases(self.pos as nat, (self.pos + pad) as nat);
            }
        }
        self.pos = self.pos + pad;
    }
}

/// Byte `k` of the little-endian layout of `v`.
proof fn lemma_le_bytes_index(v: nat, n: nat, k: int)
    requires
        0 <= k < n,
    ensures
        le_bytes(v, n)[k] == ((v / pow2((8 * k) as nat)) % 256) as u8,
    decreases n,
{
    lemma_le_bytes_len(v, n);
    lemma_le_bytes_len(v / 256, (n - 1) as nat);
    lemma_pow0(2);
    assert(le_bytes(v, n) == seq![(v % 256) as u8].add(le_bytes(v / 256, (n - 1) as nat)));
    if k == 0 {
        lemma2_to64();
        assert(v / pow2(0) == v);
    } else {
        lemma_le_bytes_index(v / 256, (n - 1) as nat, k - 1);
        assert(le_bytes(v, n)[k] == le_bytes(v / 256, (n - 1) as nat)[k - 1]);
        lemma_pow2_adds(8, (8 * (k - 1)) as nat);
        lemma2_to64();
        lemma_pow2_pos((8 * (k - 1)) as nat);
        lemma_div_denominator(v as int, 256, pow2((8 * (k - 1)) as nat) as int);
        assert((8 * k) as nat == 8 + (8 * (k - 1)) as nat);
    }
}

/// Bit `i` of the little-endian layout of `v`.
proof fn lemma_bit_at_le_bytes(v: nat, n: nat, i: int)
    requires
        0 <= i < 8 * n,
    ensures
        bit_at(le_bytes(v, n), i) == (v / pow2(i as nat)) % 2,
{
    let k = i / 8;
    let s = i % 8;
    lemma_le_bytes_len(v, n);
    lemma_pow2_pos((8 * k) as nat);
    lemma_le_bytes_index(v, n, k);
    let big = v / pow2((8 * k) as nat);
    let b = (big % 256) as u8;
    assert(le_bytes(v, n)[i / 8] == b);
    lemma_u8_shr_is_div(b, s as u8);
    let y = b >> (s as u8);
    assert((y & 1u8) == y % 2) by (bit_vector);
    lemma2_to64();
    let a = pow2(s as nat) as int;
    let c = pow2((8 - s) as nat) as int;
    lemma_pow2_pos(s as nat);
    lemma_pow2_pos((8 - s) as nat);
    lemma_pow2_adds(s as nat, (8 - s) as nat);
    assert(a * c == 256);
    lemma_mod_breakdown(big as int, a, c);
    let q = (big as int / a) % c;
    let r = big as int % a;
    lemma_fundamental_div_mod_converse_div(big as int % 256, a, q, r);
    assert(b as int / a == q);
    lemma_pow2_adds(1, (7 - s) as nat);
    lemma_mod_mod(big as int / a, 2, pow2((7 - s) as nat) as int);
    lemma_pow2_pos((8 * k) as nat);
    lemma_div_denominator(v as int, pow2((8 * k) as nat) as int, a);
    lemma_pow2_adds((8 * k) as nat, s as nat);
    assert(i == 8 * k + s);
}

/// Reading a field out of the little-endian layout of `v` gives the bits of
/// `v` at its offset.
pub proof fn lemma_bits_value_le_bytes(v: nat, n: nat, off: int, w: nat)
    requires
        0 <= off,
        off + w <= 8 * n,
    ensures
        bits_value(le_bytes(v, n), off, w) == (v / pow2(off as nat)) % pow2(w),
    decreases w,
{
    lemma_pow0(2);
    lemma_pow2_pos(off as nat);
    if w == 0 {
    } else {
        lemma_bit_at_le_bytes(v, n, off);
        lemma_bits_value_le_bytes(v, n, off + 1, (w - 1) as nat);
        let x = v as int / pow2(off as nat) as int;
        lemma_pow2_adds(off as nat, 1);
        lemma2_to64();
        lemma_div_denominator(v as int, pow2(off as nat) as int, 2);
        lemma_pow2_pos((w - 1) as nat);
        lemma_mod_breakdown(x, 2, pow2((w - 1) as nat) as int);
        lemma_pow2_unfold(w);
    }
}

} // verus!
