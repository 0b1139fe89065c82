//! Digits: decimal and hexadecimal text, and little-endian bytes.
use vstd::arithmetic::power2::*;
use vstd::prelude::*;

verus! {

pub open spec fn is_digit(b: u8) -> bool {
    48 <= b <= 57
}

pub open spec fn is_hex_digit(b: u8) -> bool {
    (48 <= b <= 57) || (65 <= b <= 70) || (97 <= b <= 102)
}

pub open spec fn hex_digit_value(b: u8) -> nat {
    if 48 <= b <= 57 {
        (b - 48) as nat
    } else if 65 <= b <= 70 {
        (b - 55) as nat
    } else {
        (b - 87) as nat
    }
}

/// The value of a string of hexadecimal digits, most significant first.
pub open spec fn hex_value(s: Seq<u8>) -> nat
    decreases s.len(),
{
    if s.len() == 0 {
        0
    } else {
        16 * hex_value(s.drop_last()) + hex_digit_value(s.last())
    }
}

pub open spec fn all_hex(s: Seq<u8>) -> bool {
    forall|i: int| 0 <= i < s.len() ==> is_hex_digit(#[trigger] s[i])
}

/// The ASCII lower-case hexadecimal digit of `d < 16`.
pub open spec fn hex_digit_char(d: nat) -> u8 {
    if d < 10 {
        (48 + d) as u8
    } else {
        (87 + d) as u8
    }
}

/// The `n` low hexadecimal digits of `x`, most significant first, in lower
/// case and padded with zeros.
pub open spec fn hex_text(x: nat, n: nat) -> Seq<u8>
    decreases n,
{
    if n == 0 {
        seq![]
    } else {
        hex_text(x / 16, (n - 1) as nat).push(hex_digit_char(x % 16))
    }
}

/// Reading the `n`-digit text of `x` gives `x` modulo `16^n`.
pub proof fn lemma_hex_text_value(x: nat, n: nat)
    ensures
        hex_text(x, n).len() == n,
        all_hex(hex_text(x, n)),
        hex_value(hex_text(x, n)) == x % pow2(4 * n),
    decreases n,
{
    vstd::arithmetic::power::lemma_pow0(2);
    lemma2_to64();
    if n > 0 {
        lemma_hex_text_value(x / 16, (n - 1) as nat);
        let s = hex_text(x, n);
        let t = hex_text(x / 16, (n - 1) as nat);
        assert(s.drop_last() =~= t);
        assert forall|i: int| 0 <= i < s.len() implies is_hex_digit(#[trigger] s[i]) by {
            if i < t.len() {
                assert(s[i] == t[i]);
            }
        }
        lemma_pow2_adds(4, 4 * (n - 1) as nat);
        assert(4 * n == 4 + 4 * (n - 1) as nat);
        lemma_pow2_pos(4 * (n - 1) as nat);
        vstd::arithmetic::div_mod::lemma_mod_breakdown(x as int, 16, pow2(4 * (n - 1) as nat) as int);
    }
}

/// The decimal digits of `n`, in ASCII, most significant first.
pub open spec fn decimal(n: nat) -> Seq<u8>
    decreases n,
{
    if n < 10 {
        seq![(48 + n) as u8]
    } else {
        decimal(n / 10).push((48 + n % 10) as u8)
    }
}

/// The `n` low bytes of `v`, least significant first.
pub open spec fn le_bytes(v: nat, n: nat) -> Seq<u8>
    decreases n,
{
    if n == 0 {
        seq![]
    } else {
        seq![(v % 256) as u8].add(le_bytes(v / 256, (n - 1) as nat))
    }
}

pub proof fn lemma_le_bytes_len(v: nat, n: nat)
    ensures
        le_bytes(v, n).len() == n,
    decreases n,
{
    if n > 0 {
        lemma_le_bytes_len(v / 256, (n - 1) as nat);
    }
}

pub proof fn lemma_hex_value_bound(s: Seq<u8>)
    requires
        all_hex(s),
    ensures
        hex_value(s) < pow2(4 * s.len()),
    decreases s.len(),
{
    vstd::arithmetic::power::lemma_pow0(2);
    if s.len() > 0 {
        let t = s.drop_last();
        assert(all_hex(t)) by {
            assert forall|i: int| 0 <= i < t.len() implies is_hex_digit(#[trigger] t[i]) by {
                assert(t[i] == s[i]);
            }
        }
        lemma_hex_value_bound(t);
        assert(is_hex_digit(s[s.len() - 1]));
        lemma_pow2_adds(4 * t.len(), 4);
        lemma2_to64();
        assert(4 * s.len() == 4 * t.len() + 4);
    }
}

pub fn hex_digit(b: u8) -> (r: u64)
    requires
        is_hex_digit(b),
    ensures
        r == hex_digit_value(b),
{
    if b <= 57 {
        (b - 48) as u64
    } else if b <= 70 {
        (b - 55) as u64
    } else {
        (b - 87) as u64
    }
}

/// The value of the hexadecimal digits `s[start..end]`, at most 16 of them.
pub fn parse_hex(s: &[u8], start: usize, end: usize) -> (r: u64)
    requires
        start <= end <= s@.len(),
        end - start <= 16,
        all_hex(s@.subrange(start as int, end as int)),
    ensures
        r == hex_value(s@.subrange(start as int, end as int)),
{
    let mut v: u64 = 0;
    let mut i = start;
    while i < end
        invariant
            start <= i <= end <= s@.len(),
            end - start <= 16,
            all_hex(s@.subrange(start as int, end as int)),
            v == hex_value(s@.subrange(start as int, i as int)),
        decreases end - i,
    {
        let ghost t = s@.subrange(start as int, (i + 1) as int);
        proof {
            assert(t.drop_last() =~= s@.subrange(start as int, i as int));
            assert(s@.subrange(start as int, end as int)[i - start] == s@[i as int]);
            assert(all_hex(t)) by {
                assert forall|j: int| 0 <= j < t.len() implies is_hex_digit(#[trigger] t[j]) by {
                    assert(t[j] == s@.subrange(start as int, end as int)[j]);
                }
            }
            lemma_hex_value_bound(t);
            lemma2_to64();
            lemma2_to64_rest();
            if t.len() < 16 {
                lemma_pow2_strictly_increases(4 * t.len(), 64);
            }
        }
        let d = hex_digit(s[i]);
        v = 16 * v + d;
        i = i + 1;
    }
    v
}

/// Appends the decimal digits of `v`.
pub fn push_decimal(v: u64, out: &mut Vec<u8>)
    ensures
        final(out)@ == old(out)@ + decimal(v as nat),
    decreases v,
{
    if v >= 10 {
        push_decimal(v / 10, out);
    }
    out.push(48 + (v % 10) as u8);
    proof {
        if v < 10 {
            assert(decimal(v as nat) == seq![(48 + v) as u8]);
        }
    }
}

/// Appends the `n` low bytes of `v`, least significant first.
pub fn push_le_bytes(v: u64, n: usize, out: &mut Vec<u8>)
    ensures
        final(out)@ == old(out)@ + le_bytes(v as nat, n as nat),
        le_bytes(v as nat, n as nat).len() == n,
{
    proof {
        lemma_le_bytes_len(v as nat, n as nat);
    }
    let ghost start = out@;
    let mut w = v;
    let mut i: usize = 0;
    while i < n
        invariant
            i <= n,
            out@ + le_bytes(w as nat, (n - i) as nat) == start + le_bytes(v as nat, n as nat),
        decreases n - i,
    {
        let ghost before = out@;
        out.push((w % 256) as u8);
        proof {
            assert(le_bytes(w as nat, (n - i) as nat) == seq![(w % 256) as u8].add(
                le_bytes((w / 256) as nat, (n - i - 1) as nat),
            ));
            assert(out@ + le_bytes((w / 256) as nat, (n - i - 1) as nat) =~= before + le_bytes(
                w as nat,
                (n - i) as nat,
            ));
        }
        w = w / 256;
        i = i + 1;
    }
    proof {
        assert(le_bytes(w as nat, 0) =~= seq![]);
        assert(out@ =~= out@ + le_bytes(w as nat, 0));
    }
}

} // verus!
