//! Numeric groundwork for the machine: 8-bit wraparound arithmetic,
//! 16-bit register-pair composition, modulo-2^16 address arithmetic,
//! and the parity (even popcount) function the flag logic uses.

use vstd::prelude::*;

verus! {

/// The whole addressable space: 65536 bytes.
pub const MEMORY_SIZE: usize = 0x10000;

/// A 16-bit quantity reduced modulo 2^16; program counter and stack
/// pointer wrap this way rather than trapping.
pub open spec fn wrap16(v: int) -> u16 {
    (v % 0x10000) as u16
}

/// A register pair read as one 16-bit value: high byte first.
pub open spec fn pair_val(hi: u8, lo: u8) -> u16 {
    (hi * 256 + lo) as u16
}

/// The high half of a 16-bit value.
pub open spec fn high_byte(v: u16) -> u8 {
    (v / 256) as u8
}

/// The low half of a 16-bit value.
pub open spec fn low_byte(v: u16) -> u8 {
    (v % 256) as u8
}

/// 8-bit increment with wraparound (0xff rolls over to 0x00).
pub open spec fn inc8(v: u8) -> u8 {
    if v == 255 { 0 } else { (v + 1) as u8 }
}

/// 8-bit decrement with wraparound (0x00 rolls under to 0xff).
pub open spec fn dec8(v: u8) -> u8 {
    if v == 0 { 255 } else { (v - 1) as u8 }
}

/// 8-bit subtraction with wraparound, as the compare instruction
/// computes it.
pub open spec fn sub8(a: u8, b: u8) -> u8 {
    if a >= b { (a - b) as u8 } else { (a + 256 - b) as u8 }
}

/// How many of the low `n` binary digits of `v` are ones.
pub open spec fn count_ones(v: u8, n: nat) -> nat
    decreases n,
{
    if n == 0 {
        0
    } else {
        ((v % 2) + count_ones((v / 2) as u8, (n - 1) as nat)) as nat
    }
}

/// True when the number of set bits in the byte is even; the meaning
/// of the parity condition flag.
pub open spec fn even_parity(v: u8) -> bool {
    count_ones(v, 8) % 2 == 0
}

/// Splitting a pair value gives back the two halves it was built from.
pub proof fn lemma_pair_split(hi: u8, lo: u8)
    ensures
        high_byte(pair_val(hi, lo)) == hi,
        low_byte(pair_val(hi, lo)) == lo,
{
}

/// Recombining the two halves of a 16-bit value gives the value back.
pub proof fn lemma_pair_recompose(v: u16)
    ensures
        pair_val(high_byte(v), low_byte(v)) == v,
{
}

/// Wrapping an already-wrapped value shifted by an offset is the same
/// as wrapping the shifted original.
pub proof fn lemma_wrap16_shift(x: int, k: int)
    requires
        0 <= k < 0x10000,
    ensures
        wrap16(wrap16(x) + k) == wrap16(x + k),
{
    assert(((x % 0x10000) + k) % 0x10000 == (x + k) % 0x10000) by (nonlinear_arith);
}

/// Two addresses one apart stay distinct after wrapping: the modulus
/// is larger than one.
pub proof fn lemma_wrap16_adjacent_distinct(x: int)
    ensures
        wrap16(x) != wrap16(x - 1),
{
    assert(x % 0x10000 != (x - 1) % 0x10000) by (nonlinear_arith);
}

/// Counts the one bits among the low `size` binary digits of `x` and
/// reports whether that count is even.
pub fn parity(x: u8, size: usize) -> (r: bool)
    ensures
        r == (count_ones(x, size as nat) % 2 == 0),
{
    let mut ones: usize = 0;
    let mut v: u8 = x;
    let mut i: usize = 0;
    while i < size
        invariant
            i <= size,
            ones <= i,
            count_ones(x, size as nat) == ones + count_ones(v, (size - i) as nat),
        decreases size - i,
    {
        if v % 2 == 1 {
            ones = ones + 1;
        }
        v = v / 2;
        i = i + 1;
    }
    ones % 2 == 0
}

/// Addition of two 16-bit values, wrapping modulo 2^16.
pub fn wrap_add16(a: u16, b: u16) -> (r: u16)
    ensures
        r == wrap16(a + b),
{
    let sum: u32 = a as u32 + b as u32;
    (sum % 0x10000) as u16
}

/// Subtraction of two 16-bit values, wrapping modulo 2^16.
pub fn wrap_sub16(a: u16, b: u16) -> (r: u16)
    ensures
        r == wrap16(a - b),
{
    if a >= b {
        a - b
    } else {
        let r = (0x10000u32 + a as u32 - b as u32) as u16;
        proof {
            lemma_small_mod_shift(a - b, 0x10000);
        }
        r
    }
}

/// A value in [-m, 0) shifted up by one modulus is its value mod m.
proof fn lemma_small_mod_shift(v: int, m: int)
    requires
        m > 0,
        -m <= v < 0,
    ensures
        v % m == v + m,
{
    assert((v + m) % m == v % m) by (nonlinear_arith)
        requires m > 0;
    assert((v + m) % m == v + m) by (nonlinear_arith)
        requires 0 <= v + m < m;
}

/// Reads a register pair as one 16-bit value, high byte first.
pub fn pair_value(hi: u8, lo: u8) -> (r: u16)
    ensures
        r == pair_val(hi, lo),
{
    (hi as u16) * 256 + (lo as u16)
}

/// The high half of a 16-bit value.
pub fn split_high(v: u16) -> (r: u8)
    ensures
        r == high_byte(v),
{
    (v / 256) as u8
}

/// The low half of a 16-bit value.
pub fn split_low(v: u16) -> (r: u8)
    ensures
        r == low_byte(v),
{
    (v % 256) as u8
}

} // verus!
