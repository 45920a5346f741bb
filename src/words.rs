//! Decoding of packed machine-word payloads and colour values.

use vstd::prelude::*;

verus! {

/// The 16-bit field of `word` that starts at bit `16 * index`.
pub open spec fn word16(word: int, index: nat) -> int {
    (word / pow2_16(index)) % 0x1_0000
}

/// `2` raised to `16 * index`.
pub open spec fn pow2_16(index: nat) -> int
    decreases index,
{
    if index == 0 {
        1
    } else {
        0x1_0000 * pow2_16((index - 1) as nat)
    }
}

/// The high-order 16 bits of the low 32 bits of `word`.
pub fn hiword(word: usize) -> (r: usize)
    ensures
        r == (word / 0x1_0000) % 0x1_0000,
        r == word16(word as int, 1),
{
    let r = (word >> 16usize) & 0xffffusize;
    assert(r == (word / 0x1_0000) % 0x1_0000) by (bit_vector)
        requires
            r == (word >> 16usize) & 0xffffusize,
    ;
    assert(pow2_16(1) == 0x1_0000) by {
        reveal_with_fuel(pow2_16, 2);
    }
    r
}

/// The low-order 16 bits of `word`.
pub fn loword(word: usize) -> (r: usize)
    ensures
        r == word % 0x1_0000,
        r == word16(word as int, 0),
{
    let r = word & 0xffffusize;
    assert(r == word % 0x1_0000) by (bit_vector)
        requires
            r == word & 0xffffusize,
    ;
    assert(pow2_16(0) == 1);
    r
}

/// A colour reference: red in the low byte, then green, then blue.
pub fn rgb(r: u8, g: u8, b: u8) -> (c: u32)
    ensures
        c == r as int + 0x100 * g as int + 0x1_0000 * b as int,
{
    let r32: u32 = r as u32;
    let g32: u32 = g as u32;
    let b32: u32 = b as u32;
    let c = r32 | (g32 << 8u32) | (b32 << 16u32);
    assert(c == r32 + 0x100 * g32 + 0x1_0000 * b32) by (bit_vector)
        requires
            c == r32 | (g32 << 8u32) | (b32 << 16u32),
            r32 < 0x100,
            g32 < 0x100,
            b32 < 0x100,
    ;
    c
}

} // verus!
