//! Flag register algebra and the pure arithmetic shared by every
//! instruction variant.
use vstd::prelude::*;

verus! {

/// Bit of the Zero flag in the flag register.
pub const Z_MASK: u8 = 0x80;
/// Bit of the Subtract flag in the flag register.
pub const N_MASK: u8 = 0x40;
/// Bit of the Half-carry flag in the flag register.
pub const H_MASK: u8 = 0x20;
/// Bit of the Carry flag in the flag register.
pub const C_MASK: u8 = 0x10;

pub open spec fn z_of(f: u8) -> bool {
    f & 0x80 == 0x80
}

pub open spec fn n_of(f: u8) -> bool {
    f & 0x40 == 0x40
}

pub open spec fn h_of(f: u8) -> bool {
    f & 0x20 == 0x20
}

pub open spec fn c_of(f: u8) -> bool {
    f & 0x10 == 0x10
}

/// The flag register holding exactly the four given flags; its low nibble is zero.
pub open spec fn flags_of(z: bool, n: bool, h: bool, c: bool) -> u8 {
    (if z { 0x80u8 } else { 0u8 }) | (if n { 0x40u8 } else { 0u8 }) | (if h { 0x20u8 } else {
        0u8
    }) | (if c { 0x10u8 } else { 0u8 })
}

/// A flag register value is well formed when its low nibble is zero.
pub open spec fn flags_wf(f: u8) -> bool {
    f & 0x0F == 0
}

/// Reading a flag back from `flags_of` gives the flag that went in.
pub proof fn lemma_flags_of(z: bool, n: bool, h: bool, c: bool)
    ensures
        z_of(flags_of(z, n, h, c)) == z,
        n_of(flags_of(z, n, h, c)) == n,
        h_of(flags_of(z, n, h, c)) == h,
        c_of(flags_of(z, n, h, c)) == c,
        flags_wf(flags_of(z, n, h, c)),
{
    let f = flags_of(z, n, h, c);
    assert(z_of(f) == z && n_of(f) == n && h_of(f) == h && c_of(f) == c && flags_wf(f))
        by (bit_vector)
        requires
            f == (if z { 0x80u8 } else { 0u8 }) | (if n { 0x40u8 } else { 0u8 }) | (if h {
                0x20u8
            } else {
                0u8
            }) | (if c { 0x10u8 } else { 0u8 }),
    ;
}

/// Builds the flag register from its four flags.
pub fn make_flags(z: bool, n: bool, h: bool, c: bool) -> (r: u8)
    ensures
        r == flags_of(z, n, h, c),
        z_of(r) == z,
        n_of(r) == n,
        h_of(r) == h,
        c_of(r) == c,
        flags_wf(r),
{
    proof {
        lemma_flags_of(z, n, h, c);
    }
    (if z { 0x80u8 } else { 0u8 }) | (if n { 0x40u8 } else { 0u8 }) | (if h { 0x20u8 } else {
        0u8
    }) | (if c { 0x10u8 } else { 0u8 })
}

/// Tests one flag of the flag register through its bit mask.
pub fn get_flag(f: u8, bit_mask: u8) -> (r: bool)
    ensures
        r == (f & bit_mask != 0),
        bit_mask == Z_MASK ==> r == z_of(f),
        bit_mask == N_MASK ==> r == n_of(f),
        bit_mask == H_MASK ==> r == h_of(f),
        bit_mask == C_MASK ==> r == c_of(f),
{
    assert(bit_mask == 0x80 ==> ((f & bit_mask != 0) == (f & 0x80 == 0x80))) by (bit_vector);
    assert(bit_mask == 0x40 ==> ((f & bit_mask != 0) == (f & 0x40 == 0x40))) by (bit_vector);
    assert(bit_mask == 0x20 ==> ((f & bit_mask != 0) == (f & 0x20 == 0x20))) by (bit_vector);
    assert(bit_mask == 0x10 ==> ((f & bit_mask != 0) == (f & 0x10 == 0x10))) by (bit_vector);
    f & bit_mask != 0
}

/// Carry out of bit 3 into bit 4 in an 8-bit addition.
pub open spec fn half_carry_add8(a: u8, b: u8) -> bool {
    (a & 0xF) + (b & 0xF) > 0xF
}

/// Borrow from bit 4 into bit 3 in an 8-bit subtraction.
pub open spec fn half_carry_sub8(a: u8, b: u8) -> bool {
    (a & 0xF) < (b & 0xF)
}

/// Carry out of bit 11 into bit 12 in a 16-bit addition.
pub open spec fn half_carry_add16(a: u16, b: u16) -> bool {
    (a & 0xFFF) + (b & 0xFFF) > 0xFFF
}

pub fn calc_half_carry_on_u8_sum(value_a: u8, value_b: u8) -> (r: bool)
    ensures
        r == half_carry_add8(value_a, value_b),
{
    assert((value_a & 0xF) <= 0xF && (value_b & 0xF) <= 0xF) by (bit_vector);
    let s: u8 = (value_a & 0xF) + (value_b & 0xF);
    assert(s <= 30 ==> ((s & 0x10 == 0x10) == (s > 0xF))) by (bit_vector);
    s & 0x10 == 0x10
}

pub fn calc_half_carry_on_u8_sub(value_a: u8, value_b: u8) -> (r: bool)
    ensures
        r == half_carry_sub8(value_a, value_b),
{
    (value_a & 0xF) < (value_b & 0xF)
}

pub fn calc_half_carry_on_u16_sum(value_a: u16, value_b: u16) -> (r: bool)
    ensures
        r == half_carry_add16(value_a, value_b),
{
    assert((value_a & 0xFFF) <= 0xFFF && (value_b & 0xFFF) <= 0xFFF) by (bit_vector);
    let s: u16 = (value_a & 0xFFF) + (value_b & 0xFFF);
    assert(s <= 0x1FFE ==> ((s & 0x1000 == 0x1000) == (s > 0xFFF))) by (bit_vector);
    s & 0x1000 == 0x1000
}

/// Wrapping 8-bit addition.
pub open spec fn add8(a: u8, b: u8) -> u8 {
    ((a + b) % 256) as u8
}

/// Wrapping 8-bit subtraction.
pub open spec fn sub8(a: u8, b: u8) -> u8 {
    ((a - b + 256) % 256) as u8
}

/// Flags after an 8-bit addition: Carry keeps its value from `f`.
pub open spec fn add_flags(a: u8, b: u8, f: u8) -> u8 {
    flags_of(add8(a, b) == 0, false, half_carry_add8(a, b), c_of(f))
}

/// Flags after an 8-bit subtraction or compare: Carry keeps its value from `f`.
pub open spec fn sub_flags(a: u8, b: u8, f: u8) -> u8 {
    flags_of(sub8(a, b) == 0, true, half_carry_sub8(a, b), c_of(f))
}

/// Flags after an exclusive-or with result `r`.
pub open spec fn xor_flags(r: u8) -> u8 {
    flags_of(r == 0, false, false, false)
}

/// The value after a 9-bit rotation left through the carry `carry`.
pub open spec fn rl8(v: u8, carry: bool) -> u8 {
    ((v << 1u8) | (if carry { 1u8 } else { 0u8 })) as u8
}

/// The carry after a rotation left: the outgoing bit 7.
pub open spec fn rl_carry(v: u8) -> bool {
    v & 0x80 == 0x80
}

/// Flags after a rotation left through the carry held in `f`.
pub open spec fn rl_flags(v: u8, f: u8) -> u8 {
    flags_of(rl8(v, c_of(f)) == 0, false, false, rl_carry(v))
}

/// One rotation left through the carry, on a value and a carry.
pub open spec fn rl_step(s: (u8, bool)) -> (u8, bool) {
    (rl8(s.0, s.1), rl_carry(s.0))
}

/// `n` rotations left through the carry.
pub open spec fn rl_iter(s: (u8, bool), n: nat) -> (u8, bool)
    decreases n,
{
    if n == 0 {
        s
    } else {
        rl_iter(rl_step(s), (n - 1) as nat)
    }
}

/// Flags after a bit test of `v` against `mask`: Zero is set when the masked
/// value differs from the mask, Half-carry is forced, Carry is kept.
pub open spec fn bit_flags(v: u8, mask: u8, f: u8) -> u8 {
    flags_of(v & mask != mask, false, true, c_of(f))
}

/// Wrapping 16-bit increment.
pub open spec fn inc16(v: u16) -> u16 {
    ((v + 1) % 65536) as u16
}

/// Flags after a 16-bit increment that reports its flags.
pub open spec fn inc16_flags(v: u16, f: u8) -> u8 {
    flags_of(inc16(v) == 0, false, half_carry_add16(v, 1), c_of(f))
}

/// Rotating left through the carry nine times, for any value and carry,
/// gives back the value and the carry that went in: the rotation runs over
/// nine bits.
pub proof fn lemma_rl_nine_cycle(v: u8, c: bool)
    ensures
        rl_iter((v, c), 9) == (v, c),
{
    reveal_with_fuel(rl_iter, 10);
    let s1 = rl_step((v, c));
    let s2 = rl_step(s1);
    let s3 = rl_step(s2);
    let s4 = rl_step(s3);
    let s5 = rl_step(s4);
    let s6 = rl_step(s5);
    let s7 = rl_step(s6);
    let s8 = rl_step(s7);
    let s9 = rl_step(s8);
    let (v1, c1) = s1;
    let (v2, c2) = s2;
    let (v3, c3) = s3;
    let (v4, c4) = s4;
    let (v5, c5) = s5;
    let (v6, c6) = s6;
    let (v7, c7) = s7;
    let (v8, c8) = s8;
    let (v9, c9) = s9;
    assert(v9 == v && c9 == c) by (bit_vector)
        requires
            v1 == ((v << 1u8) | (if c { 1u8 } else { 0u8 })) as u8,
            c1 == (v & 0x80 == 0x80),
            v2 == ((v1 << 1u8) | (if c1 { 1u8 } else { 0u8 })) as u8,
            c2 == (v1 & 0x80 == 0x80),
            v3 == ((v2 << 1u8) | (if c2 { 1u8 } else { 0u8 })) as u8,
            c3 == (v2 & 0x80 == 0x80),
            v4 == ((v3 << 1u8) | (if c3 { 1u8 } else { 0u8 })) as u8,
            c4 == (v3 & 0x80 == 0x80),
            v5 == ((v4 << 1u8) | (if c4 { 1u8 } else { 0u8 })) as u8,
            c5 == (v4 & 0x80 == 0x80),
            v6 == ((v5 << 1u8) | (if c5 { 1u8 } else { 0u8 })) as u8,
            c6 == (v5 & 0x80 == 0x80),
            v7 == ((v6 << 1u8) | (if c6 { 1u8 } else { 0u8 })) as u8,
            c7 == (v6 & 0x80 == 0x80),
            v8 == ((v7 << 1u8) | (if c7 { 1u8 } else { 0u8 })) as u8,
            c8 == (v7 & 0x80 == 0x80),
            v9 == ((v8 << 1u8) | (if c8 { 1u8 } else { 0u8 })) as u8,
            c9 == (v8 & 0x80 == 0x80),
    ;
}

} // verus!
