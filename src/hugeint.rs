//! Two-limb form of 128-bit integers as the engine stores them.
use vstd::prelude::*;

verus! {

/// 2^64, the weight of the upper limb.
pub const LIMB: u128 = 0x1_0000_0000_0000_0000;

/// A 128-bit signed integer split into a signed upper limb and an unsigned lower limb.
#[derive(Clone, Copy, Debug, PartialEq, Eq, Structural)]
pub struct Hugeint {
    pub lower: u64,
    pub upper: i64,
}

/// The integer that a two-limb value stands for: `upper * 2^64 + lower`.
pub open spec fn hugeint_value(h: Hugeint) -> int {
    h.upper as int * LIMB as int + h.lower as int
}

/// The two-limb form of `v`: the floor quotient and the remainder by 2^64.
pub open spec fn hugeint_of(v: int) -> Hugeint {
    Hugeint { lower: (v % (LIMB as int)) as u64, upper: (v / (LIMB as int)) as i64 }
}

/// Reassembles the integer from its two limbs.
pub fn i128_from_hugeint(hugeint: Hugeint) -> (r: i128)
    ensures
        r as int == hugeint_value(hugeint),
{
    let up = hugeint.upper as i128;
    let low = hugeint.lower as i128;
    proof {
        assert(-0x8000_0000_0000_0000 <= up < 0x8000_0000_0000_0000);
        assert(up * 0x1_0000_0000_0000_0000 <= 0x7fff_ffff_ffff_ffff * 0x1_0000_0000_0000_0000)
            by (nonlinear_arith)
            requires up < 0x8000_0000_0000_0000;
        assert(up * 0x1_0000_0000_0000_0000 >= -0x8000_0000_0000_0000 * 0x1_0000_0000_0000_0000)
            by (nonlinear_arith)
            requires up >= -0x8000_0000_0000_0000;
    }
    up * 0x1_0000_0000_0000_0000 + low
}

/// Splits an integer into its exact two's-complement limbs.
pub fn hugeint_from_i128(hugeint: i128) -> (r: Hugeint)
    ensures
        r == hugeint_of(hugeint as int),
        hugeint_value(r) == hugeint as int,
{
    // shift into [0, 2^128) by adding 2^127, so that only unsigned division is needed
    let w: u128 = if hugeint >= 0 {
        hugeint as u128 + 0x8000_0000_0000_0000_0000_0000_0000_0000
    } else {
        ((hugeint + 1) + 0x7fff_ffff_ffff_ffff_ffff_ffff_ffff_ffff) as u128
    };
    assert(w as int == hugeint as int + 0x8000_0000_0000_0000_0000_0000_0000_0000);
    let q: u128 = w / LIMB;
    let lower: u64 = (w % LIMB) as u64;
    let upper: i64 = (q as i128 - 0x8000_0000_0000_0000) as i64;
    let r = Hugeint { lower, upper };
    proof {
        lemma_split(hugeint as int, w as int);
    }
    r
}

proof fn lemma_split(v: int, w: int)
    requires
        w == v + 0x8000_0000_0000_0000_0000_0000_0000_0000,
        w >= 0,
    ensures
        w % (LIMB as int) == v % (LIMB as int),
        w / (LIMB as int) - 0x8000_0000_0000_0000 == v / (LIMB as int),
{
    let l = LIMB as int;
    vstd::arithmetic::div_mod::lemma_fundamental_div_mod(v, l);
    let q = v / l;
    let r = v % l;
    assert(w == (q + 0x8000_0000_0000_0000) * l + r) by (nonlinear_arith)
        requires
            w == v + 0x8000_0000_0000_0000_0000_0000_0000_0000,
            v == l * q + r,
            l == 0x1_0000_0000_0000_0000int,
    ;
    vstd::arithmetic::div_mod::lemma_fundamental_div_mod_converse(w, l, q + 0x8000_0000_0000_0000, r);
}

/// Decoding the two-limb form of any 128-bit integer gives the integer back.
pub proof fn lemma_hugeint_round_trip(v: i128)
    ensures
        hugeint_value(hugeint_of(v as int)) == v as int,
{
    let l = LIMB as int;
    vstd::arithmetic::div_mod::lemma_fundamental_div_mod(v as int, l);
    assert(-0x8000_0000_0000_0000 <= v as int / l < 0x8000_0000_0000_0000) by {
        vstd::arithmetic::div_mod::lemma_div_is_ordered(v as int, 0x7fff_ffff_ffff_ffff_ffff_ffff_ffff_ffff, l);
        vstd::arithmetic::div_mod::lemma_div_is_ordered(-0x8000_0000_0000_0000_0000_0000_0000_0000, v as int, l);
        assert(0x7fff_ffff_ffff_ffff_ffff_ffff_ffff_ffffint / l == 0x7fff_ffff_ffff_ffff);
        assert(-0x8000_0000_0000_0000_0000_0000_0000_0000int / l == -0x8000_0000_0000_0000);
    }
}

/// Every pair of limbs is the two-limb form of the integer it stands for.
pub proof fn lemma_hugeint_canonical(h: Hugeint)
    ensures
        hugeint_of(hugeint_value(h)) == h,
{
    let l = LIMB as int;
    vstd::arithmetic::div_mod::lemma_fundamental_div_mod_converse(
        hugeint_value(h), l, h.upper as int, h.lower as int);
}

} // verus!
