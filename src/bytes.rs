//! Fixed-width little-endian integers in a column's data buffer, and the validity bitmap.
use vstd::prelude::*;

verus! {

/// 256^n.
pub open spec fn pow256(n: nat) -> nat
    decreases n,
{
    if n == 0 {
        1
    } else {
        256 * pow256((n - 1) as nat)
    }
}

/// The unsigned integer that bytes stand for, least significant byte first.
pub open spec fn le_nat(s: Seq<u8>) -> nat
    decreases s.len(),
{
    if s.len() == 0 {
        0
    } else {
        s[0] as nat + 256 * le_nat(s.drop_first())
    }
}

/// The two's-complement reading of an unsigned value of `width` bytes.
pub open spec fn signed_of(u: nat, width: nat) -> int {
    if u >= pow256(width) / 2 {
        u - pow256(width)
    } else {
        u as int
    }
}

/// The bytes of cell `row` in a buffer of cells of `width` bytes.
pub open spec fn cell_bytes(data: Seq<u8>, row: int, width: int) -> Seq<u8> {
    data.subrange(row * width, row * width + width)
}

/// Whether cell `row` lies inside a buffer of cells of `width` bytes.
pub open spec fn cell_in_bounds(len: int, row: int, width: int) -> bool {
    row * width + width <= len
}

pub proof fn lemma_le_nat_bound(s: Seq<u8>)
    ensures
        le_nat(s) < pow256(s.len()),
    decreases s.len(),
{
    if s.len() > 0 {
        lemma_le_nat_bound(s.drop_first());
        let t = le_nat(s.drop_first());
        assert(s[0] as nat + 256 * t < 256 * pow256((s.len() - 1) as nat)) by (nonlinear_arith)
            requires
                t < pow256((s.len() - 1) as nat),
                s[0] < 256,
        ;
    }
}

pub proof fn lemma_pow256_facts()
    ensures
        pow256(1) == 0x100,
        pow256(2) == 0x1_0000,
        pow256(4) == 0x1_0000_0000,
        pow256(8) == 0x1_0000_0000_0000_0000,
{
    reveal_with_fuel(pow256, 9);
}

/// Reads the unsigned little-endian integer of `width` bytes at `start`.
pub fn read_le(data: &Vec<u8>, start: usize, width: usize) -> (r: u64)
    requires
        width <= 8,
        start + width <= data@.len(),
    ensures
        r as nat == le_nat(data@.subrange(start as int, start + width)),
{
    let len = data.len();
    let mut acc: u64 = 0;
    let mut i: usize = width;
    proof {
        lemma_pow256_facts();
        assert(data@.subrange(start + i, start + width).len() == 0);
    }
    while i > 0
        invariant
            i <= width <= 8,
            start + width <= data@.len(),
            len == data@.len(),
            acc as nat == le_nat(data@.subrange(start + i, start + width)),
            pow256((width - i) as nat) <= pow256(8),
        decreases i,
    {
        let ghost prev = data@.subrange(start + i, start + width);
        i = i - 1;
        let ghost cur = data@.subrange(start + i, start + width);
        proof {
            assert(cur.drop_first() =~= prev);
            lemma_le_nat_bound(prev);
            lemma_pow256_facts();
            lemma_pow256_mono((width - i - 1) as nat, 7);
            assert(pow256(8) == 256 * pow256(7));
            assert(acc < pow256(7));
            assert(acc * 256 + 255 < pow256(8)) by (nonlinear_arith)
                requires
                    acc < pow256(7),
                    pow256(8) == 256 * pow256(7),
            ;
            lemma_pow256_mono((width - i) as nat, 8);
            assert(acc * 256 + 255 < 0x1_0000_0000_0000_0000);
        }
        let b = data[start + i] as u64;
        let m = acc * 256;
        acc = b + m;
    }
    acc
}

pub proof fn lemma_pow256_mono(a: nat, b: nat)
    requires
        a <= b,
    ensures
        pow256(a) <= pow256(b),
    decreases b,
{
    if a < b {
        lemma_pow256_mono(a, (b - 1) as nat);
    }
}

/// Whether bit `k` of `w` is set.
pub open spec fn bit_set(w: u64, k: u64) -> bool {
    (w >> k) & 1 == 1
}

/// Whether row `row` holds a value: every row does where there is no bitmap; otherwise the
/// bitmap's bit for the row, with rows past the bitmap holding none.
pub open spec fn row_is_valid(validity: Option<Seq<u64>>, row: int) -> bool {
    match validity {
        None => true,
        Some(w) => 0 <= row && row / 64 < w.len() && bit_set(w[row / 64], (row % 64) as u64),
    }
}

/// Looks up row `row` in a validity bitmap.
pub fn validity_row_is_valid(validity: &Option<Vec<u64>>, row: u64) -> (r: bool)
    ensures
        r == row_is_valid(
            match validity {
                None => None,
                Some(v) => Some(v@),
            },
            row as int,
        ),
{
    match validity {
        None => true,
        Some(words) => {
            let idx = row / 64;
            if idx < words.len() as u64 {
                let w = words[idx as usize];
                (w >> (row % 64)) & 1 == 1
            } else {
                false
            }
        },
    }
}

/// The `n` bytes of `u` modulo 256^n, least significant first.
pub open spec fn le_bytes(u: nat, n: nat) -> Seq<u8>
    decreases n,
{
    if n == 0 {
        Seq::empty()
    } else {
        seq![(u % 256) as u8] + le_bytes(u / 256, (n - 1) as nat)
    }
}

/// Reading back the bytes of a value that fits gives the value.
pub proof fn lemma_le_round_trip(u: nat, n: nat)
    requires
        u < pow256(n),
    ensures
        le_bytes(u, n).len() == n,
        le_nat(le_bytes(u, n)) == u,
    decreases n,
{
    if n > 0 {
        assert(u / 256 < pow256((n - 1) as nat)) by {
            vstd::arithmetic::div_mod::lemma_div_is_ordered(u as int, (256 * pow256((n - 1) as nat) - 1) as int, 256);
            vstd::arithmetic::div_mod::lemma_div_multiples_vanish_fancy(pow256((n - 1) as nat) as int - 1, 255, 256);
        }
        lemma_le_round_trip(u / 256, (n - 1) as nat);
        let s = le_bytes(u, n);
        assert(s.drop_first() =~= le_bytes(u / 256, (n - 1) as nat));
        vstd::arithmetic::div_mod::lemma_fundamental_div_mod(u as int, 256);
    }
}

/// The unsigned form of `v` in `n` bytes: `v` modulo 256^n.
pub open spec fn unsigned_of(v: int, n: nat) -> nat {
    (v % (pow256(n) as int)) as nat
}

/// Every integer of the signed range of `n` bytes is read back from its two's-complement bytes.
pub proof fn lemma_signed_round_trip(v: int, n: nat)
    requires
        n > 0,
        -(pow256(n) / 2) <= v < pow256(n) / 2,
    ensures
        le_bytes(unsigned_of(v, n), n).len() == n,
        le_nat(le_bytes(unsigned_of(v, n), n)) == unsigned_of(v, n),
        signed_of(unsigned_of(v, n), n) == v,
{
    let p = pow256(n) as int;
    assert(p == 256 * pow256((n - 1) as nat));
    assert(p % 2 == 0);
    vstd::arithmetic::div_mod::lemma_fundamental_div_mod(v, p);
    let u = v % p;
    if v >= 0 {
        vstd::arithmetic::div_mod::lemma_fundamental_div_mod_converse(v, p, 0, v);
    } else {
        vstd::arithmetic::div_mod::lemma_fundamental_div_mod_converse(v, p, -1, v + p);
    }
    lemma_le_round_trip(u as nat, n);
}

/// The `width` little-endian bytes of `u` modulo 256^width.
pub fn encode_le(u: u64, width: usize) -> (r: Vec<u8>)
    requires
        width <= 8,
    ensures
        r@ == le_bytes(u as nat, width as nat),
{
    let mut r: Vec<u8> = Vec::new();
    let mut rest: u64 = u;
    let mut i: usize = 0;
    while i < width
        invariant
            i <= width,
            r@ + le_bytes(rest as nat, (width - i) as nat) == le_bytes(u as nat, width as nat),
        decreases width - i,
    {
        let ghost before = le_bytes(rest as nat, (width - i) as nat);
        r.push((rest % 256) as u8);
        proof {
            assert(before == seq![(rest % 256) as u8] + le_bytes((rest / 256) as nat, (width - i - 1) as nat));
        }
        rest = rest / 256;
        i = i + 1;
        proof {
            assert(r@ + le_bytes(rest as nat, (width - i) as nat) =~= le_bytes(u as nat, width as nat));
        }
    }
    assert(le_bytes(rest as nat, 0) =~= Seq::<u8>::empty());
    assert(r@ =~= le_bytes(u as nat, width as nat));
    r
}

} // verus!
