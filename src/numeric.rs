//! Integer square roots and the geometric means built on them.
use vstd::prelude::*;

verus! {

/// `r` is the integer square root of `n`: its square does not exceed `n`, the next one does.
pub open spec fn is_floor_sqrt(n: nat, r: nat) -> bool {
    r * r <= n < (r + 1) * (r + 1)
}

/// The largest natural number whose square does not exceed `n`.
pub open spec fn floor_sqrt(n: nat) -> nat {
    choose|r: nat| #[trigger] is_floor_sqrt(n, r)
}

/// The absolute value of an integer, as a natural number.
pub open spec fn abs_int(x: int) -> nat {
    if x < 0 { (-x) as nat } else { x as nat }
}

/// At most one natural number has its square at or below `n` and the next square above it.
pub proof fn lemma_sqrt_unique(n: nat, r: nat, s: nat)
    requires
        r * r <= n < (r + 1) * (r + 1),
        s * s <= n < (s + 1) * (s + 1),
    ensures
        r == s,
{
    if r < s {
        assert((r + 1) * (r + 1) <= s * s) by (nonlinear_arith)
            requires r + 1 <= s;
    } else if s < r {
        assert((s + 1) * (s + 1) <= r * r) by (nonlinear_arith)
            requires s + 1 <= r;
    }
}

/// `floor_sqrt(n)` is the one number `r` with `r * r <= n < (r + 1) * (r + 1)`.
pub proof fn lemma_floor_sqrt(n: nat, r: nat)
    requires
        r * r <= n < (r + 1) * (r + 1),
    ensures
        floor_sqrt(n) == r,
{
    assert(is_floor_sqrt(n, r));
    let s = floor_sqrt(n);
    assert(s * s <= n < (s + 1) * (s + 1));
    lemma_sqrt_unique(n, r, s);
}

/// The square root of a perfect square is its root.
pub proof fn lemma_floor_sqrt_square(x: nat)
    ensures
        floor_sqrt(x * x) == x,
{
    assert(x * x < (x + 1) * (x + 1)) by (nonlinear_arith);
    lemma_floor_sqrt(x * x, x);
}

/// Integer square root of a 64-bit number, by bisection.
fn isqrt(n: u64) -> (r: u64)
    ensures
        r == floor_sqrt(n as nat),
        is_floor_sqrt(n as nat, r as nat),
        r <= 0xffff_ffff,
{
    let mut lo: u64 = 0;
    let mut hi: u64 = 0x1_0000_0000;
    assert(n < hi * hi) by (nonlinear_arith)
        requires hi == 0x1_0000_0000u64, n <= 0xffff_ffff_ffff_ffffu64;
    while hi - lo > 1
        invariant
            lo < hi <= 0x1_0000_0000,
            lo * lo <= n,
            n < hi * hi,
        decreases hi - lo,
    {
        let mid: u64 = lo + (hi - lo) / 2;
        assert(mid * mid <= 0x1_0000_0000u64 * 0x1_0000_0000u64) by (nonlinear_arith)
            requires mid <= 0x1_0000_0000u64;
        let sq: u128 = (mid as u128) * (mid as u128);
        if sq <= n as u128 {
            lo = mid;
        } else {
            hi = mid;
        }
    }
    assert(hi == lo + 1);
    proof {
        lemma_floor_sqrt(n as nat, lo as nat);
    }
    lo
}

/// Geometric mean of two magnitudes, rounded down: `floor(sqrt(a * b))`.
pub fn geo_mean(a: u32, b: u32) -> (r: u32)
    ensures
        r == floor_sqrt((a * b) as nat),
{
    assert(a * b <= 0xffff_ffffu32 * 0xffff_ffffu32) by (nonlinear_arith)
        requires a <= 0xffff_ffffu32, b <= 0xffff_ffffu32;
    let p: u64 = (a as u64) * (b as u64);
    isqrt(p) as u32
}

/// Negated geometric mean of the magnitudes of two levels: `-floor(sqrt(|a| * |b|))`.
pub fn neg_geo_mean(a: i32, b: i32) -> (r: i32)
    ensures
        r == -floor_sqrt(abs_int(a as int) * abs_int(b as int)),
{
    let ma: u64 = if a < 0 { (0i64 - a as i64) as u64 } else { a as u64 };
    let mb: u64 = if b < 0 { (0i64 - b as i64) as u64 } else { b as u64 };
    assert(ma * mb <= 0x8000_0000u64 * 0x8000_0000u64) by (nonlinear_arith)
        requires ma <= 0x8000_0000u64, mb <= 0x8000_0000u64;
    let root = isqrt(ma * mb);
    assert(root <= 0x8000_0000) by (nonlinear_arith)
        requires root * root <= ma * mb, ma * mb <= 0x8000_0000u64 * 0x8000_0000u64;
    (0i64 - root as i64) as i32
}

} // verus!
