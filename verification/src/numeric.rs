//! Fixed-point approximations of the natural logarithm and the decaying
//! exponential, on integers counting millionths.
//!
//! The lattice-gas free energy needs `ln` of densities `k/1000`, and the
//! Metropolis acceptance rule needs `exp(-x)` for a non-negative `x`. Both
//! are computed here in pure integer arithmetic: `ln` by normalizing the
//! argument into `[1, 2)` and summing the arctanh series, `exp` by Horner
//! evaluation of the Taylor series after splitting off powers of two.

use vstd::prelude::*;

verus! {

/// Truncating (round-toward-zero) signed division, the convention used for
/// every signed fixed-point quotient in this crate.
pub open spec fn tdiv(a: int, b: int) -> int {
    if a >= 0 {
        a / b
    } else {
        -((-a) / b)
    }
}

/// Power-of-two exponent of the normalization `k = m * 2^p`, `m in [1, 2)`,
/// for `1 <= k <= 1000`.
pub open spec fn spec_msb_shift(k: int) -> int {
    if k >= 512 {
        9
    } else if k >= 256 {
        8
    } else if k >= 128 {
        7
    } else if k >= 64 {
        6
    } else if k >= 32 {
        5
    } else if k >= 16 {
        4
    } else if k >= 8 {
        3
    } else if k >= 4 {
        2
    } else if k >= 2 {
        1
    } else {
        0
    }
}

/// Mantissa of the normalization of `k`, in millionths: `k / 2^spec_msb_shift(k)`
/// scaled by 1_000_000, which lands in `[1_000_000, 2_000_000)`.
pub open spec fn spec_mantissa_micro(k: int) -> int {
    if k >= 512 {
        k * 1_000_000 / 512
    } else if k >= 256 {
        k * 1_000_000 / 256
    } else if k >= 128 {
        k * 1_000_000 / 128
    } else if k >= 64 {
        k * 1_000_000 / 64
    } else if k >= 32 {
        k * 1_000_000 / 32
    } else if k >= 16 {
        k * 1_000_000 / 16
    } else if k >= 8 {
        k * 1_000_000 / 8
    } else if k >= 4 {
        k * 1_000_000 / 4
    } else if k >= 2 {
        k * 1_000_000 / 2
    } else {
        k * 1_000_000
    }
}

/// Truncated arctanh series `z + z^3/3 + ... + z^11/11` in millionths,
/// for `z` in `[0, 1/2)`; `ln m == 2 * atanh((m-1)/(m+1))`.
pub open spec fn spec_atanh_sum_micro(z: int) -> int {
    let zsq = z * z / 1_000_000;
    let u3 = z * zsq / 1_000_000;
    let u5 = u3 * zsq / 1_000_000;
    let u7 = u5 * zsq / 1_000_000;
    let u9 = u7 * zsq / 1_000_000;
    let u11 = u9 * zsq / 1_000_000;
    z + u3 / 3 + u5 / 5 + u7 / 7 + u9 / 9 + u11 / 11
}

/// `ln k` in millionths for `1 <= k <= 1000`:
/// `p * ln 2 + 2 * atanh((m-1)/(m+1))` after normalizing `k = m * 2^p`.
pub open spec fn spec_ln_pos_micro(k: int) -> int {
    let m = spec_mantissa_micro(k);
    let z = (m - 1_000_000) * 1_000_000 / (m + 1_000_000);
    spec_msb_shift(k) * 693_147 + 2 * spec_atanh_sum_micro(z)
}

/// `ln (k/1000)` in millionths for `1 <= k <= 999`; always negative,
/// obtained as `ln k - ln 1000`.
pub open spec fn spec_ln_frac_micro(k: int) -> int {
    spec_ln_pos_micro(k) - 6_907_755
}

/// One Horner step of the Taylor series of `exp(-r)`:
/// `1 - (r/n) * b`, in millionths.
pub open spec fn spec_horner_step(rem: int, b: int, n: int) -> int {
    1_000_000 - rem * b / (n * 1_000_000)
}

/// `exp(-rem)` in millionths for `0 <= rem < ln 2`, by a 12-term Horner
/// evaluation of the Taylor series.
pub open spec fn spec_exp_unit_micro(rem: int) -> int {
    let b12 = spec_horner_step(rem, 1_000_000, 12);
    let b11 = spec_horner_step(rem, b12, 11);
    let b10 = spec_horner_step(rem, b11, 10);
    let b9 = spec_horner_step(rem, b10, 9);
    let b8 = spec_horner_step(rem, b9, 8);
    let b7 = spec_horner_step(rem, b8, 7);
    let b6 = spec_horner_step(rem, b7, 6);
    let b5 = spec_horner_step(rem, b6, 5);
    let b4 = spec_horner_step(rem, b5, 4);
    let b3 = spec_horner_step(rem, b4, 3);
    let b2 = spec_horner_step(rem, b3, 2);
    spec_horner_step(rem, b2, 1)
}

/// `v / 2^n`, truncating at each halving.
pub open spec fn spec_halve(v: int, n: nat) -> int
    decreases n,
{
    if n == 0 {
        v
    } else {
        spec_halve(v / 2, (n - 1) as nat)
    }
}

/// `exp(-x)` in millionths for `x` in millionths: the argument is split as
/// `x = q * ln 2 + rem`, so `exp(-x) = exp(-rem) / 2^q`; arguments of 14 or
/// more give 0, below the resolution of one millionth.
pub open spec fn spec_exp_neg_micro(x: nat) -> int {
    if x >= 14_000_000 {
        0
    } else {
        spec_halve(spec_exp_unit_micro(x as int % 693_147), (x as int / 693_147) as nat)
    }
}

/// `ln k` in millionths, for `k` between 1 and 1000.
pub fn ln_pos_micro(k: u64) -> (r: u64)
    requires
        1 <= k <= 1000,
    ensures
        r == spec_ln_pos_micro(k as int),
        r <= 12_400_000,
{
    let p: u64;
    let m: u64;
    if k >= 512 {
        p = 9;
        m = k * 1_000_000 / 512;
    } else if k >= 256 {
        p = 8;
        m = k * 1_000_000 / 256;
    } else if k >= 128 {
        p = 7;
        m = k * 1_000_000 / 128;
    } else if k >= 64 {
        p = 6;
        m = k * 1_000_000 / 64;
    } else if k >= 32 {
        p = 5;
        m = k * 1_000_000 / 32;
    } else if k >= 16 {
        p = 4;
        m = k * 1_000_000 / 16;
    } else if k >= 8 {
        p = 3;
        m = k * 1_000_000 / 8;
    } else if k >= 4 {
        p = 2;
        m = k * 1_000_000 / 4;
    } else if k >= 2 {
        p = 1;
        m = k * 1_000_000 / 2;
    } else {
        p = 0;
        m = k * 1_000_000;
    }
    assert(p == spec_msb_shift(k as int) && m == spec_mantissa_micro(k as int));
    assert(1_000_000 <= m < 2_000_000);
    let znum = (m - 1_000_000) * 1_000_000;
    let zden = m + 1_000_000;
    let z = znum / zden;
    assert(z <= 499_999) by (nonlinear_arith)
        requires
            znum <= 999_999_000_000,
            zden >= 2_000_000,
            z == znum / zden,
    ;
    assert(z * z <= 250_000_000_000) by (nonlinear_arith)
        requires
            z <= 499_999,
    ;
    let zsq = z * z / 1_000_000;
    assert(z * zsq <= 500_000 * 250_000) by (nonlinear_arith)
        requires
            z <= 499_999,
            zsq <= 250_000,
    ;
    let u3 = z * zsq / 1_000_000;
    assert(u3 * zsq <= 500_000 * 250_000) by (nonlinear_arith)
        requires
            u3 <= 500_000,
            zsq <= 250_000,
    ;
    let u5 = u3 * zsq / 1_000_000;
    assert(u5 * zsq <= 500_000 * 250_000) by (nonlinear_arith)
        requires
            u5 <= 500_000,
            zsq <= 250_000,
    ;
    let u7 = u5 * zsq / 1_000_000;
    assert(u7 * zsq <= 500_000 * 250_000) by (nonlinear_arith)
        requires
            u7 <= 500_000,
            zsq <= 250_000,
    ;
    let u9 = u7 * zsq / 1_000_000;
    assert(u9 * zsq <= 500_000 * 250_000) by (nonlinear_arith)
        requires
            u9 <= 500_000,
            zsq <= 250_000,
    ;
    let u11 = u9 * zsq / 1_000_000;
    let s = z + u3 / 3 + u5 / 5 + u7 / 7 + u9 / 9 + u11 / 11;
    p * 693_147 + 2 * s
}

/// `ln (k/1000)` in millionths, for `k` between 1 and 999; always negative.
pub fn ln_frac_micro(k: u64) -> (r: i64)
    requires
        1 <= k <= 999,
    ensures
        r == spec_ln_frac_micro(k as int),
        -6_907_755 <= r <= 5_500_000,
{
    let lp = ln_pos_micro(k);
    (lp as i64) - 6_907_755
}

/// One Horner step of the Taylor series of `exp(-r)`, in millionths.
fn horner_step(rem: u64, b: u64, n: u64) -> (r: u64)
    requires
        rem <= 693_146,
        b <= 1_000_000,
        1 <= n <= 12,
    ensures
        r == spec_horner_step(rem as int, b as int, n as int),
        r <= 1_000_000,
{
    assert(rem * b <= 693_146 * 1_000_000) by (nonlinear_arith)
        requires
            rem <= 693_146,
            b <= 1_000_000,
    ;
    assert(rem * b / (n * 1_000_000) <= 1_000_000) by (nonlinear_arith)
        requires
            rem * b <= 693_146 * 1_000_000,
            1 <= n <= 12,
    ;
    1_000_000 - rem * b / (n * 1_000_000)
}

/// `exp(-x)` in millionths, for `x` in millionths.
pub fn exp_neg_micro(x: u64) -> (r: u64)
    ensures
        r == spec_exp_neg_micro(x as nat),
        r <= 1_000_000,
{
    if x >= 14_000_000 {
        return 0;
    }
    let q = x / 693_147;
    let rem = x % 693_147;
    let mut b: u64 = 1_000_000;
    b = horner_step(rem, b, 12);
    b = horner_step(rem, b, 11);
    b = horner_step(rem, b, 10);
    b = horner_step(rem, b, 9);
    b = horner_step(rem, b, 8);
    b = horner_step(rem, b, 7);
    b = horner_step(rem, b, 6);
    b = horner_step(rem, b, 5);
    b = horner_step(rem, b, 4);
    b = horner_step(rem, b, 3);
    b = horner_step(rem, b, 2);
    b = horner_step(rem, b, 1);
    assert(b == spec_exp_unit_micro(rem as int));
    let ghost b0 = b as int;
    let mut out = b;
    let mut i: u64 = 0;
    while i < q
        invariant
            i <= q,
            out <= 1_000_000,
            spec_halve(b0, q as nat) == spec_halve(out as int, (q - i) as nat),
        decreases q - i,
    {
        out = out / 2;
        i = i + 1;
    }
    out
}

/// Truncating signed division on machine integers, matching `tdiv`.
pub fn tdiv_i64(a: i64, b: i64) -> (r: i64)
    requires
        b >= 1,
        a != i64::MIN,
    ensures
        r == tdiv(a as int, b as int),
        a >= 0 ==> 0 <= r <= a,
        a < 0 ==> a <= r <= 0,
{
    if a >= 0 {
        let au = a as u64;
        let q = au / (b as u64);
        assert(q <= au) by (nonlinear_arith)
            requires
                b >= 1,
                q == au / (b as u64),
        ;
        q as i64
    } else {
        let au = (-a) as u64;
        let q = au / (b as u64);
        assert(q <= au) by (nonlinear_arith)
            requires
                b >= 1,
                q == au / (b as u64),
        ;
        -(q as i64)
    }
}

} // verus!
