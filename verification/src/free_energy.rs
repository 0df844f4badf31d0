//! The mean-field free-energy functional of the lattice gas.
//!
//! `free_energy` maps a density, a temperature and a chemical potential to
//! `(Ecoef * d^2 + mu * d) / T - [d ln d + (1-d) ln(1-d)]` with `Ecoef = 1`,
//! or to negative infinity on the domain boundary (density at or outside
//! `(0, 1)`, or non-positive temperature). Densities, temperatures and
//! chemical potentials count thousandths; the returned value counts
//! millionths.

use vstd::prelude::*;
use crate::numeric::{ln_frac_micro, spec_ln_frac_micro, tdiv, tdiv_i64};

verus! {

/// A free-energy sample: a finite value in millionths, or the negative
/// infinity produced on the domain boundary, which compares below every
/// finite value.
#[derive(Clone, Copy, PartialEq, Eq, Structural, Debug)]
pub enum FreeEnergy {
    NegInfinity,
    Finite(i64),
}

/// The finite free-energy value in millionths, for `0 < d < 1000` and
/// `t > 0`: the energy term `(d^2 + mu*d) / T` minus the binary-entropy
/// term `d ln d + (1-d) ln(1-d)`, both on the fixed-point grid.
pub open spec fn spec_fe_value_micro(d: int, t: int, mu: int) -> int {
    let energy = tdiv((d * d + mu * d) * 1000, t);
    let entropy = tdiv(d * spec_ln_frac_micro(d) + (1000 - d) * spec_ln_frac_micro(1000 - d), 1000);
    energy - entropy
}

/// The full functional: negative infinity on the domain boundary, the
/// finite fixed-point value inside it.
pub open spec fn spec_free_energy(d: int, t: int, mu: int) -> FreeEnergy {
    if d <= 0 || d >= 1000 || t <= 0 {
        FreeEnergy::NegInfinity
    } else {
        FreeEnergy::Finite(spec_fe_value_micro(d, t, mu) as i64)
    }
}

/// Evaluates the mean-field free energy at density `d_millis / 1000`,
/// temperature `temp_millis / 1000` and chemical potential
/// `mu_millis / 1000`, returning millionths. Chemical potentials up to
/// 1000 in magnitude are accepted; the cap keeps the fixed-point
/// arithmetic inside 64 bits.
pub fn free_energy(d_millis: i64, temp_millis: i64, mu_millis: i64) -> (r: FreeEnergy)
    requires
        -1_000_000 <= mu_millis <= 1_000_000,
    ensures
        r == spec_free_energy(d_millis as int, temp_millis as int, mu_millis as int),
        r is NegInfinity <==> (d_millis <= 0 || d_millis >= 1000 || temp_millis <= 0),
{
    if d_millis <= 0 || d_millis >= 1000 || temp_millis <= 0 {
        return FreeEnergy::NegInfinity;
    }
    let d = d_millis;
    assert(1 <= d * d <= 998_001) by (nonlinear_arith)
        requires
            1 <= d <= 999,
    ;
    assert(-999_000_000 <= mu_millis * d <= 999_000_000) by (nonlinear_arith)
        requires
            1 <= d <= 999,
            -1_000_000 <= mu_millis <= 1_000_000,
    ;
    let num = d * d + mu_millis * d;
    let energy = tdiv_i64(num * 1000, temp_millis);
    let lf_d = ln_frac_micro(d as u64);
    let lf_c = ln_frac_micro((1000 - d) as u64);
    assert(-6_907_755_000 <= d * lf_d <= 5_500_000_000) by (nonlinear_arith)
        requires
            1 <= d <= 999,
            -6_907_755 <= lf_d <= 5_500_000,
    ;
    assert(-6_907_755_000 <= (1000 - d) * lf_c <= 5_500_000_000) by (nonlinear_arith)
        requires
            1 <= d <= 999,
            -6_907_755 <= lf_c <= 5_500_000,
    ;
    let ent_num = d * lf_d + (1000 - d) * lf_c;
    let entropy = tdiv_i64(ent_num, 1000);
    FreeEnergy::Finite(energy - entropy)
}

} // verus!
