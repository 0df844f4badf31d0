//! The equilibrium-density solver: an exhaustive scan of the free-energy
//! functional over the 999 interior densities `1/1000 .. 999/1000`,
//! returning the density of the greatest value. Only a strictly greater
//! value displaces the running maximum, so ties resolve to the smallest
//! density; the domain boundaries 0 and 1 are never scanned and never
//! returned.

use vstd::prelude::*;
use crate::free_energy::{FreeEnergy, free_energy, spec_free_energy};

verus! {

/// The strict order on free-energy samples: negative infinity is below
/// every finite value and not below itself.
pub open spec fn spec_fe_gt(a: FreeEnergy, b: FreeEnergy) -> bool {
    match a {
        FreeEnergy::Finite(x) => match b {
            FreeEnergy::Finite(y) => x > y,
            FreeEnergy::NegInfinity => true,
        },
        FreeEnergy::NegInfinity => false,
    }
}

/// Compares two free-energy samples under the order of `spec_fe_gt`.
pub fn fe_gt(a: FreeEnergy, b: FreeEnergy) -> (r: bool)
    ensures
        r == spec_fe_gt(a, b),
{
    match a {
        FreeEnergy::Finite(x) => match b {
            FreeEnergy::Finite(y) => x > y,
            FreeEnergy::NegInfinity => true,
        },
        FreeEnergy::NegInfinity => false,
    }
}

/// The density in `1..=n` with the greatest free energy at `(t, mu)`,
/// scanning upward and keeping the first maximum.
pub open spec fn spec_best_density_upto(t: int, mu: int, n: int) -> int
    decreases n,
{
    if n <= 1 {
        1
    } else {
        let prev = spec_best_density_upto(t, mu, n - 1);
        if spec_fe_gt(spec_free_energy(n, t, mu), spec_free_energy(prev, t, mu)) {
            n
        } else {
            prev
        }
    }
}

/// The density the solver returns for `(t, mu)`: the first maximum of the
/// free energy over the full interior grid `1..=999`.
pub open spec fn spec_equilibrium_density(t: int, mu: int) -> int {
    spec_best_density_upto(t, mu, 999)
}

/// The scanned maximum is a true first maximum: nothing in `1..=n` exceeds
/// it, and it strictly exceeds everything before it.
pub proof fn lemma_best_density_is_first_max(t: int, mu: int, n: int)
    requires
        n >= 1,
    ensures
        1 <= spec_best_density_upto(t, mu, n) <= n,
        forall|k: int|
            1 <= k <= n ==> !spec_fe_gt(
                spec_free_energy(k, t, mu),
                spec_free_energy(spec_best_density_upto(t, mu, n), t, mu),
            ),
        forall|k: int|
            1 <= k < spec_best_density_upto(t, mu, n) ==> spec_fe_gt(
                spec_free_energy(spec_best_density_upto(t, mu, n), t, mu),
                spec_free_energy(k, t, mu),
            ),
    decreases n,
{
    if n > 1 {
        lemma_best_density_is_first_max(t, mu, n - 1);
        let prev = spec_best_density_upto(t, mu, n - 1);
        let best = spec_best_density_upto(t, mu, n);
        if spec_fe_gt(spec_free_energy(n, t, mu), spec_free_energy(prev, t, mu)) {
            assert forall|k: int| 1 <= k < n implies spec_fe_gt(
                spec_free_energy(n, t, mu),
                spec_free_energy(k, t, mu),
            ) by {
                assert(!spec_fe_gt(spec_free_energy(k, t, mu), spec_free_energy(prev, t, mu)));
            }
        }
    }
}

/// Finds the density in `{1/1000, ..., 999/1000}` that maximizes the
/// free-energy functional at the given temperature and chemical potential,
/// breaking ties toward the smallest density. The result always lies
/// strictly inside `(0, 1)`.
pub fn equilibrium_density(temp_millis: i64, mu_millis: i64) -> (d: i64)
    requires
        -1_000_000 <= mu_millis <= 1_000_000,
    ensures
        1 <= d <= 999,
        d == spec_equilibrium_density(temp_millis as int, mu_millis as int),
        forall|k: int|
            1 <= k <= 999 ==> !spec_fe_gt(
                spec_free_energy(k, temp_millis as int, mu_millis as int),
                spec_free_energy(d as int, temp_millis as int, mu_millis as int),
            ),
        forall|k: int|
            1 <= k < d ==> spec_fe_gt(
                spec_free_energy(d as int, temp_millis as int, mu_millis as int),
                spec_free_energy(k, temp_millis as int, mu_millis as int),
            ),
{
    let ghost t = temp_millis as int;
    let ghost mu = mu_millis as int;
    let mut best: i64 = 1;
    let mut best_f = free_energy(1, temp_millis, mu_millis);
    let mut k: i64 = 2;
    while k <= 999
        invariant
            2 <= k <= 1000,
            1 <= best < k,
            -1_000_000 <= mu_millis <= 1_000_000,
            best == spec_best_density_upto(t, mu, k - 1),
            best_f == spec_free_energy(best as int, t, mu),
            t == temp_millis as int,
            mu == mu_millis as int,
        decreases 1000 - k,
    {
        let f = free_energy(k, temp_millis, mu_millis);
        if fe_gt(f, best_f) {
            best = k;
            best_f = f;
        }
        k = k + 1;
    }
    proof {
        lemma_best_density_is_first_max(t, mu, 999);
    }
    best
}

} // verus!
