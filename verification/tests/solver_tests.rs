use lattice_gas::free_energy::{free_energy, FreeEnergy};
use lattice_gas::solver::{equilibrium_density, fe_gt};

#[test]
fn result_is_always_interior() {
    for (t, mu) in [
        (700i64, -1000i64),
        (10, -2000),
        (1000, 0),
        (1500, -4000),
        (0, 0),
        (-500, -1000),
        (1, 1_000_000),
        (1_000_000, -1_000_000),
    ] {
        let d = equilibrium_density(t, mu);
        assert!((1..=999).contains(&d), "d = {} at ({}, {})", d, t, mu);
    }
}

#[test]
fn result_is_first_maximum_of_the_scan() {
    for (t, mu) in [(700i64, -1000i64), (300, -500), (1000, 0)] {
        let d = equilibrium_density(t, mu);
        let best_f = free_energy(d, t, mu);
        for k in 1..=999i64 {
            let f = free_energy(k, t, mu);
            assert!(!fe_gt(f, best_f), "f({}) beats f({}) at ({}, {})", k, d, t, mu);
            if k < d {
                assert!(fe_gt(best_f, f), "tie below the returned density");
            }
        }
    }
}

#[test]
fn frozen_temperature_returns_smallest_density() {
    // With a non-positive temperature every sample is negative infinity,
    // no sample strictly beats another, and the first density stays.
    assert_eq!(equilibrium_density(0, -1000), 1);
    assert_eq!(equilibrium_density(-700, 0), 1);
}

#[test]
fn solver_is_deterministic() {
    assert_eq!(
        equilibrium_density(700, -1000),
        equilibrium_density(700, -1000)
    );
}

#[test]
fn negative_infinity_never_beats_anything() {
    let finite = free_energy(500, 1000, 0);
    assert!(fe_gt(finite, FreeEnergy::NegInfinity));
    assert!(!fe_gt(FreeEnergy::NegInfinity, finite));
    assert!(!fe_gt(FreeEnergy::NegInfinity, FreeEnergy::NegInfinity));
}

#[test]
fn low_temperature_negative_mu_empties_the_lattice() {
    // Far below the transition with a strongly negative chemical
    // potential the favored phase is dilute.
    let d = equilibrium_density(100, -3000);
    assert!(d < 500, "d = {}", d);
}
