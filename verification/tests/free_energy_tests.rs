use lattice_gas::free_energy::{free_energy, FreeEnergy};

fn reference_value(d: f64, t: f64, mu: f64) -> f64 {
    (d * d + mu * d) / t - (d * d.ln() + (1.0 - d) * (1.0 - d).ln())
}

#[test]
fn boundary_densities_are_negative_infinity() {
    assert_eq!(free_energy(0, 1000, 0), FreeEnergy::NegInfinity);
    assert_eq!(free_energy(1000, 1000, 0), FreeEnergy::NegInfinity);
    assert_eq!(free_energy(-5, 1000, 0), FreeEnergy::NegInfinity);
    assert_eq!(free_energy(1500, 1000, 0), FreeEnergy::NegInfinity);
}

#[test]
fn non_positive_temperature_is_negative_infinity() {
    for d in [1i64, 250, 500, 750, 999] {
        assert_eq!(free_energy(d, 0, 0), FreeEnergy::NegInfinity);
        assert_eq!(free_energy(d, -700, -1000), FreeEnergy::NegInfinity);
    }
}

#[test]
fn interior_densities_are_finite() {
    for d in [1i64, 100, 500, 900, 999] {
        assert!(matches!(free_energy(d, 700, -1000), FreeEnergy::Finite(_)));
        assert!(matches!(free_energy(d, 10, 0), FreeEnergy::Finite(_)));
    }
}

#[test]
fn half_density_at_unit_temperature() {
    // f(0.5, 1.0, 0.0) = 0.25 - ln 0.5, about 0.943.
    match free_energy(500, 1000, 0) {
        FreeEnergy::Finite(v) => {
            let expected = 0.25 - 0.5f64.ln();
            assert!(
                ((v as f64) / 1e6 - expected).abs() < 1e-3,
                "f = {} vs {}",
                v,
                expected
            );
        }
        FreeEnergy::NegInfinity => panic!("expected a finite value"),
    }
}

#[test]
fn matches_reference_at_sample_points() {
    for (d, t, mu) in [
        (300i64, 700i64, -1000i64),
        (100, 10, -2000),
        (999, 1500, 0),
        (1, 1000, 500),
    ] {
        match free_energy(d, t, mu) {
            FreeEnergy::Finite(v) => {
                let expected =
                    reference_value(d as f64 / 1000.0, t as f64 / 1000.0, mu as f64 / 1000.0);
                assert!(
                    ((v as f64) / 1e6 - expected).abs() < 2e-3,
                    "f({}, {}, {}) = {} vs {}",
                    d,
                    t,
                    mu,
                    v,
                    expected
                );
            }
            FreeEnergy::NegInfinity => panic!("expected a finite value"),
        }
    }
}
