use lattice_gas::numeric::{exp_neg_micro, ln_frac_micro, tdiv_i64};

#[test]
fn tdiv_truncates_toward_zero() {
    assert_eq!(tdiv_i64(7, 2), 3);
    assert_eq!(tdiv_i64(-7, 2), -3);
    assert_eq!(tdiv_i64(0, 5), 0);
    assert_eq!(tdiv_i64(-1, 1000), 0);
}

#[test]
fn exp_of_zero_is_one() {
    assert_eq!(exp_neg_micro(0), 1_000_000);
}

#[test]
fn exp_of_ln_two_is_one_half() {
    let p = exp_neg_micro(693_147);
    assert!((p as i64 - 500_000).abs() <= 60, "exp(-ln 2) = {}", p);
}

#[test]
fn exp_of_one_matches_reference() {
    let p = exp_neg_micro(1_000_000);
    let expected = ((-1.0f64).exp() * 1e6).round() as i64;
    assert!((p as i64 - expected).abs() <= 60, "exp(-1) = {}", p);
}

#[test]
fn exp_underflows_to_zero() {
    assert_eq!(exp_neg_micro(14_000_000), 0);
    assert_eq!(exp_neg_micro(u64::MAX), 0);
}

#[test]
fn exp_is_monotone_on_samples() {
    let mut prev = exp_neg_micro(0);
    for x in [1_000u64, 10_000, 100_000, 500_000, 1_000_000, 3_000_000, 10_000_000] {
        let p = exp_neg_micro(x);
        assert!(p <= prev, "exp(-x) rose at x = {}", x);
        prev = p;
    }
}

#[test]
fn ln_of_one_half_matches_reference() {
    let l = ln_frac_micro(500);
    let expected = (0.5f64.ln() * 1e6).round() as i64;
    assert!((l - expected).abs() <= 30, "ln(0.5) = {}", l);
}

#[test]
fn ln_matches_reference_across_grid() {
    for k in 1..=999u64 {
        let l = ln_frac_micro(k);
        let expected = ((k as f64 / 1000.0).ln() * 1e6).round() as i64;
        assert!((l - expected).abs() <= 60, "ln({}/1000) = {} vs {}", k, l, expected);
        assert!(l < 0);
    }
}
