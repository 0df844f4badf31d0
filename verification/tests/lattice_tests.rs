use lattice_gas::lattice::{delta_h_millis, metropolis_accept, Lattice, Site};

fn snapshot(l: &Lattice) -> Vec<Site> {
    let mut sites = Vec::new();
    for x in 0..l.width() {
        for y in 0..l.height() {
            sites.push(l.site_at(x, y));
        }
    }
    sites
}

#[test]
fn construction_fixes_the_dimensions() {
    let l = Lattice::new(12, 7);
    assert_eq!(l.width(), 12);
    assert_eq!(l.height(), 7);
    assert!(l.molecule_count() <= 84);
}

#[test]
fn zero_area_lattice_degrades_gracefully() {
    let l = Lattice::new(0, 5);
    assert_eq!(l.molecule_count(), 0);
    assert_eq!(l.occupied_fraction(), 0);
    let l = Lattice::new(5, 0);
    assert_eq!(l.occupied_fraction(), 0);
}

#[test]
fn occupied_fraction_counts_thousandths() {
    let l = Lattice::new(10, 10);
    let f = l.occupied_fraction();
    assert_eq!(f, (l.molecule_count() * 1000 / 100) as i64);
    assert!((0..=1000).contains(&f));
}

#[test]
fn initial_fraction_is_near_one_half_on_average() {
    // Statistical check: the mean over 30 independent 40x40 lattices has
    // a standard deviation near 0.002, so 0.1 is a very wide margin.
    let mut sum: i64 = 0;
    for _ in 0..30 {
        sum += Lattice::new(40, 40).occupied_fraction();
    }
    let mean = sum / 30;
    assert!((400..=600).contains(&mean), "mean fraction {}", mean);
}

#[test]
fn frozen_sweep_changes_nothing() {
    let mut l = Lattice::new(10, 10);
    let before = snapshot(&l);
    let st = l.sweep(0, -1000);
    assert_eq!(st.trials, 0);
    assert_eq!(st.toggles, 0);
    assert_eq!(snapshot(&l), before);
    let st = l.sweep(-700, 2000);
    assert_eq!(st.trials, 0);
    assert_eq!(snapshot(&l), before);
}

#[test]
fn sweep_runs_one_trial_per_cell() {
    let mut l = Lattice::new(10, 10);
    let st = l.sweep(700, -1000);
    assert_eq!(st.trials, 100);
    assert!(st.toggles <= 100);
}

#[test]
fn sweep_toggle_count_matches_the_grid_change() {
    // Each toggle flips exactly one site, so the number of changed cells
    // cannot exceed the reported toggles.
    let mut l = Lattice::new(10, 10);
    let before = snapshot(&l);
    let st = l.sweep(700, -1000);
    let after = snapshot(&l);
    let changed = before
        .iter()
        .zip(after.iter())
        .filter(|(a, b)| a != b)
        .count();
    assert!(changed <= st.toggles);
}

#[test]
fn single_cell_lattice_neighbors_itself() {
    let l = Lattice::new(1, 1);
    let n = l.occupied_neighbors(0, 0);
    match l.site_at(0, 0) {
        Site::Molecule => assert_eq!(n, 4),
        Site::Empty => assert_eq!(n, 0),
    }
}

#[test]
fn neighbor_counts_stay_in_range() {
    let l = Lattice::new(6, 4);
    for x in 0..6 {
        for y in 0..4 {
            let n = l.occupied_neighbors(x, y);
            assert!((0..=4).contains(&n));
        }
    }
}

#[test]
fn enthalpy_change_follows_the_coupling() {
    // Filling a site: delta_H = -J0 * n - mu with J0 = 1/2.
    assert_eq!(delta_h_millis(Site::Empty, 3, -1000), -500);
    assert_eq!(delta_h_millis(Site::Empty, 0, 250), -250);
    // Emptying a site: delta_H = +J0 * n + mu.
    assert_eq!(delta_h_millis(Site::Molecule, 2, -250), 750);
    assert_eq!(delta_h_millis(Site::Molecule, 4, 0), 2000);
}

#[test]
fn favorable_moves_always_pass() {
    assert!(metropolis_accept(0, 1000, 999_999));
    assert!(metropolis_accept(-2000, 1, 999_999));
}

#[test]
fn hopeless_moves_never_pass() {
    // exp(-2000) is far below the draw resolution.
    assert!(!metropolis_accept(2_000_000, 1, 0));
}

#[test]
fn unfavorable_moves_pass_below_the_boltzmann_factor() {
    // delta_H = 0.693, T = 1: acceptance probability exp(-0.693) is close
    // to one half.
    assert!(metropolis_accept(693, 1000, 400_000));
    assert!(!metropolis_accept(693, 1000, 600_000));
}
