use lattice_gas::phase_diagram::PhaseDiagram;
use lattice_gas::solver::equilibrium_density;

#[test]
fn grid_has_exactly_resolution_many_cells() {
    let pd = PhaseDiagram::new(2, 2, (500, 1000), (-1000, 0));
    assert_eq!(pd.resolution(), (2, 2));
    let mut cells = 0;
    for i in 0..2 {
        for j in 0..2 {
            let d = pd.density_at(i, j);
            assert!((1..=999).contains(&d), "cell ({}, {}) = {}", i, j, d);
            cells += 1;
        }
    }
    assert_eq!(cells, 4);
}

#[test]
fn origin_cell_samples_the_low_ends() {
    let pd = PhaseDiagram::new(3, 4, (500, 1000), (-1000, 0));
    assert_eq!(pd.density_at(0, 0), equilibrium_density(500, -1000));
}

#[test]
fn cells_follow_the_sampling_rule() {
    let pd = PhaseDiagram::new(2, 2, (500, 1000), (-1000, 0));
    // T_i = 500 + i/2 * 500, mu_j = -1000 + j/2 * 1000.
    assert_eq!(pd.density_at(0, 0), equilibrium_density(500, -1000));
    assert_eq!(pd.density_at(0, 1), equilibrium_density(500, -500));
    assert_eq!(pd.density_at(1, 0), equilibrium_density(750, -1000));
    assert_eq!(pd.density_at(1, 1), equilibrium_density(750, -500));
}

#[test]
fn repeated_reads_are_bit_identical() {
    let pd = PhaseDiagram::new(2, 3, (10, 1000), (-2000, 0));
    for i in 0..2 {
        for j in 0..3 {
            assert_eq!(pd.density_at(i, j), pd.density_at(i, j));
        }
    }
    assert_eq!(pd.lookup(700, -1000), pd.lookup(700, -1000));
}

#[test]
fn lookup_inside_the_ranges_returns_a_stored_cell() {
    let pd = PhaseDiagram::new(4, 4, (0, 1000), (-2000, 0));
    // (250, -1500) sits a quarter of the way up in T and in mu.
    assert_eq!(pd.lookup(250, -1500), Some(pd.density_at(1, 1)));
    assert_eq!(pd.lookup(0, -2000), Some(pd.density_at(0, 0)));
}

#[test]
fn lookup_clamps_the_high_edges_to_the_last_cell() {
    let pd = PhaseDiagram::new(4, 4, (0, 1000), (-2000, 0));
    assert_eq!(pd.lookup(1000, 0), Some(pd.density_at(3, 3)));
}

#[test]
fn lookup_outside_the_ranges_is_none() {
    let pd = PhaseDiagram::new(4, 4, (0, 1000), (-2000, 0));
    assert_eq!(pd.lookup(-1, -1000), None);
    assert_eq!(pd.lookup(1001, -1000), None);
    assert_eq!(pd.lookup(500, -2001), None);
    assert_eq!(pd.lookup(500, 1), None);
}

#[test]
fn range_metadata_is_preserved() {
    let pd = PhaseDiagram::new(5, 6, (10, 1000), (-2000, 0));
    assert_eq!(pd.temp_range(), (10, 1000));
    assert_eq!(pd.chem_potential_range(), (-2000, 0));
    assert_eq!(pd.resolution(), (5, 6));
}
