//! The precomputed phase diagram: a grid of equilibrium densities over a
//! rectangle of (temperature, chemical potential) pairs.
//!
//! Cell `(i, j)` of an `n_T x n_mu` grid holds the equilibrium density at
//! `T = T_lo + i/n_T * (T_hi - T_lo)` and `mu = mu_lo + j/n_mu *
//! (mu_hi - mu_lo)`: the sampling is left-closed and right-open, so cell
//! `(0, 0)` sits exactly at the low end of both ranges and the high ends
//! are never sampled. The grid is filled once at construction and only
//! read afterwards.

use vstd::prelude::*;
use crate::solver::{equilibrium_density, spec_equilibrium_density};

verus! {

/// The sample coordinate `lo + i/n * (hi - lo)` on the fixed-point grid.
pub open spec fn spec_sample_at(lo: int, hi: int, n: int, i: int) -> int {
    lo + i * (hi - lo) / n
}

pub struct PhaseDiagram {
    densities: Vec<Vec<i64>>,
    temp_range: (i64, i64),
    chem_potential_range: (i64, i64),
    resolution: (usize, usize),
}

impl PhaseDiagram {
    /// The grid resolution `(n_T, n_mu)`, as a specification value.
    pub closed spec fn spec_resolution(self) -> (usize, usize) {
        self.resolution
    }

    /// The configured temperature range, as a specification value.
    pub closed spec fn spec_temp_range(self) -> (i64, i64) {
        self.temp_range
    }

    /// The configured chemical-potential range, as a specification value.
    pub closed spec fn spec_chem_potential_range(self) -> (i64, i64) {
        self.chem_potential_range
    }

    /// The stored grid, row by row.
    pub closed spec fn spec_densities(self) -> Seq<Seq<i64>> {
        self.densities@.map_values(|row: Vec<i64>| row@)
    }

    /// The temperature sampled by row `i`, in thousandths.
    pub open spec fn spec_temp_at(self, i: int) -> int {
        spec_sample_at(
            self.spec_temp_range().0 as int,
            self.spec_temp_range().1 as int,
            self.spec_resolution().0 as int,
            i,
        )
    }

    /// The chemical potential sampled by column `j`, in thousandths.
    pub open spec fn spec_mu_at(self, j: int) -> int {
        spec_sample_at(
            self.spec_chem_potential_range().0 as int,
            self.spec_chem_potential_range().1 as int,
            self.spec_resolution().1 as int,
            j,
        )
    }

    /// Well-formedness: ordered in-bounds ranges, a positive resolution,
    /// and a full grid whose every cell holds the equilibrium density of
    /// its sample point.
    pub open spec fn wf(self) -> bool {
        &&& 1 <= self.spec_resolution().0 <= 100_000
        &&& 1 <= self.spec_resolution().1 <= 100_000
        &&& -1_000_000 <= self.spec_temp_range().0 < self.spec_temp_range().1 <= 1_000_000
        &&& -1_000_000 <= self.spec_chem_potential_range().0 < self.spec_chem_potential_range().1
            <= 1_000_000
        &&& self.spec_densities().len() == self.spec_resolution().0
        &&& forall|i: int|
            0 <= i < self.spec_resolution().0 ==> (#[trigger] self.spec_densities()[i]).len()
                == self.spec_resolution().1
        &&& forall|i: int, j: int|
            0 <= i < self.spec_resolution().0 && 0 <= j < self.spec_resolution().1 ==> {
                &&& 1 <= #[trigger] self.spec_densities()[i][j] <= 999
                &&& self.spec_densities()[i][j] == spec_equilibrium_density(
                    self.spec_temp_at(i),
                    self.spec_mu_at(j),
                )
            }
    }

    /// Whether `(t, mu)` falls inside the configured rectangle of ranges.
    pub open spec fn spec_in_range(self, t: int, mu: int) -> bool {
        &&& self.spec_temp_range().0 <= t <= self.spec_temp_range().1
        &&& self.spec_chem_potential_range().0 <= mu <= self.spec_chem_potential_range().1
    }

    /// The row index of the cell nearest to temperature `t`: the floor of
    /// the fractional position scaled by the resolution, clamped to the
    /// last row.
    pub open spec fn spec_index_t(self, t: int) -> int {
        let raw = (t - self.spec_temp_range().0) * (self.spec_resolution().0 as int) / (
        self.spec_temp_range().1 - self.spec_temp_range().0);
        if raw >= self.spec_resolution().0 {
            self.spec_resolution().0 - 1
        } else {
            raw
        }
    }

    /// The column index of the cell nearest to chemical potential `mu`.
    pub open spec fn spec_index_mu(self, mu: int) -> int {
        let raw = (mu - self.spec_chem_potential_range().0) * (self.spec_resolution().1 as int) / (
        self.spec_chem_potential_range().1 - self.spec_chem_potential_range().0);
        if raw >= self.spec_resolution().1 {
            self.spec_resolution().1 - 1
        } else {
            raw
        }
    }

    /// What a lookup returns: nothing outside the ranges, otherwise the
    /// stored density of the nearest cell.
    pub open spec fn spec_lookup(self, t: int, mu: int) -> Option<i64> {
        if self.spec_in_range(t, mu) {
            Some(self.spec_densities()[self.spec_index_t(t)][self.spec_index_mu(mu)])
        } else {
            None
        }
    }

    /// Builds the full `resolution_t x resolution_c` grid eagerly, running
    /// the equilibrium-density solver once per cell.
    pub fn new(
        resolution_t: usize,
        resolution_c: usize,
        temp_range: (i64, i64),
        chem_potential_range: (i64, i64),
    ) -> (r: PhaseDiagram)
        requires
            1 <= resolution_t <= 100_000,
            1 <= resolution_c <= 100_000,
            -1_000_000 <= temp_range.0 < temp_range.1 <= 1_000_000,
            -1_000_000 <= chem_potential_range.0 < chem_potential_range.1 <= 1_000_000,
        ensures
            r.wf(),
            r.spec_resolution() == (resolution_t, resolution_c),
            r.spec_temp_range() == temp_range,
            r.spec_chem_potential_range() == chem_potential_range,
            r.spec_temp_at(0) == temp_range.0,
            r.spec_mu_at(0) == chem_potential_range.0,
    {
        let t_lo = temp_range.0;
        let t_span = temp_range.1 - temp_range.0;
        let c_lo = chem_potential_range.0;
        let c_span = chem_potential_range.1 - chem_potential_range.0;
        let nt = resolution_t as i64;
        let nc = resolution_c as i64;
        let mut densities: Vec<Vec<i64>> = Vec::new();
        let mut i: usize = 0;
        while i < resolution_t
            invariant
                0 <= i <= resolution_t,
                1 <= resolution_t <= 100_000,
                1 <= resolution_c <= 100_000,
                -1_000_000 <= temp_range.0 < temp_range.1 <= 1_000_000,
                -1_000_000 <= chem_potential_range.0 < chem_potential_range.1 <= 1_000_000,
                t_lo == temp_range.0,
                t_span == temp_range.1 - temp_range.0,
                c_lo == chem_potential_range.0,
                c_span == chem_potential_range.1 - chem_potential_range.0,
                nt == resolution_t as i64,
                nc == resolution_c as i64,
                densities@.len() == i,
                forall|ii: int|
                    0 <= ii < i ==> (#[trigger] densities@[ii])@.len() == resolution_c,
                forall|ii: int, jj: int|
                    0 <= ii < i && 0 <= jj < resolution_c ==> {
                        &&& 1 <= #[trigger] densities@[ii]@[jj] <= 999
                        &&& densities@[ii]@[jj] == spec_equilibrium_density(
                            spec_sample_at(t_lo as int, temp_range.1 as int, resolution_t as int, ii),
                            spec_sample_at(c_lo as int, chem_potential_range.1 as int, resolution_c as int, jj),
                        )
                    },
            decreases resolution_t - i,
        {
            assert(0 <= (i as i64) * t_span <= 200_000_000_000) by (nonlinear_arith)
                requires
                    0 <= i <= 100_000,
                    0 < t_span <= 2_000_000,
            ;
            assert((i as int) * (t_span as int) / (nt as int) <= t_span) by (nonlinear_arith)
                requires
                    0 <= (i as int) < nt,
                    0 < t_span,
                    1 <= nt,
            ;
            let temp = t_lo + (i as i64) * t_span / nt;
            let mut row: Vec<i64> = Vec::new();
            let mut j: usize = 0;
            while j < resolution_c
                invariant
                    0 <= j <= resolution_c,
                    1 <= resolution_c <= 100_000,
                    -1_000_000 <= temp_range.0 < temp_range.1 <= 1_000_000,
                    -1_000_000 <= chem_potential_range.0 < chem_potential_range.1 <= 1_000_000,
                    c_lo == chem_potential_range.0,
                    c_span == chem_potential_range.1 - chem_potential_range.0,
                    nc == resolution_c as i64,
                    temp == spec_sample_at(temp_range.0 as int, temp_range.1 as int, resolution_t as int, i as int),
                    row@.len() == j,
                    forall|jj: int|
                        0 <= jj < j ==> {
                            &&& 1 <= #[trigger] row@[jj] <= 999
                            &&& row@[jj] == spec_equilibrium_density(
                                spec_sample_at(temp_range.0 as int, temp_range.1 as int, resolution_t as int, i as int),
                                spec_sample_at(c_lo as int, chem_potential_range.1 as int, resolution_c as int, jj),
                            )
                        },
                decreases resolution_c - j,
            {
                assert(0 <= (j as i64) * c_span <= 200_000_000_000) by (nonlinear_arith)
                    requires
                        0 <= j <= 100_000,
                        0 < c_span <= 2_000_000,
                ;
                assert((j as int) * (c_span as int) / (nc as int) <= c_span) by (nonlinear_arith)
                    requires
                        0 <= (j as int) < nc,
                        0 < c_span,
                        1 <= nc,
                ;
                let mu = c_lo + (j as i64) * c_span / nc;
                let d = equilibrium_density(temp, mu);
                row.push(d);
                j = j + 1;
            }
            densities.push(row);
            i = i + 1;
        }
        let r = PhaseDiagram {
            densities,
            temp_range,
            chem_potential_range,
            resolution: (resolution_t, resolution_c),
        };
        assert forall|i: int|
            0 <= i < r.spec_resolution().0 implies (#[trigger] r.spec_densities()[i]).len()
            == r.spec_resolution().1 by {
            assert(r.spec_densities()[i] == r.densities@[i]@);
        }
        assert forall|i: int, j: int|
            0 <= i < r.spec_resolution().0 && 0 <= j < r.spec_resolution().1 implies {
                &&& 1 <= #[trigger] r.spec_densities()[i][j] <= 999
                &&& r.spec_densities()[i][j] == spec_equilibrium_density(
                    r.spec_temp_at(i),
                    r.spec_mu_at(j),
                )
            } by {
            assert(r.spec_densities()[i] == r.densities@[i]@);
        }
        r
    }

    /// The grid resolution `(n_T, n_mu)`.
    pub fn resolution(&self) -> (r: (usize, usize))
        ensures
            r == self.spec_resolution(),
    {
        self.resolution
    }

    /// The configured temperature range, in thousandths.
    pub fn temp_range(&self) -> (r: (i64, i64))
        ensures
            r == self.spec_temp_range(),
    {
        self.temp_range
    }

    /// The configured chemical-potential range, in thousandths.
    pub fn chem_potential_range(&self) -> (r: (i64, i64))
        ensures
            r == self.spec_chem_potential_range(),
    {
        self.chem_potential_range
    }

    /// The stored equilibrium density of cell `(i, j)`, in thousandths.
    pub fn density_at(&self, i: usize, j: usize) -> (r: i64)
        requires
            self.wf(),
            i < self.spec_resolution().0,
            j < self.spec_resolution().1,
        ensures
            r == self.spec_densities()[i as int][j as int],
            1 <= r <= 999,
            r == spec_equilibrium_density(self.spec_temp_at(i as int), self.spec_mu_at(j as int)),
    {
        proof {
            assert(self.spec_densities()[i as int] == self.densities@[i as int]@);
        }
        self.densities[i][j]
    }

    /// Maps a live `(temperature, chemical potential)` pair to the stored
    /// density of the nearest grid cell, or nothing if the point falls
    /// outside the configured ranges.
    pub fn lookup(&self, temp_millis: i64, mu_millis: i64) -> (r: Option<i64>)
        requires
            self.wf(),
        ensures
            r == self.spec_lookup(temp_millis as int, mu_millis as int),
            r is Some <==> self.spec_in_range(temp_millis as int, mu_millis as int),
            r matches Some(v) ==> 1 <= v <= 999,
    {
        let (t_lo, t_hi) = self.temp_range;
        let (c_lo, c_hi) = self.chem_potential_range;
        if temp_millis < t_lo || temp_millis > t_hi || mu_millis < c_lo || mu_millis > c_hi {
            return None;
        }
        let nt = self.resolution.0 as i64;
        let nc = self.resolution.1 as i64;
        assert(0 <= (temp_millis - t_lo) * nt <= 200_000_000_000_000) by (nonlinear_arith)
            requires
                0 <= temp_millis - t_lo <= 2_000_000,
                1 <= nt <= 100_000,
        ;
        assert((temp_millis - t_lo) * (nt as int) / (t_hi - t_lo) <= nt) by (nonlinear_arith)
            requires
                0 <= temp_millis - t_lo <= t_hi - t_lo,
                0 < t_hi - t_lo,
                1 <= nt,
        ;
        let raw_t = (temp_millis - t_lo) * nt / (t_hi - t_lo);
        let it = if raw_t >= nt {
            self.resolution.0 - 1
        } else {
            raw_t as usize
        };
        assert(0 <= (mu_millis - c_lo) * nc <= 200_000_000_000_000) by (nonlinear_arith)
            requires
                0 <= mu_millis - c_lo <= 2_000_000,
                1 <= nc <= 100_000,
        ;
        assert((mu_millis - c_lo) * (nc as int) / (c_hi - c_lo) <= nc) by (nonlinear_arith)
            requires
                0 <= mu_millis - c_lo <= c_hi - c_lo,
                0 < c_hi - c_lo,
                1 <= nc,
        ;
        let raw_c = (mu_millis - c_lo) * nc / (c_hi - c_lo);
        let jm = if raw_c >= nc {
            self.resolution.1 - 1
        } else {
            raw_c as usize
        };
        proof {
            assert(self.spec_densities()[it as int] == self.densities@[it as int]@);
        }
        Some(self.densities[it][jm])
    }
}

} // verus!
