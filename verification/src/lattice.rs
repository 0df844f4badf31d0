//! The two-dimensional lattice of occupancy sites and its grand-canonical
//! Metropolis dynamics.
//!
//! The grid is toroidal: every site has exactly four nearest neighbors,
//! found by wrapping indices at the edges. One sweep performs exactly
//! `width * height` independent single-site trials; each trial picks a
//! site uniformly at random, so within one sweep a site may be revisited
//! or skipped — a deliberate stochastic approximation of one update per
//! site. A non-positive temperature freezes the lattice: a sweep then
//! changes nothing.
//!
//! The interaction enters through the mean-field-rescaled coupling
//! `J0 = 2 * J_MF / z` with `J_MF = 1` and coordination number `z = 4`,
//! so `J0 = 1/2`: occupying a site next to occupied neighbors lowers the
//! enthalpy by `J0` per neighbor, and vacating raises it by as much.

use vstd::prelude::*;
use crate::numeric::spec_exp_neg_micro;
use crate::numeric::exp_neg_micro;
use crate::rng::{random_below, random_bool, random_micro};

verus! {

/// The two-valued state of one lattice cell.
#[derive(Clone, Copy, PartialEq, Eq, Structural, Debug)]
pub enum Site {
    Molecule,
    Empty,
}

/// What one sweep did: how many single-site trials ran, and how many of
/// them toggled their site.
#[derive(Clone, Copy, PartialEq, Eq, Structural, Debug)]
pub struct SweepStats {
    pub trials: usize,
    pub toggles: usize,
}

/// The mean-field-rescaled coupling `J0 = 2 * J_MF / z`, in thousandths.
pub const J0_MILLIS: i64 = 500;

/// The grand-canonical enthalpy change of toggling a site with the given
/// state and occupied-neighbor count, in thousandths:
/// `delta_E - mu * delta_N`, where filling a site beside `n` occupied
/// neighbors has `delta_E = -J0 * n`, `delta_N = +1`, and emptying one
/// has `delta_E = +J0 * n`, `delta_N = -1`.
pub open spec fn spec_delta_h_millis(current: Site, neighbors: int, mu: int) -> int {
    match current {
        Site::Molecule => 500 * neighbors + mu,
        Site::Empty => -500 * neighbors - mu,
    }
}

/// The Metropolis criterion at temperature `t` (thousandths), for a trial
/// with enthalpy change `dh` (thousandths) and a uniform draw `u`
/// (millionths): favorable moves always pass, unfavorable ones pass when
/// the draw falls below `exp(-dh / t)`.
pub open spec fn spec_metropolis_accept(dh: int, t: int, u: int) -> bool {
    dh <= 0 || u < spec_exp_neg_micro((dh * 1_000_000 / t) as nat)
}

/// Occupied sites in `row[0..n]`.
pub open spec fn spec_row_count_upto(row: Seq<Site>, n: int) -> nat
    decreases n,
{
    if n <= 0 {
        0
    } else {
        spec_row_count_upto(row, n - 1) + (if row[n - 1] is Molecule {
            1nat
        } else {
            0nat
        })
    }
}

/// Occupied sites in one full row.
pub open spec fn spec_row_count(row: Seq<Site>) -> nat {
    spec_row_count_upto(row, row.len() as int)
}

/// Occupied sites in the first `n` rows.
pub open spec fn spec_count_rows_upto(g: Seq<Seq<Site>>, n: int) -> nat
    decreases n,
{
    if n <= 0 {
        0
    } else {
        spec_count_rows_upto(g, n - 1) + spec_row_count(g[n - 1])
    }
}

/// Cells of `a[0..n]` that differ from `b` at the same position.
pub open spec fn spec_row_diff(a: Seq<Site>, b: Seq<Site>, n: int) -> nat
    decreases n,
{
    if n <= 0 {
        0
    } else {
        spec_row_diff(a, b, n - 1) + (if a[n - 1] == b[n - 1] {
            0nat
        } else {
            1nat
        })
    }
}

/// Rows of `a[0..n]` compared cell by cell against `b`.
pub open spec fn spec_grid_diff(a: Seq<Seq<Site>>, b: Seq<Seq<Site>>, n: int) -> nat
    decreases n,
{
    if n <= 0 {
        0
    } else {
        spec_grid_diff(a, b, n - 1) + spec_row_diff(a[n - 1], b[n - 1], a[n - 1].len() as int)
    }
}

/// The number of positions where the two grids disagree.
pub open spec fn spec_cells_changed(a: Seq<Seq<Site>>, b: Seq<Seq<Site>>) -> nat {
    spec_grid_diff(a, b, a.len() as int)
}

proof fn lemma_row_diff_self(a: Seq<Site>, n: int)
    ensures
        spec_row_diff(a, a, n) == 0,
    decreases n,
{
    if n > 0 {
        lemma_row_diff_self(a, n - 1);
    }
}

proof fn lemma_grid_diff_self(a: Seq<Seq<Site>>, n: int)
    ensures
        spec_grid_diff(a, a, n) == 0,
    decreases n,
{
    if n > 0 {
        lemma_grid_diff_self(a, n - 1);
        lemma_row_diff_self(a[n - 1], a[n - 1].len() as int);
    }
}

proof fn lemma_row_diff_update_le(a: Seq<Site>, b: Seq<Site>, y: int, v: Site, n: int)
    requires
        0 <= y < a.len(),
        n <= a.len(),
    ensures
        spec_row_diff(a.update(y, v), b, n) <= spec_row_diff(a, b, n) + (if y < n {
            1nat
        } else {
            0nat
        }),
    decreases n,
{
    if n > 0 {
        lemma_row_diff_update_le(a, b, y, v, n - 1);
        if n - 1 != y && 0 <= n - 1 < a.len() {
            assert(a.update(y, v)[n - 1] == a[n - 1]);
        }
    }
}

proof fn lemma_grid_diff_update_le(
    a: Seq<Seq<Site>>,
    b: Seq<Seq<Site>>,
    x: int,
    y: int,
    v: Site,
    n: int,
)
    requires
        0 <= x < a.len(),
        0 <= y < a[x].len(),
        n <= a.len(),
    ensures
        spec_grid_diff(a.update(x, a[x].update(y, v)), b, n) <= spec_grid_diff(a, b, n) + (if x
            < n {
            1nat
        } else {
            0nat
        }),
    decreases n,
{
    if n > 0 {
        lemma_grid_diff_update_le(a, b, x, y, v, n - 1);
        let a2 = a.update(x, a[x].update(y, v));
        if n - 1 == x {
            assert(a2[x] == a[x].update(y, v));
            assert(a2[x].len() == a[x].len());
            lemma_row_diff_update_le(a[x], b[x], y, v, a[x].len() as int);
        } else if 0 <= n - 1 < a.len() {
            assert(a2[n - 1] == a[n - 1]);
        }
    }
}

proof fn lemma_row_count_upto_le(row: Seq<Site>, n: int)
    requires
        0 <= n,
    ensures
        spec_row_count_upto(row, n) <= n,
    decreases n,
{
    if n > 0 {
        lemma_row_count_upto_le(row, n - 1);
    }
}

proof fn lemma_count_rows_le(g: Seq<Seq<Site>>, n: int, h: int)
    requires
        0 <= n <= g.len(),
        0 <= h,
        forall|i: int| 0 <= i < n ==> (#[trigger] g[i]).len() == h,
    ensures
        spec_count_rows_upto(g, n) <= n * h,
    decreases n,
{
    if n > 0 {
        lemma_count_rows_le(g, n - 1, h);
        lemma_row_count_upto_le(g[n - 1], h);
        assert((n - 1) * h + h == n * h) by (nonlinear_arith);
    }
}

/// The occupancy grid with its fixed toroidal dimensions.
pub struct Lattice {
    grid: Vec<Vec<Site>>,
    width: usize,
    height: usize,
}

impl Lattice {
    /// The number of columns, as a specification value.
    pub closed spec fn spec_width(self) -> usize {
        self.width
    }

    /// The number of rows per column, as a specification value.
    pub closed spec fn spec_height(self) -> usize {
        self.height
    }

    /// The grid contents, column by column.
    pub closed spec fn spec_grid(self) -> Seq<Seq<Site>> {
        self.grid@.map_values(|col: Vec<Site>| col@)
    }

    /// The state of the site at `(x, y)`.
    pub open spec fn spec_site(self, x: int, y: int) -> Site {
        self.spec_grid()[x][y]
    }

    /// Well-formedness: bounded dimensions and a fully allocated grid.
    pub open spec fn wf(self) -> bool {
        &&& self.spec_width() <= 30_000
        &&& self.spec_height() <= 30_000
        &&& self.spec_grid().len() == self.spec_width()
        &&& forall|x: int|
            0 <= x < self.spec_width() ==> (#[trigger] self.spec_grid()[x]).len()
                == self.spec_height()
    }

    /// The total number of occupied sites.
    pub open spec fn spec_molecule_count(self) -> nat {
        spec_count_rows_upto(self.spec_grid(), self.spec_grid().len() as int)
    }

    /// The number of occupied sites among the four toroidal nearest
    /// neighbors of `(x, y)`.
    pub open spec fn spec_occupied_neighbors(self, x: int, y: int) -> int {
        let w = self.spec_width() as int;
        let h = self.spec_height() as int;
        (if self.spec_site(x, (y + h - 1) % h) is Molecule {
            1int
        } else {
            0int
        }) + (if self.spec_site(x, (y + 1) % h) is Molecule {
            1int
        } else {
            0int
        }) + (if self.spec_site((x + w - 1) % w, y) is Molecule {
            1int
        } else {
            0int
        }) + (if self.spec_site((x + 1) % w, y) is Molecule {
            1int
        } else {
            0int
        })
    }

    /// Allocates a `width x height` grid and draws every site
    /// independently from a fair coin. Zero-sized dimensions degrade
    /// gracefully to an empty grid; dimensions are capped at 30000 so
    /// that every index and count fits the machine word.
    pub fn new(width: usize, height: usize) -> (r: Lattice)
        requires
            width <= 30_000,
            height <= 30_000,
        ensures
            r.wf(),
            r.spec_width() == width,
            r.spec_height() == height,
    {
        let mut grid: Vec<Vec<Site>> = Vec::new();
        let mut x: usize = 0;
        while x < width
            invariant
                x <= width,
                grid@.len() == x,
                forall|i: int| 0 <= i < x ==> (#[trigger] grid@[i])@.len() == height,
            decreases width - x,
        {
            let mut col: Vec<Site> = Vec::new();
            let mut y: usize = 0;
            while y < height
                invariant
                    y <= height,
                    col@.len() == y,
                decreases height - y,
            {
                let site = if random_bool() {
                    Site::Molecule
                } else {
                    Site::Empty
                };
                col.push(site);
                y = y + 1;
            }
            grid.push(col);
            x = x + 1;
        }
        let r = Lattice { grid, width, height };
        assert forall|x: int| 0 <= x < r.spec_width() implies (#[trigger] r.spec_grid()[x]).len()
            == r.spec_height() by {
            assert(r.spec_grid()[x] == r.grid@[x]@);
        }
        r
    }

    /// The number of columns.
    pub fn width(&self) -> (r: usize)
        ensures
            r == self.spec_width(),
    {
        self.width
    }

    /// The number of rows per column.
    pub fn height(&self) -> (r: usize)
        ensures
            r == self.spec_height(),
    {
        self.height
    }

    /// Reads the site at `(x, y)`.
    pub fn site_at(&self, x: usize, y: usize) -> (r: Site)
        requires
            self.wf(),
            x < self.spec_width(),
            y < self.spec_height(),
        ensures
            r == self.spec_site(x as int, y as int),
    {
        proof {
            assert(self.spec_grid()[x as int] == self.grid@[x as int]@);
        }
        self.grid[x][y]
    }

    /// Counts the occupied sites of the whole grid.
    pub fn molecule_count(&self) -> (c: usize)
        requires
            self.wf(),
        ensures
            c == self.spec_molecule_count(),
            c <= self.spec_width() * self.spec_height(),
    {
        let ghost g = self.spec_grid();
        let mut count: usize = 0;
        let mut x: usize = 0;
        while x < self.width
            invariant
                self.wf(),
                g == self.spec_grid(),
                x <= self.spec_width(),
                count == spec_count_rows_upto(g, x as int),
                count <= x * self.spec_height(),
            decreases self.spec_width() - x,
        {
            proof {
                assert(self.spec_grid()[x as int] == self.grid@[x as int]@);
            }
            let mut y: usize = 0;
            while y < self.height
                invariant
                    self.wf(),
                    g == self.spec_grid(),
                    x < self.spec_width(),
                    y <= self.spec_height(),
                    count == spec_count_rows_upto(g, x as int) + spec_row_count_upto(
                        g[x as int],
                        y as int,
                    ),
                    count <= x * self.spec_height() + y,
                decreases self.spec_height() - y,
            {
                proof {
                    assert(self.spec_grid()[x as int] == self.grid@[x as int]@);
                    assert(x * self.spec_height() + y <= 30_000 * 30_000) by (nonlinear_arith)
                        requires
                            0 <= x < 30_000,
                            0 <= y < 30_000,
                            0 <= self.spec_height() <= 30_000,
                    ;
                }
                if self.grid[x][y] == Site::Molecule {
                    count = count + 1;
                }
                y = y + 1;
            }
            proof {
                assert(spec_row_count_upto(g[x as int], self.spec_height() as int)
                    == spec_row_count(g[x as int]));
                assert(x * self.spec_height() + self.spec_height() == (x + 1)
                    * self.spec_height()) by (nonlinear_arith);
            }
            x = x + 1;
        }
        proof {
            lemma_count_rows_le(g, g.len() as int, self.spec_height() as int);
        }
        count
    }

    /// The occupied fraction of the grid in thousandths: the occupied
    /// count over the cell count, or 0 for a zero-area grid.
    pub fn occupied_fraction(&self) -> (r: i64)
        requires
            self.wf(),
        ensures
            0 <= r <= 1000,
            self.spec_width() * self.spec_height() == 0 ==> r == 0,
            self.spec_width() * self.spec_height() > 0 ==> r == (self.spec_molecule_count() as int)
                * 1000 / (self.spec_width() * self.spec_height()),
    {
        assert(self.width * self.height <= 900_000_000) by (nonlinear_arith)
            requires
                self.width <= 30_000,
                self.height <= 30_000,
        ;
        let total = self.width * self.height;
        if total == 0 {
            return 0;
        }
        let c = self.molecule_count();
        let scaled = (c as u64) * 1000;
        let frac = scaled / (total as u64);
        assert(frac <= 1000) by (nonlinear_arith)
            requires
                c <= total,
                1 <= total,
                scaled == c * 1000,
                frac == scaled / (total as u64),
        ;
        frac as i64
    }

    /// One grand-canonical Metropolis sweep at the given temperature and
    /// chemical potential (both in thousandths): exactly `width * height`
    /// random single-site trials, each toggling its site when the
    /// Metropolis criterion accepts the enthalpy change. A non-positive
    /// temperature freezes the lattice and performs no trials.
    pub fn sweep(&mut self, temp_millis: i64, chem_potential_millis: i64) -> (st: SweepStats)
        requires
            old(self).wf(),
            -1_000_000 <= chem_potential_millis <= 1_000_000,
        ensures
            final(self).wf(),
            final(self).spec_width() == old(self).spec_width(),
            final(self).spec_height() == old(self).spec_height(),
            temp_millis <= 0 ==> final(self).spec_grid() == old(self).spec_grid() && st.trials == 0
                && st.toggles == 0,
            temp_millis > 0 ==> st.trials == old(self).spec_width() * old(self).spec_height(),
            st.toggles <= st.trials,
            spec_cells_changed(final(self).spec_grid(), old(self).spec_grid()) <= st.toggles,
    {
        if temp_millis <= 0 {
            proof {
                lemma_grid_diff_self(self.spec_grid(), self.spec_grid().len() as int);
            }
            return SweepStats { trials: 0, toggles: 0 };
        }
        let ghost g0 = self.spec_grid();
        proof {
            lemma_grid_diff_self(g0, g0.len() as int);
        }
        assert(self.width * self.height <= 900_000_000) by (nonlinear_arith)
            requires
                self.width <= 30_000,
                self.height <= 30_000,
        ;
        let total = self.width * self.height;
        let mut toggles: usize = 0;
        let mut t: usize = 0;
        while t < total
            invariant
                self.wf(),
                self.spec_width() == old(self).spec_width(),
                self.spec_height() == old(self).spec_height(),
                total == self.spec_width() * self.spec_height(),
                total <= 900_000_000,
                t <= total,
                toggles <= t,
                temp_millis >= 1,
                -1_000_000 <= chem_potential_millis <= 1_000_000,
                g0 == old(self).spec_grid(),
                self.spec_grid().len() == g0.len(),
                spec_cells_changed(self.spec_grid(), g0) <= toggles,
            decreases total - t,
        {
            proof {
                assert(self.width >= 1 && self.height >= 1) by (nonlinear_arith)
                    requires
                        self.width * self.height >= 1,
                ;
            }
            let x = random_below(self.width);
            let y = random_below(self.height);
            let n = self.occupied_neighbors(x, y);
            let current = self.site_at(x, y);
            let dh = delta_h_millis(current, n, chem_potential_millis);
            let u = random_micro();
            if metropolis_accept(dh, temp_millis, u) {
                let flipped = if current == Site::Molecule {
                    Site::Empty
                } else {
                    Site::Molecule
                };
                proof {
                    assert(self.spec_grid()[x as int] == self.grid@[x as int]@);
                }
                let ghost pre = *self;
                self.grid[x][y] = flipped;
                toggles = toggles + 1;
                assert forall|i: int| 0 <= i < self.spec_width() implies (
                #[trigger] self.spec_grid()[i]).len() == self.spec_height() by {
                    assert(self.spec_grid()[i] == self.grid@[i]@);
                    assert(pre.spec_grid()[i] == pre.grid@[i]@);
                    if i != x as int {
                        assert(self.grid@[i] == pre.grid@[i]);
                    }
                }
                proof {
                    let pre_g = pre.spec_grid();
                    assert forall|i: int| 0 <= i < pre_g.len() implies self.spec_grid()[i]
                        == pre_g.update(
                        x as int,
                        pre_g[x as int].update(y as int, flipped),
                    )[i] by {
                        assert(self.spec_grid()[i] == self.grid@[i]@);
                        assert(pre_g[i] == pre.grid@[i]@);
                        if i != x as int {
                            assert(self.grid@[i] == pre.grid@[i]);
                        }
                    }
                    assert(self.spec_grid() =~= pre_g.update(
                        x as int,
                        pre_g[x as int].update(y as int, flipped),
                    ));
                    lemma_grid_diff_update_le(pre_g, g0, x as int, y as int, flipped, pre_g.len() as int);
                }
            }
            t = t + 1;
        }
        SweepStats { trials: total, toggles }
    }

    /// Counts the occupied sites among the four toroidal neighbors of
    /// `(x, y)`.
    pub fn occupied_neighbors(&self, x: usize, y: usize) -> (n: i64)
        requires
            self.wf(),
            x < self.spec_width(),
            y < self.spec_height(),
        ensures
            n == self.spec_occupied_neighbors(x as int, y as int),
            0 <= n <= 4,
    {
        let w = self.width;
        let h = self.height;
        let up = (y + h - 1) % h;
        let down = (y + 1) % h;
        let left = (x + w - 1) % w;
        let right = (x + 1) % w;
        proof {
            assert(self.spec_grid()[x as int] == self.grid@[x as int]@);
            assert(self.spec_grid()[left as int] == self.grid@[left as int]@);
            assert(self.spec_grid()[right as int] == self.grid@[right as int]@);
        }
        let mut n: i64 = 0;
        if self.grid[x][up] == Site::Molecule {
            n = n + 1;
        }
        if self.grid[x][down] == Site::Molecule {
            n = n + 1;
        }
        if self.grid[left][y] == Site::Molecule {
            n = n + 1;
        }
        if self.grid[right][y] == Site::Molecule {
            n = n + 1;
        }
        n
    }
}

/// The grand-canonical enthalpy change of toggling a site, in
/// thousandths.
pub fn delta_h_millis(current: Site, neighbors: i64, mu_millis: i64) -> (dh: i64)
    requires
        0 <= neighbors <= 4,
        -1_000_000 <= mu_millis <= 1_000_000,
    ensures
        dh == spec_delta_h_millis(current, neighbors as int, mu_millis as int),
        -1_002_000 <= dh <= 1_002_000,
{
    let bond = J0_MILLIS * neighbors;
    match current {
        Site::Molecule => bond + mu_millis,
        Site::Empty => -bond - mu_millis,
    }
}

/// Decides one Metropolis trial: accept unconditionally when the enthalpy
/// change `dh` is favorable, otherwise accept exactly when the uniform
/// draw `u` (in millionths) falls below `exp(-dh / t)`.
pub fn metropolis_accept(delta_h_millis: i64, temp_millis: i64, u_micro: u64) -> (r: bool)
    requires
        temp_millis >= 1,
        -2_000_000 <= delta_h_millis <= 2_000_000,
        u_micro < 1_000_000,
    ensures
        r == spec_metropolis_accept(delta_h_millis as int, temp_millis as int, u_micro as int),
{
    if delta_h_millis <= 0 {
        true
    } else {
        let x_micro = (delta_h_millis as u64) * 1_000_000 / (temp_millis as u64);
        let p = exp_neg_micro(x_micro);
        u_micro < p
    }
}

} // verus!
