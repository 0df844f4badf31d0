//! The in-memory record store of the simulation log. Each tick appends
//! one row `(step, temperature, chemical potential, density)`, with the
//! three reals in thousandths. Serializing the rows to CSV is file I/O
//! and lives outside this crate; it only ever reads the rows back through
//! `records`.

use vstd::prelude::*;

verus! {

/// One logged row per recorded tick.
pub struct SimulationLogger {
    records: Vec<(u64, i64, i64, i64)>,
}

impl SimulationLogger {
    /// The recorded rows in order, as a specification value.
    pub closed spec fn spec_records(self) -> Seq<(u64, i64, i64, i64)> {
        self.records@
    }

    /// An empty log.
    pub fn new() -> (r: SimulationLogger)
        ensures
            r.spec_records() == Seq::<(u64, i64, i64, i64)>::empty(),
    {
        let r = SimulationLogger { records: Vec::new() };
        proof {
            assert(r.spec_records() =~= Seq::<(u64, i64, i64, i64)>::empty());
        }
        r
    }

    /// Appends one row: the step counter, then temperature, chemical
    /// potential and density, each in thousandths.
    pub fn record(
        &mut self,
        step: u64,
        temperature_millis: i64,
        chem_potential_millis: i64,
        density_millis: i64,
    )
        ensures
            final(self).spec_records() == old(self).spec_records().push(
                (step, temperature_millis, chem_potential_millis, density_millis),
            ),
    {
        self.records.push((step, temperature_millis, chem_potential_millis, density_millis));
    }

    /// The recorded rows in order.
    pub fn records(&self) -> (r: &Vec<(u64, i64, i64, i64)>)
        ensures
            r@ == self.spec_records(),
    {
        &self.records
    }
}

} // verus!
