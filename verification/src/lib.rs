//! A two-dimensional lattice-gas model driven by grand-canonical Metropolis
//! Monte Carlo dynamics, together with a mean-field free-energy functional,
//! an equilibrium-density solver, and a precomputed phase diagram.
//!
//! Every real-valued quantity is held in fixed point: temperatures, chemical
//! potentials and densities are integers counting thousandths (`*_millis`),
//! while free energies and logarithms are integers counting millionths
//! (`*_micro`). Rendering, input handling and CSV persistence live outside
//! this crate and consume these plain integer values.

pub mod density_plot;
pub mod free_energy;
pub mod lattice;
pub mod logger;
pub mod numeric;
pub mod phase_diagram;
pub mod rng;
pub mod solver;
