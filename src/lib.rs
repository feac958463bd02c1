//! A two-dimensional material point simulation core: the node lattice, the
//! quadratic transfer kernel and the order of the solver's stages.
pub mod grid;
pub mod kernel;
pub mod schedule;
