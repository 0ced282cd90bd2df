//! A grid-based fluid lattice: a scalar pressure field and a vector flow
//! field of one shape, advanced in discrete ticks by local rules over the
//! eight cells around each cell.
//!
//! The library owns the geometry: how cells are laid out, which neighbours a
//! cell has, what a read past the edge yields, in which order the passes of
//! a tick run and what each pass hands to the rule of a cell. The arithmetic
//! of a rule is the caller's: every pass takes it as a function value and
//! its contract is stated over that function's own contract.

pub mod grid;
pub mod kernel;
pub mod lattice;
pub mod laws;
pub mod neighbors;
pub mod observe;
pub mod pass;
