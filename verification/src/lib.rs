//! A procedural noise engine: composable scalar-field generator modules,
//! queried at points of 2, 3, 4 or 6 dimensions.
//!
//! This crate holds the verified core of the engine: the pseudo-random
//! number generators used for seeding, the module contract and the
//! scalar-parameter abstraction, the structural state of the basis,
//! fractal and cellular generators, and the exact integer tables that
//! the floating-point evaluation layer is built on.

pub mod cellular_gen;
pub mod implicit_base;
pub mod implicit_basis_function;
pub mod implicit_fractal;
pub mod random_gen;
