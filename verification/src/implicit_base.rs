//! The module contract and the scalar-parameter abstraction.
//!
//! Every generator implements one interface: queried at a point of 2,
//! 3, 4 or 6 dimensions, it returns a scalar. Modules form an acyclic
//! graph; composite modules reach the modules they draw from through an
//! arena, by index, so that a module may be shared by several parents.
//! The scalar type is a type parameter: the contracts here hold for
//! whatever scalar the evaluation layer chooses.

use vstd::prelude::*;

verus! {

/// The largest number of octave sources a fractal combiner holds.
pub const MAX_SOURCES: usize = 20;

/// A noise module: a scalar field over points of 2, 3, 4 or 6
/// dimensions, with a 32-bit seed and a finite-difference spacing for
/// derivative estimates. Modules with nothing to seed ignore
/// `set_seed`. The `get_*` methods may update internal caches, so they
/// take the module mutably; evaluation recurses into the modules drawn
/// from, and the composition graph must be acyclic.
pub trait ImplicitModule<V: Copy> {
    fn set_seed(&mut self, seed: u32);

    fn get_2d(&mut self, x: V, y: V) -> V;

    fn get_3d(&mut self, x: V, y: V, z: V) -> V;

    fn get_4d(&mut self, x: V, y: V, z: V, w: V) -> V;

    fn get_6d(&mut self, x: V, y: V, z: V, w: V, u: V, v: V) -> V;

    /// The finite-difference step used by the derivative estimates.
    fn spacing(&self) -> V;

    fn set_deriv_spacing(&mut self, s: V);

    fn get_dx_2(&mut self, x: V, y: V) -> V;

    fn get_dy_2(&mut self, x: V, y: V) -> V;

    fn get_dx_3(&mut self, x: V, y: V, z: V) -> V;

    fn get_dy_3(&mut self, x: V, y: V, z: V) -> V;

    fn get_dz_3(&mut self, x: V, y: V, z: V) -> V;

    fn get_dx_4(&mut self, x: V, y: V, z: V, w: V) -> V;

    fn get_dy_4(&mut self, x: V, y: V, z: V, w: V) -> V;

    fn get_dz_4(&mut self, x: V, y: V, z: V, w: V) -> V;

    fn get_dw_4(&mut self, x: V, y: V, z: V, w: V) -> V;

    fn get_dx_6(&mut self, x: V, y: V, z: V, w: V, u: V, v: V) -> V;

    fn get_dy_6(&mut self, x: V, y: V, z: V, w: V, u: V, v: V) -> V;

    fn get_dz_6(&mut self, x: V, y: V, z: V, w: V, u: V, v: V) -> V;

    fn get_dw_6(&mut self, x: V, y: V, z: V, w: V, u: V, v: V) -> V;

    fn get_du_6(&mut self, x: V, y: V, z: V, w: V, u: V, v: V) -> V;

    fn get_dv_6(&mut self, x: V, y: V, z: V, w: V, u: V, v: V) -> V;
}

/// The modules a scalar parameter may draw from: an arena that
/// evaluates the module at a given index at a given point.
pub trait SourceArena<V: Copy> {
    fn eval_2d(&mut self, index: usize, x: V, y: V) -> V;

    fn eval_3d(&mut self, index: usize, x: V, y: V, z: V) -> V;

    fn eval_4d(&mut self, index: usize, x: V, y: V, z: V, w: V) -> V;

    fn eval_6d(&mut self, index: usize, x: V, y: V, z: V, w: V, u: V, v: V) -> V;
}

/// A scalar parameter: either a literal value, or one of the arena's
/// modules, named by its index. Evaluating a parameter never changes
/// the parameter itself; only the module it names may update its own
/// state.
pub enum ScalarParameter<V: Copy> {
    Value(V),
    Source(usize),
}

impl<V: Copy> ScalarParameter<V> {
    /// A literal parameter evaluates to its value at every point; a
    /// source parameter evaluates the module it names.
    pub fn get_2d<A: SourceArena<V>>(&self, arena: &mut A, x: V, y: V) -> (r: V)
        ensures
            (self matches ScalarParameter::Value(v) ==> r == v),
    {
        match self {
            ScalarParameter::Value(v) => *v,
            ScalarParameter::Source(i) => arena.eval_2d(*i, x, y),
        }
    }

    /// A literal parameter evaluates to its value at every point; a
    /// source parameter evaluates the module it names.
    pub fn get_3d<A: SourceArena<V>>(&self, arena: &mut A, x: V, y: V, z: V) -> (r: V)
        ensures
            (self matches ScalarParameter::Value(v) ==> r == v),
    {
        match self {
            ScalarParameter::Value(v) => *v,
            ScalarParameter::Source(i) => arena.eval_3d(*i, x, y, z),
        }
    }

    /// A literal parameter evaluates to its value at every point; a
    /// source parameter evaluates the module it names.
    pub fn get_4d<A: SourceArena<V>>(&self, arena: &mut A, x: V, y: V, z: V, w: V) -> (r: V)
        ensures
            (self matches ScalarParameter::Value(v) ==> r == v),
    {
        match self {
            ScalarParameter::Value(v) => *v,
            ScalarParameter::Source(i) => arena.eval_4d(*i, x, y, z, w),
        }
    }

    /// A literal parameter evaluates to its value at every point; a
    /// source parameter evaluates the module it names.
    pub fn get_6d<A: SourceArena<V>>(
        &self,
        arena: &mut A,
        x: V,
        y: V,
        z: V,
        w: V,
        u: V,
        v: V,
    ) -> (r: V)
        ensures
            (self matches ScalarParameter::Value(val) ==> r == val),
    {
        match self {
            ScalarParameter::Value(val) => *val,
            ScalarParameter::Source(i) => arena.eval_6d(*i, x, y, z, w, u, v),
        }
    }
}

} // verus!
