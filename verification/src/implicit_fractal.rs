//! The structural state of the fractal combiner.
//!
//! A fractal combines up to twenty octave sources with one of six
//! algorithms. The combiner's arithmetic runs on doubles in the
//! evaluation layer; what is verified here is its skeleton: the type
//! and octave-count state, the seed that each octave source is given,
//! and the type-specific parameter defaults, carried exactly in
//! millionths.

use vstd::prelude::*;
use crate::implicit_base::MAX_SOURCES;
use crate::random_gen::{lcg_next, lcg_nth, lemma_lcg_next_injective};

verus! {

/// The six fractal algorithms a combiner can run.
#[derive(Clone, Copy, Debug, PartialEq, Eq, Structural)]
pub enum FractalType {
    FBM,
    RidgedMulti,
    Billow,
    Multi,
    HybridMulti,
    DecarpentierSwiss,
}

/// The default exponent parameter `H` that `set_type` installs, in
/// millionths.
pub open spec fn default_h_micro(t: FractalType) -> int {
    match t {
        FractalType::FBM => 1000000,
        FractalType::RidgedMulti => 900000,
        FractalType::Billow => 1000000,
        FractalType::Multi => 1000000,
        FractalType::HybridMulti => 250000,
        FractalType::DecarpentierSwiss => 900000,
    }
}

/// The default gain that `set_type` installs, in millionths.
pub open spec fn default_gain_micro(t: FractalType) -> int {
    match t {
        FractalType::FBM => 500000,
        FractalType::RidgedMulti => 500000,
        FractalType::Billow => 500000,
        FractalType::Multi => 0,
        FractalType::HybridMulti => 1000000,
        FractalType::DecarpentierSwiss => 600000,
    }
}

/// The default offset that `set_type` installs, in millionths.
pub open spec fn default_offset_micro(t: FractalType) -> int {
    match t {
        FractalType::FBM => 0,
        FractalType::RidgedMulti => 1000000,
        FractalType::Billow => 0,
        FractalType::Multi => 0,
        FractalType::HybridMulti => 700000,
        FractalType::DecarpentierSwiss => 150000,
    }
}

/// The type-specific defaults for `H`, gain and offset, in millionths:
/// the evaluation layer divides each by one million to obtain the
/// double it installs.
pub fn type_defaults_micro(t: &FractalType) -> (r: (i64, i64, i64))
    ensures
        r.0 == default_h_micro(*t),
        r.1 == default_gain_micro(*t),
        r.2 == default_offset_micro(*t),
{
    match t {
        FractalType::FBM => (1000000, 500000, 0),
        FractalType::RidgedMulti => (900000, 500000, 1000000),
        FractalType::Billow => (1000000, 500000, 0),
        FractalType::Multi => (1000000, 0, 0),
        FractalType::HybridMulti => (250000, 1000000, 700000),
        FractalType::DecarpentierSwiss => (900000, 600000, 150000),
    }
}

/// The seed the octave source `octave` is given when the fractal is
/// seeded with `seed`: `seed + 300 * octave`, taken modulo 2^32.
pub open spec fn octave_seed_of(seed: u32, octave: u32) -> u32 {
    ((seed + 300 * octave) % 0x1_0000_0000) as u32
}

/// The seed handed to one octave source: octaves sharing a basis
/// seeding scheme are decorrelated by spacing their seeds 300 apart.
pub fn octave_seed(seed: u32, octave: u32) -> (r: u32)
    requires
        octave < MAX_SOURCES,
    ensures
        r == octave_seed_of(seed, octave),
{
    seed.wrapping_add(300 * octave)
}

/// Law: distinct top-level seeds hand distinct seeds to the source of
/// any one octave; the derived seeding never collapses two fractals
/// into one.
pub proof fn lemma_octave_seeds_decorrelated(s1: u32, s2: u32, octave: u32)
    requires
        s1 != s2,
    ensures
        octave_seed_of(s1, octave) != octave_seed_of(s2, octave),
{
    assert((s1 + 300 * octave) % 0x1_0000_0000 != (s2 + 300 * octave) % 0x1_0000_0000)
        by (bit_vector)
        requires
            s1 != s2,
    ;
}

/// Law: two fractals built with different top-level seeds give every
/// octave's basis function different rotation draws: already the first
/// word drawn from the derived seed differs.
pub proof fn lemma_octave_rotations_decorrelated(s1: u32, s2: u32, octave: u32)
    requires
        s1 != s2,
    ensures
        lcg_nth(octave_seed_of(s1, octave), 1) != lcg_nth(octave_seed_of(s2, octave), 1),
{
    let o1 = octave_seed_of(s1, octave);
    let o2 = octave_seed_of(s2, octave);
    lemma_octave_seeds_decorrelated(s1, s2, octave);
    lemma_lcg_next_injective(o1, o2);
    assert(lcg_nth(o1, 1) == lcg_next(lcg_nth(o1, 0)));
    assert(lcg_nth(o2, 1) == lcg_next(lcg_nth(o2, 0)));
}

/// The fractal combiner's discrete state: which of the six algorithms
/// runs and how many octaves contribute. The octave count stays below
/// the number of source slots, so the weight tables, which are indexed
/// by `octave count - 1`, are never overrun.
pub struct FractalSettings {
    pub ftype: FractalType,
    pub numoctaves: u32,
}

impl FractalSettings {
    /// The state a new fractal is built with: the given type and the
    /// default eight octaves.
    pub fn new(ftype: FractalType) -> (r: FractalSettings)
        ensures
            r.ftype == ftype,
            r.numoctaves == 8u32,
    {
        FractalSettings { ftype, numoctaves: 8 }
    }

    /// Selects the algorithm. The evaluation layer must reinstall the
    /// type defaults and recompute its weight tables after this, as
    /// `set_type` of the combiner does.
    pub fn set_type(&mut self, t: FractalType)
        ensures
            final(self).ftype == t,
            final(self).numoctaves == old(self).numoctaves,
    {
        self.ftype = t;
    }

    /// Sets the octave count, held below the number of source slots: a
    /// request of twenty or more is cut back to nineteen.
    pub fn set_num_octaves(&mut self, n: u32)
        ensures
            final(self).numoctaves == if n >= MAX_SOURCES { (MAX_SOURCES - 1) as int } else {
                n as int
            },
            final(self).ftype == old(self).ftype,
    {
        self.numoctaves = if n >= MAX_SOURCES as u32 {
            (MAX_SOURCES - 1) as u32
        } else {
            n
        };
    }

    /// The octave count.
    pub fn num_octaves(&self) -> (r: u32)
        ensures
            r == self.numoctaves,
    {
        self.numoctaves
    }

    /// The selected algorithm.
    pub fn fractal_type(&self) -> (r: FractalType)
        ensures
            r == self.ftype,
    {
        self.ftype
    }
}

} // verus!
