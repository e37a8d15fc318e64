//! The structural state of the basis function.
//!
//! A basis function wraps one raw noise kernel: it selects the kernel
//! by basis type, selects the interpolation the kernel applies, and
//! derives from its seed the rotation that de-aligns the kernel's
//! lattice. The rotation itself is trigonometry on doubles and lives in
//! the evaluation layer; what is verified here is the selection state,
//! the exact draws that the rotation is built from, and the empirical
//! range-correction pairs, carried exactly in millionths.

use vstd::prelude::*;
use crate::random_gen::{LCG, PRNG, lcg_next, lcg_nth, lemma_lcg_next_injective};

verus! {

/// The raw noise kernels a basis function can wrap.
#[derive(Clone, Copy, Debug, PartialEq, Eq, Structural)]
pub enum BasisType {
    Value,
    Gradient,
    Gradval,
    Simplex,
    White,
}

/// The interpolation the lattice kernels apply between grid points.
/// The simplex kernel has no discrete interpolation step and ignores
/// the selection.
#[derive(Clone, Copy, Debug, PartialEq, Eq, Structural)]
pub enum InterpType {
    NoInterp,
    Linear,
    Cubic,
    Quintic,
}

/// The empirical scale that remaps the raw kernel output of basis `b`
/// toward `[-1, 1]`, in millionths; the index `d` names the
/// dimensionality (0 for 2, 1 for 3, 2 for 4, 3 for 6). The value,
/// gradval-value and simplex kernels pass through unscaled.
pub open spec fn magic_scale_micro(b: BasisType, d: int) -> int {
    match b {
        BasisType::Value => 1000000,
        BasisType::White => 1000000,
        BasisType::Simplex => 1000000,
        BasisType::Gradient => if d == 0 {
            1868480
        } else if d == 1 {
            1851480
        } else if d == 2 {
            1641270
        } else {
            1925170
        },
        BasisType::Gradval => if d == 0 {
            676900
        } else if d == 1 {
            695700
        } else if d == 2 {
            746220
        } else {
            796100
        },
    }
}

/// The empirical offset paired with `magic_scale_micro`, in millionths.
pub open spec fn magic_offset_micro(b: BasisType, d: int) -> int {
    match b {
        BasisType::Value => 0,
        BasisType::White => 0,
        BasisType::Simplex => 0,
        BasisType::Gradient => if d == 0 {
            -118
        } else if d == 1 {
            -8272
        } else if d == 2 {
            -15270
        } else {
            33930
        },
        BasisType::Gradval => if d == 0 {
            -1510
        } else if d == 1 {
            -133000
        } else if d == 2 {
            19160
        } else {
            -35200
        },
    }
}

/// The four (scale, offset) range-correction pairs of the basis `b`,
/// one per dimensionality, in millionths: the evaluation layer divides
/// each by one million to obtain the double it stores.
pub fn magic_numbers_micro(b: &BasisType) -> (r: ([i64; 4], [i64; 4]))
    ensures
        forall|k: int| 0 <= k < 4 ==> r.0@[k] == magic_scale_micro(*b, k),
        forall|k: int| 0 <= k < 4 ==> r.1@[k] == magic_offset_micro(*b, k),
{
    match b {
        BasisType::Value => ([1000000i64; 4], [0i64; 4]),
        BasisType::White => ([1000000i64; 4], [0i64; 4]),
        BasisType::Simplex => ([1000000i64; 4], [0i64; 4]),
        BasisType::Gradient => (
            [1868480i64, 1851480i64, 1641270i64, 1925170i64],
            [-118i64, -8272i64, -15270i64, 33930i64],
        ),
        BasisType::Gradval => (
            [676900i64, 695700i64, 746220i64, 796100i64],
            [-1510i64, -133000i64, 19160i64, -35200i64],
        ),
    }
}

/// The five words that a basis function draws when it is seeded: the
/// three rotation-axis draws, the 3-dimensional angle draw and the
/// 2-dimensional angle draw, in that order, from a fresh
/// linear-congruential generator started at the seed. The evaluation
/// layer turns each into the fraction `draw / (2^32 - 1)` and builds
/// the rotation from the fractions.
pub struct RotationDraws {
    pub ax: u32,
    pub ay: u32,
    pub az: u32,
    pub angle_3d: u32,
    pub angle_2d: u32,
}

/// The draws that seeding a basis function with `seed` makes, exactly
/// the first five words of a fresh linear-congruential generator
/// started at `seed`.
pub fn rotation_draws(seed: u32) -> (r: RotationDraws)
    ensures
        r.ax == lcg_nth(seed, 1),
        r.ay == lcg_nth(seed, 2),
        r.az == lcg_nth(seed, 3),
        r.angle_3d == lcg_nth(seed, 4),
        r.angle_2d == lcg_nth(seed, 5),
{
    let mut lcg = LCG::new();
    lcg.set_seed(seed);
    let ax = lcg.get();
    let ay = lcg.get();
    let az = lcg.get();
    let angle_3d = lcg.get();
    let angle_2d = lcg.get();
    proof {
        assert(lcg_nth(seed, 0) == seed);
        assert(lcg_nth(seed, 1) == lcg_next(lcg_nth(seed, 0)));
        assert(lcg_nth(seed, 2) == lcg_next(lcg_nth(seed, 1)));
        assert(lcg_nth(seed, 3) == lcg_next(lcg_nth(seed, 2)));
        assert(lcg_nth(seed, 4) == lcg_next(lcg_nth(seed, 3)));
        assert(lcg_nth(seed, 5) == lcg_next(lcg_nth(seed, 4)));
    }
    RotationDraws { ax, ay, az, angle_3d, angle_2d }
}

/// Law: basis functions seeded differently draw different rotations:
/// already the first axis draw differs.
pub proof fn lemma_rotation_draws_decorrelated(s1: u32, s2: u32)
    requires
        s1 != s2,
    ensures
        lcg_nth(s1, 1) != lcg_nth(s2, 1),
{
    lemma_lcg_next_injective(s1, s2);
    assert(lcg_nth(s1, 1) == lcg_next(lcg_nth(s1, 0)));
    assert(lcg_nth(s2, 1) == lcg_next(lcg_nth(s2, 0)));
}

/// The basis function's discrete state: which kernel it wraps, which
/// interpolation the kernel applies, and the seed the rotation is
/// derived from.
pub struct BasisSettings {
    pub basis_type: BasisType,
    pub interp_type: InterpType,
    pub seed: u32,
}

impl BasisSettings {
    /// The state a new basis function is built with: a gradient kernel
    /// under quintic interpolation, seeded with 1000.
    pub fn new() -> (r: BasisSettings)
        ensures
            r.basis_type == BasisType::Gradient,
            r.interp_type == InterpType::Quintic,
            r.seed == 1000u32,
    {
        BasisSettings::with_types(BasisType::Gradient, InterpType::Quintic)
    }

    /// The state a new basis function of the given types is built
    /// with; the seed starts at 1000.
    pub fn with_types(btype: BasisType, itype: InterpType) -> (r: BasisSettings)
        ensures
            r.basis_type == btype,
            r.interp_type == itype,
            r.seed == 1000u32,
    {
        BasisSettings { basis_type: btype, interp_type: itype, seed: 1000 }
    }

    /// Selects the kernel. The evaluation layer must reinstall the
    /// range-correction pairs of the new basis type after this.
    pub fn set_type(&mut self, t: BasisType)
        ensures
            final(self).basis_type == t,
            final(self).interp_type == old(self).interp_type,
            final(self).seed == old(self).seed,
    {
        self.basis_type = t;
    }

    /// Selects the interpolation the kernel applies.
    pub fn set_interp(&mut self, interp: InterpType)
        ensures
            final(self).interp_type == interp,
            final(self).basis_type == old(self).basis_type,
            final(self).seed == old(self).seed,
    {
        self.interp_type = interp;
    }

    /// Installs a new seed. The evaluation layer must rebuild the
    /// rotation from `rotation_draws` of this seed after this.
    pub fn set_seed(&mut self, seed: u32)
        ensures
            final(self).seed == seed,
            final(self).basis_type == old(self).basis_type,
            final(self).interp_type == old(self).interp_type,
    {
        self.seed = seed;
    }
}

} // verus!
