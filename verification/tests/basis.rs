use anl::implicit_basis_function::{
    magic_numbers_micro, rotation_draws, BasisSettings, BasisType, InterpType,
};
use anl::random_gen::{LCG, PRNG};

#[test]
fn the_gradient_magic_numbers_are_the_documented_doubles() {
    let micro = |m: i64| m as f64 / 1000000.0;
    let (scale, offset) = magic_numbers_micro(&BasisType::Gradient);
    assert_eq!(scale.map(micro), [1.86848, 1.85148, 1.64127, 1.92517]);
    assert_eq!(offset.map(micro), [-0.000118, -0.008272, -0.01527, 0.03393]);
}

#[test]
fn the_gradval_magic_numbers_are_the_documented_doubles() {
    let micro = |m: i64| m as f64 / 1000000.0;
    let (scale, offset) = magic_numbers_micro(&BasisType::Gradval);
    assert_eq!(scale.map(micro), [0.6769, 0.6957, 0.74622, 0.7961]);
    assert_eq!(offset.map(micro), [-0.00151, -0.133, 0.01916, -0.0352]);
}

#[test]
fn the_identity_bases_pass_through_unscaled() {
    for b in [BasisType::Value, BasisType::White, BasisType::Simplex] {
        let (scale, offset) = magic_numbers_micro(&b);
        assert_eq!(scale, [1000000; 4]);
        assert_eq!(offset, [0; 4]);
    }
}

#[test]
fn rotation_draws_are_the_first_five_words_of_the_seeding_lcg() {
    let draws = rotation_draws(42);
    let mut lcg = LCG::new();
    lcg.set_seed(42);
    assert_eq!(draws.ax, lcg.get());
    assert_eq!(draws.ay, lcg.get());
    assert_eq!(draws.az, lcg.get());
    assert_eq!(draws.angle_3d, lcg.get());
    assert_eq!(draws.angle_2d, lcg.get());
}

#[test]
fn rotation_draws_repeat_bit_identically_for_equal_seeds() {
    let a = rotation_draws(1000);
    let b = rotation_draws(1000);
    assert_eq!(a.ax, b.ax);
    assert_eq!(a.ay, b.ay);
    assert_eq!(a.az, b.az);
    assert_eq!(a.angle_3d, b.angle_3d);
    assert_eq!(a.angle_2d, b.angle_2d);
}

#[test]
fn rotation_draws_differ_for_different_seeds() {
    let a = rotation_draws(1000);
    let b = rotation_draws(1001);
    assert_ne!(a.ax, b.ax);
}

#[test]
fn a_new_basis_function_wraps_a_quintic_gradient_kernel() {
    let b = BasisSettings::new();
    assert_eq!(b.basis_type, BasisType::Gradient);
    assert_eq!(b.interp_type, InterpType::Quintic);
    assert_eq!(b.seed, 1000);
}

#[test]
fn the_selections_are_independent() {
    let mut b = BasisSettings::with_types(BasisType::Value, InterpType::Linear);
    assert_eq!(b.basis_type, BasisType::Value);
    assert_eq!(b.interp_type, InterpType::Linear);
    b.set_type(BasisType::Simplex);
    assert_eq!(b.basis_type, BasisType::Simplex);
    assert_eq!(b.interp_type, InterpType::Linear);
    b.set_interp(InterpType::NoInterp);
    assert_eq!(b.basis_type, BasisType::Simplex);
    assert_eq!(b.interp_type, InterpType::NoInterp);
    b.set_seed(77);
    assert_eq!(b.seed, 77);
    assert_eq!(b.basis_type, BasisType::Simplex);
}
