use anl::cellular_gen::CellularGenerator;

/// A stand-in for the cellular kernel collaborator: a deterministic
/// function of the seed and the coordinates, counting its invocations.
struct StubKernel {
    calls: u32,
}

impl StubKernel {
    fn eval_2d(&mut self, x: f64, y: f64, seed: u32) -> ([u64; 4], [u64; 4]) {
        self.calls += 1;
        let base = x * 2.0 + y * 3.0 + seed as f64;
        let f = [
            base.to_bits(),
            (base + 1.0).to_bits(),
            (base + 2.0).to_bits(),
            (base + 3.0).to_bits(),
        ];
        (f, f)
    }
}

/// The evaluation layer's query: answered from the cache when it can
/// be, else computed by the kernel and stored.
fn sample_2d(gen: &mut CellularGenerator, kernel: &mut StubKernel, x: f64, y: f64) -> [u64; 4] {
    let (xb, yb) = (x.to_bits(), y.to_bits());
    match gen.query_2d(xb, yb) {
        Some((f, _)) => f,
        None => {
            let (f, d) = kernel.eval_2d(x, y, gen.get_seed());
            gen.store_2d(xb, yb, f, d);
            f
        }
    }
}

#[test]
fn repeated_query_hits_the_cache_and_skips_the_kernel() {
    let mut gen = CellularGenerator::new();
    let mut kernel = StubKernel { calls: 0 };
    gen.set_seed(1234);
    let first = sample_2d(&mut gen, &mut kernel, 0.3, 0.3);
    assert_eq!(kernel.calls, 1);
    let second = sample_2d(&mut gen, &mut kernel, 0.3, 0.3);
    assert_eq!(kernel.calls, 1);
    assert_eq!(first, second);
}

#[test]
fn a_different_coordinate_recomputes_and_evicts() {
    let mut gen = CellularGenerator::new();
    let mut kernel = StubKernel { calls: 0 };
    gen.set_seed(7);
    sample_2d(&mut gen, &mut kernel, 0.3, 0.3);
    assert_eq!(kernel.calls, 1);
    sample_2d(&mut gen, &mut kernel, 0.4, 0.3);
    assert_eq!(kernel.calls, 2);
    // The slot holds one entry: the first coordinates must be recomputed.
    sample_2d(&mut gen, &mut kernel, 0.3, 0.3);
    assert_eq!(kernel.calls, 3);
}

#[test]
fn reseeding_invalidates_every_slot() {
    let mut gen = CellularGenerator::new();
    let mut kernel = StubKernel { calls: 0 };
    gen.set_seed(1);
    sample_2d(&mut gen, &mut kernel, 0.5, 0.5);
    assert_eq!(kernel.calls, 1);
    gen.set_seed(2);
    assert!(gen.query_2d(0.5f64.to_bits(), 0.5f64.to_bits()).is_none());
    let refreshed = sample_2d(&mut gen, &mut kernel, 0.5, 0.5);
    assert_eq!(kernel.calls, 2);
    // The new seed reaches the kernel: the distances change with it.
    assert_ne!(refreshed[0], {
        let mut other = StubKernel { calls: 0 };
        other.eval_2d(0.5, 0.5, 1).0[0]
    });
}

#[test]
fn a_fresh_generator_has_nothing_cached() {
    let gen = CellularGenerator::new();
    assert_eq!(gen.get_seed(), 0);
    assert!(gen.query_2d(0, 0).is_none());
    assert!(gen.query_3d(0, 0, 0).is_none());
    assert!(gen.query_4d(0, 0, 0, 0).is_none());
    assert!(gen.query_6d(0, 0, 0, 0, 0, 0).is_none());
}

#[test]
fn each_dimensionality_has_its_own_slot() {
    let mut gen = CellularGenerator::new();
    let f = [1u64, 2, 3, 4];
    let d = [5u64, 6, 7, 8];
    gen.store_3d(10, 11, 12, f, d);
    gen.store_4d(20, 21, 22, 23, d, f);
    assert_eq!(gen.query_3d(10, 11, 12), Some((f, d)));
    assert_eq!(gen.query_4d(20, 21, 22, 23), Some((d, f)));
    assert!(gen.query_2d(10, 11).is_none());
    assert!(gen.query_3d(10, 11, 13).is_none());
    gen.store_6d(1, 2, 3, 4, 5, 6, f, d);
    assert_eq!(gen.query_6d(1, 2, 3, 4, 5, 6), Some((f, d)));
    assert!(gen.query_6d(1, 2, 3, 4, 5, 7).is_none());
}

/// The end-to-end scenario: worley noise with coefficients (1, 0, 0, 0),
/// the generator seeded with 1234, sampled twice at the same point.
#[test]
fn cellular_module_returns_identical_doubles_without_a_second_kernel_call() {
    let coefficients = [1.0f64, 0.0, 0.0, 0.0];
    let mut gen = CellularGenerator::new();
    let mut kernel = StubKernel { calls: 0 };
    gen.set_seed(1234);

    let mut sample = |gen: &mut CellularGenerator, kernel: &mut StubKernel| -> f64 {
        let f = sample_2d(gen, kernel, 0.3, 0.3);
        f64::from_bits(f[0]) * coefficients[0]
            + f64::from_bits(f[1]) * coefficients[1]
            + f64::from_bits(f[2]) * coefficients[2]
            + f64::from_bits(f[3]) * coefficients[3]
    };

    let a = sample(&mut gen, &mut kernel);
    let b = sample(&mut gen, &mut kernel);
    assert_eq!(a.to_bits(), b.to_bits());
    assert_eq!(kernel.calls, 1);
}
