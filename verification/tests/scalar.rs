use anl::implicit_base::{ScalarParameter, SourceArena, MAX_SOURCES};

/// A stand-in arena: the module at index `i` is the constant field
/// `100 * i + the dimensionality`.
struct IndexArena;

impl SourceArena<f64> for IndexArena {
    fn eval_2d(&mut self, index: usize, _x: f64, _y: f64) -> f64 {
        100.0 * index as f64 + 2.0
    }
    fn eval_3d(&mut self, index: usize, _x: f64, _y: f64, _z: f64) -> f64 {
        100.0 * index as f64 + 3.0
    }
    fn eval_4d(&mut self, index: usize, _x: f64, _y: f64, _z: f64, _w: f64) -> f64 {
        100.0 * index as f64 + 4.0
    }
    fn eval_6d(&mut self, index: usize, _x: f64, _y: f64, _z: f64, _w: f64, _u: f64, _v: f64) -> f64 {
        100.0 * index as f64 + 6.0
    }
}

#[test]
fn a_literal_parameter_returns_its_value_at_every_point() {
    let p = ScalarParameter::Value(0.25f64);
    let mut arena = IndexArena;
    for (x, y) in [(0.0, 0.0), (-3.5, 7.25), (1e308, -1e308)] {
        assert_eq!(p.get_2d(&mut arena, x, y), 0.25);
        assert_eq!(p.get_3d(&mut arena, x, y, 1.0), 0.25);
        assert_eq!(p.get_4d(&mut arena, x, y, 1.0, 2.0), 0.25);
        assert_eq!(p.get_6d(&mut arena, x, y, 1.0, 2.0, 3.0, 4.0), 0.25);
    }
}

#[test]
fn a_source_parameter_delegates_to_the_named_module() {
    let p = ScalarParameter::Source(3usize);
    let mut arena = IndexArena;
    assert_eq!(p.get_2d(&mut arena, 0.0, 0.0), 302.0);
    assert_eq!(p.get_3d(&mut arena, 0.0, 0.0, 0.0), 303.0);
    assert_eq!(p.get_4d(&mut arena, 0.0, 0.0, 0.0, 0.0), 304.0);
    assert_eq!(p.get_6d(&mut arena, 0.0, 0.0, 0.0, 0.0, 0.0, 0.0), 306.0);
}

#[test]
fn a_parameter_can_carry_any_scalar_type() {
    struct IntArena;
    impl SourceArena<i32> for IntArena {
        fn eval_2d(&mut self, index: usize, _x: i32, _y: i32) -> i32 {
            index as i32
        }
        fn eval_3d(&mut self, index: usize, _x: i32, _y: i32, _z: i32) -> i32 {
            index as i32
        }
        fn eval_4d(&mut self, index: usize, _x: i32, _y: i32, _z: i32, _w: i32) -> i32 {
            index as i32
        }
        fn eval_6d(
            &mut self,
            index: usize,
            _x: i32,
            _y: i32,
            _z: i32,
            _w: i32,
            _u: i32,
            _v: i32,
        ) -> i32 {
            index as i32
        }
    }
    let p = ScalarParameter::Value(-7);
    assert_eq!(p.get_2d(&mut IntArena, 0, 0), -7);
    let s = ScalarParameter::<i32>::Source(5);
    assert_eq!(s.get_2d(&mut IntArena, 0, 0), 5);
}

#[test]
fn the_fractal_slot_count_is_twenty() {
    assert_eq!(MAX_SOURCES, 20);
}
