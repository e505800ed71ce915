use matrix4::Vector3;

fn vec(x: f32, y: f32, z: f32) -> Vector3 {
    Vector3::new(x.to_bits(), y.to_bits(), z.to_bits())
}

fn components(v: &Vector3) -> [f32; 3] {
    let a = v.as_array();
    [f32::from_bits(a[0]), f32::from_bits(a[1]), f32::from_bits(a[2])]
}

#[test]
fn test_new_from_scalar_and_arrays() {
    let v = vec(1.5, -2.0, 0.25);
    assert_eq!(v.as_array(), [1.5f32.to_bits(), (-2.0f32).to_bits(), 0.25f32.to_bits()]);
    assert_eq!(v.component(0), 1.5f32.to_bits());
    assert_eq!(v.component(1), (-2.0f32).to_bits());
    assert_eq!(v.component(2), 0.25f32.to_bits());

    let s = Vector3::from_scalar(7.0f32.to_bits());
    assert_eq!(s.as_array(), [7.0f32.to_bits(); 3]);

    let a = Vector3::from_array([1.0f32.to_bits(), 2.0f32.to_bits(), 3.0f32.to_bits()]);
    assert_eq!(components(&a), [1.0, 2.0, 3.0]);
}

#[test]
fn test_add_subtract_negate_scale() {
    let a = vec(1.0, 2.0, 3.0);
    let b = vec(0.5, -1.5, 4.0);
    assert_eq!(components(&a.add(&b)), [1.5, 0.5, 7.0]);
    assert_eq!(components(&a.subtract(&b)), [0.5, 3.5, -1.0]);
    assert_eq!(components(&a.negate()), [-1.0, -2.0, -3.0]);
    assert_eq!(components(&a.scale(2.5f32.to_bits())), [2.5, 5.0, 7.5]);
}

#[test]
fn test_dot_exact_value_and_commutativity() {
    let a = vec(1.0, 2.0, 3.0);
    let b = vec(4.0, -5.0, 6.0);
    assert_eq!(f32::from_bits(a.dot(&b)), 1.0 * 4.0 + 2.0 * -5.0 + 3.0 * 6.0);
    assert_eq!(a.dot(&b), b.dot(&a));
}

#[test]
fn test_cross_exact_value_and_anticommutativity() {
    let a = vec(1.0, 2.0, 3.0);
    let b = vec(4.0, 5.0, 6.0);
    assert_eq!(components(&a.cross(&b)), [-3.0, 6.0, -3.0]);
    assert_eq!(a.cross(&b).as_array(), b.cross(&a).negate().as_array());

    // Parallel vectors: the cross product is a zero vector, and the
    // anti-commutation holds as IEEE-754 values (zeros of either sign).
    let c = a.cross(&a);
    let d = a.cross(&a).negate();
    for i in 0..3 {
        assert_eq!(f32::from_bits(c.as_array()[i]), 0.0);
        assert_eq!(f32::from_bits(c.as_array()[i]), f32::from_bits(d.as_array()[i]));
    }
}

#[test]
fn test_length_is_sqrt_of_dot() {
    let v = vec(3.0, 4.0, 0.0);
    assert_eq!(f32::from_bits(v.length()), 5.0);
    let w = vec(1.25, -2.5, 0.75);
    assert_eq!(f32::from_bits(w.length()), f32::from_bits(w.dot(&w)).sqrt());
    let tiny = Vector3::from_array([1u32, 0, 0]);
    assert_eq!(
        f32::from_bits(tiny.length()),
        f32::from_bits(tiny.dot(&tiny)).sqrt(),
    );
}

#[test]
fn test_distance() {
    let a = vec(1.0, 2.0, 3.0);
    let b = vec(4.0, 6.0, 3.0);
    assert_eq!(f32::from_bits(a.distance(&b)), 5.0);
    assert_eq!(a.distance(&b), b.distance(&a));
    assert_eq!(a.distance(&b), b.subtract(&a).length());
}

#[test]
fn test_normalize() {
    let v = vec(3.0, 0.0, 4.0);
    let expected_factor = 1.0f32 / 25.0f32.sqrt();
    assert_eq!(
        components(&v.normalize()),
        [3.0 * expected_factor, 0.0, 4.0 * expected_factor],
    );
}

#[test]
fn test_normalize_zero_vector_is_nan() {
    let v = vec(0.0, 0.0, 0.0);
    let n = components(&v.normalize());
    assert!(n[0].is_nan());
    assert!(n[1].is_nan());
    assert!(n[2].is_nan());
}
