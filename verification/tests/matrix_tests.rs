use matrix4::Matrix4;
use matrix4::Vector3;

fn mat(values: [[f32; 4]; 4]) -> Matrix4 {
    let mut bits = [[0u32; 4]; 4];
    for r in 0..4 {
        for c in 0..4 {
            bits[r][c] = values[r][c].to_bits();
        }
    }
    Matrix4::from_array(bits)
}

fn assert_f_eq(left: f32, right: f32) {
    let diff = (left - right).abs();
    let within_range = diff < 0.0001;
    assert_eq!(within_range, true);
}

fn assert_matrix_eq(left: &Matrix4, right: &Matrix4) {
    let l = left.as_array();
    let r = right.as_array();
    for row in 0..4 {
        for col in 0..4 {
            assert_f_eq(f32::from_bits(l[row][col]), f32::from_bits(r[row][col]));
        }
    }
}

#[test]
fn test_matrix_to_array() {
    let array = {
        let foo = mat([
            [1.0, 0.0, 0.0, 0.0],
            [0.0, 1.0, 0.0, 0.0],
            [0.0, 0.0, 1.0, 0.0],
            [0.0, 0.0, 0.0, 1.0],
        ]);
        assert_eq!(foo.as_array()[0][0], 1.0f32.to_bits());
        foo.as_array()
    };
    assert_eq!(array[1][1], 1.0f32.to_bits());
}

#[test]
fn test_scale() {
    let m = mat([
        [0.840188, 0.911647, 0.277775, 0.364784],
        [0.394383, 0.197551, 0.55397, 0.513401],
        [0.783099, 0.335223, 0.477397, 0.95223],
        [0.79844, 0.76823, 0.628871, 0.916195],
    ]);
    let expected = mat([
        [0.118973, 0.653922, 0.176585, 0.364784],
        [0.0558456, 0.141703, 0.352165, 0.513401],
        [0.110889, 0.240454, 0.303487, 0.95223],
        [0.113061, 0.551049, 0.399781, 0.916195],
    ]);
    let answer = m.scale(0.141603f32.to_bits(), 0.717297f32.to_bits(), 0.635712f32.to_bits());
    println!("answer:\n{:?}", answer.as_array());
    assert_matrix_eq(&answer, &expected);
}

#[test]
fn test_translate() {
    let m = mat([
        [0.840188, 0.911647, 0.277775, 0.364784],
        [0.394383, 0.197551, 0.55397, 0.513401],
        [0.783099, 0.335223, 0.477397, 0.95223],
        [0.79844, 0.76823, 0.628871, 1.0],
    ]);
    let expected = mat([
        [0.840188, 0.911647, 0.277775, 1.31426],
        [0.394383, 0.197551, 0.55397, 1.06311],
        [0.783099, 0.335223, 0.477397, 1.60706],
        [0.79844, 0.76823, 0.628871, 1.0],
    ]);
    let answer = m.translate(0.141603f32.to_bits(), 0.717297f32.to_bits(), 0.635712f32.to_bits());
    assert_matrix_eq(&answer, &expected);
}

#[test]
fn test_ortho() {
    let m = Matrix4::ortho(
        0.0f32.to_bits(),
        640.0f32.to_bits(),
        480.0f32.to_bits(),
        0.0f32.to_bits(),
    );
    let a = m.as_array();
    assert_eq!(a[0][0], 0.003125f32.to_bits());
    assert_f_eq(f32::from_bits(a[1][1]), -0.0041666667);
    assert_eq!(a[2][2], (-1.0f32).to_bits());
    assert_eq!(a[3][3], 1.0f32.to_bits());

    assert_eq!(a[3][0], (-1.0f32).to_bits());
    assert_eq!(a[3][1], 1.0f32.to_bits());
    assert_eq!(a[3][2], 0.0f32.to_bits());
}

#[test]
fn test_mult() {
    let m1 = mat([
        [0.635712, 0.717297, 0.141603, 0.606969],
        [0.0163006, 0.242887, 0.137232, 0.804177],
        [0.156679, 0.400944, 0.12979, 0.108809],
        [0.998924, 0.218257, 0.512932, 0.839112],
    ]);
    let m2 = mat([
        [0.840188, 0.394383, 0.783099, 0.79844],
        [0.911647, 0.197551, 0.335223, 0.76823],
        [0.277775, 0.55397, 0.477397, 0.628871],
        [0.364784, 0.513401, 0.95223, 0.916195],
    ]);
    let answer = mat([
        [1.44879, 0.782479, 1.38385, 1.70378],
        [0.566593, 0.543299, 0.925461, 1.02269],
        [0.572904, 0.268761, 0.422673, 0.614428],
        [1.48683, 1.15203, 1.89932, 2.05661],
    ]);
    let tmp = m1.mult(&m2);
    assert_matrix_eq(&tmp, &answer);
}

#[test]
fn test_identity_is_multiplicative_identity() {
    let m = mat([
        [0.840188, 0.911647, 0.277775, 0.364784],
        [-0.394383, 0.197551, -0.55397, 0.513401],
        [0.783099, -0.335223, 0.477397, 0.95223],
        [0.79844, 0.76823, -0.628871, 1.0],
    ]);
    let id = Matrix4::identity();
    assert_eq!(m.mult(&id).as_array(), m.as_array());
    assert_eq!(id.mult(&m).as_array(), m.as_array());
}

#[test]
fn test_transpose_is_involutive() {
    let m = mat([
        [0.840188, 0.911647, 0.277775, 0.364784],
        [0.394383, 0.197551, 0.55397, 0.513401],
        [0.783099, 0.335223, 0.477397, 0.95223],
        [0.79844, 0.76823, 0.628871, 0.916195],
    ]);
    assert_eq!(m.transpose().transpose().as_array(), m.as_array());
    let t = m.transpose().as_array();
    let a = m.as_array();
    for r in 0..4 {
        for c in 0..4 {
            assert_eq!(t[r][c], a[c][r]);
        }
    }
}

#[test]
fn test_scale_composes_on_diagonal() {
    let id = Matrix4::identity();
    assert_eq!(id.as_array()[2][2], 1.0f32.to_bits());
    let three: u32 = 3.0f32.to_bits();
    let once = id.scale(three, three, three);
    assert_eq!(once.as_array()[2][2], 3.0f32.to_bits());
    let v = Vector3::new(2.0f32.to_bits(), 4.0f32.to_bits(), 3.0f32.to_bits());
    let twice = once.scale_by_vector(&v);
    assert_eq!(twice.as_array()[2][2], 9.0f32.to_bits());
}

#[test]
fn test_translate_accumulates_into_column_three() {
    let m = Matrix4::identity().translate(
        1.0f32.to_bits(),
        2.0f32.to_bits(),
        3.0f32.to_bits(),
    );
    let a = m.as_array();
    assert_eq!(a[0][3], 1.0f32.to_bits());
    assert_eq!(a[1][3], 2.0f32.to_bits());
    assert_eq!(a[2][3], 3.0f32.to_bits());
    assert_eq!(a[3][0], 0.0f32.to_bits());
    assert_eq!(a[3][1], 0.0f32.to_bits());
    assert_eq!(a[3][2], 0.0f32.to_bits());
    assert_eq!(a[3][3], 1.0f32.to_bits());
}

#[test]
fn test_translate_by_vector_matches_translate() {
    let m = mat([
        [0.840188, 0.911647, 0.277775, 0.364784],
        [0.394383, 0.197551, 0.55397, 0.513401],
        [0.783099, 0.335223, 0.477397, 0.95223],
        [0.79844, 0.76823, 0.628871, 1.0],
    ]);
    let v = Vector3::new(0.141603f32.to_bits(), 0.717297f32.to_bits(), 0.635712f32.to_bits());
    assert_eq!(
        m.translate_by_vector(&v).as_array(),
        m.translate(v.component(0), v.component(1), v.component(2)).as_array(),
    );
}

#[test]
fn test_ortho_degenerate_bounds_give_non_finite_entries() {
    let m = Matrix4::ortho(
        2.0f32.to_bits(),
        2.0f32.to_bits(),
        480.0f32.to_bits(),
        0.0f32.to_bits(),
    );
    let a = m.as_array();
    assert!(f32::from_bits(a[0][0]).is_infinite());
    assert!(f32::from_bits(a[3][0]).is_infinite());

    // Both bounds zero: the numerator is zero too, and 0/0 is NaN.
    let n = Matrix4::ortho(
        0.0f32.to_bits(),
        0.0f32.to_bits(),
        480.0f32.to_bits(),
        0.0f32.to_bits(),
    );
    assert!(f32::from_bits(n.as_array()[3][0]).is_nan());
}

#[test]
fn test_set_entry_writes_one_entry() {
    let mut m = Matrix4::identity();
    m.set_entry(1, 3, 42.0f32.to_bits());
    let a = m.as_array();
    let id = Matrix4::identity().as_array();
    for r in 0..4 {
        for c in 0..4 {
            if r == 1 && c == 3 {
                assert_eq!(a[r][c], 42.0f32.to_bits());
            } else {
                assert_eq!(a[r][c], id[r][c]);
            }
        }
    }
}

#[test]
fn test_row_returns_each_row() {
    let m = mat([
        [1.0, 2.0, 3.0, 4.0],
        [5.0, 6.0, 7.0, 8.0],
        [9.0, 10.0, 11.0, 12.0],
        [13.0, 14.0, 15.0, 16.0],
    ]);
    let a = m.as_array();
    for r in 0..4 {
        assert_eq!(m.row(r), a[r]);
    }
}
