use isochro::matrix::Mat;
use isochro::vector::Vec2;
use isochro::vector::Vec3;

#[test]
fn matrix_addition_is_entrywise() {
    let a = Mat([Vec3::new(1i64, 2, 3), Vec3::new(4, 5, 6)]);
    let b = Mat([Vec3::new(10i64, 20, 30), Vec3::new(40, 50, 60)]);
    let sum = a + b;
    for r in 0..2 {
        for c in 0..3 {
            assert_eq!(*sum.at(r, c), *a.at(r, c) + *b.at(r, c));
        }
    }
    assert_eq!(sum[0], Vec3::new(11, 22, 33));
    assert_eq!(sum[1], Vec3::new(44, 55, 66));
}

#[test]
fn matrix_add_all_ownership_forms_agree() {
    let a = Mat([Vec2::new(1i64, 2)]);
    let b = Mat([Vec2::new(3i64, 4)]);
    let vv = a + b;
    let vr = a + &b;
    let rv = &a + b;
    let rr = &a + &b;
    assert_eq!(vv, Mat([Vec2::new(4, 6)]));
    assert_eq!(vr, vv);
    assert_eq!(rv, vv);
    assert_eq!(rr, vv);
}

#[test]
fn matrix_indexing_and_updates() {
    let mut m = Mat([Vec2::new(1i64, 2), Vec2::new(3, 4), Vec2::new(5, 6)]);
    assert_eq!(*m.index(1), Vec2::new(3, 4));
    assert_eq!(m[2], Vec2::new(5, 6));
    assert_eq!(*m.at(0, 1), 2);

    m.set_row(0, Vec2::new(7, 8));
    assert_eq!(m[0], Vec2::new(7, 8));

    m.set_at(2, 0, 50);
    assert_eq!(*m.at(2, 0), 50);
    assert_eq!(*m.at(2, 1), 6);
}

#[test]
fn matrix_addition_with_negative_entries() {
    let a = Mat([Vec2::new(-1i64, 2), Vec2::new(3, -4)]);
    let b = Mat([Vec2::new(5i64, -6), Vec2::new(-7, 8)]);
    let sum = a + b;
    assert_eq!(sum, Mat([Vec2::new(4, -4), Vec2::new(-4, 4)]));
}
