use isochro::vector::DotProduct;
use isochro::vector::Vec2;
use isochro::vector::Vec3;
use isochro::vector::Vec4;
use isochro::vector::Vec;

#[test]
fn test_vec_access() {
    let vec = Vec4::from([1, 2, 3, 4]);
    assert_eq!(vec[0], vec.x());
    assert_eq!(vec[1], vec.y());
    assert_eq!(vec[2], vec.z());
    assert_eq!(vec[3], vec.w());
}

#[test]
fn add_all_ownership_forms_agree() {
    let a = Vec2::new(1i64, 2);
    let b = Vec2::new(3i64, 4);
    let vv = a + b;
    let vr = a + &b;
    let rv = &a + b;
    let rr = &a + &b;
    assert_eq!(vv, Vec2::new(4, 6));
    assert_eq!(vr, vv);
    assert_eq!(rv, vv);
    assert_eq!(rr, vv);
}

#[test]
fn sub_all_ownership_forms_agree() {
    let a = Vec2::new(1i64, 2);
    let b = Vec2::new(3i64, 4);
    let vv = a - b;
    let vr = a - &b;
    let rv = &a - b;
    let rr = &a - &b;
    assert_eq!(vv, Vec2::new(-2, -2));
    assert_eq!(vr, vv);
    assert_eq!(rv, vv);
    assert_eq!(rr, vv);
}

#[test]
fn add_commutes_and_associates() {
    let a = Vec3::new(1i64, -2, 3);
    let b = Vec3::new(10i64, 20, -30);
    let c = Vec3::new(100i64, 200, 300);
    assert_eq!(a + b, b + a);
    assert_eq!((a + b) + c, a + (b + c));
}

#[test]
fn dot_product_example() {
    let a = Vec3::new(1i64, 2, 3);
    let b = Vec3::new(4i64, 5, 6);
    assert_eq!(a.dot(b), 4 + 10 + 18);
    assert_eq!(a.dot(b), 32);
}

#[test]
fn dot_all_ownership_forms_agree() {
    let a = Vec3::new(1i64, 2, 3);
    let b = Vec3::new(4i64, 5, 6);
    assert_eq!(a.dot(b), 32);
    assert_eq!(a.dot(&b), 32);
    assert_eq!((&a).dot(b), 32);
    assert_eq!((&a).dot(&b), 32);
}

#[test]
fn scalar_mul_and_div() {
    let a = Vec2::new(1i64, 2);
    assert_eq!(a * 2, Vec2::new(2, 4));
    assert_eq!(&a * 2, Vec2::new(2, 4));
    let b = Vec2::new(2i64, 4);
    assert_eq!(b / 2, Vec2::new(1, 2));
    assert_eq!(&b / 2, Vec2::new(1, 2));
}

#[test]
fn scalar_div_truncates_toward_zero() {
    let v = Vec2::new(-7i64, 7);
    assert_eq!(v / 2, Vec2::new(-3, 3));
}

#[test]
fn scalar_round_trip() {
    let v = Vec3::new(5i64, -7, 9);
    assert_eq!((v * 3) / 3, v);
    assert_eq!((v * -4) / -4, v);
}

#[test]
fn in_place_ops_match_pure_ops() {
    let before = Vec2::new(1i64, 2);
    let b = Vec2::new(3i64, 4);

    let mut a = before;
    a += b;
    assert_eq!(a, before + b);

    let mut a = before;
    a += &b;
    assert_eq!(a, before + b);

    let mut a = before;
    a -= b;
    assert_eq!(a, before - b);

    let mut a = before;
    a -= &b;
    assert_eq!(a, before - b);

    let mut a = before;
    a *= 5;
    assert_eq!(a, before * 5);

    let mut a = Vec2::new(9i64, -8);
    a /= 3;
    assert_eq!(a, Vec2::new(9, -8) / 3);
}

#[test]
fn combine_applies_by_index() {
    let a = Vec2::new(1i64, 4);
    let b = Vec2::new(3i64, 2);
    let c = a.combine(b, |x: i64, y: i64| if x < y { x } else { y });
    assert_eq!(c, Vec2::new(1, 2));
    let d = a.combine_ref(&b, |x: i64, y: i64| if x > y { x } else { y });
    assert_eq!(d, Vec2::new(3, 4));
    let e = a.combine_both_ref(&b, |x: i64, y: i64| x ^ y);
    assert_eq!(e, Vec2::new(1 ^ 3, 4 ^ 2));
}

#[test]
fn combine_scalar_applies_to_every_element() {
    let a = Vec2::new(1i64, 2);
    let b = a.combine_scalar(2i64, |x: i64, k: i64| x.wrapping_mul(k));
    assert_eq!(b, Vec2::new(2, 4));
    let c = a.combine_scalar_ref(10i64, |x: i64, k: i64| x.wrapping_add(k));
    assert_eq!(c, Vec2::new(11, 12));
}

#[test]
fn combine_assign_rewrites_in_order() {
    let mut a = Vec2::new(1i64, 2);
    let b = Vec2::new(3i64, 4);
    a.combine_assign(b, |x: i64, y: i64| x.wrapping_add(y));
    assert_eq!(a, Vec2::new(4, 6));

    let mut a = Vec2::new(1i64, 2);
    a.combine_assign_ref(&b, |x: i64, y: i64| x.wrapping_sub(y));
    assert_eq!(a, Vec2::new(-2, -2));

    let mut a = Vec2::new(1i64, 2);
    a.combine_assign_scalar(2i64, |x: i64, k: i64| x.wrapping_mul(k));
    assert_eq!(a, Vec2::new(2, 4));
}

#[test]
fn windows_bind_names_to_indices() {
    let v2 = Vec2::new(1i64, 2);
    let w2 = v2.window();
    assert_eq!(w2.x, v2[0]);
    assert_eq!(w2.y, v2[1]);
    assert_eq!(Vec2::from(w2), v2);

    let v3 = Vec3::new(1i64, 2, 3);
    let w3 = v3.window();
    assert_eq!(w3.x, v3[0]);
    assert_eq!(w3.y, v3[1]);
    assert_eq!(w3.z, v3[2]);
    assert_eq!(Vec3::from(w3), v3);

    let v4 = Vec4::new(1i64, 2, 3, 4);
    let w4 = v4.window();
    assert_eq!(w4.x, v4[0]);
    assert_eq!(w4.y, v4[1]);
    assert_eq!(w4.z, v4[2]);
    assert_eq!(w4.w, v4[3]);
    assert_eq!(Vec4::from(w4), v4);
}

#[test]
fn named_field_writes_hit_the_indices() {
    let mut v = Vec4::new(0i64, 0, 0, 0);
    v.set_x(1);
    v.set_y(2);
    v.set_z(3);
    v.set_w(4);
    assert_eq!(v, Vec4::new(1, 2, 3, 4));

    let mut v2 = Vec2::new(0i64, 0);
    v2.set_x(5);
    v2.set_y(6);
    assert_eq!(v2, Vec2::new(5, 6));

    let mut v3 = Vec3::new(0i64, 0, 0);
    v3.set_x(7);
    v3.set_y(8);
    v3.set_z(9);
    assert_eq!(v3, Vec3::new(7, 8, 9));
}

#[test]
fn array_conversions_round_trip() {
    let v = Vec::<3, i64>::from([7, 8, 9]);
    assert_eq!(v, Vec3::new(7, 8, 9));
    assert_eq!(*v.index(0), 7);
    assert_eq!(*v.index(2), 9);
    assert_eq!(v.0, [7, 8, 9]);
}

#[test]
fn heterogeneous_element_types_combine() {
    let a = Vec2::new(1u8, 2);
    let b = Vec2::new(250u32, 350);
    let c = a.combine(b, |x: u8, y: u32| x as u32 + y);
    assert_eq!(c, Vec2::new(251u32, 352));
}

#[test]
fn tuple_conversions_and_comparisons() {
    let a = Vec2::from((1i64, 2i64));
    assert_eq!(a, Vec2::new(1, 2));
    assert_eq!(a, (1i64, 2i64));
    let b = Vec3::from((1i64, 2i64, 3i64));
    assert_eq!(b, (1i64, 2i64, 3i64));
    let c = Vec4::from((1i64, 2i64, 3i64, 4i64));
    assert_eq!(c, (1i64, 2i64, 3i64, 4i64));
    assert_ne!(a, (1i64, 3i64));
}

#[test]
fn positional_writes_and_array_round_trip() {
    let mut v = Vec::<3, i64>::from([0, 0, 0]);
    v.set(0, 10);
    v.set(2, 30);
    assert_eq!(v, Vec3::new(10, 0, 30));
    assert_eq!(v.into_array(), [10, 0, 30]);
}

#[test]
fn one_dimensional_vectors_work() {
    let a = Vec::<1, i64>::from([5]);
    let b = Vec::<1, i64>::from([7]);
    assert_eq!(a + b, Vec::from([12]));
    assert_eq!(a.dot(b), 35);
}

#[test]
fn four_dimensional_arithmetic() {
    let a = Vec4::new(1i64, -2, 3, -4);
    let b = Vec4::new(10i64, 20, 30, 40);
    assert_eq!(a + b, Vec4::new(11, 18, 33, 36));
    assert_eq!(b - a, Vec4::new(9, 22, 27, 44));
    assert_eq!(a.dot(b), 10 - 40 + 90 - 160);
}
