use affine::array::Array;
use affine::point::{Point, Point2, Point3};
use affine::scalar::Scalar;
use affine::vector::{Vector2, Vector3, Vector4};

#[test]
fn origin_has_zero_components() {
    let p2: Point2<i64> = Point2::origin();
    assert_eq!(p2, Point2::new(0, 0));
    let p3: Point3<i64> = Point3::origin();
    assert_eq!(p3, Point3::new(0, 0, 0));
}

#[test]
fn from_vec_to_vec_round_trip_2d() {
    let v = Vector2::<i64>::new(5, -9);
    let p = Point2::from_vec(&v);
    assert_eq!(p, Point2::new(5, -9));
    assert_eq!(p.to_vec(), v);
}

#[test]
fn from_vec_to_vec_round_trip_3d() {
    let v = Vector3::<i64>::new(-4, 0, 17);
    let p = Point3::from_vec(&v);
    assert_eq!(p, Point3::new(-4, 0, 17));
    assert_eq!(p.to_vec(), v);
}

#[test]
fn displacement_recovers_the_point() {
    let p = Point2::<i64>::new(3, -8);
    let q = Point2::<i64>::new(-1, 4);
    let d = p.sub_p(&q);
    assert_eq!(d, Vector2::new(4, -12));
    assert_eq!(q.add_v(&d), p);

    let p3 = Point3::<i64>::new(10, 20, 30);
    let q3 = Point3::<i64>::new(1, 2, 3);
    assert_eq!(q3.add_v(&p3.sub_p(&q3)), p3);
}

#[test]
fn add_v_translates() {
    let p = Point2::<i64>::new(1, 1);
    assert_eq!(p.add_v(&Vector2::new(2, 3)), Point2::new(3, 4));
}

#[test]
fn div_s_divides_each_component() {
    assert_eq!(Point3::<i64>::new(2, 4, 6).div_s(2), Point3::new(1, 2, 3));
}

#[test]
fn mul_s_and_rem_s() {
    let p = Point3::<i64>::new(2, -3, 7);
    assert_eq!(p.mul_s(5), Point3::new(10, -15, 35));
    assert_eq!(Point2::<i64>::new(7, 9).rem_s(4), Point2::new(3, 1));
}

#[test]
fn integer_division_truncates_toward_zero() {
    // The scalar type's own division is inherited: i64 truncates toward
    // zero, and the remainder keeps the dividend's sign.
    let p = Point2::<i64>::new(-7, 7);
    assert_eq!(p.div_s(2), Point2::new(-3, 3));
    assert_eq!(p.rem_s(2), Point2::new(-1, 1));
}

#[test]
fn in_place_ops_match_value_ops() {
    let before = Point3::<i64>::new(6, -9, 12);

    let mut p = before;
    p.mul_self_s(4);
    assert_eq!(p, before.mul_s(4));

    let mut p = before;
    p.div_self_s(3);
    assert_eq!(p, before.div_s(3));

    let mut p = before;
    p.rem_self_s(5);
    assert_eq!(p, before.rem_s(5));

    let mut p = before;
    let d = Vector3::new(-1, 2, -3);
    p.add_self_v(&d);
    assert_eq!(p, before.add_v(&d));
}

#[test]
fn in_place_ops_match_value_ops_2d() {
    let before = Point2::<i64>::new(-8, 21);

    let mut p = before;
    p.mul_self_s(3);
    assert_eq!(p, Point2::new(-24, 63));

    let mut p = before;
    p.div_self_s(2);
    assert_eq!(p, Point2::new(-4, 10));

    let mut p = before;
    p.rem_self_s(2);
    assert_eq!(p, Point2::new(0, 1));

    let mut p = before;
    p.add_self_v(&Vector2::new(8, -21));
    assert_eq!(p, Point2::new(0, 0));
}

#[test]
fn dot_sums_componentwise_products() {
    let p = Point2::<i64>::new(1, 2);
    assert_eq!(p.dot(&Vector2::new(3, 4)), 11);

    let p3 = Point3::<i64>::new(1, -2, 3);
    assert_eq!(p3.dot(&Vector3::new(4, 5, 6)), 4 - 10 + 18);
}

#[test]
fn homogeneous_embedding_sets_weight_one() {
    let p = Point3::<i64>::new(8, -2, 5);
    let h = p.to_homogeneous();
    assert_eq!(h, Vector4::new(8, -2, 5, 1));
    assert_eq!(h.truncate(), Vector3::new(8, -2, 5));
}

#[test]
fn homogeneous_round_trip_is_exact() {
    let p = Point3::<i64>::new(-31, 0, 999);
    assert_eq!(Point3::from_homogeneous(&p.to_homogeneous()), p);
}

#[test]
fn from_homogeneous_divides_by_the_weight() {
    let v = Vector4::<i64>::new(7, 8, 9, 2);
    assert_eq!(Point3::from_homogeneous(&v), Point3::new(3, 4, 4));
}

#[test]
fn indexed_access_reads_components_in_order() {
    let p = Point3::<i64>::new(4, 5, 6);
    assert_eq!(p.i(0), 4);
    assert_eq!(p.i(1), 5);
    assert_eq!(p.i(2), 6);
    let v = Vector4::<i64>::new(1, 2, 3, 4);
    assert_eq!(v.i(3), 4);
}

#[test]
fn indexed_mutation_replaces_one_component() {
    let mut p = Point2::<i64>::new(1, 2);
    p.set_i(1, 10);
    assert_eq!(p, Point2::new(1, 10));
    let mut v = Vector3::<i64>::new(1, 2, 3);
    v.set_i(0, -1);
    assert_eq!(v, Vector3::new(-1, 2, 3));
}

#[test]
fn text_of_a_point() {
    assert_eq!(Point3::<i64>::new(1, 2, 3).to_text(), "[1, 2, 3]");
    assert_eq!(Point2::<i64>::new(-45, 0).to_text(), "[-45, 0]");
}

#[test]
fn text_of_extreme_scalars() {
    assert_eq!(
        Point2::<i64>::new(i64::MIN, i64::MAX).to_text(),
        format!("[{}, {}]", i64::MIN, i64::MAX)
    );
}

#[test]
fn scalar_capability_on_i32() {
    let p = Point2::<i32>::new(120, -60);
    assert_eq!(p.mul_s(2), Point2::new(240, -120));
    assert_eq!(p.div_s(-4), Point2::new(-30, 15));
    assert_eq!(p.dot(&Vector2::new(1, 2)), 0);
    assert_eq!(p.to_text(), "[120, -60]");
    let mut q = p;
    q.add_self_v(&Vector2::new(1, 1));
    assert_eq!(q, Point2::new(121, -59));
}

#[test]
fn scalar_identities() {
    assert_eq!(<i64 as Scalar>::zero(), 0);
    assert_eq!(<i64 as Scalar>::one(), 1);
    assert_eq!(<i32 as Scalar>::zero(), 0);
    assert_eq!(7i64.to_digits(), "7");
    assert_eq!((-7i32).to_digits(), "-7");
    assert_eq!(0i64.to_digits(), "0");
}
