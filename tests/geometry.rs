use pic::geometry::Point;

#[test]
fn distance_is_euclidean() {
    assert_eq!(Point::distance(Point(0, 0), Point(3, 4)), 5);
    assert_eq!(Point::distance(Point(-3, 0), Point(3, 0)), 6);
    assert_eq!(Point::distance(Point(2, -7), Point(2, 5)), 12);
    assert_eq!(Point::distance(Point(5, 5), Point(5, 5)), 0);
}

#[test]
fn distance_rounds_down() {
    assert_eq!(Point::distance(Point(0, 0), Point(1, 1)), 1);
    assert_eq!(Point::distance(Point(0, 0), Point(3, 3)), 4);
}

#[test]
fn distance_far_apart() {
    let far = 0x2000_0000_0000_0000i64;
    assert_eq!(Point::distance(Point(-far, 0), Point(far, 0)), 0x4000_0000_0000_0000u64);
    assert_eq!(Point::distance(Point(-far, -far), Point(far, far)), 6521908912666391106u64);
}

#[test]
fn point_algebra() {
    assert_eq!(Point::add(Point(1, 2), Point(3, -5)), Point(4, -3));
    assert_eq!(Point::sub(Point(1, 2), Point(3, -5)), Point(-2, 7));
    assert_eq!(Point::mul(Point(1, -2), 3), Point(3, -6));
}
