use lib::physics::{Object, Point, Velocity};

#[test]
fn test_update_pos() {
    let mut object = Object { pos: Point(0, 0), velocity: Velocity { direction: 0, speed: 1 } };
    let old_pos = object.update_pos(1, 1, 1);
    assert_eq!(old_pos, Point(0, 0));
    assert_eq!(object.pos, Point(1, 0));

    let mut object = Object { pos: Point(0, 0), velocity: Velocity { direction: 270, speed: 1 } };
    object.update_pos(1, 1, 1);
    assert_eq!(object.pos, Point(0, -1));

    let mut object = Object { pos: Point(5, 6), velocity: Velocity { direction: 270, speed: 1 } };
    object.update_pos(1, 1, 1);
    assert_eq!(object.pos, Point(5, 5));

    let mut object = Object { pos: Point(5, 6), velocity: Velocity { direction: 180, speed: 1 } };
    object.update_pos(1, 1, 1);
    assert_eq!(object.pos, Point(4, 6));

    let mut object = Object { pos: Point(0, 0), velocity: Velocity { direction: 270, speed: 1 } };
    object.update_pos(1, 1, 1);
    assert_eq!(object.pos, Point(0, -1));
}

#[test]
fn point_arithmetic() {
    let mut x = Point(3, 3);
    let y = Point(2, 2);
    x += y;
    assert_eq!(x, Point(5, 5));

    let x = Point(0, 32);
    let y = Point(2, 33);
    assert_eq!(x - y, Point(-2, -1));

    let x = Point(43, 1);
    let y = Point(1, -19);
    assert_eq!(x + y, Point(44, -18));

    let mut x = Point(43, 22);
    let y = Point(43, 21);
    x -= y;
    assert_eq!(x, Point(0, 1));
}

#[test]
fn reflections() {
    let mut v = Velocity { direction: 30, speed: 2 };
    v.reflect_about_y_axis();
    assert_eq!(v.direction, 150);
    v.reflect_about_x_axis();
    assert_eq!(v.direction, 210);
    v.reflect_about_y_axis();
    assert_eq!(v.direction, 330);
}

#[test]
fn update_pos_scales_each_axis() {
    let mut object = Object { pos: Point(10, 10), velocity: Velocity { direction: 90, speed: 2 } };
    object.update_pos(3, 1, 2);
    assert_eq!(object.pos, Point(10, 22));
}

#[test]
fn assigning_sums_wraps_at_the_ends_of_the_range() {
    let mut p = Point(i16::MAX, 0);
    p += Point(1, -1);
    assert_eq!(p, Point(i16::MIN, -1));
    let mut q = Point(i16::MIN, 5);
    q -= Point(1, 2);
    assert_eq!(q, Point(i16::MAX, 3));
}
