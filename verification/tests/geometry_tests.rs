use shooter_core::geometry::{isqrt, Aabb, Vec3, METRE};

#[test]
fn integer_square_roots() {
    assert_eq!(isqrt(0), 0);
    assert_eq!(isqrt(1), 1);
    assert_eq!(isqrt(3), 1);
    assert_eq!(isqrt(4), 2);
    assert_eq!(isqrt(99), 9);
    assert_eq!(isqrt(100), 10);
    assert_eq!(isqrt(1_562_500), 1250);
    assert_eq!(isqrt(u128::MAX), u64::MAX);
    assert_eq!(isqrt((u64::MAX as u128) * (u64::MAX as u128) - 1), u64::MAX - 1);
}

#[test]
fn distance_between_points() {
    let a = Vec3::new(0, 0, 0);
    let b = Vec3::new(3000, 4000, 0);
    assert_eq!(a.distance_squared(&b), 25_000_000);
    assert_eq!(a.distance(&b), 5000);
    assert_eq!(b.distance(&a), 5000);
    assert_eq!(a.distance(&a), 0);
    let c = Vec3::new(1, 1, 1);
    assert_eq!(a.distance(&c), 1);
}

#[test]
fn distance_across_the_whole_grid() {
    let a = Vec3::new(i32::MIN, i32::MIN, i32::MIN);
    let b = Vec3::new(i32::MAX, i32::MAX, i32::MAX);
    let side = u32::MAX as u128;
    assert_eq!(a.distance_squared(&b), 3 * side * side);
    assert_eq!(a.distance(&b), 7_439_101_571);
}

#[test]
fn offset_is_held_at_the_ends_of_the_grid() {
    let a = Vec3::new(i32::MAX - 1, i32::MIN + 1, 5);
    let moved = a.offset(&Vec3::new(10, -10, -7));
    assert_eq!(moved, Vec3::new(i32::MAX, i32::MIN, -2));
}

#[test]
fn scaling_rounds_towards_nothing() {
    let v = Vec3::new(7, -7, 1000);
    assert_eq!(v.scaled(1, 2), Vec3::new(3, -3, 500));
    assert_eq!(v.scaled(3, 1), Vec3::new(21, -21, 3000));
    assert_eq!(v.scaled(5, 0), Vec3::new(0, 0, 0));
    let far = Vec3::new(i32::MAX, i32::MIN, 0);
    assert_eq!(far.scaled(2, 1), Vec3::new(i32::MAX, i32::MIN, 0));
}

#[test]
fn normalizing_gives_a_metre_along_the_same_way() {
    assert_eq!(Vec3::new(0, 0, 5).normalized(), Vec3::new(0, 0, METRE));
    assert_eq!(Vec3::new(3000, 4000, 0).normalized(), Vec3::new(600, 800, 0));
    assert_eq!(Vec3::new(-20, 0, 0).normalized(), Vec3::new(-1000, 0, 0));
}

#[test]
fn normalizing_nothing_gives_the_third_axis() {
    assert_eq!(Vec3::zero().normalized(), Vec3::new(0, 0, METRE));
}

#[test]
fn box_holds_its_faces() {
    let zone = Aabb { min: Vec3::new(-1, -2, -3), max: Vec3::new(1, 2, 3) };
    assert!(zone.contains(&Vec3::new(0, 0, 0)));
    assert!(zone.contains(&Vec3::new(1, 2, 3)));
    assert!(zone.contains(&Vec3::new(-1, -2, -3)));
    assert!(!zone.contains(&Vec3::new(2, 0, 0)));
    assert!(!zone.contains(&Vec3::new(0, -3, 0)));
    assert!(!zone.contains(&Vec3::new(0, 0, 4)));
}
