use shooter_core::pool::{Handle, Pool};

#[test]
fn the_handle_that_names_nothing() {
    let none = Handle::none();
    assert!(none.is_none());
    assert!(!none.is_some());
    assert_eq!(none, Handle::default());
    let pool: Pool<u32> = Pool::new();
    assert!(!pool.is_valid_handle(none));
    assert!(pool.try_borrow(none).is_none());
}

#[test]
fn spawned_values_are_found_under_their_handles() {
    let mut pool: Pool<u32> = Pool::new();
    let a = pool.spawn(10);
    let b = pool.spawn(20);
    assert_eq!(a, Handle::new(0, 1));
    assert_eq!(b, Handle::new(1, 1));
    assert_eq!(pool.try_borrow(a), Some(&10));
    assert_eq!(pool.try_borrow(b), Some(&20));
    assert_eq!(pool.capacity(), 2);
    assert_eq!(pool.handle_at(1), Some(b));
    assert_eq!(pool.handle_at(2), None);
    assert_eq!(pool.at(0), Some(&10));
}

#[test]
fn freed_handle_is_stale_and_stays_stale() {
    let mut pool: Pool<u32> = Pool::new();
    let a = pool.spawn(10);
    let b = pool.spawn(20);
    assert_eq!(pool.free(a), Some(10));
    assert!(!pool.is_valid_handle(a));
    assert_eq!(pool.try_borrow(a), None);
    assert_eq!(pool.free(a), None);
    let c = pool.spawn(30);
    assert_eq!(c, Handle::new(0, 2));
    assert!(!pool.is_valid_handle(a));
    assert_eq!(pool.try_borrow(a), None);
    assert_eq!(pool.try_borrow(c), Some(&30));
    assert_eq!(pool.try_borrow(b), Some(&20));
    assert_eq!(pool.handle_at(0), Some(c));
}

#[test]
fn the_slot_freed_last_is_filled_first() {
    let mut pool: Pool<u32> = Pool::new();
    let a = pool.spawn(1);
    let b = pool.spawn(2);
    let c = pool.spawn(3);
    pool.free(a);
    pool.free(c);
    let d = pool.spawn(4);
    let e = pool.spawn(5);
    let f = pool.spawn(6);
    assert_eq!(d, Handle::new(2, 2));
    assert_eq!(e, Handle::new(0, 2));
    assert_eq!(f, Handle::new(3, 1));
    assert_eq!(pool.try_borrow(b), Some(&2));
}

#[test]
fn value_is_changed_in_its_place() {
    let mut pool: Pool<u32> = Pool::new();
    let a = pool.spawn(10);
    if let Some(value) = pool.try_borrow_mut(a) {
        *value = 11;
    }
    assert_eq!(pool.try_borrow(a), Some(&11));
    assert!(pool.try_borrow_mut(Handle::new(0, 2)).is_none());
    assert!(pool.try_borrow_mut(Handle::new(5, 1)).is_none());
}

#[test]
fn slot_whose_generations_are_used_up_is_retired() {
    let mut pool: Pool<u32> = Pool::new();
    let a = pool.spawn(1);
    pool.records[0].generation = u32::MAX;
    let last = Handle::new(a.index(), u32::MAX);
    assert_eq!(pool.free(last), Some(1));
    let b = pool.spawn(2);
    assert_eq!(b, Handle::new(1, 1));
    assert!(!pool.is_valid_handle(last));
}
