use helix_rs::allocator::BufferAllocator;

#[test]
fn create_42_is_zero_filled_and_release_restores_count() {
    let mut a = BufferAllocator::new();
    let baseline = a.live_count();
    let b = a.create(42);
    assert_eq!(b.len(), 42);
    for i in 0..42 {
        assert_eq!(b.byte_at(i), 0);
    }
    assert_eq!(a.live_count(), baseline + 1);
    a.release(b);
    assert_eq!(a.live_count(), baseline);
}

#[test]
fn create_zero_length_then_release() {
    let mut a = BufferAllocator::new();
    let b = a.create(0);
    assert_eq!(b.len(), 0);
    assert_eq!(a.live_count(), 1);
    a.release(b);
    assert_eq!(a.live_count(), 0);
}

#[test]
fn token_records_requested_capacity() {
    let mut a = BufferAllocator::new();
    let b = a.create(5);
    assert_eq!(b.token(), 5);
    assert_eq!(b.len(), 5);
    a.release(b);
}

#[test]
fn create_from_keeps_the_bytes() {
    let mut a = BufferAllocator::new();
    let b = a.create_from(vec![9, 8, 7]);
    assert_eq!(b.len(), 3);
    assert_eq!(b.byte_at(0), 9);
    assert_eq!(b.byte_at(1), 8);
    assert_eq!(b.byte_at(2), 7);
    assert_eq!(b.token(), 3);
    assert_eq!(a.live_count(), 1);
    a.release(b);
    assert_eq!(a.live_count(), 0);
}

#[test]
fn releases_in_any_order_restore_count() {
    let mut a = BufferAllocator::new();
    let b1 = a.create(1);
    let b2 = a.create(2);
    let b3 = a.create_from(vec![4, 5]);
    assert_eq!(a.live_count(), 3);
    a.release(b2);
    assert_eq!(a.live_count(), 2);
    a.release(b1);
    a.release(b3);
    assert_eq!(a.live_count(), 0);
}
