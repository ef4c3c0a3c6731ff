use jdcc::buffer::{BufferRegistry, ReleaseFault};

#[test]
fn paired_release_succeeds_once() {
    let mut reg = BufferRegistry::new();
    let a = reg.allocate(16).unwrap();
    assert!(reg.is_live(a));
    assert_eq!(reg.deallocate(a, 16), Ok(()));
    assert!(!reg.is_live(a));
    assert_eq!(reg.deallocate(a, 16), Err(ReleaseFault::NotLive));
}

#[test]
fn mismatched_capacity_is_refused() {
    let mut reg = BufferRegistry::new();
    let a = reg.allocate(8).unwrap();
    assert_eq!(reg.deallocate(a, 9), Err(ReleaseFault::CapacityMismatch));
    assert!(reg.is_live(a));
    assert_eq!(reg.deallocate(a, 8), Ok(()));
}

#[test]
fn addresses_are_distinct_and_unknown_ones_refused() {
    let mut reg = BufferRegistry::new();
    let a = reg.allocate(0).unwrap();
    let b = reg.allocate(0).unwrap();
    assert_ne!(a, b);
    assert_eq!(reg.deallocate(b + 100, 0), Err(ReleaseFault::NotLive));
    assert_eq!(reg.deallocate(a, 0), Ok(()));
    assert!(reg.is_live(b));
}
