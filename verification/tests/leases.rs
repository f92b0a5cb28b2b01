use talos::{GpuLeaseManager, Uuid};

#[test]
fn lease_is_exclusive_and_released_on_drop() {
    let mut manager = GpuLeaseManager::new();
    let lease = manager
        .try_acquire()
        .expect("first lease should acquire");
    assert!(manager.is_active());
    assert!(manager.try_acquire().is_none());
    manager.release(lease);
    assert!(!manager.is_active());
    assert!(manager.try_acquire().is_some());
}

#[test]
fn granted_lease_ids_are_numbered_and_never_reused() {
    let mut manager = GpuLeaseManager::new();
    assert_eq!(manager.next_id(), 1);
    let first = manager.try_acquire().expect("first lease");
    assert_eq!(first.id(), Uuid(1));
    assert!(manager.try_acquire().is_none());
    assert_eq!(manager.next_id(), 2);
    manager.release(first);
    let second = manager.try_acquire().expect("second lease");
    assert_eq!(second.id(), Uuid(2));
    manager.release(second);
    let third = manager.try_acquire().expect("third lease");
    assert_eq!(third.id(), Uuid(3));
    assert_eq!(manager.next_id(), 4);
}

#[test]
fn lease_id_renders_as_32_hex_digits() {
    assert_eq!(Uuid(1).to_hex(), "00000000000000000000000000000001");
    assert_eq!(Uuid(0xabc).to_hex(), "00000000000000000000000000000abc");
    assert_eq!(Uuid(u128::MAX).to_hex(), "ffffffffffffffffffffffffffffffff");
    assert_eq!(Uuid(0x1234).to_hex(), format!("{:032x}", 0x1234u128));
}
