use kernel_sync::RcuLock;

#[test]
fn try_lock_test() {
    let mut x = RcuLock::new(0);
    let lock_result0 = x.try_write();
    assert!(lock_result0.is_some());

    let lock_result1 = x.try_write();
    assert!(lock_result1.is_none());

    assert!(x.unlock_write(lock_result0.unwrap()));

    let lock_result2 = x.try_write();
    assert!(lock_result2.is_some());
}

#[test]
fn read_sees_initial_value() {
    let mut x = RcuLock::new(41);
    let g = x.read();
    assert_eq!(*g.deref(&x), 41);
    x.unlock_read(g);
    assert!(!x.is_writing());
}

#[test]
fn repeated_increments_converge() {
    let mut x = RcuLock::new(0u64);
    for _ in 0..3 {
        for _ in 0..1000 {
            let mut g = x.write();
            *g.deref_mut() += 1;
            assert!(x.unlock_write(g));
        }
    }
    let r = x.read();
    assert_eq!(*r.deref(&x), 3000);
    x.unlock_read(r);
}

#[test]
fn writer_copy_starts_from_visible_value() {
    let mut x = RcuLock::new(vec![1, 2, 3]);
    let mut g = x.write();
    assert_eq!(*g.deref(), vec![1, 2, 3]);
    g.deref_mut().push(4);
    let r = x.read();
    assert_eq!(*r.deref(&x), vec![1, 2, 3]);
    x.unlock_read(r);
    assert!(x.unlock_write(g));
    let r = x.read();
    assert_eq!(*r.deref(&x), vec![1, 2, 3, 4]);
    x.unlock_read(r);
}

#[test]
fn reader_keeps_snapshot_across_writes() {
    let mut x = RcuLock::new(0);
    let r0 = x.read();
    assert_eq!(*r0.deref(&x), 0);

    let mut w1 = x.write();
    *w1.deref_mut() = 1;
    assert_eq!(*w1.deref(), 1);
    // The reader from before the publication still holds the old tally.
    assert!(!x.unlock_write(w1));
    assert_eq!(*r0.deref(&x), 0);
    assert!(x.is_writing());

    // A reader that starts now sees the published copy.
    let r2 = x.read();
    assert_eq!(*r2.deref(&x), 1);

    // The grace period is still running: no second writer yet.
    assert!(x.try_write().is_none());
    assert!(!x.finish_write());

    x.unlock_read(r0);
    assert!(x.finish_write());
    assert!(!x.is_writing());
    assert_eq!(*r2.deref(&x), 1);

    let mut w3 = x.write();
    *w3.deref_mut() += 1;
    assert_eq!(*w3.deref(), 2);
    // r2 joined the tally that is now the old one.
    assert!(!x.unlock_write(w3));
    assert_eq!(*r2.deref(&x), 1);
    let r3 = x.read();
    assert_eq!(*r3.deref(&x), 2);
    x.unlock_read(r2);
    assert!(x.finish_write());
    assert_eq!(*r3.deref(&x), 2);
    x.unlock_read(r3);
}

#[test]
fn finish_write_without_writer_does_nothing() {
    let mut x = RcuLock::new(7);
    assert!(!x.finish_write());
    let r = x.read();
    assert_eq!(*r.deref(&x), 7);
    x.unlock_read(r);
}
