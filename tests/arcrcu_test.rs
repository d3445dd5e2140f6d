use kernel_sync::arcrcu::ArcRcu;

#[test]
fn versioned_cell_rotates_after_drain() {
    let mut c = ArcRcu::new(String::from("old"));
    assert_eq!(c.visible(), "old");
    assert!(!c.is_writing());

    let reader = c.join();
    assert_eq!(reader, 0);
    let mut g = c.try_update().unwrap();
    assert!(c.is_writing());
    assert!(c.try_update().is_none());
    assert_eq!(g.deref(), "old");
    g.deref_mut().push_str("-new");

    c.publish(g);
    assert!(c.is_published());
    // New readers see the copy; the early reader keeps the old version.
    assert_eq!(c.visible(), "old-new");
    assert_eq!(c.seen(reader), "old");
    assert_eq!(c.seen(1), "old-new");
    assert!(!c.drained());

    let late = c.join();
    assert_eq!(late, 1);
    c.leave(reader);
    assert!(c.drained());
    c.clean();
    assert!(!c.is_published());
    assert!(!c.is_writing());
    assert_eq!(c.visible(), "old-new");
    assert_eq!(c.seen(late), "old-new");
    c.leave(late);
    assert!(c.try_update().is_some());
}
