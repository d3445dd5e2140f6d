use kernel_sync::RwLock;

#[test]
fn many_readers_share_the_lock() {
    let mut l = RwLock::new(5);
    let mut guards = Vec::new();
    for _ in 0..100 {
        guards.push(l.read());
    }
    assert_eq!(l.reader_count(), 100);
    for g in &guards {
        assert_eq!(*g.deref(&l), 5);
    }
    assert!(l.try_write().is_none());
    for g in guards {
        l.unlock_read(g);
    }
    assert_eq!(l.reader_count(), 0);
    assert!(l.try_write().is_some());
}

#[test]
fn writer_excludes_everyone() {
    let mut l = RwLock::new(0);
    let mut w = l.write();
    *w.deref_mut() = 19;
    assert!(l.is_write_locked());
    assert!(l.try_read().is_none());
    assert!(l.try_write().is_none());
    assert!(l.try_upgradable_read().is_none());
    l.unlock_write(w);
    assert!(!l.is_write_locked());
    let r = l.read();
    assert_eq!(*r.deref(&l), 19);
    l.unlock_read(r);
    assert_eq!(l.into_inner(), 19);
}

#[test]
fn upgradable_coexists_with_readers_only() {
    let mut l = RwLock::new(1);
    let r = l.read();
    let u = l.try_upgradable_read().unwrap();
    assert!(l.is_upgradable_locked());
    assert_eq!(*u.deref(&l), 1);
    assert!(l.try_upgradable_read().is_none());
    assert!(l.try_write().is_none());
    let r2 = l.try_read().unwrap();
    assert_eq!(l.reader_count(), 2);
    l.unlock_read(r2);
    l.unlock_read(r);
    l.unlock_upgradable(u);
    assert!(!l.is_upgradable_locked());
    assert!(l.try_write().is_some());
}

#[test]
fn upgrade_waits_for_readers() {
    let mut l = RwLock::new(10);
    let u = l.upgradable_read();
    let r = l.read();
    let u = match l.try_upgrade(u) {
        Ok(_) => panic!("upgrade must wait for the reader"),
        Err(u) => u,
    };
    l.unlock_read(r);
    let mut w = l.upgrade(u);
    assert!(l.is_write_locked());
    assert!(!l.is_upgradable_locked());
    *w.deref_mut() += 1;
    let r = l.downgrade(w);
    assert!(!l.is_write_locked());
    assert_eq!(l.reader_count(), 1);
    assert_eq!(*r.deref(&l), 11);
    l.unlock_read(r);
}
