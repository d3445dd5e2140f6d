use kernel_sync::SpinMutex;

#[test]
fn spin_counter_reaches_total() {
    let mut m = SpinMutex::new(0u64);
    for _ in 0..2 {
        for _ in 0..1000 {
            let mut g = m.lock();
            *g.deref_mut() += 1;
            m.unlock(g);
        }
    }
    assert!(!m.is_locked());
    assert_eq!(m.into_inner(), 2000);
}

#[test]
fn spin_try_lock_fails_while_held() {
    let mut m = SpinMutex::new(42);
    let g = m.try_lock();
    assert!(g.is_some());
    assert!(m.is_locked());
    assert!(m.try_lock().is_none());
    let mut g = g.unwrap();
    assert_eq!(*g.deref(), 42);
    *g.deref_mut() = 58;
    m.unlock(g);
    assert!(!m.is_locked());
    let g = m.try_lock().unwrap();
    assert_eq!(*g.deref(), 58);
    m.unlock(g);
}

#[test]
fn spin_get_mut_and_into_inner() {
    let mut m = SpinMutex::new(0);
    *m.get_mut() = 10;
    let g = m.lock();
    assert_eq!(*g.deref(), 10);
    m.unlock(g);
    assert_eq!(m.into_inner(), 10);
}
