use kernel_sync::TicketMutex;

#[test]
fn tickets_are_served_in_order() {
    let mut m = TicketMutex::new(Vec::new());
    for expected in 0..5usize {
        let mut g = m.lock();
        assert_eq!(g.ticket_number(), expected);
        g.deref_mut().push(expected);
        m.unlock(g);
    }
    assert_eq!(m.into_inner(), vec![0, 1, 2, 3, 4]);
}

#[test]
fn ticket_try_lock_fails_while_held() {
    let mut m = TicketMutex::new(42);
    let g = m.try_lock().unwrap();
    assert_eq!(g.ticket_number(), 0);
    assert!(m.is_locked());
    assert!(m.try_lock().is_none());
    m.unlock(g);
    assert!(!m.is_locked());
    let g = m.try_lock().unwrap();
    assert_eq!(g.ticket_number(), 1);
    assert_eq!(*g.deref(), 42);
    m.unlock(g);
}

#[test]
fn ticket_get_mut_and_into_inner() {
    let mut m = TicketMutex::new(0);
    *m.get_mut() = 19;
    let g = m.lock();
    assert_eq!(*g.deref(), 19);
    m.unlock(g);
    assert_eq!(m.into_inner(), 19);
}
