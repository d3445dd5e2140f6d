use kernel_sync::rculock::RcuLock;
use kernel_sync::rwlock::RwLock;
use kernel_sync::spin::SpinMutex;
use kernel_sync::ticket::TicketMutex;
use kernel_sync::LockAction;
use std::sync::atomic::{AtomicIsize, Ordering};

static DEPTH: AtomicIsize = AtomicIsize::new(0);

struct Counting;

impl LockAction for Counting {
    fn before_lock() {
        DEPTH.fetch_add(1, Ordering::SeqCst);
    }

    fn after_lock() {
        DEPTH.fetch_sub(1, Ordering::SeqCst);
    }
}

fn depth() -> isize {
    DEPTH.load(Ordering::SeqCst)
}

#[test]
fn hooks_pair_up_on_every_path() {
    let base = depth();

    let mut s = SpinMutex::<u32, Counting>::new(0);
    let g = s.lock();
    assert_eq!(depth(), base + 1);
    assert!(s.try_lock().is_none());
    assert_eq!(depth(), base + 1);
    s.unlock(g);
    assert_eq!(depth(), base);

    let mut t = TicketMutex::<u32, Counting>::new(0);
    let g = t.try_lock().unwrap();
    assert!(t.try_lock().is_none());
    assert_eq!(depth(), base + 1);
    t.unlock(g);
    assert_eq!(depth(), base);

    let mut l = RwLock::<u32, Counting>::new(0);
    let r1 = l.read();
    let r2 = l.read();
    let u = l.upgradable_read();
    assert_eq!(depth(), base + 3);
    assert!(l.try_write().is_none());
    assert_eq!(depth(), base + 3);
    l.unlock_read(r1);
    l.unlock_read(r2);
    let w = l.upgrade(u);
    assert_eq!(depth(), base + 1);
    let r = l.downgrade(w);
    assert_eq!(depth(), base + 1);
    l.unlock_read(r);
    assert_eq!(depth(), base);

    let mut c = RcuLock::<u32, Counting>::new(0);
    let r = c.read();
    let w = c.write();
    assert_eq!(depth(), base + 2);
    assert!(c.try_write().is_none());
    assert_eq!(depth(), base + 2);
    assert!(!c.unlock_write(w));
    // The writer's hook stays open through its grace period.
    assert_eq!(depth(), base + 2);
    c.unlock_read(r);
    assert_eq!(depth(), base + 1);
    assert!(c.finish_write());
    assert_eq!(depth(), base);
}
