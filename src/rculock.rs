//! A reader-writer lock built on the versioned cell of [`crate::arcrcu`].
//!
//! Readers never wait: each one joins the current tally and reads a version
//! that stays put while it is registered. A single writer works on a copy;
//! releasing it publishes the copy, switches new readers to the other tally,
//! and cleans up the old version once the tally of the earlier readers has
//! drained.
use crate::arcrcu::{other, ArcRcu, Guard, RcuState};
use crate::LockAction;
use core::marker::PhantomData;
use vstd::prelude::*;

verus! {

/// The state of an RCU lock: its versioned cell, and the calls of
/// `before_lock` not yet matched by `after_lock`.
pub struct RcuLockState<T> {
    pub rcu: RcuState<T>,
    pub open_actions: nat,
}

impl<T> RcuLockState<T> {
    /// The cell is well formed, and every live guard, reader or writer,
    /// accounts for exactly one open hook.
    pub open spec fn wf(self) -> bool {
        &&& self.rcu.wf()
        &&& self.open_actions == self.rcu.readers() + if self.rcu.writing {
            1int
        } else {
            0int
        }
    }
}

/// A lock whose readers see a stable snapshot while one writer prepares the
/// next version.
pub struct RcuLock<T: Clone, L: LockAction> {
    rcu: ArcRcu<T>,
    open_actions: Ghost<nat>,
    phantom: PhantomData<L>,
}

/// A reader's claim: the tally it joined.
pub struct RcuLockReadGuard<T: Clone, L: LockAction> {
    borrow_count_index: usize,
    phantom: PhantomData<L>,
    value: PhantomData<T>,
}

/// The writer's claim: its working copy and the tally it joined.
pub struct RcuLockWriteGuard<T: Clone, L: LockAction> {
    data: Guard<T>,
    phantom: PhantomData<L>,
}

impl<T: Clone, L: LockAction> View for RcuLock<T, L> {
    type V = RcuLockState<T>;

    closed spec fn view(&self) -> RcuLockState<T> {
        RcuLockState { rcu: self.rcu@, open_actions: self.open_actions@ }
    }
}

impl<T: Clone, L: LockAction> RcuLockReadGuard<T, L> {
    /// The tally that the reader joined.
    pub closed spec fn slot(self) -> nat {
        self.borrow_count_index as nat
    }

    /// Reads the version that this reader sees in `lock`.
    pub fn deref<'a>(&self, lock: &'a RcuLock<T, L>) -> (r: &'a T)
        requires
            lock.wf(),
        ensures
            *r == lock@.rcu.seen(self.slot()),
    {
        lock.rcu.seen(self.borrow_count_index)
    }
}

impl<T: Clone, L: LockAction> RcuLockWriteGuard<T, L> {
    /// The working copy.
    pub closed spec fn value(self) -> T {
        self.data.value()
    }

    /// The tally that the writer joined.
    pub closed spec fn slot(self) -> nat {
        self.data.slot()
    }

    /// Reads the working copy.
    pub fn deref(&self) -> (r: &T)
        ensures
            *r == self.value(),
    {
        self.data.deref()
    }

    /// Gives mutable access to the working copy.
    pub fn deref_mut(&mut self) -> (r: &mut T)
        ensures
            *r == old(self).value(),
            final(self).value() == *final(r),
            final(self).slot() == old(self).slot(),
    {
        self.data.deref_mut()
    }
}

impl<T: Clone, L: LockAction> RcuLock<T, L> {
    /// The lock's state is well formed.
    pub open spec fn wf(&self) -> bool {
        self@.wf()
    }

    /// Creates a lock whose only version is `data`.
    pub fn new(data: T) -> (r: Self)
        ensures
            r.wf(),
            r@.open_actions == 0,
            r@.rcu == (RcuState {
                value: data,
                next: None,
                writing: false,
                borrow_count: seq![0usize, 0usize],
                index: 0,
            }),
    {
        RcuLock { rcu: ArcRcu::new(data), open_actions: Ghost(0), phantom: PhantomData }
    }

    /// Calls `before_lock` and counts it as open.
    fn enter(&mut self)
        ensures
            final(self).rcu == old(self).rcu,
            final(self).open_actions@ == old(self).open_actions@ + 1,
    {
        L::before_lock();
        self.open_actions = Ghost(self.open_actions@ + 1);
    }

    /// Calls `after_lock` and closes one open hook.
    fn leave(&mut self)
        requires
            old(self).open_actions@ > 0,
        ensures
            final(self).rcu == old(self).rcu,
            final(self).open_actions@ == old(self).open_actions@ - 1,
    {
        L::after_lock();
        self.open_actions = Ghost((self.open_actions@ - 1) as nat);
    }

    /// Registers a reader in the current tally. The reader sees the visible
    /// version, and keeps seeing it until it is handed back.
    pub fn read(&mut self) -> (g: RcuLockReadGuard<T, L>)
        requires
            old(self).wf(),
            old(self)@.rcu.borrow_count[old(self)@.rcu.index as int] < usize::MAX,
        ensures
            final(self).wf(),
            final(self)@.rcu == old(self)@.rcu.joined(),
            final(self)@.open_actions == old(self)@.open_actions + 1,
            g.slot() == old(self)@.rcu.index,
            final(self)@.rcu.seen(g.slot()) == old(self)@.rcu.visible(),
            old(self)@.rcu.keeps_snapshots(final(self)@.rcu),
    {
        self.enter();
        let index = self.rcu.join();
        RcuLockReadGuard { borrow_count_index: index, phantom: PhantomData, value: PhantomData }
    }

    /// Hands a reader's guard back: it leaves its tally and `after_lock` runs.
    pub fn unlock_read(&mut self, guard: RcuLockReadGuard<T, L>)
        requires
            old(self).wf(),
            guard.slot() < 2,
            old(self)@.rcu.readers_in(guard.slot()) > 0,
        ensures
            final(self).wf(),
            final(self)@.rcu == old(self)@.rcu.left(guard.slot()),
            final(self)@.open_actions == old(self)@.open_actions - 1,
            old(self)@.rcu.keeps_snapshots(final(self)@.rcu),
    {
        self.rcu.leave(guard.borrow_count_index);
        self.leave();
    }

    /// One attempt to become the writer. While another writer holds the lock
    /// it calls `after_lock` at once and returns `None`; otherwise the guard
    /// holds a clone of the visible version.
    pub fn try_write(&mut self) -> (r: Option<RcuLockWriteGuard<T, L>>)
        requires
            old(self).wf(),
            old(self)@.rcu.borrow_count[old(self)@.rcu.index as int] < usize::MAX,
        ensures
            final(self).wf(),
            old(self)@.rcu.try_update_post(
                match r {
                    Some(g) => Some((g.slot(), g.value())),
                    None => None,
                },
                final(self)@.rcu,
            ),
            final(self)@.open_actions == old(self)@.open_actions + if r is Some {
                1int
            } else {
                0int
            },
            old(self)@.rcu.keeps_snapshots(final(self)@.rcu),
    {
        self.enter();
        match self.rcu.try_update() {
            Some(guard) => Some(RcuLockWriteGuard { data: guard, phantom: PhantomData }),
            None => {
                self.leave();
                None
            },
        }
    }

    /// Becomes the writer of a lock that no writer holds.
    ///
    /// While another writer holds the lock this would spin until that writer
    /// finishes, which only that writer can do; that call is left out.
    pub fn write(&mut self) -> (g: RcuLockWriteGuard<T, L>)
        requires
            old(self).wf(),
            !old(self)@.rcu.writing,
            old(self)@.rcu.borrow_count[old(self)@.rcu.index as int] < usize::MAX,
        ensures
            final(self).wf(),
            old(self)@.rcu.try_update_post(Some((g.slot(), g.value())), final(self)@.rcu),
            final(self)@.open_actions == old(self)@.open_actions + 1,
            old(self)@.rcu.keeps_snapshots(final(self)@.rcu),
    {
        self.enter();
        let guard = self.rcu.try_update().unwrap();
        RcuLockWriteGuard { data: guard, phantom: PhantomData }
    }

    /// Runs the cleanup when the readers from before the publication are all
    /// gone; then the writer flag clears and `after_lock` runs.
    fn complete(&mut self) -> (done: bool)
        requires
            old(self).wf(),
        ensures
            final(self).wf(),
            old(self)@.rcu.finish_post(done, final(self)@.rcu),
            final(self)@.open_actions == old(self)@.open_actions - if done {
                1int
            } else {
                0int
            },
            old(self)@.rcu.keeps_snapshots(final(self)@.rcu),
    {
        if self.rcu.is_published() && self.rcu.drained() {
            self.rcu.clean();
            self.leave();
            true
        } else {
            false
        }
    }

    /// Hands the writer's guard back: its copy is published, new readers move
    /// to the other tally, and the writer leaves its own. When the tally of the
    /// earlier readers is already empty the old version is cleaned up at once
    /// and the result is `true`; otherwise the grace period is still running,
    /// and [`RcuLock::finish_write`] completes it later.
    pub fn unlock_write(&mut self, guard: RcuLockWriteGuard<T, L>) -> (done: bool)
        requires
            old(self).wf(),
            old(self)@.rcu.writing,
            !old(self)@.rcu.published(),
            guard.slot() == old(self)@.rcu.index,
        ensures
            final(self).wf(),
            old(self)@.rcu.release_post(guard.value(), done, final(self)@.rcu),
            final(self)@.open_actions == old(self)@.open_actions - if done {
                1int
            } else {
                0int
            },
            old(self)@.rcu.keeps_snapshots(final(self)@.rcu),
    {
        self.rcu.publish(guard.data);
        self.complete()
    }

    /// Looks again at a running grace period, and completes the write as
    /// [`RcuLock::unlock_write`] would once the earlier readers are gone.
    pub fn finish_write(&mut self) -> (done: bool)
        requires
            old(self).wf(),
        ensures
            final(self).wf(),
            old(self)@.rcu.finish_post(done, final(self)@.rcu),
            final(self)@.open_actions == old(self)@.open_actions - if done {
                1int
            } else {
                0int
            },
            old(self)@.rcu.keeps_snapshots(final(self)@.rcu),
    {
        self.complete()
    }

    /// Whether a writer holds the lock.
    pub fn is_writing(&self) -> (r: bool)
        requires
            self.wf(),
        ensures
            r == self@.rcu.writing,
    {
        self.rcu.is_writing()
    }
}

/// One full write cycle that adds one: `try_write` succeeds on `pre` with
/// working copy `w`, the writer stores `w + 1`, and `unlock_write` completes
/// the write at once into `post`.
pub open spec fn increment_cycle(pre: RcuState<u64>, post: RcuState<u64>) -> bool {
    exists|w: u64, mid: RcuState<u64>|
        #![trigger pre.try_update_post(Some((pre.index, w)), mid)]
        {
            &&& pre.try_update_post(Some((pre.index, w)), mid)
            &&& w < u64::MAX
            &&& mid.release_post((w + 1) as u64, true, post)
        }
}

/// Increments converge: after `n` full write cycles that each add one, a new
/// reader sees the first visible value plus `n`. Each writer starts from a
/// copy of what a reader would see, and a completed write makes its copy
/// what readers see.
pub proof fn lemma_increments_converge(states: Seq<RcuState<u64>>, n: nat)
    requires
        states.len() == n + 1,
        forall|i: int| 0 <= i < n ==> #[trigger] increment_cycle(states[i], states[i + 1]),
    ensures
        states[n as int].visible() == states[0].visible() + n,
    decreases n,
{
    if n > 0 {
        let prefix = states.subrange(0, n as int);
        assert forall|i: int| 0 <= i < n - 1 implies #[trigger] increment_cycle(
            prefix[i],
            prefix[i + 1],
        ) by {
            assert(increment_cycle(states[i], states[i + 1]));
        }
        lemma_increments_converge(prefix, (n - 1) as nat);
        let k = n - 1;
        assert(increment_cycle(states[k], states[k + 1]));
        let pre = states[k];
        let post = states[k + 1];
        let (w, mid) = choose|w: u64, mid: RcuState<u64>|
            {
                &&& pre.try_update_post(Some((pre.index, w)), mid)
                &&& w < u64::MAX
                &&& mid.release_post((w + 1) as u64, true, post)
            };
        assert(cloned(pre.visible(), w));
        assert(w == pre.visible());
    }
}

/// Read stability: a reader that stays registered in tally `slot` through
/// any number of steps, each of which keeps the snapshots of live readers,
/// sees at the end what it saw at the start.
pub proof fn lemma_snapshot_stable<T>(states: Seq<RcuState<T>>, slot: nat)
    requires
        states.len() >= 1,
        slot < 2,
        forall|i: int|
            0 <= i < states.len() - 1 ==> #[trigger] states[i].keeps_snapshots(states[i + 1]),
        forall|i: int| 0 <= i < states.len() - 1 ==> #[trigger] states[i].readers_in(slot) > 0,
    ensures
        states.last().seen(slot) == states[0].seen(slot),
    decreases states.len(),
{
    if states.len() > 1 {
        let prefix = states.drop_last();
        assert forall|i: int| 0 <= i < prefix.len() - 1 implies #[trigger] prefix[i].keeps_snapshots(
            prefix[i + 1],
        ) by {
            assert(states[i].keeps_snapshots(states[i + 1]));
        }
        assert forall|i: int| 0 <= i < prefix.len() - 1 implies #[trigger] prefix[i].readers_in(
            slot,
        ) > 0 by {
            assert(states[i].readers_in(slot) > 0);
        }
        lemma_snapshot_stable(prefix, slot);
        let k = states.len() - 2;
        assert(states[k].keeps_snapshots(states[k + 1]));
        assert(states[k].readers_in(slot) > 0);
    }
}

/// Writer exclusion: on a lock with no writer and no reader in the current
/// tally, a first `try_write` succeeds, a second one fails, and once the
/// first writer is handed back (whatever it wrote) the write completes and a
/// third `try_write` succeeds.
pub proof fn lemma_try_write_exclusion<T: Clone>(
    s0: RcuState<T>,
    r1: Option<(nat, T)>,
    s1: RcuState<T>,
    r2: Option<(nat, T)>,
    s2: RcuState<T>,
    w: T,
    done: bool,
    s3: RcuState<T>,
    r3: Option<(nat, T)>,
    s4: RcuState<T>,
)
    requires
        s0.wf(),
        !s0.writing,
        s0.readers_in(s0.index) == 0,
        s0.try_update_post(r1, s1),
        s1.try_update_post(r2, s2),
        s2.release_post(w, done, s3),
        s3.try_update_post(r3, s4),
    ensures
        r1 is Some,
        r2 is None,
        done,
        r3 is Some,
{
    assert(s1.writing);
    assert(s2 == s1);
    let p = s2.published_with(w);
    assert(p.borrow_count[s0.index as int] == 0);
    assert(p.drained());
    assert(!s3.writing);
}

/// No leaks: a write that completes leaves no successor node and no writer,
/// and the published copy is the current version; and a well-formed cell
/// with no writer never holds a successor.
pub proof fn lemma_completed_write_frees_successor<T>(s: RcuState<T>, w: T, post: RcuState<T>)
    requires
        s.wf(),
        s.writing,
        !s.published(),
        s.release_post(w, true, post),
    ensures
        post.wf(),
        post.next is None,
        !post.writing,
        post.value == w,
        post.readers() == s.readers(),
{
    let p = s.published_with(w);
    assert(p.borrow_count[other(p.index) as int] == 0);
}

/// Hook symmetry: a reader or writer that joins opens one hook, a failed
/// `try_write` closes its own at once, and a lock with no reader and no
/// writer has no open hook.
pub proof fn lemma_rcu_actions_balanced<T: Clone>(
    s: RcuLockState<T>,
    r: Option<(nat, T)>,
    post: RcuState<T>,
)
    requires
        s.wf(),
        s.rcu.borrow_count[s.rcu.index as int] < usize::MAX,
        s.rcu.try_update_post(r, post),
    ensures
        r is None ==> post == s.rcu,
        r is Some ==> (RcuLockState { rcu: post, open_actions: s.open_actions + 1 }).wf(),
        s.rcu.readers() == 0 && !s.rcu.writing ==> s.open_actions == 0,
{
}

/// A well-formed cell with no writer holds no successor node.
pub proof fn lemma_idle_has_no_successor<T>(s: RcuState<T>)
    requires
        s.wf(),
        !s.writing,
    ensures
        s.next is None,
{
}

} // verus!
