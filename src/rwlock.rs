//! A reader-writer lock with an upgradable read.
//!
//! The whole state is one 64-bit word: bit 0 is the writer, bit 1 the upgradable
//! reader, and the bits above count the plain readers. Readers share the
//! value; the upgradable reader shares it too and reserves the right to become
//! the writer; the writer owns the value until it hands its guard back.
use crate::LockAction;
use core::marker::PhantomData;
use vstd::prelude::*;

verus! {

/// The writer bit.
pub const WRITER: u64 = 1;

/// The upgradable-reader bit.
pub const UPGRADED: u64 = 2;

/// One plain reader.
pub const READER: u64 = 4;

/// The bound on plain readers under which one more always fits in the word.
pub const MAX_READERS: u64 = 0x3fff_ffff_ffff_fff0;

/// The state of a reader-writer lock at one instant.
pub struct RwState<T> {
    /// Whether the writer holds the lock.
    pub writer: bool,
    /// Whether the upgradable reader holds the lock.
    pub upgradable: bool,
    /// The number of plain readers.
    pub readers: nat,
    /// The protected value, while the writer does not hold it.
    pub data: Option<T>,
    /// Calls of `before_lock` not yet matched by a call of `after_lock`.
    pub open_actions: nat,
}

impl<T> RwState<T> {
    /// The writer excludes everyone else, it alone holds the value, and each
    /// live guard accounts for one open hook.
    pub open spec fn wf(self) -> bool {
        &&& self.writer ==> self.readers == 0 && !self.upgradable
        &&& self.writer <==> self.data is None
        &&& self.open_actions == self.readers + (if self.writer {
            1nat
        } else {
            0nat
        }) + (if self.upgradable {
            1nat
        } else {
            0nat
        })
    }

    /// A read attempt succeeds exactly while no writer holds the lock.
    pub open spec fn try_read_post(self, ok: bool, post: RwState<T>) -> bool {
        &&& ok == !self.writer
        &&& post == if ok {
            RwState { readers: self.readers + 1, open_actions: self.open_actions + 1, ..self }
        } else {
            self
        }
    }

    /// A write attempt succeeds exactly on a lock that nobody holds, and its
    /// guard takes the value `v`.
    pub open spec fn try_write_post(self, r: Option<T>, post: RwState<T>) -> bool {
        if !self.writer && !self.upgradable && self.readers == 0 {
            &&& r == self.data
            &&& post == RwState {
                writer: true,
                data: None,
                open_actions: self.open_actions + 1,
                ..self
            }
        } else {
            r is None && post == self
        }
    }

    /// An upgradable-read attempt succeeds exactly while there is neither a
    /// writer nor another upgradable reader; plain readers do not matter.
    pub open spec fn try_upgradable_post(self, ok: bool, post: RwState<T>) -> bool {
        &&& ok == (!self.writer && !self.upgradable)
        &&& post == if ok {
            RwState { upgradable: true, open_actions: self.open_actions + 1, ..self }
        } else {
            self
        }
    }

    /// An upgrade attempt succeeds exactly when the plain readers are gone;
    /// the upgradable claim turns into the writer's, with the same open hook.
    pub open spec fn try_upgrade_post(self, r: Option<T>, post: RwState<T>) -> bool {
        if self.readers == 0 {
            &&& r == self.data
            &&& post == RwState { writer: true, upgradable: false, data: None, ..self }
        } else {
            r is None && post == self
        }
    }
}

/// Whether `w` has the writer bit.
pub open spec fn has_writer(w: u64) -> bool {
    w & WRITER == WRITER
}

/// Whether `w` has the upgradable bit.
pub open spec fn has_upgraded(w: u64) -> bool {
    w & UPGRADED == UPGRADED
}

/// The plain readers that `w` counts.
pub open spec fn readers_of(w: u64) -> nat {
    (w >> 2u64) as nat
}

/// A lock that admits many readers, one upgradable reader, or one writer.
pub struct RwLock<T, L: LockAction> {
    lock: u64,
    data: Option<T>,
    open_actions: Ghost<nat>,
    phantom: PhantomData<L>,
}

/// A plain reader's claim on a [`RwLock`].
pub struct RwLockReadGuard<T, L: LockAction> {
    phantom: PhantomData<L>,
    value: PhantomData<T>,
}

/// The upgradable reader's claim on a [`RwLock`].
pub struct RwLockUpgradableGuard<T, L: LockAction> {
    phantom: PhantomData<L>,
    value: PhantomData<T>,
}

/// The writer's claim on a [`RwLock`], holding the protected value.
pub struct RwLockWriteGuard<T, L: LockAction> {
    data: T,
    phantom: PhantomData<L>,
}

impl<T, L: LockAction> View for RwLock<T, L> {
    type V = RwState<T>;

    closed spec fn view(&self) -> RwState<T> {
        RwState {
            writer: has_writer(self.lock),
            upgradable: has_upgraded(self.lock),
            readers: readers_of(self.lock),
            data: self.data,
            open_actions: self.open_actions@,
        }
    }
}

impl<T, L: LockAction> RwLockReadGuard<T, L> {
    /// Reads the shared value.
    pub fn deref<'a>(&self, lock: &'a RwLock<T, L>) -> (r: &'a T)
        requires
            lock@.wf(),
            lock@.readers > 0,
        ensures
            lock@.data == Some(*r),
    {
        lock.data.as_ref().unwrap()
    }
}

impl<T, L: LockAction> RwLockUpgradableGuard<T, L> {
    /// Reads the shared value.
    pub fn deref<'a>(&self, lock: &'a RwLock<T, L>) -> (r: &'a T)
        requires
            lock@.wf(),
            lock@.upgradable,
        ensures
            lock@.data == Some(*r),
    {
        lock.data.as_ref().unwrap()
    }
}

impl<T, L: LockAction> RwLockWriteGuard<T, L> {
    /// The value that the guard holds.
    pub closed spec fn value(self) -> T {
        self.data
    }

    /// Reads the protected value.
    pub fn deref(&self) -> (r: &T)
        ensures
            *r == self.value(),
    {
        &self.data
    }

    /// Gives mutable access to the protected value.
    pub fn deref_mut(&mut self) -> (r: &mut T)
        ensures
            *r == old(self).value(),
            final(self).value() == *final(r),
    {
        &mut self.data
    }
}

impl<T, L: LockAction> RwLock<T, L> {
    /// Creates a lock that nobody holds.
    pub fn new(data: T) -> (r: Self)
        ensures
            r@ == (RwState {
                writer: false,
                upgradable: false,
                readers: 0,
                data: Some(data),
                open_actions: 0,
            }),
    {
        assert(0u64 & 1u64 == 0u64 && 0u64 & 2u64 == 0u64 && 0u64 >> 2u64 == 0u64)
            by (bit_vector);
        RwLock { lock: 0, data: Some(data), open_actions: Ghost(0), phantom: PhantomData }
    }

    /// Consumes a lock that nobody writes and returns its value.
    pub fn into_inner(self) -> (r: T)
        requires
            self@.wf(),
            !self@.writer,
        ensures
            self@.data == Some(r),
    {
        self.data.unwrap()
    }

    /// Calls `before_lock` and counts it as open.
    fn enter(&mut self)
        ensures
            final(self).lock == old(self).lock,
            final(self).data == old(self).data,
            final(self).open_actions@ == old(self).open_actions@ + 1,
    {
        L::before_lock();
        self.open_actions = Ghost(self.open_actions@ + 1);
    }

    /// Calls `after_lock` and closes one open hook.
    fn leave(&mut self)
        requires
            old(self).open_actions@ > 0,
        ensures
            final(self).lock == old(self).lock,
            final(self).data == old(self).data,
            final(self).open_actions@ == old(self).open_actions@ - 1,
    {
        L::after_lock();
        self.open_actions = Ghost((self.open_actions@ - 1) as nat);
    }

    /// One attempt to register a plain reader; `None` while a writer holds
    /// the lock, after `after_lock` has run.
    pub fn try_read(&mut self) -> (r: Option<RwLockReadGuard<T, L>>)
        requires
            old(self)@.wf(),
            old(self)@.readers < MAX_READERS,
        ensures
            final(self)@.wf(),
            old(self)@.try_read_post(r is Some, final(self)@),
    {
        self.enter();
        let w = self.lock;
        if w & WRITER == WRITER {
            self.leave();
            None
        } else {
            assert((w >> 2u64) < 0x3fff_ffff_ffff_fff0u64 ==> (w < 0xffff_ffff_ffff_fff0u64 && (w + 4) as u64 & 1u64 == w & 1u64 && (w + 4) as u64
                & 2u64 == w & 2u64 && ((w + 4) as u64 >> 2u64) == (w >> 2u64) + 1))
                by (bit_vector);
            self.lock = w + READER;
            Some(RwLockReadGuard { phantom: PhantomData, value: PhantomData })
        }
    }

    /// Registers a plain reader on a lock that no writer holds.
    ///
    /// While a writer holds the lock this would spin until it hands its guard
    /// back; that call is left out.
    pub fn read(&mut self) -> (g: RwLockReadGuard<T, L>)
        requires
            old(self)@.wf(),
            old(self)@.readers < MAX_READERS,
            !old(self)@.writer,
        ensures
            final(self)@.wf(),
            old(self)@.try_read_post(true, final(self)@),
    {
        self.try_read().unwrap()
    }

    /// Hands a plain reader's guard back.
    pub fn unlock_read(&mut self, guard: RwLockReadGuard<T, L>)
        requires
            old(self)@.wf(),
            old(self)@.readers > 0,
        ensures
            final(self)@.wf(),
            final(self)@ == (RwState {
                readers: (old(self)@.readers - 1) as nat,
                open_actions: (old(self)@.open_actions - 1) as nat,
                ..old(self)@
            }),
    {
        let w = self.lock;
        assert((w >> 2u64) > 0 ==> ((w - 4) as u64 & 1u64 == w & 1u64 && (w - 4) as u64
            & 2u64 == w & 2u64 && ((w - 4) as u64 >> 2u64) == (w >> 2u64) - 1 && w >= 4))
            by (bit_vector);
        self.lock = w - READER;
        self.leave();
    }

    /// One attempt to become the writer; it succeeds only on a lock that
    /// nobody holds.
    pub fn try_write(&mut self) -> (r: Option<RwLockWriteGuard<T, L>>)
        requires
            old(self)@.wf(),
        ensures
            final(self)@.wf(),
            old(self)@.try_write_post(
                match r {
                    Some(g) => Some(g.value()),
                    None => None,
                },
                final(self)@,
            ),
    {
        self.enter();
        let w = self.lock;
        assert(w == 0u64 <==> (w & 1u64 != 1u64 && w & 2u64 != 2u64 && (w >> 2u64)
            == 0u64)) by (bit_vector);
        if w == 0 {
            assert(1u64 & 1u64 == 1u64 && 1u64 & 2u64 == 0u64 && 1u64 >> 2u64
                == 0u64) by (bit_vector);
            self.lock = WRITER;
            Some(RwLockWriteGuard { data: self.data.take().unwrap(), phantom: PhantomData })
        } else {
            self.leave();
            None
        }
    }

    /// Becomes the writer of a lock that nobody holds.
    ///
    /// On a held lock this would spin until every other guard is handed back;
    /// that call is left out.
    pub fn write(&mut self) -> (g: RwLockWriteGuard<T, L>)
        requires
            old(self)@.wf(),
            !old(self)@.writer,
            !old(self)@.upgradable,
            old(self)@.readers == 0,
        ensures
            final(self)@.wf(),
            old(self)@.try_write_post(Some(g.value()), final(self)@),
    {
        self.try_write().unwrap()
    }

    /// Hands the writer's guard back with its value.
    pub fn unlock_write(&mut self, guard: RwLockWriteGuard<T, L>)
        requires
            old(self)@.wf(),
            old(self)@.writer,
        ensures
            final(self)@.wf(),
            final(self)@ == (RwState {
                writer: false,
                data: Some(guard.value()),
                open_actions: (old(self)@.open_actions - 1) as nat,
                ..old(self)@
            }),
    {
        let w = self.lock;
        assert((w & 1u64 == 1u64 && w & 2u64 != 2u64 && (w >> 2u64) == 0u64) ==> w
            == 1u64) by (bit_vector);
        assert(0u64 & 1u64 == 0u64 && 0u64 & 2u64 == 0u64 && 0u64 >> 2u64 == 0u64)
            by (bit_vector);
        self.lock = 0;
        self.data = Some(guard.data);
        self.leave();
    }

    /// One attempt to become the upgradable reader; `None` while a writer or
    /// another upgradable reader holds the lock.
    pub fn try_upgradable_read(&mut self) -> (r: Option<RwLockUpgradableGuard<T, L>>)
        requires
            old(self)@.wf(),
        ensures
            final(self)@.wf(),
            old(self)@.try_upgradable_post(r is Some, final(self)@),
    {
        self.enter();
        let w = self.lock;
        if w & (WRITER | UPGRADED) == 0 {
            assert(w & 3u64 == 0u64 ==> ((w | 2u64) & 1u64 == 0u64 && (w | 2u64)
                & 2u64 == 2u64 && ((w | 2u64) >> 2u64) == (w >> 2u64) && (w | 2u64)
                == w + 2)) by (bit_vector);
            assert(w & 3u64 == 0u64 <==> (w & 1u64 != 1u64 && w & 2u64 != 2u64))
                by (bit_vector);
            assert((WRITER | UPGRADED) == 3u64) by (bit_vector);
            self.lock = w | UPGRADED;
            Some(RwLockUpgradableGuard { phantom: PhantomData, value: PhantomData })
        } else {
            assert(w & 3u64 != 0u64 <==> (w & 1u64 == 1u64 || w & 2u64 == 2u64))
                by (bit_vector);
            assert((WRITER | UPGRADED) == 3u64) by (bit_vector);
            self.leave();
            None
        }
    }

    /// Becomes the upgradable reader while there is neither a writer nor
    /// another upgradable reader.
    ///
    /// Otherwise this would spin until they hand their guards back; that call
    /// is left out.
    pub fn upgradable_read(&mut self) -> (g: RwLockUpgradableGuard<T, L>)
        requires
            old(self)@.wf(),
            !old(self)@.writer,
            !old(self)@.upgradable,
        ensures
            final(self)@.wf(),
            old(self)@.try_upgradable_post(true, final(self)@),
    {
        self.try_upgradable_read().unwrap()
    }

    /// Hands the upgradable reader's guard back.
    pub fn unlock_upgradable(&mut self, guard: RwLockUpgradableGuard<T, L>)
        requires
            old(self)@.wf(),
            old(self)@.upgradable,
        ensures
            final(self)@.wf(),
            final(self)@ == (RwState {
                upgradable: false,
                open_actions: (old(self)@.open_actions - 1) as nat,
                ..old(self)@
            }),
    {
        let w = self.lock;
        assert(w & 2u64 == 2u64 ==> ((w - 2) as u64 & 1u64 == w & 1u64 && (w - 2) as u64
            & 2u64 == 0u64 && ((w - 2) as u64 >> 2u64) == (w >> 2u64) && w >= 2))
            by (bit_vector);
        self.lock = w - UPGRADED;
        self.leave();
    }

    /// One attempt to turn the upgradable claim into the writer's. It succeeds
    /// once the plain readers are gone; otherwise the upgradable guard comes
    /// back unchanged.
    pub fn try_upgrade(&mut self, guard: RwLockUpgradableGuard<T, L>) -> (r: Result<
        RwLockWriteGuard<T, L>,
        RwLockUpgradableGuard<T, L>,
    >)
        requires
            old(self)@.wf(),
            old(self)@.upgradable,
        ensures
            final(self)@.wf(),
            old(self)@.try_upgrade_post(
                match r {
                    Ok(g) => Some(g.value()),
                    Err(_) => None,
                },
                final(self)@,
            ),
    {
        let w = self.lock;
        assert((w & 1u64 != 1u64 && w & 2u64 == 2u64) ==> ((w >> 2u64) == 0u64 <==> w
            == 2u64)) by (bit_vector);
        if w == UPGRADED {
            assert(1u64 & 1u64 == 1u64 && 1u64 & 2u64 == 0u64 && 1u64 >> 2u64
                == 0u64) by (bit_vector);
            self.lock = WRITER;
            Ok(RwLockWriteGuard { data: self.data.take().unwrap(), phantom: PhantomData })
        } else {
            Err(guard)
        }
    }

    /// Turns the upgradable claim into the writer's once no plain reader is
    /// left.
    ///
    /// While plain readers remain this would spin until they are gone; that
    /// call is left out.
    pub fn upgrade(&mut self, guard: RwLockUpgradableGuard<T, L>) -> (g: RwLockWriteGuard<T, L>)
        requires
            old(self)@.wf(),
            old(self)@.upgradable,
            old(self)@.readers == 0,
        ensures
            final(self)@.wf(),
            old(self)@.try_upgrade_post(Some(g.value()), final(self)@),
    {
        self.try_upgrade(guard).ok().unwrap()
    }

    /// Turns the writer's claim into a plain reader's in one step: the value
    /// comes back and the writer becomes the only reader.
    pub fn downgrade(&mut self, guard: RwLockWriteGuard<T, L>) -> (g: RwLockReadGuard<T, L>)
        requires
            old(self)@.wf(),
            old(self)@.writer,
        ensures
            final(self)@.wf(),
            final(self)@ == (RwState {
                writer: false,
                readers: 1,
                data: Some(guard.value()),
                ..old(self)@
            }),
    {
        let w = self.lock;
        assert((w & 1u64 == 1u64 && w & 2u64 != 2u64 && (w >> 2u64) == 0u64) ==> w
            == 1u64) by (bit_vector);
        assert(4u64 & 1u64 == 0u64 && 4u64 & 2u64 == 0u64 && 4u64 >> 2u64 == 1u64)
            by (bit_vector);
        self.lock = READER;
        self.data = Some(guard.data);
        RwLockReadGuard { phantom: PhantomData, value: PhantomData }
    }

    /// The number of plain readers at this instant.
    pub fn reader_count(&self) -> (r: u64)
        ensures
            r as nat == self@.readers,
    {
        self.lock >> 2
    }

    /// Whether the writer holds the lock at this instant.
    pub fn is_write_locked(&self) -> (r: bool)
        ensures
            r == self@.writer,
    {
        self.lock & WRITER == WRITER
    }

    /// Whether the upgradable reader holds the lock at this instant.
    pub fn is_upgradable_locked(&self) -> (r: bool)
        ensures
            r == self@.upgradable,
    {
        self.lock & UPGRADED == UPGRADED
    }
}

/// Exclusion: a writer shares the lock with nobody; an upgradable reader
/// shares it with plain readers but not with a writer or a second upgradable
/// reader; plain readers share it with each other in any number. Each
/// attempt below is made on the same state `s`.
pub proof fn lemma_rw_exclusion<T>(
    s: RwState<T>,
    read_ok: bool,
    after_read: RwState<T>,
    written: Option<T>,
    after_write: RwState<T>,
    upgradable_ok: bool,
    after_upgradable: RwState<T>,
)
    requires
        s.wf(),
        s.try_read_post(read_ok, after_read),
        s.try_write_post(written, after_write),
        s.try_upgradable_post(upgradable_ok, after_upgradable),
    ensures
        s.writer ==> s.readers == 0 && !s.upgradable,
        s.writer ==> !read_ok && written is None && !upgradable_ok,
        s.upgradable ==> read_ok && written is None && !upgradable_ok,
        s.readers > 0 ==> read_ok && written is None && upgradable_ok == !s.upgradable,
        after_read.wf(),
        after_write.wf(),
        after_upgradable.wf(),
{
}

/// Upgrade liveness: an upgradable reader that shares the lock with `k`
/// plain readers becomes the writer as soon as those `k` hand their guards
/// back, and takes the value without opening another hook.
pub proof fn lemma_upgrade_after_readers_leave<T>(
    s: RwState<T>,
    k: nat,
    r: Option<T>,
    post: RwState<T>,
)
    requires
        s.wf(),
        s.upgradable,
        s.readers == k,
        (RwState {
            readers: 0,
            open_actions: (s.open_actions - k) as nat,
            ..s
        }).try_upgrade_post(r, post),
    ensures
        r == s.data,
        r is Some,
        post.writer,
        !post.upgradable,
        post.wf(),
        post.open_actions == s.open_actions - k,
{
}

/// Hook symmetry: each successful attempt opens exactly one hook, each failed
/// one leaves the count as it was, and a lock that nobody holds has no open
/// hook.
pub proof fn lemma_rw_actions_balanced<T>(
    s: RwState<T>,
    read_ok: bool,
    after_read: RwState<T>,
    written: Option<T>,
    after_write: RwState<T>,
)
    requires
        s.wf(),
        s.try_read_post(read_ok, after_read),
        s.try_write_post(written, after_write),
    ensures
        after_read.open_actions == s.open_actions + if read_ok {
            1nat
        } else {
            0nat
        },
        after_write.open_actions == s.open_actions + if written is Some {
            1nat
        } else {
            0nat
        },
        !s.writer && !s.upgradable && s.readers == 0 ==> s.open_actions == 0,
{
}

} // verus!
