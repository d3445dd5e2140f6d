//! A test-and-set spin mutex.
//!
//! The lock is one flag. Whoever sets it from `false` to `true` holds the lock
//! and, with it, the protected value: the guard owns the value until it is
//! handed back by [`SpinMutex::unlock`].
use crate::LockAction;
use core::marker::PhantomData;
use vstd::prelude::*;

verus! {

/// The state of a spin mutex at one instant.
pub struct SpinState<T> {
    /// The lock flag.
    pub locked: bool,
    /// The protected value, while no guard holds it.
    pub data: Option<T>,
    /// Calls of `before_lock` not yet matched by a call of `after_lock`.
    pub open_actions: nat,
}

impl<T> SpinState<T> {
    /// The flag is set exactly when a guard holds the value, and each live guard
    /// accounts for one open hook.
    pub open spec fn wf(self) -> bool {
        &&& self.locked <==> self.data is None
        &&& self.open_actions == if self.locked { 1nat } else { 0nat }
    }

    /// The state after a new guard took the value.
    pub open spec fn acquired(self) -> SpinState<T> {
        SpinState { locked: true, data: None, open_actions: self.open_actions + 1 }
    }

    /// The state after a guard handed `v` back.
    pub open spec fn released(self, v: T) -> SpinState<T> {
        SpinState { locked: false, data: Some(v), open_actions: (self.open_actions - 1) as nat }
    }

    /// What `try_lock` does: it succeeds exactly on a free mutex, and its guard
    /// carries the value that the mutex held.
    pub open spec fn try_lock_post(self, r: Option<T>, post: SpinState<T>) -> bool {
        if self.locked {
            r is None && post == self
        } else {
            r == self.data && post == self.acquired()
        }
    }
}

/// A mutex that waits by spinning on a flag.
pub struct SpinMutex<T, L: LockAction> {
    locked: bool,
    data: Option<T>,
    open_actions: Ghost<nat>,
    _marker: PhantomData<L>,
}

/// The exclusive claim on a [`SpinMutex`], holding the protected value.
pub struct SpinMutexGuard<T, L: LockAction> {
    data: T,
    _marker: PhantomData<L>,
}

impl<T, L: LockAction> View for SpinMutex<T, L> {
    type V = SpinState<T>;

    closed spec fn view(&self) -> SpinState<T> {
        SpinState { locked: self.locked, data: self.data, open_actions: self.open_actions@ }
    }
}

impl<T, L: LockAction> SpinMutexGuard<T, L> {
    /// The value that the guard holds.
    pub closed spec fn value(self) -> T {
        self.data
    }

    /// Reads the protected value.
    pub fn deref(&self) -> (r: &T)
        ensures
            *r == self.value(),
    {
        &self.data
    }

    /// Gives mutable access to the protected value.
    pub fn deref_mut(&mut self) -> (r: &mut T)
        ensures
            *r == old(self).value(),
            final(self).value() == *final(r),
    {
        &mut self.data
    }
}

impl<T: Default, L: LockAction> Default for SpinMutex<T, L> {
    /// A free mutex holding `T`'s default value.
    fn default() -> (r: Self)
        ensures
            r@.wf(),
            r@ == (SpinState { locked: false, data: r@.data, open_actions: 0 }),
            call_ensures(T::default, (), r@.data->0),
    {
        SpinMutex::new(T::default())
    }
}

impl<T, L: LockAction> From<T> for SpinMutex<T, L> {
    /// A free mutex holding `v`, as [`SpinMutex::new`] makes it.
    fn from(v: T) -> (r: Self) {
        SpinMutex { locked: false, data: Some(v), open_actions: Ghost(0), _marker: PhantomData }
    }
}

impl<T, L: LockAction> vstd::std_specs::convert::FromSpecImpl<T> for SpinMutex<T, L> {
    open spec fn obeys_from_spec() -> bool {
        true
    }

    closed spec fn from_spec(v: T) -> Self {
        SpinMutex { locked: false, data: Some(v), open_actions: Ghost(0), _marker: PhantomData }
    }
}

impl<T, L: LockAction> SpinMutex<T, L> {
    /// What `From` makes of `v`: a free mutex holding it.
    pub proof fn lemma_from(v: T)
        ensures
            <Self as vstd::std_specs::convert::FromSpec<T>>::from_spec(v)@ == (SpinState {
                locked: false,
                data: Some(v),
                open_actions: 0,
            }),
    {
    }
}

impl<T, L: LockAction> SpinMutex<T, L> {
    /// Creates a free mutex that holds `data`.
    pub fn new(data: T) -> (r: Self)
        ensures
            r@ == (SpinState { locked: false, data: Some(data), open_actions: 0 }),
    {
        SpinMutex { locked: false, data: Some(data), open_actions: Ghost(0), _marker: PhantomData }
    }

    /// Consumes a free mutex and returns the value it holds.
    pub fn into_inner(self) -> (r: T)
        requires
            self@.wf(),
            !self@.locked,
        ensures
            self@.data == Some(r),
    {
        self.data.unwrap()
    }

    /// One compare-and-set of the flag from `false` to `true`; true when it was set.
    fn compare_exchange(&mut self) -> (set: bool)
        ensures
            set == !old(self).locked,
            final(self).locked,
            final(self).data == old(self).data,
            final(self).open_actions == old(self).open_actions,
    {
        if self.locked {
            false
        } else {
            self.locked = true;
            true
        }
    }

    /// Calls `before_lock` and counts it as open.
    fn enter(&mut self)
        ensures
            final(self).locked == old(self).locked,
            final(self).data == old(self).data,
            final(self).open_actions@ == old(self).open_actions@ + 1,
    {
        L::before_lock();
        self.open_actions = Ghost(self.open_actions@ + 1);
    }

    /// Calls `after_lock` and closes one open hook.
    fn leave(&mut self)
        requires
            old(self).open_actions@ > 0,
        ensures
            final(self).locked == old(self).locked,
            final(self).data == old(self).data,
            final(self).open_actions@ == old(self).open_actions@ - 1,
    {
        L::after_lock();
        self.open_actions = Ghost((self.open_actions@ - 1) as nat);
    }

    /// Acquires a free mutex: the guard takes the value.
    ///
    /// On a held mutex the flag would never turn, since only the holder clears
    /// it; that call is left out.
    pub fn lock(&mut self) -> (g: SpinMutexGuard<T, L>)
        requires
            old(self)@.wf(),
            !old(self)@.locked,
        ensures
            final(self)@.wf(),
            final(self)@ == old(self)@.acquired(),
            old(self)@.data == Some(g.value()),
    {
        self.enter();
        let set = self.compare_exchange();
        assert(set);
        SpinMutexGuard { data: self.data.take().unwrap(), _marker: PhantomData }
    }

    /// One attempt to acquire the mutex; on a held mutex it calls
    /// `after_lock` at once and returns `None`.
    pub fn try_lock(&mut self) -> (r: Option<SpinMutexGuard<T, L>>)
        requires
            old(self)@.wf(),
        ensures
            final(self)@.wf(),
            old(self)@.try_lock_post(
                match r {
                    Some(g) => Some(g.value()),
                    None => None,
                },
                final(self)@,
            ),
    {
        self.enter();
        if self.compare_exchange() {
            Some(SpinMutexGuard { data: self.data.take().unwrap(), _marker: PhantomData })
        } else {
            self.leave();
            None
        }
    }

    /// Hands a guard back: the value returns, the flag clears, and
    /// `after_lock` runs.
    pub fn unlock(&mut self, guard: SpinMutexGuard<T, L>)
        requires
            old(self)@.wf(),
            old(self)@.locked,
        ensures
            final(self)@.wf(),
            final(self)@ == old(self)@.released(guard.value()),
    {
        self.data = Some(guard.data);
        self.locked = false;
        self.leave();
    }

    /// Mutable access to the value of a free mutex, without touching the flag.
    pub fn get_mut(&mut self) -> (r: &mut T)
        requires
            old(self)@.wf(),
            !old(self)@.locked,
        ensures
            old(self)@.data == Some(*r),
            final(self)@ == (SpinState { data: Some(*final(r)), ..old(self)@ }),
    {
        self.data.as_mut().unwrap()
    }

    /// Whether the mutex is held at this instant.
    pub fn is_locked(&self) -> (r: bool)
        ensures
            r == self@.locked,
    {
        self.locked
    }
}

/// One cycle of `lock`, an increment of the guarded counter, and `unlock`,
/// from `pre` to `post`.
pub open spec fn increment_cycle(pre: SpinState<u64>, post: SpinState<u64>) -> bool {
    &&& !pre.locked
    &&& pre.data is Some
    &&& pre.data->0 < u64::MAX
    &&& post == pre.acquired().released((pre.data->0 + 1) as u64)
}

/// Mutual exclusion: while one guard is out, a second `try_lock` fails and
/// changes nothing; once the guard is handed back, the next one succeeds and
/// receives the value that was handed back.
pub proof fn lemma_spin_exclusion<T>(
    s0: SpinState<T>,
    r1: Option<T>,
    s1: SpinState<T>,
    r2: Option<T>,
    s2: SpinState<T>,
    v: T,
    r3: Option<T>,
    s3: SpinState<T>,
)
    requires
        s0.wf(),
        !s0.locked,
        s0.try_lock_post(r1, s1),
        s1.try_lock_post(r2, s2),
    ensures
        r1 is Some,
        s1.wf(),
        r2 is None,
        s2 == s1,
        s2.released(v).wf(),
        s2.released(v).try_lock_post(r3, s3) ==> r3 == Some(v),
{
}

/// Counters converge: `n` lock-increment-unlock cycles from a free mutex
/// holding `c` leave it free and holding `c + n`.
pub proof fn lemma_increments_converge(states: Seq<SpinState<u64>>, n: nat)
    requires
        states.len() == n + 1,
        states[0].wf(),
        !states[0].locked,
        forall|i: int| 0 <= i < n ==> #[trigger] increment_cycle(states[i], states[i + 1]),
    ensures
        states[n as int].wf(),
        !states[n as int].locked,
        states[n as int].data->0 == states[0].data->0 + n,
    decreases n,
{
    if n > 0 {
        let prefix = states.subrange(0, n as int);
        assert forall|i: int| 0 <= i < n - 1 implies #[trigger] increment_cycle(
            prefix[i],
            prefix[i + 1],
        ) by {
            assert(increment_cycle(states[i], states[i + 1]));
        }
        lemma_increments_converge(prefix, (n - 1) as nat);
        let k = n - 1;
        assert(increment_cycle(states[k], states[k + 1]));
    }
}

/// Hook symmetry: a successful attempt opens exactly one hook, a failed one
/// closes its own at once, and handing a guard back closes the one it opened;
/// so a mutex with no guard out has no open hook.
pub proof fn lemma_spin_actions_balanced<T>(s: SpinState<T>, r: Option<T>, post: SpinState<T>, v: T)
    requires
        s.wf(),
        s.try_lock_post(r, post),
    ensures
        post.open_actions == s.open_actions + if r is Some {
            1nat
        } else {
            0nat
        },
        r is Some ==> post.released(v).open_actions == s.open_actions,
        !s.locked ==> s.open_actions == 0,
{
}

} // verus!
