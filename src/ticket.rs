//! A ticket mutex.
//!
//! An acquirer takes the next ticket and is admitted when the ticket being
//! served reaches it; releasing serves the next ticket. Tickets are admitted
//! strictly in the order they were handed out. Both counters wrap around.
use crate::LockAction;
use core::marker::PhantomData;
use vstd::prelude::*;

verus! {

/// The ticket after `t`, wrapping around at the end of `usize`.
pub open spec fn next_of(t: usize) -> usize {
    if t == usize::MAX {
        0
    } else {
        (t + 1) as usize
    }
}

/// The state of a ticket mutex at one instant.
pub struct TicketState<T> {
    /// The next ticket to hand out.
    pub next_ticket: usize,
    /// The ticket currently admitted.
    pub next_serving: usize,
    /// The protected value, while no guard holds it.
    pub data: Option<T>,
    /// Calls of `before_lock` not yet matched by a call of `after_lock`.
    pub open_actions: nat,
}

impl<T> TicketState<T> {
    /// Whether a ticket has been handed out and not yet served.
    pub open spec fn held(self) -> bool {
        self.next_ticket != self.next_serving
    }

    /// Free, or held by the one ticket handed out after the one served; the
    /// value is with the lock exactly when it is free; one open hook per guard.
    pub open spec fn wf(self) -> bool {
        &&& self.held() ==> self.next_ticket == next_of(self.next_serving)
        &&& self.held() <==> self.data is None
        &&& self.open_actions == if self.held() { 1nat } else { 0nat }
    }

    /// The state after the next ticket was handed out and admitted.
    pub open spec fn acquired(self) -> TicketState<T> {
        TicketState {
            next_ticket: next_of(self.next_ticket),
            data: None,
            open_actions: self.open_actions + 1,
            ..self
        }
    }

    /// What an acquisition does: the acquirer gets ticket `t`, the next one,
    /// and the value `v` that the lock held.
    pub open spec fn acquire_post(self, t: usize, v: T, post: TicketState<T>) -> bool {
        &&& t == self.next_ticket
        &&& t == self.next_serving
        &&& self.data == Some(v)
        &&& post == self.acquired()
    }

    /// What `try_lock` does: it succeeds exactly when no ticket is pending.
    pub open spec fn try_lock_post(self, r: Option<(usize, T)>, post: TicketState<T>) -> bool {
        if self.held() {
            r is None && post == self
        } else {
            match r {
                Some((t, v)) => self.acquire_post(t, v, post),
                None => false,
            }
        }
    }

    /// The state after the holder of ticket `t` handed `v` back: the ticket
    /// after `t` is served next.
    pub open spec fn released(self, t: usize, v: T) -> TicketState<T> {
        TicketState {
            next_serving: next_of(t),
            data: Some(v),
            open_actions: (self.open_actions - 1) as nat,
            ..self
        }
    }
}

/// A mutex that admits acquirers in the order of their tickets.
pub struct TicketMutex<T, L: LockAction> {
    next_ticket: usize,
    next_serving: usize,
    data: Option<T>,
    open_actions: Ghost<nat>,
    _marker: PhantomData<L>,
}

/// The exclusive claim on a [`TicketMutex`]: its ticket and the protected value.
pub struct TicketMutexGuard<T, L: LockAction> {
    ticket: usize,
    data: T,
    _marker: PhantomData<L>,
}

impl<T, L: LockAction> View for TicketMutex<T, L> {
    type V = TicketState<T>;

    closed spec fn view(&self) -> TicketState<T> {
        TicketState {
            next_ticket: self.next_ticket,
            next_serving: self.next_serving,
            data: self.data,
            open_actions: self.open_actions@,
        }
    }
}

impl<T, L: LockAction> TicketMutexGuard<T, L> {
    /// The value that the guard holds.
    pub closed spec fn value(self) -> T {
        self.data
    }

    /// The ticket under which the guard was admitted.
    pub closed spec fn ticket(self) -> usize {
        self.ticket
    }

    /// Reads the protected value.
    pub fn deref(&self) -> (r: &T)
        ensures
            *r == self.value(),
    {
        &self.data
    }

    /// Gives mutable access to the protected value.
    pub fn deref_mut(&mut self) -> (r: &mut T)
        ensures
            *r == old(self).value(),
            final(self).value() == *final(r),
            final(self).ticket() == old(self).ticket(),
    {
        &mut self.data
    }

    /// The ticket under which the guard was admitted.
    pub fn ticket_number(&self) -> (r: usize)
        ensures
            r == self.ticket(),
    {
        self.ticket
    }
}

/// The ticket after `t`, wrapping around.
fn successor(t: usize) -> (r: usize)
    ensures
        r == next_of(t),
{
    t.wrapping_add(1)
}

impl<T: Default, L: LockAction> Default for TicketMutex<T, L> {
    /// A free mutex holding `T`'s default value.
    fn default() -> (r: Self)
        ensures
            r@.wf(),
            r@ == (TicketState { next_ticket: 0, next_serving: 0, data: r@.data, open_actions: 0 }),
            call_ensures(T::default, (), r@.data->0),
    {
        TicketMutex::new(T::default())
    }
}

impl<T, L: LockAction> From<T> for TicketMutex<T, L> {
    /// A free mutex holding `v`, as [`TicketMutex::new`] makes it.
    fn from(v: T) -> (r: Self) {
        TicketMutex { next_ticket: 0, next_serving: 0, data: Some(v), open_actions: Ghost(0), _marker: PhantomData }
    }
}

impl<T, L: LockAction> vstd::std_specs::convert::FromSpecImpl<T> for TicketMutex<T, L> {
    open spec fn obeys_from_spec() -> bool {
        true
    }

    closed spec fn from_spec(v: T) -> Self {
        TicketMutex { next_ticket: 0, next_serving: 0, data: Some(v), open_actions: Ghost(0), _marker: PhantomData }
    }
}

impl<T, L: LockAction> TicketMutex<T, L> {
    /// What `From` makes of `v`: a free mutex holding it.
    pub proof fn lemma_from(v: T)
        ensures
            <Self as vstd::std_specs::convert::FromSpec<T>>::from_spec(v)@ == (TicketState {
                next_ticket: 0, next_serving: 0,
                data: Some(v),
                open_actions: 0,
            }),
    {
    }
}

impl<T, L: LockAction> TicketMutex<T, L> {
    /// Creates a free mutex that holds `data`; both counters start at zero.
    pub fn new(data: T) -> (r: Self)
        ensures
            r@ == (TicketState {
                next_ticket: 0,
                next_serving: 0,
                data: Some(data),
                open_actions: 0,
            }),
    {
        TicketMutex {
            next_ticket: 0,
            next_serving: 0,
            data: Some(data),
            open_actions: Ghost(0),
            _marker: PhantomData,
        }
    }

    /// Consumes a free mutex and returns the value it holds.
    pub fn into_inner(self) -> (r: T)
        requires
            self@.wf(),
            !self@.held(),
        ensures
            self@.data == Some(r),
    {
        self.data.unwrap()
    }

    /// Calls `before_lock` and counts it as open.
    fn enter(&mut self)
        ensures
            final(self)@ == (TicketState { open_actions: old(self)@.open_actions + 1, ..old(self)@ }),
    {
        L::before_lock();
        self.open_actions = Ghost(self.open_actions@ + 1);
    }

    /// Calls `after_lock` and closes one open hook.
    fn leave(&mut self)
        requires
            old(self).open_actions@ > 0,
        ensures
            final(self)@ == (TicketState {
                open_actions: (old(self)@.open_actions - 1) as nat,
                ..old(self)@
            }),
    {
        L::after_lock();
        self.open_actions = Ghost((self.open_actions@ - 1) as nat);
    }

    /// Hands out the next ticket.
    fn fetch_ticket(&mut self) -> (t: usize)
        ensures
            t == old(self).next_ticket,
            final(self)@ == (TicketState { next_ticket: next_of(t), ..old(self)@ }),
    {
        let t = self.next_ticket;
        self.next_ticket = successor(t);
        t
    }

    /// Takes the value for the holder of an admitted ticket.
    fn serve(&mut self, ticket: usize) -> (g: TicketMutexGuard<T, L>)
        requires
            old(self).data is Some,
        ensures
            g.ticket() == ticket,
            Some(g.value()) == old(self).data,
            final(self)@ == (TicketState { data: None, ..old(self)@ }),
    {
        TicketMutexGuard { ticket, data: self.data.take().unwrap(), _marker: PhantomData }
    }

    /// Acquires a free mutex under the next ticket.
    ///
    /// On a held mutex the acquirer would wait for a ticket that only the
    /// holder can serve; that call is left out.
    pub fn lock(&mut self) -> (g: TicketMutexGuard<T, L>)
        requires
            old(self)@.wf(),
            !old(self)@.held(),
        ensures
            final(self)@.wf(),
            old(self)@.acquire_post(g.ticket(), g.value(), final(self)@),
    {
        self.enter();
        let ticket = self.fetch_ticket();
        assert(self.next_serving == ticket);
        self.serve(ticket)
    }

    /// One attempt to acquire: a ticket is taken only when it would be
    /// served at once. Otherwise `after_lock` runs and the result is `None`.
    pub fn try_lock(&mut self) -> (r: Option<TicketMutexGuard<T, L>>)
        requires
            old(self)@.wf(),
        ensures
            final(self)@.wf(),
            old(self)@.try_lock_post(
                match r {
                    Some(g) => Some((g.ticket(), g.value())),
                    None => None,
                },
                final(self)@,
            ),
    {
        self.enter();
        if self.next_serving == self.next_ticket {
            let ticket = self.fetch_ticket();
            Some(self.serve(ticket))
        } else {
            self.leave();
            None
        }
    }

    /// Hands the guard back: the value returns, the next ticket is served,
    /// and `after_lock` runs.
    pub fn unlock(&mut self, guard: TicketMutexGuard<T, L>)
        requires
            old(self)@.wf(),
            old(self)@.held(),
            guard.ticket() == old(self)@.next_serving,
        ensures
            final(self)@.wf(),
            final(self)@ == old(self)@.released(guard.ticket(), guard.value()),
    {
        let TicketMutexGuard { ticket, data, _marker } = guard;
        self.data = Some(data);
        self.next_serving = successor(ticket);
        self.leave();
    }

    /// Mutable access to the value of a free mutex, without touching the
    /// counters.
    pub fn get_mut(&mut self) -> (r: &mut T)
        requires
            old(self)@.wf(),
            !old(self)@.held(),
        ensures
            old(self)@.data == Some(*r),
            final(self)@ == (TicketState { data: Some(*final(r)), ..old(self)@ }),
    {
        self.data.as_mut().unwrap()
    }

    /// Whether a ticket is pending at this instant.
    pub fn is_locked(&self) -> (r: bool)
        ensures
            r == self@.held(),
    {
        self.next_serving != self.next_ticket
    }
}

/// First come, first served: while the holder of ticket `a` has its guard,
/// no other acquisition succeeds; once it hands the guard back, the next
/// acquirer is admitted under the ticket right after `a`.
pub proof fn lemma_ticket_fifo<T>(
    s0: TicketState<T>,
    a: usize,
    v0: T,
    s1: TicketState<T>,
    r: Option<(usize, T)>,
    s2: TicketState<T>,
    v1: T,
    s3: TicketState<T>,
    b: usize,
    v2: T,
    s4: TicketState<T>,
)
    requires
        s0.wf(),
        s0.acquire_post(a, v0, s1),
        s1.try_lock_post(r, s2),
        s3 == s2.released(a, v1),
        s3.acquire_post(b, v2, s4),
    ensures
        r is None,
        s2 == s1,
        s1.wf(),
        s3.wf(),
        b == next_of(a),
        v2 == v1,
{
}

/// Hook symmetry: a successful attempt opens exactly one hook, a failed one
/// closes its own at once, and handing the guard back closes the one it
/// opened; so a mutex with no ticket pending has no open hook.
pub proof fn lemma_ticket_actions_balanced<T>(
    s: TicketState<T>,
    r: Option<(usize, T)>,
    post: TicketState<T>,
    v: T,
)
    requires
        s.wf(),
        s.try_lock_post(r, post),
    ensures
        post.open_actions == s.open_actions + if r is Some {
            1nat
        } else {
            0nat
        },
        r matches Some((t, _)) ==> post.released(t, v).open_actions == s.open_actions,
        !s.held() ==> s.open_actions == 0,
{
}

} // verus!
