//! The versioned cell behind [`crate::rculock::RcuLock`].
//!
//! The cell keeps the current version of the value and at most one successor
//! node, a writer flag, two reader tallies and the index of the tally that new
//! readers join. A writer works on a copy inside a [`Guard`]; publishing the
//! copy makes it the successor, which new readers see at once. Readers that
//! arrived before the publication keep reading the current version until
//! their tally drains; then the cleanup promotes the successor and frees its
//! node.
use vstd::prelude::*;

verus! {

/// The other tally index: 1 for 0, and 0 for 1.
pub open spec fn other(i: nat) -> nat {
    if i == 0 {
        1
    } else {
        0
    }
}

/// The state of a versioned cell at one instant.
pub struct RcuState<T> {
    /// The current version.
    pub value: T,
    /// The published successor, between a publication and its cleanup.
    pub next: Option<T>,
    /// Whether a writer holds the cell.
    pub writing: bool,
    /// The two reader tallies.
    pub borrow_count: Seq<usize>,
    /// The tally that new readers join.
    pub index: nat,
}

impl<T> RcuState<T> {
    /// Whether a successor has been published and not yet cleaned up.
    pub open spec fn published(self) -> bool {
        self.next is Some
    }

    /// What a reader that starts now sees: the successor when there is one,
    /// else the current version.
    pub open spec fn visible(self) -> T {
        match self.next {
            Some(v) => v,
            None => self.value,
        }
    }

    /// What a reader registered in tally `slot` sees. After a publication the
    /// readers of the old tally keep the current version, and those of the new
    /// one see the successor.
    pub open spec fn seen(self, slot: nat) -> T {
        if self.published() && slot == self.index {
            self.next->0
        } else {
            self.value
        }
    }

    /// The writer's own reference in tally `slot` (1 while it holds its copy).
    pub open spec fn writer_in(self, slot: nat) -> int {
        if self.writing && !self.published() && slot == self.index {
            1
        } else {
            0
        }
    }

    /// The readers registered in tally `slot`.
    pub open spec fn readers_in(self, slot: nat) -> int {
        self.borrow_count[slot as int] - self.writer_in(slot)
    }

    /// All live readers.
    pub open spec fn readers(self) -> int {
        self.readers_in(0) + self.readers_in(1)
    }

    /// Two tallies; a successor only while a writer holds the cell; before a
    /// publication the other tally is empty; the writer counts itself.
    pub open spec fn wf(self) -> bool {
        &&& self.borrow_count.len() == 2
        &&& self.index < 2
        &&& self.published() ==> self.writing
        &&& !self.published() ==> self.borrow_count[other(self.index) as int] == 0
        &&& self.borrow_count[self.index as int] >= self.writer_in(self.index)
    }

    /// No tally with a live reader changes what it sees.
    pub open spec fn keeps_snapshots(self, post: RcuState<T>) -> bool {
        forall|s: nat| s < 2 && self.readers_in(s) > 0 ==> post.seen(s) == self.seen(s)
    }

    /// The state after a reader joined the current tally.
    pub open spec fn joined(self) -> RcuState<T> {
        RcuState {
            borrow_count: self.borrow_count.update(
                self.index as int,
                (self.borrow_count[self.index as int] + 1) as usize,
            ),
            ..self
        }
    }

    /// The state after one reference left tally `slot`.
    pub open spec fn left(self, slot: nat) -> RcuState<T> {
        RcuState {
            borrow_count: self.borrow_count.update(
                slot as int,
                (self.borrow_count[slot as int] - 1) as usize,
            ),
            ..self
        }
    }

    /// The state after the writer published `w`: the successor is set, new
    /// readers move to the other tally, and the writer leaves its own.
    pub open spec fn published_with(self, w: T) -> RcuState<T> {
        RcuState { next: Some(w), index: other(self.index), ..self.left(self.index) }
    }

    /// Whether the tally of the readers from before the publication is empty.
    pub open spec fn drained(self) -> bool {
        self.borrow_count[other(self.index) as int] == 0
    }

    /// The state after the cleanup: the successor became the current
    /// version, its node is gone, and the writer flag is clear.
    pub open spec fn cleaned(self) -> RcuState<T> {
        RcuState { value: self.next->0, next: None, writing: false, ..self }
    }

    /// What releasing a writer does: publish `w`, and clean up at once when
    /// the old tally is already empty; `done` tells whether it was.
    pub open spec fn release_post(self, w: T, done: bool, post: RcuState<T>) -> bool {
        let p = self.published_with(w);
        &&& done == p.drained()
        &&& post == if done {
            p.cleaned()
        } else {
            p
        }
    }

    /// What one more look at a pending grace period does.
    pub open spec fn finish_post(self, done: bool, post: RcuState<T>) -> bool {
        &&& done == (self.published() && self.drained())
        &&& post == if done {
            self.cleaned()
        } else {
            self
        }
    }
}

impl<T: Clone> RcuState<T> {
    /// What a write attempt does. It fails exactly while another writer holds
    /// the cell. On success the writer joins the current tally, and the result
    /// pairs that tally with the writer's working copy, a clone of the
    /// visible version.
    pub open spec fn try_update_post(self, r: Option<(nat, T)>, post: RcuState<T>) -> bool {
        if self.writing {
            r is None && post == self
        } else {
            match r {
                Some((slot, w)) => {
                    &&& slot == self.index
                    &&& cloned(self.visible(), w)
                    &&& post == RcuState { writing: true, ..self.joined() }
                },
                None => false,
            }
        }
    }
}

/// A version node: a value and an optional successor.
pub struct List<T> {
    value: T,
    next: Option<Box<List<T>>>,
}

/// The shared part of a versioned cell.
pub struct Inner<T> {
    borrow_count: [usize; 2],
    current_index: usize,
    am_writing: bool,
    list: List<T>,
}

/// A versioned cell: one current version, at most one successor, and the
/// grace-period tallies.
pub struct ArcRcu<T> {
    inner: Inner<T>,
}

/// A writer's claim on an [`ArcRcu`]: the node with its working copy, and the
/// tally it joined.
pub struct Guard<T> {
    list: List<T>,
    slot: usize,
}

impl<T> Guard<T> {
    /// The working copy.
    pub closed spec fn value(self) -> T {
        self.list.value
    }

    /// The tally that the writer joined.
    pub closed spec fn slot(self) -> nat {
        self.slot as nat
    }

    /// Reads the working copy.
    pub fn deref(&self) -> (r: &T)
        ensures
            *r == self.value(),
    {
        &self.list.value
    }

    /// Gives mutable access to the working copy.
    pub fn deref_mut(&mut self) -> (r: &mut T)
        ensures
            *r == old(self).value(),
            final(self).value() == *final(r),
            final(self).slot() == old(self).slot(),
    {
        &mut self.list.value
    }
}

impl<T> View for ArcRcu<T> {
    type V = RcuState<T>;

    closed spec fn view(&self) -> RcuState<T> {
        RcuState {
            value: self.inner.list.value,
            next: match self.inner.list.next {
                Some(node) => Some(node.value),
                None => None,
            },
            writing: self.inner.am_writing,
            borrow_count: self.inner.borrow_count@,
            index: self.inner.current_index as nat,
        }
    }
}

impl<T> ArcRcu<T> {
    /// The state is well formed.
    pub open spec fn wf(&self) -> bool {
        self@.wf()
    }

    /// Creates a cell whose only version is `x`.
    pub fn new(x: T) -> (r: Self)
        ensures
            r.wf(),
            r@ == (RcuState {
                value: x,
                next: None,
                writing: false,
                borrow_count: seq![0usize, 0usize],
                index: 0,
            }),
    {
        let r = ArcRcu {
            inner: Inner {
                borrow_count: [0, 0],
                current_index: 0,
                am_writing: false,
                list: List { value: x, next: None },
            },
        };
        assert(r@.borrow_count =~= seq![0usize, 0usize]);
        r
    }

    /// The version that a reader starting now sees.
    pub fn visible(&self) -> (r: &T)
        ensures
            *r == self@.visible(),
    {
        match &self.inner.list.next {
            Some(node) => &node.value,
            None => &self.inner.list.value,
        }
    }

    /// The version that a reader registered in tally `slot` sees.
    pub fn seen(&self, slot: usize) -> (r: &T)
        requires
            self.wf(),
        ensures
            *r == self@.seen(slot as nat),
    {
        match &self.inner.list.next {
            Some(node) => {
                if slot == self.inner.current_index {
                    &node.value
                } else {
                    &self.inner.list.value
                }
            },
            None => &self.inner.list.value,
        }
    }

    /// Registers one reference in the current tally and returns its index.
    pub fn join(&mut self) -> (slot: usize)
        requires
            old(self).wf(),
            old(self)@.borrow_count[old(self)@.index as int] < usize::MAX,
        ensures
            final(self).wf(),
            slot as nat == old(self)@.index,
            final(self)@ == old(self)@.joined(),
            old(self)@.keeps_snapshots(final(self)@),
    {
        let i = self.inner.current_index;
        self.inner.borrow_count[i] = self.inner.borrow_count[i] + 1;
        assert(self@.borrow_count =~= old(self)@.joined().borrow_count);
        i
    }

    /// Removes one reader's reference from tally `slot`.
    pub fn leave(&mut self, slot: usize)
        requires
            old(self).wf(),
            slot < 2,
            old(self)@.readers_in(slot as nat) > 0,
        ensures
            final(self).wf(),
            final(self)@ == old(self)@.left(slot as nat),
            old(self)@.keeps_snapshots(final(self)@),
    {
        self.inner.borrow_count[slot] = self.inner.borrow_count[slot] - 1;
        assert(self@.borrow_count =~= old(self)@.left(slot as nat).borrow_count);
    }
}

impl<T: Clone> ArcRcu<T> {
    /// Claims the writer flag and hands out a copy of the visible version,
    /// registering the writer in the current tally; `None` while another
    /// writer holds the flag.
    pub fn try_update(&mut self) -> (r: Option<Guard<T>>)
        requires
            old(self).wf(),
            old(self)@.borrow_count[old(self)@.index as int] < usize::MAX,
        ensures
            final(self).wf(),
            old(self)@.try_update_post(
                match r {
                    Some(g) => Some((g.slot(), g.value())),
                    None => None,
                },
                final(self)@,
            ),
            old(self)@.keeps_snapshots(final(self)@),
    {
        if self.inner.am_writing {
            return None;
        }
        self.inner.am_writing = true;
        let copy = self.visible().clone();
        let i = self.inner.current_index;
        self.inner.borrow_count[i] = self.inner.borrow_count[i] + 1;
        assert(self@.borrow_count =~= old(self)@.joined().borrow_count);
        Some(Guard { list: List { value: copy, next: None }, slot: i })
    }
}

impl<T> ArcRcu<T> {
    /// Publishes a writer's copy as the successor, moves new readers to the
    /// other tally, and drops the writer's own reference.
    pub fn publish(&mut self, guard: Guard<T>)
        requires
            old(self).wf(),
            old(self)@.writing,
            !old(self)@.published(),
            guard.slot() == old(self)@.index,
        ensures
            final(self).wf(),
            final(self)@ == old(self)@.published_with(guard.value()),
            old(self)@.keeps_snapshots(final(self)@),
    {
        let Guard { list: List { value, next: _ }, slot } = guard;
        self.inner.list.next = Some(Box::new(List { value, next: None }));
        self.inner.current_index = if slot == 0 {
            1
        } else {
            0
        };
        self.inner.borrow_count[slot] = self.inner.borrow_count[slot] - 1;
        assert(self@.borrow_count =~= old(self)@.published_with(guard.value()).borrow_count);
    }

    /// Whether a successor is published.
    pub fn is_published(&self) -> (r: bool)
        ensures
            r == self@.published(),
    {
        self.inner.list.next.is_some()
    }

    /// Whether a writer holds the cell.
    pub fn is_writing(&self) -> (r: bool)
        ensures
            r == self@.writing,
    {
        self.inner.am_writing
    }

    /// Whether the readers from before the publication are all gone.
    pub fn drained(&self) -> (r: bool)
        requires
            self.wf(),
        ensures
            r == self@.drained(),
    {
        let other: usize = if self.inner.current_index == 0 {
            1
        } else {
            0
        };
        self.inner.borrow_count[other] == 0
    }

    /// Promotes the successor to the current version, frees its node and
    /// clears the writer flag. Only safe once the old tally has drained.
    pub fn clean(&mut self)
        requires
            old(self).wf(),
            old(self)@.published(),
            old(self)@.drained(),
        ensures
            final(self).wf(),
            final(self)@ == old(self)@.cleaned(),
            old(self)@.keeps_snapshots(final(self)@),
    {
        let node = self.inner.list.next.take();
        match node {
            Some(node) => {
                let List { value, next: _ } = *node;
                self.inner.list.value = value;
            },
            None => {},
        }
        self.inner.am_writing = false;
    }
}

} // verus!
