//! The list of waiting consumers.
//!
//! A consumer that suspends leaves a resume callback in the list and keeps a
//! handle to its entry. Waking takes every callback out at once; a consumer
//! that gives up before it was woken takes its own callback back with its
//! handle. Entries live in a table that the list owns, and a handle is the
//! entry's position together with the round in which it was handed out, so a
//! handle that outlived its entry names nothing and can do no harm.

use vstd::prelude::*;

verus! {

/// The identity of one registration: the round of the list in which it was
/// made, and its position among the registrations of that round.
pub struct WaiterId {
    pub round: nat,
    pub index: nat,
}

/// The mathematical state of a waiter list.
///
/// `entries` holds the registrations of the current round in the order in
/// which they were made; an entry is `None` once its callback was taken out.
pub struct Waiters<W> {
    pub round: nat,
    pub entries: Seq<Option<W>>,
}

/// The callbacks that `entries` still holds, in order.
pub open spec fn present<W>(entries: Seq<Option<W>>) -> Seq<W>
    decreases entries.len(),
{
    if entries.len() == 0 {
        Seq::empty()
    } else {
        let earlier = present(entries.drop_last());
        match entries.last() {
            Some(callback) => earlier.push(callback),
            None => earlier,
        }
    }
}

impl<W> Waiters<W> {
    /// The list before any registration.
    pub open spec fn empty() -> Self {
        Waiters { round: 0, entries: Seq::empty() }
    }

    /// Whether `id` names a registration whose callback is still in the list.
    pub open spec fn linked(self, id: WaiterId) -> bool {
        &&& id.round == self.round
        &&& id.index < self.entries.len()
        &&& self.entries[id.index as int] is Some
    }

    /// The callback of a linked registration.
    pub open spec fn callback(self, id: WaiterId) -> W
        recommends
            self.linked(id),
    {
        self.entries[id.index as int]->0
    }

    /// Whether `id` was handed out by a registration at some point in the past.
    pub open spec fn issued(self, id: WaiterId) -> bool {
        id.round < self.round || (id.round == self.round && id.index < self.entries.len())
    }

    /// The identity that the next registration receives.
    pub open spec fn next_id(self) -> WaiterId {
        WaiterId { round: self.round, index: self.entries.len() }
    }

    /// The callbacks of all linked registrations, oldest first.
    pub open spec fn pending(self) -> Seq<W> {
        present(self.entries)
    }

    /// The list after `callback` was registered under `self.next_id()`.
    pub open spec fn register(self, callback: W) -> Self {
        Waiters { round: self.round, entries: self.entries.push(Some(callback)) }
    }

    /// The list after the registration `id` was taken back. A handle that is
    /// not linked changes nothing.
    pub open spec fn unlink(self, id: WaiterId) -> Self {
        if self.linked(id) {
            Waiters { round: self.round, entries: self.entries.update(id.index as int, None) }
        } else {
            self
        }
    }

    /// The list after all callbacks were taken out.
    ///
    /// A new round begins with an empty table. In the last round that a `u64`
    /// can count the table is kept and only emptied entry by entry, so that no
    /// identity is ever handed out twice.
    pub open spec fn wake_all(self) -> Self {
        if self.round < u64::MAX {
            Waiters { round: self.round + 1, entries: Seq::empty() }
        } else {
            Waiters {
                round: self.round,
                entries: Seq::new(self.entries.len(), |i: int| None::<W>),
            }
        }
    }
}

/// One step in the life of a waiter list.
pub enum WaiterOp<W> {
    /// A consumer registers this callback.
    Register(W),
    /// The holder of this identity takes its registration back.
    Unlink(WaiterId),
    /// All waiters are woken.
    WakeAll,
}

impl<W> Waiters<W> {
    /// Where the callback of the linked registration `id` stands in
    /// `self.pending()`: the number of linked registrations older than it.
    pub open spec fn position(self, id: WaiterId) -> nat
        recommends
            self.linked(id),
    {
        present(self.entries.subrange(0, id.index as int)).len()
    }

    /// The list after one step.
    pub open spec fn apply(self, op: WaiterOp<W>) -> Self {
        match op {
            WaiterOp::Register(callback) => self.register(callback),
            WaiterOp::Unlink(id) => self.unlink(id),
            WaiterOp::WakeAll => self.wake_all(),
        }
    }

    /// The list after the steps `ops`, first to last.
    pub open spec fn apply_all(self, ops: Seq<WaiterOp<W>>) -> Self
        decreases ops.len(),
    {
        if ops.len() == 0 {
            self
        } else {
            self.apply_all(ops.drop_last()).apply(ops.last())
        }
    }
}

/// Appending an entry appends its callback, if it has one, to the callbacks
/// present.
pub proof fn lemma_present_push<W>(entries: Seq<Option<W>>, entry: Option<W>)
    ensures
        present(entries.push(entry)) == match entry {
            Some(callback) => present(entries).push(callback),
            None => present(entries),
        },
{
    assert(entries.push(entry).drop_last() =~= entries);
}

/// The callbacks present in a table are those of any front part followed by
/// those of the rest.
pub proof fn lemma_present_split<W>(entries: Seq<Option<W>>, at: int)
    requires
        0 <= at <= entries.len(),
    ensures
        present(entries) == present(entries.subrange(0, at)) + present(
            entries.subrange(at, entries.len() as int),
        ),
    decreases entries.len(),
{
    let len = entries.len() as int;
    if at == len {
        assert(entries.subrange(0, at) =~= entries);
        assert(entries.subrange(at, len) =~= Seq::<Option<W>>::empty());
        assert(present(entries) + Seq::<W>::empty() =~= present(entries));
    } else {
        let front = entries.drop_last();
        lemma_present_split(front, at);
        assert(front.subrange(0, at) =~= entries.subrange(0, at));
        assert(front.subrange(at, len - 1) =~= entries.subrange(at, len).drop_last());
        let head = present(entries.subrange(0, at));
        let middle = present(front.subrange(at, len - 1));
        assert(entries.subrange(at, len).last() == entries.last());
        match entries.last() {
            Some(callback) => {
                assert((head + middle).push(callback) =~= head + middle.push(callback));
            },
            None => {},
        }
    }
}

/// A table without callbacks has none present.
pub proof fn lemma_present_of_vacant<W>(entries: Seq<Option<W>>)
    requires
        forall|i: int| 0 <= i < entries.len() ==> entries[i] is None,
    ensures
        present(entries) == Seq::<W>::empty(),
    decreases entries.len(),
{
    if entries.len() > 0 {
        lemma_present_of_vacant(entries.drop_last());
    }
}

impl<W> Waiters<W> {
    /// Registering links the new identity, which no one held before, appends
    /// its callback to the pending ones, and leaves every other registration as
    /// it was.
    pub proof fn lemma_register(self, callback: W)
        ensures
            !self.issued(self.next_id()),
            self.register(callback).linked(self.next_id()),
            self.register(callback).callback(self.next_id()) == callback,
            self.register(callback).pending() == self.pending().push(callback),
            forall|id: WaiterId|
                id != self.next_id() ==> self.register(callback).linked(id) == self.linked(id),
            forall|id: WaiterId|
                self.linked(id) ==> self.register(callback).callback(id) == self.callback(id),
    {
        lemma_present_push(self.entries, Some(callback));
    }

    /// Every linked registration has its callback among the pending ones, at
    /// its position.
    pub proof fn lemma_pending_holds_linked(self, id: WaiterId)
        requires
            self.linked(id),
        ensures
            self.position(id) < self.pending().len(),
            self.pending()[self.position(id) as int] == self.callback(id),
    {
        let at = id.index as int;
        let len = self.entries.len() as int;
        lemma_present_split(self.entries, at + 1);
        assert(self.entries.subrange(0, at + 1).drop_last() =~= self.entries.subrange(0, at));
    }

    /// Unlinking a linked registration removes exactly its callback from the
    /// pending ones; the registration is then no longer linked, and all others
    /// are as before.
    pub proof fn lemma_unlink(self, id: WaiterId)
        requires
            self.linked(id),
        ensures
            !self.unlink(id).linked(id),
            self.unlink(id).pending() == self.pending().remove(self.position(id) as int),
            forall|other: WaiterId|
                other != id ==> self.unlink(id).linked(other) == self.linked(other),
            forall|other: WaiterId|
                other != id && self.linked(other) ==> self.unlink(id).callback(other)
                    == self.callback(other),
    {
        let at = id.index as int;
        let len = self.entries.len() as int;
        let after = self.unlink(id).entries;
        lemma_present_split(self.entries, at + 1);
        lemma_present_split(after, at + 1);
        assert(self.entries.subrange(0, at + 1).drop_last() =~= self.entries.subrange(0, at));
        assert(after.subrange(0, at + 1).drop_last() =~= self.entries.subrange(0, at));
        assert(after.subrange(at + 1, len) =~= self.entries.subrange(at + 1, len));
        let head = present(self.entries.subrange(0, at));
        let tail = present(self.entries.subrange(at + 1, len));
        assert((head.push(self.callback(id)) + tail).remove(head.len() as int) =~= head + tail);
    }

    /// Waking leaves no registration linked and no callback pending.
    pub proof fn lemma_wake_all(self)
        ensures
            forall|id: WaiterId| !self.wake_all().linked(id),
            self.wake_all().pending() == Seq::<W>::empty(),
    {
        lemma_present_of_vacant(self.wake_all().entries);
    }

    /// A step never forgets an identity that was handed out, and it links no
    /// identity that was handed out before and is not linked now. So a
    /// registration that was woken or taken back stays out of the list.
    pub proof fn lemma_step_keeps_retired(self, op: WaiterOp<W>, id: WaiterId)
        requires
            self.issued(id),
        ensures
            self.apply(op).issued(id),
            !self.linked(id) ==> !self.apply(op).linked(id),
    {
    }

    /// Whatever happens to the list afterwards, a registration that was woken
    /// or taken back is never linked again: no later waking hands out a
    /// callback for it.
    pub proof fn lemma_retired_forever(self, ops: Seq<WaiterOp<W>>, id: WaiterId)
        requires
            self.issued(id),
            !self.linked(id),
        ensures
            self.apply_all(ops).issued(id),
            !self.apply_all(ops).linked(id),
        decreases ops.len(),
    {
        if ops.len() > 0 {
            self.lemma_retired_forever(ops.drop_last(), id);
            self.apply_all(ops.drop_last()).lemma_step_keeps_retired(ops.last(), id);
        }
    }
}

/// A consumer's handle to its registration. It cannot be copied: whoever holds
/// it owns the registration.
pub struct WaiterHandle {
    round: u64,
    index: usize,
}

impl View for WaiterHandle {
    type V = WaiterId;

    closed spec fn view(&self) -> WaiterId {
        WaiterId { round: self.round as nat, index: self.index as nat }
    }
}

/// The waiter list: a table of resume callbacks of type `W`.
///
/// The place of a waiter that was taken back stays empty until the next
/// waking, which starts a new table.
pub struct WaiterList<W> {
    round: u64,
    entries: Vec<Option<W>>,
}

impl<W> View for WaiterList<W> {
    type V = Waiters<W>;

    closed spec fn view(&self) -> Waiters<W> {
        Waiters { round: self.round as nat, entries: self.entries@ }
    }
}

impl<W> WaiterList<W> {
    /// Creates a list without registrations.
    pub fn new() -> (list: Self)
        ensures
            list@ == Waiters::<W>::empty(),
    {
        WaiterList { round: 0, entries: Vec::new() }
    }

    /// Links a new waiter with its resume callback and returns the handle to it.
    pub fn register(&mut self, callback: W) -> (handle: WaiterHandle)
        ensures
            final(self)@ == old(self)@.register(callback),
            handle@ == old(self)@.next_id(),
    {
        let handle = WaiterHandle { round: self.round, index: self.entries.len() };
        self.entries.push(Some(callback));
        handle
    }

    /// Tells whether the registration behind `handle` still waits to be woken.
    pub fn is_linked(&self, handle: &WaiterHandle) -> (linked: bool)
        ensures
            linked == self@.linked(handle@),
    {
        handle.round == self.round && handle.index < self.entries.len()
            && self.entries[handle.index].is_some()
    }

    /// Takes the registration behind `handle` out of the list and gives its
    /// callback back. Returns `None`, and changes nothing, when the waiter was
    /// woken or unlinked before.
    pub fn unlink(&mut self, handle: WaiterHandle) -> (callback: Option<W>)
        ensures
            final(self)@ == old(self)@.unlink(handle@),
            callback == if old(self)@.linked(handle@) {
                Some(old(self)@.callback(handle@))
            } else {
                None
            },
    {
        if handle.round == self.round && handle.index < self.entries.len() {
            let taken = self.entries[handle.index].take();
            assert(self.entries@ =~= old(self).entries@.update(handle.index as int, None));
            assert(taken is None ==> self.entries@ =~= old(self).entries@);
            taken
        } else {
            None
        }
    }

    /// Takes every callback out of the list, oldest first, and leaves the list
    /// without linked waiters. The caller resumes each consumer by invoking its
    /// callback once.
    pub fn wake_all(&mut self) -> (woken: Vec<W>)
        ensures
            final(self)@ == old(self)@.wake_all(),
            woken@ == old(self)@.pending(),
    {
        let ghost start = self.entries@;
        let count = self.entries.len();
        let mut woken: Vec<W> = Vec::new();
        let mut i: usize = 0;
        while i < count
            invariant
                i <= count,
                count == start.len(),
                self.entries@.len() == count,
                self.round == old(self).round,
                forall|j: int| 0 <= j < i ==> self.entries@[j] is None,
                forall|j: int| i <= j < count ==> self.entries@[j] == start[j],
                woken@ == present(start.subrange(0, i as int)),
            decreases count - i,
        {
            let taken = self.entries[i].take();
            proof {
                assert(start.subrange(0, i + 1).drop_last() =~= start.subrange(0, i as int));
            }
            if let Some(callback) = taken {
                woken.push(callback);
            }
            i += 1;
        }
        proof {
            assert(start.subrange(0, count as int) =~= start);
        }
        if self.round < u64::MAX {
            self.round += 1;
            self.entries.clear();
        } else {
            assert(self.entries@ =~= Seq::new(start.len(), |i: int| None::<W>));
        }
        woken
    }
}

} // verus!
