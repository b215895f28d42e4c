//! The channel for many threads: the slot and the counter are atomic, the
//! waiter list sits behind a lock.

use vstd::prelude::*;
use vstd::rwlock::{RwLock, RwLockPredicate};
use atomic::Atomic;
use core::sync::atomic::{AtomicU32, Ordering};
use core::task::Waker;
use crate::generation::delivery;
use crate::receiver::Receiver;
use crate::slot::{load_relaxed, store_relaxed};
use crate::waiters::WaiterList;
use crate::wake::wake_each;

verus! {

/// What the lock around the waiter list admits: every list.
pub(crate) struct AnyList;

impl RwLockPredicate<WaiterList<Waker>> for AnyList {
    open spec fn inv(self, list: WaiterList<Waker>) -> bool {
        true
    }
}

/// A broadcast channel with a single slot, for any number of producers and
/// consumers on any number of threads.
///
/// Announcing never waits. Receiving waits for a message announced after the
/// receive operation began; if several are announced before the consumer looks,
/// it gets the latest and misses the others.
///
/// The counter and the slot are read and written with relaxed ordering, each on
/// its own. What one thread reads depends on what others wrote, so the
/// contracts below speak only of the receive operation that the caller holds.
/// The rule by which a poll decides is [`crate::generation::delivery`].
#[verifier::reject_recursive_types(T)]
pub struct Announcement<T: Copy> {
    message: Atomic<Option<T>>,
    waiters: RwLock<WaiterList<Waker>, AnyList>,
    generation: AtomicU32,
}

impl<T: Copy> Announcement<T> {
    /// Creates a channel with an empty slot, generation zero and no waiters.
    pub fn new() -> Announcement<T> {
        Announcement {
            message: Atomic::new(None),
            waiters: RwLock::new(WaiterList::new(), Ghost(AnyList)),
            generation: AtomicU32::new(0),
        }
    }

    /// Publishes `message`: advances the generation, then overwrites the slot,
    /// then empties the waiter list and wakes every consumer that was in it.
    ///
    /// The list is emptied under its lock and the wakers are invoked after the
    /// lock was released, so a waker may call back into the channel.
    pub fn announce(&self, message: T) {
        self.generation.fetch_add(1, Ordering::Relaxed);
        store_relaxed(&self.message, Some(message));
        let (mut list, guard) = self.waiters.acquire_write();
        let woken = list.wake_all();
        guard.release_write(list);
        wake_each(woken);
    }

    /// Starts a receive operation. Its target is the generation after the one
    /// that the counter shows now, so it will only complete with a message that
    /// is announced from now on.
    pub fn recv(&self) -> (receiver: Receiver)
        ensures
            receiver@.waiter is None,
    {
        Receiver::begin(self.generation.load(Ordering::Relaxed))
    }

    /// Polls a receive operation of this channel.
    ///
    /// The first poll registers a clone of `waker` in the waiter list and
    /// yields nothing. Every later poll reads the counter and the slot and
    /// yields what [`crate::generation::delivery`] makes of them; it does not
    /// register again.
    pub fn poll(&self, receiver: &mut Receiver, waker: &Waker) -> (taken: Option<T>)
        ensures
            final(receiver)@.target == old(receiver)@.target,
            final(receiver)@.waiter is Some,
            old(receiver)@.waiter is Some ==> final(receiver)@ == old(receiver)@,
            old(receiver)@.waiter is None ==> taken is None,
    {
        if receiver.is_registered() {
            let generation = self.generation.load(Ordering::Relaxed);
            let message = load_relaxed(&self.message);
            delivery(receiver.target_generation(), generation, message)
        } else {
            let callback = waker.clone();
            let (mut list, guard) = self.waiters.acquire_write();
            let handle = list.register(callback);
            guard.release_write(list);
            receiver.set_waiter(handle);
            None
        }
    }

    /// Gives up a receive operation of this channel. If it still waited to be
    /// woken, its waker leaves the list and will not be invoked.
    pub fn cancel(&self, receiver: Receiver) {
        match receiver.into_waiter() {
            Some(handle) => {
                let (mut list, guard) = self.waiters.acquire_write();
                let reclaimed = list.unlink(handle);
                guard.release_write(list);
                let _ = reclaimed;
            },
            None => {},
        }
    }
}

} // verus!
