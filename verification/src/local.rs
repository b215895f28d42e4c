//! The channel for a single thread of control: plain storage, exclusive access.

use vstd::prelude::*;
use crate::channel::Channel;
use crate::generation::{delivery, next_generation};
use crate::receiver::Receiver;
use crate::waiters::WaiterList;

verus! {

/// A broadcast channel that one cooperative scheduler drives.
///
/// `T` is the message type; every consumer gets its own copy. `W` is whatever
/// the scheduler needs to resume a suspended consumer. The channel never calls
/// into the scheduler: `announce` hands back the callbacks of the consumers to
/// resume.
pub struct LocalAnnouncement<T: Copy, W> {
    message: Option<T>,
    generation: u32,
    waiters: WaiterList<W>,
}

impl<T: Copy, W> View for LocalAnnouncement<T, W> {
    type V = Channel<T, W>;

    closed spec fn view(&self) -> Channel<T, W> {
        Channel { message: self.message, generation: self.generation, waiters: self.waiters@ }
    }
}

impl<T: Copy, W> LocalAnnouncement<T, W> {
    /// Creates a channel with an empty slot, generation zero and no waiters.
    pub fn new() -> (channel: Self)
        ensures
            channel@ == Channel::<T, W>::empty(),
    {
        LocalAnnouncement { message: None, generation: 0, waiters: WaiterList::new() }
    }

    /// Publishes `message`: advances the generation, overwrites the slot, and
    /// unlinks every waiter. Returns the resume callbacks of those waiters,
    /// oldest first, for the caller to invoke.
    pub fn announce(&mut self, message: T) -> (woken: Vec<W>)
        ensures
            final(self)@ == old(self)@.announce(message),
            woken@ == old(self)@.woken(),
    {
        self.generation = next_generation(self.generation);
        self.message = Some(message);
        self.waiters.wake_all()
    }

    /// Starts a receive operation. It will only complete with a message that
    /// is announced from now on.
    pub fn recv(&self) -> (receiver: Receiver)
        ensures
            receiver@ == self@.recv(),
    {
        Receiver::begin(self.generation)
    }

    /// Polls a receive operation of this channel.
    ///
    /// The first poll registers `callback` in the waiter list and yields
    /// nothing. Every later poll drops `callback` and yields the slot's message
    /// if the generation has reached the operation's target, nothing
    /// otherwise; it does not register again.
    pub fn poll(&mut self, receiver: &mut Receiver, callback: W) -> (taken: Option<T>)
        ensures
            final(self)@ == old(self)@.after_poll(old(receiver)@, callback),
            final(receiver)@ == old(self)@.polled(old(receiver)@),
            taken == old(self)@.taken_by(old(receiver)@),
    {
        if receiver.is_registered() {
            delivery(receiver.target_generation(), self.generation, self.message)
        } else {
            let handle = self.waiters.register(callback);
            receiver.set_waiter(handle);
            None
        }
    }

    /// Gives up a receive operation of this channel. If it still waited to be
    /// woken, its callback leaves the waiter list and is given back.
    pub fn cancel(&mut self, receiver: Receiver) -> (callback: Option<W>)
        ensures
            final(self)@ == old(self)@.cancel(receiver@),
            callback == old(self)@.reclaimed_by(receiver@),
    {
        match receiver.into_waiter() {
            Some(handle) => self.waiters.unlink(handle),
            None => None,
        }
    }

    /// The current generation.
    pub fn generation(&self) -> (generation: u32)
        ensures
            generation == self@.generation,
    {
        self.generation
    }

    /// The message in the slot, `None` before the first announce.
    pub fn latest(&self) -> (message: Option<T>)
        ensures
            message == self@.message,
    {
        self.message
    }
}

} // verus!
